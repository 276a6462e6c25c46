//! Directory walking, pattern filtering, and snapshot collection.
//!
//! `ls` walks the directory once under a guard and records the indices of
//! the entries it retains; the indices stay meaningful while the epoch
//! captured at that time is unchanged.  `dump` re-reads the retained
//! indices under a fresh guard and decodes them.

use vstd::prelude::*;
use crate::access::StatSegmentAccess;
use crate::data::{entries_view, StatEntryModel, StatSegmentData, StatValueModel, VppStatData};
use crate::decode::{spec_dir_ok, spec_entry_model};
use crate::patterns::{name_matches, pats_of, spec_name_matches};
use crate::segment::{
    bytes_to_string, entry_in_bounds, entry_name_bytes, entry_tag, read_entry_name,
    read_entry_tag, spec_vec_len, utf8_decode, vec_len, ENTRY_SIZE, STAT_DIR_TYPE_EMPTY,
    VEC_HEADER_SIZE,
};
use crate::VppStatDumpError;

verus! {

/// The pattern semantics of an `ls` call: no patterns (or an empty list)
/// accepts every non-empty entry; otherwise an entry is accepted when any
/// pattern matches its name.
pub open spec fn spec_patterns(regexes: Seq<regex::Regex>, match_all: bool) -> Option<
    Seq<Seq<char>>,
> {
    if match_all || regexes.len() == 0 {
        None
    } else {
        Some(pats_of(regexes))
    }
}

/// Directory entry `i` is retained by `ls`: it lies in the segment, its tag
/// is not EMPTY, and — when patterns were given — its name decodes as UTF-8
/// and matches one of them.
pub open spec fn spec_retained(mem: Seq<u8>, dir_off: int, i: int, pats: Option<Seq<Seq<char>>>) -> bool {
    let off = dir_off + ENTRY_SIZE * i;
    &&& entry_in_bounds(mem, off)
    &&& entry_tag(mem, off) != STAT_DIR_TYPE_EMPTY
    &&& match pats {
        None => true,
        Some(ps) => match utf8_decode(entry_name_bytes(mem, off)) {
            Some(name) => spec_name_matches(ps, name),
            None => false,
        },
    }
}

/// The indices among `0..n` that `ls` retains, in ascending order.
pub open spec fn spec_ls_indices(mem: Seq<u8>, dir_off: int, n: int, pats: Option<Seq<Seq<char>>>) -> Seq<u32>
    decreases n,
{
    if n <= 0 {
        Seq::empty()
    } else {
        let prefix = spec_ls_indices(mem, dir_off, n - 1, pats);
        if spec_retained(mem, dir_off, n - 1, pats) {
            prefix.push((n - 1) as u32)
        } else {
            prefix
        }
    }
}

/// The whole retained-index list of a directory: nothing when the directory
/// array cannot be addressed, else the retained indices among its entries.
pub open spec fn spec_ls(mem: Seq<u8>, dir_off: int, pats: Option<Seq<Seq<char>>>) -> Seq<u32> {
    if !spec_dir_ok(mem, dir_off) {
        Seq::empty()
    } else {
        spec_ls_indices(mem, dir_off, spec_vec_len(mem, dir_off) as int, pats)
    }
}

/// An empty pattern list means the same as an absent one: the filter
/// retains every non-empty entry either way.
pub proof fn lemma_empty_pattern_list(
    mem: Seq<u8>,
    dir_off: int,
    regexes: Seq<regex::Regex>,
    match_all: bool,
)
    requires
        regexes.len() == 0,
    ensures
        spec_patterns(regexes, match_all) is None,
        spec_ls(mem, dir_off, spec_patterns(regexes, match_all)) == spec_ls(mem, dir_off, None),
{
}

/// Every index the scan retains is below `n`, and the list is strictly
/// ascending.
pub proof fn lemma_ls_indices_ascending(
    mem: Seq<u8>,
    dir_off: int,
    n: int,
    pats: Option<Seq<Seq<char>>>,
)
    requires
        n <= u32::MAX + 1,
    ensures
        forall|a: int|
            0 <= a < spec_ls_indices(mem, dir_off, n, pats).len()
                ==> #[trigger] spec_ls_indices(mem, dir_off, n, pats)[a] < n,
        forall|a: int, b: int|
            0 <= a < b < spec_ls_indices(mem, dir_off, n, pats).len()
                ==> #[trigger] spec_ls_indices(mem, dir_off, n, pats)[a]
                < #[trigger] spec_ls_indices(mem, dir_off, n, pats)[b],
    decreases n,
{
    if n > 0 {
        lemma_ls_indices_ascending(mem, dir_off, n - 1, pats);
        let prev = spec_ls_indices(mem, dir_off, n - 1, pats);
        let cur = spec_ls_indices(mem, dir_off, n, pats);
        if spec_retained(mem, dir_off, n - 1, pats) {
            assert(cur == prev.push((n - 1) as u32));
            assert forall|a: int| 0 <= a < cur.len() implies #[trigger] cur[a] < n by {
                if a < prev.len() {
                    assert(cur[a] == prev[a]);
                    assert(prev[a] < n - 1);
                } else {
                    assert(cur[a] == (n - 1) as u32);
                }
            }
            assert forall|a: int, b: int| 0 <= a < b < cur.len() implies #[trigger] cur[a]
                < #[trigger] cur[b] by {
                assert(cur[a] == prev[a]);
                if b < prev.len() {
                    assert(cur[b] == prev[b]);
                } else {
                    assert(cur[b] == (n - 1) as u32);
                    assert(prev[a] < n - 1);
                }
            }
        } else {
            assert(cur == prev);
            assert forall|a: int| 0 <= a < cur.len() implies #[trigger] cur[a] < n by {
                assert(prev[a] < n - 1);
            }
        }
    }
}

/// Walks the directory captured by the guard on this view of the segment
/// and collects the retained indices, in ascending order.  `match_all`
/// stands for an absent pattern list; an empty list means the same.
pub fn ls_scan(
    mem: &[u8],
    access: &StatSegmentAccess,
    regexes: &Vec<regex::Regex>,
    match_all: bool,
) -> (r: Vec<u32>)
    ensures
        r@ == spec_ls(mem@, access.directory_vector as int, spec_patterns(regexes@, match_all)),
{
    let ghost pats = spec_patterns(regexes@, match_all);
    let dir_off: usize = access.get_directory_vector();
    let len: usize = mem.len();
    let mut out: Vec<u32> = Vec::new();
    if dir_off < VEC_HEADER_SIZE || dir_off > len {
        return out;
    }
    let n: u32 = vec_len(mem, dir_off);
    let use_patterns: bool = !match_all && regexes.len() > 0;
    let mut i: u32 = 0;
    while i < n
        invariant
            spec_dir_ok(mem@, dir_off as int),
            len == mem@.len(),
            n == spec_vec_len(mem@, dir_off as int),
            pats == spec_patterns(regexes@, match_all),
            use_patterns == (pats is Some),
            use_patterns ==> pats == Some(pats_of(regexes@)),
            0 <= i <= n,
            out@ == spec_ls_indices(mem@, dir_off as int, i as int, pats),
        decreases n - i,
    {
        let off128: u128 = dir_off as u128 + (ENTRY_SIZE as u128) * (i as u128);
        let ghost off = dir_off + ENTRY_SIZE * (i as int);
        let mut keep: bool = false;
        if off128 + (ENTRY_SIZE as u128) <= len as u128 {
            let eoff: usize = dir_off + (ENTRY_SIZE as usize) * (i as usize);
            assert(eoff as int == off);
            let tag = read_entry_tag(mem, eoff);
            if tag != STAT_DIR_TYPE_EMPTY {
                if !use_patterns {
                    keep = true;
                } else {
                    let name_bytes = read_entry_name(mem, eoff);
                    match bytes_to_string(name_bytes) {
                        Some(name) => {
                            keep = name_matches(regexes, &name);
                        },
                        None => {
                            keep = false;
                        },
                    }
                }
            }
        } else {
            assert(!entry_in_bounds(mem@, off));
        }
        assert(keep == spec_retained(mem@, dir_off as int, i as int, pats));
        if keep {
            out.push(i);
        }
        i += 1;
    }
    out
}

/// The decoded models of the retained indices, in order, skipping indices
/// whose entry does not decode and entries whose value is EMPTY.
pub open spec fn spec_dump_entries(mem: Seq<u8>, base: u64, dir_off: int, idxs: Seq<u32>) -> Seq<
    StatEntryModel,
>
    decreases idxs.len(),
{
    if idxs.len() == 0 {
        Seq::empty()
    } else {
        let rest = spec_dump_entries(mem, base, dir_off, idxs.drop_last());
        match spec_entry_model(mem, base, dir_off, idxs.last() as int) {
            Some(e) => if e.value is Empty {
                rest
            } else {
                rest.push(e)
            },
            None => rest,
        }
    }
}

/// Decodes every retained index against one view of the segment, in order.
/// Indices whose entry does not decode, and entries whose value is EMPTY,
/// are skipped.
pub fn dump_scan(mem: &[u8], access: &StatSegmentAccess, indices: &Vec<u32>) -> (r: Vec<
    StatSegmentData,
>)
    ensures
        entries_view(r@) == spec_dump_entries(
            mem@,
            access.base,
            access.directory_vector as int,
            indices@,
        ),
{
    let n: usize = indices.len();
    let mut out: Vec<StatSegmentData> = Vec::new();
    let mut k: usize = 0;
    while k < n
        invariant
            n == indices@.len(),
            0 <= k <= n,
            entries_view(out@) == spec_dump_entries(
                mem@,
                access.base,
                access.directory_vector as int,
                indices@.take(k as int),
            ),
        decreases n - k,
    {
        let ghost prefix = indices@.take(k as int);
        match StatSegmentData::from_ctype(access, mem, indices[k]) {
            Some(d) => {
                let empty = match &d.value {
                    crate::data::StatValue::Empty => true,
                    _ => false,
                };
                if !empty {
                    out.push(d);
                }
            },
            None => {},
        }
        proof {
            assert(indices@.take(k + 1).drop_last() =~= prefix);
            assert(indices@.take(k + 1).last() == indices@[k as int]);
            assert(entries_view(out@) =~= spec_dump_entries(
                mem@,
                access.base,
                access.directory_vector as int,
                indices@.take(k + 1),
            ));
        }
        k += 1;
    }
    proof {
        assert(indices@.take(n as int) =~= indices@);
    }
    out
}

/// The names of the retained indices on one view of the segment: for each
/// index in order, the entry's name, provided the index is inside the
/// directory, the entry's tag is not EMPTY, and the name decodes as UTF-8.
pub open spec fn spec_index_name(mem: Seq<u8>, dir_off: int, i: int) -> Option<Seq<char>> {
    let off = dir_off + ENTRY_SIZE * i;
    if !spec_dir_ok(mem, dir_off) || !(0 <= i < spec_vec_len(mem, dir_off) as int)
        || !entry_in_bounds(mem, off) || entry_tag(mem, off) == STAT_DIR_TYPE_EMPTY {
        None
    } else {
        utf8_decode(entry_name_bytes(mem, off))
    }
}

/// Looks up the name of directory entry `i` on this view of the segment.
pub fn index_name_scan(mem: &[u8], access: &StatSegmentAccess, i: u32) -> (r: Option<String>)
    ensures
        r is Some <==> spec_index_name(mem@, access.directory_vector as int, i as int) is Some,
        r matches Some(s) ==> Some(s@) == spec_index_name(
            mem@,
            access.directory_vector as int,
            i as int,
        ),
{
    let dir_off: usize = access.get_directory_vector();
    let len: usize = mem.len();
    if dir_off < VEC_HEADER_SIZE || dir_off > len {
        return None;
    }
    let n: u32 = vec_len(mem, dir_off);
    if i >= n {
        return None;
    }
    let off128: u128 = dir_off as u128 + (ENTRY_SIZE as u128) * (i as u128);
    if off128 + (ENTRY_SIZE as u128) > len as u128 {
        assert(!entry_in_bounds(mem@, dir_off + ENTRY_SIZE * (i as int)));
        return None;
    }
    let eoff: usize = dir_off + (ENTRY_SIZE as usize) * (i as usize);
    if read_entry_tag(mem, eoff) == STAT_DIR_TYPE_EMPTY {
        return None;
    }
    let name_bytes = read_entry_name(mem, eoff);
    bytes_to_string(name_bytes)
}

/// The defined names among the retained indices, in order.
pub open spec fn spec_names(mem: Seq<u8>, dir_off: int, idxs: Seq<u32>) -> Seq<Seq<char>>
    decreases idxs.len(),
{
    if idxs.len() == 0 {
        Seq::empty()
    } else {
        let rest = spec_names(mem, dir_off, idxs.drop_last());
        match spec_index_name(mem, dir_off, idxs.last() as int) {
            Some(name) => rest.push(name),
            None => rest,
        }
    }
}

/// Collects the names of the retained indices on one view of the segment,
/// omitting entries that are gone, have become EMPTY, or whose name does
/// not decode.
pub fn names_scan(mem: &[u8], access: &StatSegmentAccess, indices: &Vec<u32>) -> (r: Vec<String>)
    ensures
        crate::data::names_view(r@) == spec_names(
            mem@,
            access.directory_vector as int,
            indices@,
        ),
{
    let n: usize = indices.len();
    let mut out: Vec<String> = Vec::new();
    let mut k: usize = 0;
    while k < n
        invariant
            n == indices@.len(),
            0 <= k <= n,
            crate::data::names_view(out@) == spec_names(
                mem@,
                access.directory_vector as int,
                indices@.take(k as int),
            ),
        decreases n - k,
    {
        let ghost prefix = indices@.take(k as int);
        match index_name_scan(mem, access, indices[k]) {
            Some(name) => {
                out.push(name);
            },
            None => {},
        }
        proof {
            assert(indices@.take(k + 1).drop_last() =~= prefix);
            assert(indices@.take(k + 1).last() == indices@[k as int]);
            assert(crate::data::names_view(out@) =~= spec_names(
                mem@,
                access.directory_vector as int,
                indices@.take(k + 1),
            ));
        }
        k += 1;
    }
    proof {
        assert(indices@.take(n as int) =~= indices@);
    }
    out
}

/// A directory handle: the indices retained by `ls` and the epoch under
/// which they were captured.  The indices are meaningful only while the
/// producer's epoch still equals `current_epoch`.
#[derive(Debug, Clone)]
pub struct VppStatDir {
    pub dir_vec: Vec<u32>,
    pub current_epoch: u64,
}

} // verus!
