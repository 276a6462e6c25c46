//! Decoding of directory entries.
//!
//! An entry is decoded against one view of the segment: the tag selects the
//! variant, producer-space pointers are rebased, every array access is
//! bounds-checked against the mapped length, and a symlink is resolved by
//! decoding its target projected to a single element.  Decoding yields
//! nothing (rather than a partial value) whenever a pointer does not rebase,
//! an array reaches past the segment, a name is not valid UTF-8, or a tag is
//! unknown.

use vstd::prelude::*;
use crate::access::{spec_adjust, StatSegmentAccess};
use crate::data::{
    names_view, rows_view, vlib_counter_t, DataVecVec, NameVec, StatEntryModel, StatSegmentData,
    StatValue, StatValueModel,
};
use crate::segment::{
    bytes_to_string, c_str_bytes, entry_in_bounds, entry_index1, entry_index2, entry_name_bytes,
    entry_tag, entry_word, read_c_str, read_entry_indices, read_entry_name, read_entry_tag,
    read_entry_word, read_u64, spec_vec_len, u64_at, utf8_decode, vec_len, ENTRY_SIZE,
    STAT_DIR_TYPE_COUNTER_VECTOR_COMBINED, STAT_DIR_TYPE_COUNTER_VECTOR_SIMPLE,
    STAT_DIR_TYPE_EMPTY, STAT_DIR_TYPE_NAME_VECTOR,
    STAT_DIR_TYPE_SCALAR_INDEX, STAT_DIR_TYPE_SYMLINK, VEC_HEADER_SIZE,
};

verus! {

/// Rebased offset of a producer array: the array pointer must rebase into
/// the segment and leave room for the length prefix right before it.
pub open spec fn spec_adjust_vec(mem: Seq<u8>, base: u64, p: u64) -> Option<int> {
    match spec_adjust(base, mem.len() as int, p) {
        Some(off) => if off >= VEC_HEADER_SIZE as int {
            Some(off)
        } else {
            None
        },
        None => None,
    }
}

/// The row of u64 counters at producer pointer `p`: a null pointer is the
/// empty row; otherwise the pointer must rebase and all elements must lie
/// inside the segment.
pub open spec fn spec_u64_row(mem: Seq<u8>, base: u64, p: u64) -> Option<Seq<u64>> {
    if p == 0 {
        Some(Seq::empty())
    } else {
        match spec_adjust_vec(mem, base, p) {
            Some(off) => {
                let m = spec_vec_len(mem, off) as int;
                if off + 8 * m <= mem.len() {
                    Some(Seq::new(m as nat, |j: int| u64_at(mem, off + 8 * j)))
                } else {
                    None
                }
            },
            None => None,
        }
    }
}

/// The row of combined counters at producer pointer `p`: each element is
/// 16 bytes, packets first, bytes second.
pub open spec fn spec_counter_row(mem: Seq<u8>, base: u64, p: u64) -> Option<
    Seq<vlib_counter_t>,
> {
    if p == 0 {
        Some(Seq::empty())
    } else {
        match spec_adjust_vec(mem, base, p) {
            Some(off) => {
                let m = spec_vec_len(mem, off) as int;
                if off + 16 * m <= mem.len() {
                    Some(
                        Seq::new(
                            m as nat,
                            |j: int| vlib_counter_t {
                                packets: u64_at(mem, off + 16 * j),
                                bytes: u64_at(mem, off + 16 * j + 8),
                            },
                        ),
                    )
                } else {
                    None
                }
            },
            None => None,
        }
    }
}

/// The string at producer pointer `p`: a length-prefixed byte array holding
/// a NUL-terminated UTF-8 string, decoded strictly.
pub open spec fn spec_name_at(mem: Seq<u8>, base: u64, p: u64) -> Option<Seq<char>> {
    if p == 0 {
        None
    } else {
        match spec_adjust_vec(mem, base, p) {
            Some(off) => {
                let m = spec_vec_len(mem, off) as int;
                if off + m <= mem.len() {
                    utf8_decode(c_str_bytes(mem.subrange(off, off + m)))
                } else {
                    None
                }
            },
            None => None,
        }
    }
}

/// The simple counter table at producer pointer `p`: an outer array of
/// producer-space pointers, each to a row of u64 counters.
pub open spec fn spec_simple_table(mem: Seq<u8>, base: u64, p: u64) -> Option<Seq<Seq<u64>>> {
    match spec_u64_row(mem, base, p) {
        Some(ptrs) => if forall|k: int|
            0 <= k < ptrs.len() ==> #[trigger] spec_u64_row(mem, base, ptrs[k]) is Some {
            Some(Seq::new(ptrs.len(), |k: int| spec_u64_row(mem, base, ptrs[k])->Some_0))
        } else {
            None
        },
        None => None,
    }
}

/// The combined counter table at producer pointer `p`.
pub open spec fn spec_combined_table(mem: Seq<u8>, base: u64, p: u64) -> Option<
    Seq<Seq<vlib_counter_t>>,
> {
    match spec_u64_row(mem, base, p) {
        Some(ptrs) => if forall|k: int|
            0 <= k < ptrs.len() ==> #[trigger] spec_counter_row(mem, base, ptrs[k]) is Some {
            Some(Seq::new(ptrs.len(), |k: int| spec_counter_row(mem, base, ptrs[k])->Some_0))
        } else {
            None
        },
        None => None,
    }
}

/// The name vector at producer pointer `p`: an outer array of
/// producer-space pointers, each to a NUL-terminated string.
pub open spec fn spec_name_table(mem: Seq<u8>, base: u64, p: u64) -> Option<Seq<Seq<char>>> {
    match spec_u64_row(mem, base, p) {
        Some(ptrs) => if forall|k: int|
            0 <= k < ptrs.len() ==> #[trigger] spec_name_at(mem, base, ptrs[k]) is Some {
            Some(Seq::new(ptrs.len(), |k: int| spec_name_at(mem, base, ptrs[k])->Some_0))
        } else {
            None
        },
        None => None,
    }
}

/// Column `j` of a table: each row restricted to its `j`-th element.
/// Defined only when every row has such an element.
pub open spec fn spec_project<T>(t: Seq<Seq<T>>, j: int) -> Option<Seq<Seq<T>>> {
    if forall|k: int| 0 <= k < t.len() ==> 0 <= j < (#[trigger] t[k]).len() {
        Some(Seq::new(t.len(), |k: int| seq![t[k][j]]))
    } else {
        None
    }
}

/// The Option<int> reading of an exec projection index.
pub open spec fn proj_view(p: Option<u32>) -> Option<int> {
    match p {
        Some(j) => Some(j as int),
        None => None,
    }
}

/// The value of the entry at offset `off`, with `project` restricting a
/// table to one column (as when the entry is reached through a symlink).
/// Nothing when the entry is out of bounds, its tag is ILLEGAL, SYMLINK or
/// unknown, a pointer does not rebase, an array reaches past the segment,
/// or a projected column is missing from some row.  A projection is
/// ignored by a scalar and refused by a name vector or an empty entry.
pub open spec fn spec_value_model(mem: Seq<u8>, base: u64, off: int, project: Option<int>) -> Option<
    StatValueModel,
> {
    if !entry_in_bounds(mem, off) {
        None
    } else {
        let tag = entry_tag(mem, off);
        let word = entry_word(mem, off);
        if tag == STAT_DIR_TYPE_SCALAR_INDEX {
            Some(StatValueModel::Scalar(word))
        } else if tag == STAT_DIR_TYPE_COUNTER_VECTOR_SIMPLE {
            match spec_simple_table(mem, base, word) {
                Some(t) => match project {
                    Some(j) => match spec_project(t, j) {
                        Some(tp) => Some(StatValueModel::Simple(tp)),
                        None => None,
                    },
                    None => Some(StatValueModel::Simple(t)),
                },
                None => None,
            }
        } else if tag == STAT_DIR_TYPE_COUNTER_VECTOR_COMBINED {
            match spec_combined_table(mem, base, word) {
                Some(t) => match project {
                    Some(j) => match spec_project(t, j) {
                        Some(tp) => Some(StatValueModel::Combined(tp)),
                        None => None,
                    },
                    None => Some(StatValueModel::Combined(t)),
                },
                None => None,
            }
        } else if tag == STAT_DIR_TYPE_NAME_VECTOR {
            if project is Some {
                None
            } else {
                match spec_name_table(mem, base, word) {
                    Some(t) => Some(StatValueModel::Names(t)),
                    None => None,
                }
            }
        } else if tag == STAT_DIR_TYPE_EMPTY {
            if project is Some {
                None
            } else {
                Some(StatValueModel::Empty)
            }
        } else {
            None
        }
    }
}

/// The directory array at `dir_off` can be addressed: its length prefix
/// lies inside the segment.
pub open spec fn spec_dir_ok(mem: Seq<u8>, dir_off: int) -> bool {
    VEC_HEADER_SIZE as int <= dir_off <= mem.len()
}

/// The decoded model of directory entry `i`: its name (always the entry's
/// own, also for symlinks), its value, and whether it was reached through a
/// symlink.  A symlink is resolved one hop: its target is decoded projected
/// to the linked element; a symlink to a symlink yields nothing.
pub open spec fn spec_entry_model(mem: Seq<u8>, base: u64, dir_off: int, i: int) -> Option<
    StatEntryModel,
> {
    let off = dir_off + ENTRY_SIZE * i;
    if !spec_dir_ok(mem, dir_off) || !entry_in_bounds(mem, off) {
        None
    } else {
        let tag = entry_tag(mem, off);
        match utf8_decode(entry_name_bytes(mem, off)) {
            Some(name) => if tag == STAT_DIR_TYPE_SYMLINK {
                let i1 = entry_index1(mem, off) as int;
                let i2 = entry_index2(mem, off) as int;
                if 0 <= i1 < spec_vec_len(mem, dir_off) as int {
                    match spec_value_model(mem, base, dir_off + ENTRY_SIZE * i1, Some(i2)) {
                        Some(v) => Some(
                            StatEntryModel { name, value: v, via_symlink: true },
                        ),
                        None => None,
                    }
                } else {
                    None
                }
            } else {
                match spec_value_model(mem, base, off, None) {
                    Some(v) => Some(StatEntryModel { name, value: v, via_symlink: false }),
                    None => None,
                }
            },
            None => None,
        }
    }
}

/// Scalar bit-exactness: decoding a SCALAR_INDEX entry yields exactly the
/// 64-bit word stored in the entry, so every bit of the stored double,
/// NaN payloads included, survives decoding.
pub proof fn lemma_scalar_bits(mem: Seq<u8>, base: u64, dir_off: int, i: int)
    requires
        spec_dir_ok(mem, dir_off),
        entry_in_bounds(mem, dir_off + ENTRY_SIZE * i),
        entry_tag(mem, dir_off + ENTRY_SIZE * i) == STAT_DIR_TYPE_SCALAR_INDEX,
        utf8_decode(entry_name_bytes(mem, dir_off + ENTRY_SIZE * i)) is Some,
    ensures
        ({
            &&& spec_entry_model(mem, base, dir_off, i) matches Some(e)
            &&& e.value == StatValueModel::Scalar(entry_word(mem, dir_off + ENTRY_SIZE * i))
            &&& Some(e.name) == utf8_decode(entry_name_bytes(mem, dir_off + ENTRY_SIZE * i))
            &&& !e.via_symlink
        }),
{
}

/// Symlink projection: a symlink entry whose target is a combined counter
/// table of shape L x M yields a table of shape L x 1 holding column
/// `index2` of the target; its name is the symlink's own name and it is
/// marked as reached through a symlink.
pub proof fn lemma_symlink_projection(
    mem: Seq<u8>,
    base: u64,
    dir_off: int,
    i: int,
    t: Seq<Seq<vlib_counter_t>>,
)
    requires
        spec_dir_ok(mem, dir_off),
        entry_in_bounds(mem, dir_off + ENTRY_SIZE * i),
        entry_tag(mem, dir_off + ENTRY_SIZE * i) == STAT_DIR_TYPE_SYMLINK,
        utf8_decode(entry_name_bytes(mem, dir_off + ENTRY_SIZE * i)) is Some,
        0 <= entry_index1(mem, dir_off + ENTRY_SIZE * i) < spec_vec_len(mem, dir_off) as int,
        entry_in_bounds(
            mem,
            dir_off + ENTRY_SIZE * (entry_index1(mem, dir_off + ENTRY_SIZE * i) as int),
        ),
        entry_tag(
            mem,
            dir_off + ENTRY_SIZE * (entry_index1(mem, dir_off + ENTRY_SIZE * i) as int),
        ) == STAT_DIR_TYPE_COUNTER_VECTOR_COMBINED,
        Some(t) == spec_combined_table(
            mem,
            base,
            entry_word(
                mem,
                dir_off + ENTRY_SIZE * (entry_index1(mem, dir_off + ENTRY_SIZE * i) as int),
            ),
        ),
        forall|k: int|
            0 <= k < t.len() ==> entry_index2(mem, dir_off + ENTRY_SIZE * i) < (
            #[trigger] t[k]).len(),
    ensures
        ({
            &&& spec_entry_model(mem, base, dir_off, i) matches Some(e)
            &&& Some(e.name) == utf8_decode(entry_name_bytes(mem, dir_off + ENTRY_SIZE * i))
            &&& e.via_symlink
            &&& e.value matches StatValueModel::Combined(p)
            &&& p.len() == t.len()
            &&& forall|k: int|
                0 <= k < t.len() ==> #[trigger] p[k] == seq![
                    t[k][entry_index2(mem, dir_off + ENTRY_SIZE * i) as int],
                ]
        }),
{
    let off = dir_off + ENTRY_SIZE * i;
    let i1 = entry_index1(mem, off) as int;
    let j = entry_index2(mem, off) as int;
    let toff = dir_off + ENTRY_SIZE * i1;
    assert(spec_value_model(mem, base, toff, Some(j)) == Some(
        StatValueModel::Combined(spec_project(t, j)->Some_0),
    ));
}

fn adjust_vec(mem: &[u8], base: u64, p: u64) -> (r: Option<usize>)
    ensures
        r is Some <==> spec_adjust_vec(mem@, base, p) is Some,
        r matches Some(o) ==> Some(o as int) == spec_adjust_vec(mem@, base, p),
{
    let len: usize = mem.len();
    if base <= p && p - base < len as u64 {
        let off = (p - base) as usize;
        if off >= VEC_HEADER_SIZE {
            Some(off)
        } else {
            None
        }
    } else {
        None
    }
}

fn read_u64_row(mem: &[u8], base: u64, p: u64) -> (r: Option<Vec<u64>>)
    ensures
        r is Some <==> spec_u64_row(mem@, base, p) is Some,
        r matches Some(v) ==> Some(v@) == spec_u64_row(mem@, base, p),
{
    if p == 0 {
        let v: Vec<u64> = Vec::new();
        assert(v@ =~= Seq::<u64>::empty());
        return Some(v);
    }
    let off = match adjust_vec(mem, base, p) {
        Some(o) => o,
        None => {
            return None;
        },
    };
    let m: u32 = vec_len(mem, off);
    let mu: usize = m as usize;
    let len: usize = mem.len();
    if (off as u128) + 8u128 * (m as u128) > len as u128 {
        return None;
    }
    assert(off + 8 * (mu as int) <= mem@.len());
    let mut out: Vec<u64> = Vec::new();
    let mut j: usize = 0;
    while j < mu
        invariant
            0 <= j <= mu,
            off + 8 * (mu as int) <= mem@.len(),
            len == mem@.len(),
            out@.len() == j,
            forall|x: int| 0 <= x < j ==> out@[x] == u64_at(mem@, off + 8 * x),
        decreases mu - j,
    {
        let w = read_u64(mem, off + 8 * j);
        out.push(w);
        j += 1;
    }
    proof {
        assert(out@ =~= Seq::new(mu as nat, |x: int| u64_at(mem@, off + 8 * x)));
    }
    Some(out)
}

fn read_counter_row(mem: &[u8], base: u64, p: u64) -> (r: Option<Vec<vlib_counter_t>>)
    ensures
        r is Some <==> spec_counter_row(mem@, base, p) is Some,
        r matches Some(v) ==> Some(v@) == spec_counter_row(mem@, base, p),
{
    if p == 0 {
        let v: Vec<vlib_counter_t> = Vec::new();
        assert(v@ =~= Seq::<vlib_counter_t>::empty());
        return Some(v);
    }
    let off = match adjust_vec(mem, base, p) {
        Some(o) => o,
        None => {
            return None;
        },
    };
    let m: u32 = vec_len(mem, off);
    let mu: usize = m as usize;
    let len: usize = mem.len();
    if (off as u128) + 16u128 * (m as u128) > len as u128 {
        return None;
    }
    assert(off + 16 * (mu as int) <= mem@.len());
    let mut out: Vec<vlib_counter_t> = Vec::new();
    let mut j: usize = 0;
    while j < mu
        invariant
            0 <= j <= mu,
            off + 16 * (mu as int) <= mem@.len(),
            len == mem@.len(),
            out@.len() == j,
            forall|x: int| 0 <= x < j ==> out@[x] == (vlib_counter_t {
                packets: u64_at(mem@, off + 16 * x),
                bytes: u64_at(mem@, off + 16 * x + 8),
            }),
        decreases mu - j,
    {
        let c = vlib_counter_t {
            packets: read_u64(mem, off + 16 * j),
            bytes: read_u64(mem, off + 16 * j + 8),
        };
        out.push(c);
        j += 1;
    }
    proof {
        assert(out@ =~= Seq::new(
            mu as nat,
            |x: int| vlib_counter_t {
                packets: u64_at(mem@, off + 16 * x),
                bytes: u64_at(mem@, off + 16 * x + 8),
            },
        ));
    }
    Some(out)
}

fn read_name_at(mem: &[u8], base: u64, p: u64) -> (r: Option<String>)
    ensures
        r is Some <==> spec_name_at(mem@, base, p) is Some,
        r matches Some(s) ==> Some(s@) == spec_name_at(mem@, base, p),
{
    if p == 0 {
        return None;
    }
    let off = match adjust_vec(mem, base, p) {
        Some(o) => o,
        None => {
            return None;
        },
    };
    let m: u32 = vec_len(mem, off);
    let mu: usize = m as usize;
    let len: usize = mem.len();
    if (off as u128) + (m as u128) > len as u128 {
        return None;
    }
    let bytes = read_c_str(mem, off, mu);
    bytes_to_string(bytes)
}

fn read_simple_table(mem: &[u8], base: u64, p: u64) -> (r: Option<DataVecVec<u64>>)
    ensures
        r is Some <==> spec_simple_table(mem@, base, p) is Some,
        r matches Some(t) ==> Some(rows_view(t.vector@)) == spec_simple_table(mem@, base, p),
{
    let ptrs = match read_u64_row(mem, base, p) {
        Some(v) => v,
        None => {
            return None;
        },
    };
    let n: usize = ptrs.len();
    let mut rows: Vec<Vec<u64>> = Vec::new();
    let mut k: usize = 0;
    while k < n
        invariant
            n == ptrs@.len(),
            Some(ptrs@) == spec_u64_row(mem@, base, p),
            0 <= k <= n,
            rows@.len() == k,
            forall|x: int| 0 <= x < k ==> #[trigger] spec_u64_row(mem@, base, ptrs@[x]) is Some,
            forall|x: int| 0 <= x < k ==> rows@[x]@ == spec_u64_row(mem@, base, ptrs@[x])->Some_0,
        decreases n - k,
    {
        match read_u64_row(mem, base, ptrs[k]) {
            Some(row) => {
                rows.push(row);
            },
            None => {
                assert(spec_u64_row(mem@, base, ptrs@[k as int]) is None);
                return None;
            },
        }
        k += 1;
    }
    proof {
        assert(rows_view(rows@) =~= Seq::new(
            ptrs@.len(),
            |x: int| spec_u64_row(mem@, base, ptrs@[x])->Some_0,
        ));
    }
    Some(DataVecVec { vector: rows })
}

fn read_combined_table(mem: &[u8], base: u64, p: u64) -> (r: Option<DataVecVec<vlib_counter_t>>)
    ensures
        r is Some <==> spec_combined_table(mem@, base, p) is Some,
        r matches Some(t) ==> Some(rows_view(t.vector@)) == spec_combined_table(mem@, base, p),
{
    let ptrs = match read_u64_row(mem, base, p) {
        Some(v) => v,
        None => {
            return None;
        },
    };
    let n: usize = ptrs.len();
    let mut rows: Vec<Vec<vlib_counter_t>> = Vec::new();
    let mut k: usize = 0;
    while k < n
        invariant
            n == ptrs@.len(),
            Some(ptrs@) == spec_u64_row(mem@, base, p),
            0 <= k <= n,
            rows@.len() == k,
            forall|x: int| 0 <= x < k ==> #[trigger] spec_counter_row(mem@, base, ptrs@[x]) is Some,
            forall|x: int| 0 <= x < k ==> rows@[x]@ == spec_counter_row(mem@, base, ptrs@[x])->Some_0,
        decreases n - k,
    {
        match read_counter_row(mem, base, ptrs[k]) {
            Some(row) => {
                rows.push(row);
            },
            None => {
                assert(spec_counter_row(mem@, base, ptrs@[k as int]) is None);
                return None;
            },
        }
        k += 1;
    }
    proof {
        assert(rows_view(rows@) =~= Seq::new(
            ptrs@.len(),
            |x: int| spec_counter_row(mem@, base, ptrs@[x])->Some_0,
        ));
    }
    Some(DataVecVec { vector: rows })
}

fn read_name_table(mem: &[u8], base: u64, p: u64) -> (r: Option<NameVec>)
    ensures
        r is Some <==> spec_name_table(mem@, base, p) is Some,
        r matches Some(nv) ==> Some(names_view(nv.names@)) == spec_name_table(mem@, base, p),
{
    let ptrs = match read_u64_row(mem, base, p) {
        Some(v) => v,
        None => {
            return None;
        },
    };
    let n: usize = ptrs.len();
    let mut names: Vec<String> = Vec::new();
    let mut k: usize = 0;
    while k < n
        invariant
            n == ptrs@.len(),
            Some(ptrs@) == spec_u64_row(mem@, base, p),
            0 <= k <= n,
            names@.len() == k,
            forall|x: int| 0 <= x < k ==> #[trigger] spec_name_at(mem@, base, ptrs@[x]) is Some,
            forall|x: int| 0 <= x < k ==> names@[x]@ == spec_name_at(mem@, base, ptrs@[x])->Some_0,
        decreases n - k,
    {
        match read_name_at(mem, base, ptrs[k]) {
            Some(s) => {
                names.push(s);
            },
            None => {
                assert(spec_name_at(mem@, base, ptrs@[k as int]) is None);
                return None;
            },
        }
        k += 1;
    }
    proof {
        assert(names_view(names@) =~= Seq::new(
            ptrs@.len(),
            |x: int| spec_name_at(mem@, base, ptrs@[x])->Some_0,
        ));
    }
    Some(NameVec { names })
}

fn project_table<T: Copy>(t: &DataVecVec<T>, j: u32) -> (r: Option<DataVecVec<T>>)
    ensures
        r is Some <==> spec_project(rows_view(t.vector@), j as int) is Some,
        r matches Some(pt) ==> Some(rows_view(pt.vector@)) == spec_project(
            rows_view(t.vector@),
            j as int,
        ),
{
    let n: usize = t.vector.len();
    let ju: usize = j as usize;
    let mut rows: Vec<Vec<T>> = Vec::new();
    let mut k: usize = 0;
    while k < n
        invariant
            n == t.vector@.len(),
            ju == j as int,
            0 <= k <= n,
            rows@.len() == k,
            forall|x: int| 0 <= x < k ==> j < (#[trigger] rows_view(t.vector@)[x]).len(),
            forall|x: int| 0 <= x < k ==> rows@[x]@ == seq![rows_view(t.vector@)[x][j as int]],
        decreases n - k,
    {
        let row = &t.vector[k];
        if ju >= row.len() {
            assert(rows_view(t.vector@)[k as int].len() <= j);
            return None;
        }
        let e: T = row[ju];
        let mut one: Vec<T> = Vec::new();
        one.push(e);
        assert(one@ =~= seq![rows_view(t.vector@)[k as int][j as int]]);
        rows.push(one);
        k += 1;
    }
    proof {
        assert(rows_view(rows@) =~= Seq::new(
            t.vector@.len(),
            |x: int| seq![rows_view(t.vector@)[x][j as int]],
        ));
    }
    Some(DataVecVec { vector: rows })
}

/// Decodes the value of the entry at byte offset `off`, with `project`
/// restricting a table to one column.
fn copy_value(mem: &[u8], base: u64, off: usize, project: Option<u32>) -> (r: Option<StatValue>)
    ensures
        r is Some <==> spec_value_model(mem@, base, off as int, proj_view(project)) is Some,
        r matches Some(v) ==> Some(v@) == spec_value_model(
            mem@,
            base,
            off as int,
            proj_view(project),
        ),
{
    let len: usize = mem.len();
    if len < ENTRY_SIZE || off > len - ENTRY_SIZE {
        return None;
    }
    let tag = read_entry_tag(mem, off);
    let word = read_entry_word(mem, off);
    if tag == STAT_DIR_TYPE_SCALAR_INDEX {
        Some(StatValue::ScalarIndex(word))
    } else if tag == STAT_DIR_TYPE_COUNTER_VECTOR_SIMPLE {
        match read_simple_table(mem, base, word) {
            Some(t) => match project {
                Some(j) => match project_table(&t, j) {
                    Some(tp) => Some(StatValue::CounterVectorSimple(tp)),
                    None => None,
                },
                None => Some(StatValue::CounterVectorSimple(t)),
            },
            None => None,
        }
    } else if tag == STAT_DIR_TYPE_COUNTER_VECTOR_COMBINED {
        match read_combined_table(mem, base, word) {
            Some(t) => match project {
                Some(j) => match project_table(&t, j) {
                    Some(tp) => Some(StatValue::CounterVectorCombined(tp)),
                    None => None,
                },
                None => Some(StatValue::CounterVectorCombined(t)),
            },
            None => None,
        }
    } else if tag == STAT_DIR_TYPE_NAME_VECTOR {
        if project.is_some() {
            None
        } else {
            match read_name_table(mem, base, word) {
                Some(nv) => Some(StatValue::NameVector(nv)),
                None => None,
            }
        }
    } else if tag == STAT_DIR_TYPE_EMPTY {
        if project.is_some() {
            None
        } else {
            Some(StatValue::Empty)
        }
    } else {
        None
    }
}

impl StatSegmentData {
    /// Decodes directory entry `i` of the directory at `dir_off`, resolving
    /// one symlink hop.  Yields nothing when the entry is out of bounds,
    /// undecodable, or of tag ILLEGAL or unknown.
    pub fn copy_data(mem: &[u8], base: u64, dir_off: usize, i: u32) -> (r: Option<
        StatSegmentData,
    >)
        ensures
            r is Some <==> spec_entry_model(mem@, base, dir_off as int, i as int) is Some,
            r matches Some(d) ==> Some(d@) == spec_entry_model(
                mem@,
                base,
                dir_off as int,
                i as int,
            ),
    {
        let len: usize = mem.len();
        if dir_off < VEC_HEADER_SIZE || dir_off > len {
            return None;
        }
        let off128: u128 = dir_off as u128 + (ENTRY_SIZE as u128) * (i as u128);
        if off128 + (ENTRY_SIZE as u128) > len as u128 {
            return None;
        }
        let off: usize = dir_off + ENTRY_SIZE * (i as usize);
        let tag = read_entry_tag(mem, off);
        let name_bytes = read_entry_name(mem, off);
        let name = match bytes_to_string(name_bytes) {
            Some(s) => s,
            None => {
                return None;
            },
        };
        if tag == STAT_DIR_TYPE_SYMLINK {
            let x = read_entry_indices(mem, off);
            let dlen: u32 = vec_len(mem, dir_off);
            if x.index1 >= dlen {
                return None;
            }
            let toff128: u128 = dir_off as u128 + (ENTRY_SIZE as u128) * (x.index1 as u128);
            if toff128 + (ENTRY_SIZE as u128) > len as u128 {
                assert(!entry_in_bounds(
                    mem@,
                    dir_off + ENTRY_SIZE * (entry_index1(mem@, off as int) as int),
                ));
                return None;
            }
            let toff: usize = dir_off + ENTRY_SIZE * (x.index1 as usize);
            match copy_value(mem, base, toff, Some(x.index2)) {
                Some(v) => Some(StatSegmentData { name, value: v, via_symlink: true }),
                None => None,
            }
        } else {
            match copy_value(mem, base, off, None) {
                Some(v) => Some(StatSegmentData { name, value: v, via_symlink: false }),
                None => None,
            }
        }
    }

    /// Decodes directory entry `i` against the directory and base captured
    /// by the guard.
    pub fn from_ctype(access: &StatSegmentAccess, mem: &[u8], i: u32) -> (r: Option<
        StatSegmentData,
    >)
        ensures
            r is Some <==> spec_entry_model(
                mem@,
                access.base,
                access.directory_vector as int,
                i as int,
            ) is Some,
            r matches Some(d) ==> Some(d@) == spec_entry_model(
                mem@,
                access.base,
                access.directory_vector as int,
                i as int,
            ),
    {
        StatSegmentData::copy_data(mem, access.base, access.directory_vector, i)
    }
}

} // verus!
