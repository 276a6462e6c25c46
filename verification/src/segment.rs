//! Byte-level model of the shared statistics segment.
//!
//! The mapped region is treated as a sequence of bytes.  All multi-byte
//! fields are little-endian.  The fixed shared header sits at offset 0;
//! every producer-allocated dynamic array is immediately preceded by an
//! 8-byte header whose first four bytes hold the element count.

use vstd::prelude::*;
use vstd::bytes::{spec_u32_from_le_bytes, spec_u64_from_le_bytes, u32_from_le_bytes, u64_from_le_bytes};

verus! {

/// Size of the fixed-width name buffer in a directory entry, NUL included.
pub const VLIB_STATS_MAX_NAME_SZ: usize = 128;

/// Size in bytes of the shared header at offset 0.
pub const SHARED_HEADER_SIZE: usize = 40;

/// Size in bytes of the header preceding every producer-allocated array.
pub const VEC_HEADER_SIZE: usize = 8;

/// Size in bytes of one directory entry: a 4-byte tag padded to 8, a
/// 16-byte union and a 128-byte name buffer.
pub const ENTRY_SIZE: usize = 152;

/// Offset of the union word inside a directory entry.
pub const ENTRY_UNION_OFFSET: usize = 8;

/// Offset of the name buffer inside a directory entry.
pub const ENTRY_NAME_OFFSET: usize = 24;

/// The little-endian u64 stored at byte offset `off` of the segment.
pub open spec fn u64_at(mem: Seq<u8>, off: int) -> u64 {
    spec_u64_from_le_bytes(mem.subrange(off, off + 8))
}

/// The little-endian u32 stored at byte offset `off` of the segment.
pub open spec fn u32_at(mem: Seq<u8>, off: int) -> u32 {
    spec_u32_from_le_bytes(mem.subrange(off, off + 4))
}

pub fn read_u64(mem: &[u8], off: usize) -> (r: u64)
    requires
        off + 8 <= mem@.len(),
    ensures
        r == u64_at(mem@, off as int),
{
    let n: usize = mem.len();
    assert(off + 8 <= n);
    u64_from_le_bytes(&mem[off..off + 8])
}

pub fn read_u32(mem: &[u8], off: usize) -> (r: u32)
    requires
        off + 4 <= mem@.len(),
    ensures
        r == u32_at(mem@, off as int),
{
    let n: usize = mem.len();
    assert(off + 4 <= n);
    u32_from_le_bytes(&mem[off..off + 4])
}

/// The shared header the producer keeps at offset 0 of the segment.
/// `epoch`, `in_progress` and `directory_vector` are rewritten by the
/// producer while consumers read; `base` is the producer-space virtual
/// address of offset 0, and `directory_vector` is a producer-space pointer
/// to the directory array.
#[derive(Debug, Clone, Copy, PartialEq, Eq, Structural)]
pub struct VlibStatsSharedHeader {
    pub version: u64,
    pub base: u64,
    pub epoch: u64,
    pub in_progress: u64,
    pub directory_vector: u64,
}

/// The shared header as stored in the first 40 bytes of the segment.
pub open spec fn header_of(mem: Seq<u8>) -> VlibStatsSharedHeader {
    VlibStatsSharedHeader {
        version: u64_at(mem, 0),
        base: u64_at(mem, 8),
        epoch: u64_at(mem, 16),
        in_progress: u64_at(mem, 24),
        directory_vector: u64_at(mem, 32),
    }
}

pub fn read_shared_header(mem: &[u8]) -> (h: VlibStatsSharedHeader)
    requires
        SHARED_HEADER_SIZE <= mem@.len(),
    ensures
        h == header_of(mem@),
{
    VlibStatsSharedHeader {
        version: read_u64(mem, 0),
        base: read_u64(mem, 8),
        epoch: read_u64(mem, 16),
        in_progress: read_u64(mem, 24),
        directory_vector: read_u64(mem, 32),
    }
}

/// Element count of the producer array whose first element sits at `off`:
/// the `len` field of the 8-byte header right before it.  A null array
/// (offset 0) has length 0.
pub open spec fn spec_vec_len(mem: Seq<u8>, off: int) -> u32 {
    if off == 0 {
        0
    } else {
        u32_at(mem, off - 8)
    }
}

/// Reads the length prefix of the producer array at `off` (number of
/// elements, not bytes).  Offset 0 stands for a null array and has length 0.
pub fn vec_len(mem: &[u8], off: usize) -> (n: u32)
    requires
        off == 0 || (VEC_HEADER_SIZE <= off && off <= mem@.len()),
    ensures
        n == spec_vec_len(mem@, off as int),
{
    if off == 0 {
        0
    } else {
        read_u32(mem, off - 8)
    }
}

/// Byte offset of element `index` of an array of `elt_size`-byte elements
/// starting at `off`.
pub fn vec_elt_at_index(off: usize, elt_size: usize, index: usize) -> (r: usize)
    requires
        off + elt_size * index <= usize::MAX,
    ensures
        r == off + elt_size * index,
{
    off + elt_size * index
}

/// The bytes of a NUL-terminated string: the prefix of `s` before its first
/// zero byte (all of `s` if no byte is zero).
pub open spec fn c_str_bytes(s: Seq<u8>) -> Seq<u8>
    decreases s.len(),
{
    if s.len() == 0 {
        seq![]
    } else if s[0] == 0 {
        seq![]
    } else {
        seq![s[0]] + c_str_bytes(s.skip(1))
    }
}

/// Tag values of a directory entry.
pub const STAT_DIR_TYPE_ILLEGAL: u32 = 0;

pub const STAT_DIR_TYPE_SCALAR_INDEX: u32 = 1;

pub const STAT_DIR_TYPE_COUNTER_VECTOR_SIMPLE: u32 = 2;

pub const STAT_DIR_TYPE_COUNTER_VECTOR_COMBINED: u32 = 3;

pub const STAT_DIR_TYPE_NAME_VECTOR: u32 = 4;

pub const STAT_DIR_TYPE_EMPTY: u32 = 5;

pub const STAT_DIR_TYPE_SYMLINK: u32 = 6;

/// Directory index of the well-known heartbeat counter.
pub const STAT_COUNTER_HEARTBEAT: usize = 0;

/// The two u32 halves of a directory entry's union: for a symlink,
/// `index1` is the directory index of the target and `index2` selects one
/// element inside it.
#[allow(non_camel_case_types)]
#[derive(Debug, Default, Copy, Clone, PartialEq, Eq, Structural)]
pub struct u32x2_struct_t {
    pub index1: u32,
    pub index2: u32,
}

/// The whole directory entry at `off` lies inside the segment.
pub open spec fn entry_in_bounds(mem: Seq<u8>, off: int) -> bool {
    0 <= off && off + ENTRY_SIZE <= mem.len()
}

/// Tag of the entry at `off`.
pub open spec fn entry_tag(mem: Seq<u8>, off: int) -> u32 {
    u32_at(mem, off)
}

/// The 64-bit union word of the entry at `off`: a scalar value for
/// SCALAR_INDEX entries, a producer-space data pointer for vector entries.
pub open spec fn entry_word(mem: Seq<u8>, off: int) -> u64 {
    u64_at(mem, off + ENTRY_UNION_OFFSET)
}

/// First u32 half of the union word of the entry at `off`.
pub open spec fn entry_index1(mem: Seq<u8>, off: int) -> u32 {
    u32_at(mem, off + ENTRY_UNION_OFFSET)
}

/// Second u32 half of the union word of the entry at `off`.
pub open spec fn entry_index2(mem: Seq<u8>, off: int) -> u32 {
    u32_at(mem, off + ENTRY_UNION_OFFSET + 4)
}

/// Name of the entry at `off`: the bytes of its fixed-size name buffer up
/// to the first NUL.
pub open spec fn entry_name_bytes(mem: Seq<u8>, off: int) -> Seq<u8> {
    c_str_bytes(mem.subrange(off + ENTRY_NAME_OFFSET, off + ENTRY_SIZE))
}

/// One directory entry, decoded field by field from its fixed layout.
/// `value` and `indices` are the two readings of the union word; which one
/// is meaningful depends on `type_`.  `name` holds the bytes before the
/// first NUL of the name buffer.
#[derive(Debug, Clone)]
pub struct VlibStatsEntry {
    pub type_: u32,
    pub value: u64,
    pub indices: u32x2_struct_t,
    pub name: Vec<u8>,
}

pub fn read_entry_tag(mem: &[u8], off: usize) -> (t: u32)
    requires
        entry_in_bounds(mem@, off as int),
    ensures
        t == entry_tag(mem@, off as int),
{
    read_u32(mem, off)
}

pub fn read_entry_word(mem: &[u8], off: usize) -> (w: u64)
    requires
        entry_in_bounds(mem@, off as int),
    ensures
        w == entry_word(mem@, off as int),
{
    let len: usize = mem.len();
    assert(off + ENTRY_SIZE <= len);
    read_u64(mem, off + ENTRY_UNION_OFFSET)
}

pub fn read_entry_indices(mem: &[u8], off: usize) -> (x: u32x2_struct_t)
    requires
        entry_in_bounds(mem@, off as int),
    ensures
        x.index1 == entry_index1(mem@, off as int),
        x.index2 == entry_index2(mem@, off as int),
{
    let len: usize = mem.len();
    assert(off + ENTRY_SIZE <= len);
    u32x2_struct_t {
        index1: read_u32(mem, off + ENTRY_UNION_OFFSET),
        index2: read_u32(mem, off + ENTRY_UNION_OFFSET + 4),
    }
}

/// Copies the NUL-terminated byte string stored in the `max`-byte buffer at
/// `off`: the bytes before the first NUL, all of the buffer if none is NUL.
pub fn read_c_str(mem: &[u8], off: usize, max: usize) -> (r: Vec<u8>)
    requires
        off + max <= mem@.len(),
    ensures
        r@ == c_str_bytes(mem@.subrange(off as int, off + max)),
{
    let len: usize = mem.len();
    let ghost field = mem@.subrange(off as int, off + max);
    let mut n: usize = 0;
    while n < max && mem[off + n] != 0
        invariant
            off + max <= mem@.len(),
            len == mem@.len(),
            0 <= n <= max,
            field == mem@.subrange(off as int, off + max),
            forall|j: int| 0 <= j < n ==> field[j] != 0,
        decreases max - n,
    {
        assert(field[n as int] == mem@[off + n]);
        n += 1;
    }
    proof {
        if n < max {
            assert(field[n as int] == mem@[off + n]);
        }
        lemma_c_str_bytes_take(field, n as int);
    }
    let r = vstd::slice::slice_to_vec(&mem[off..off + n]);
    proof {
        assert(r@ =~= field.take(n as int));
    }
    r
}

/// Copies the name of the entry at `off`: the bytes of the 128-byte name
/// buffer before the first NUL.
pub fn read_entry_name(mem: &[u8], off: usize) -> (r: Vec<u8>)
    requires
        entry_in_bounds(mem@, off as int),
    ensures
        r@ == entry_name_bytes(mem@, off as int),
{
    let len: usize = mem.len();
    assert(off + ENTRY_SIZE <= len);
    read_c_str(mem, off + ENTRY_NAME_OFFSET, ENTRY_SIZE - ENTRY_NAME_OFFSET)
}

/// Meaning of a byte sequence as UTF-8: its characters when the bytes are
/// valid UTF-8, nothing otherwise.
pub uninterp spec fn utf8_decode(bytes: Seq<u8>) -> Option<Seq<char>>;

/// Relies on String::from_utf8: returns the string whose characters are
/// the UTF-8 decoding of the given bytes, or nothing when the bytes are
/// not valid UTF-8.
#[verifier::external_body]
pub(crate) fn bytes_to_string(bytes: Vec<u8>) -> (r: Option<String>)
    ensures
        r is Some <==> utf8_decode(bytes@) is Some,
        r matches Some(s) ==> Some(s@) == utf8_decode(bytes@),
{
    match String::from_utf8(bytes) {
        Ok(s) => Some(s),
        Err(_) => None,
    }
}

/// Reads the whole directory entry at `off`.
pub fn read_entry(mem: &[u8], off: usize) -> (e: VlibStatsEntry)
    requires
        entry_in_bounds(mem@, off as int),
    ensures
        e.type_ == entry_tag(mem@, off as int),
        e.value == entry_word(mem@, off as int),
        e.indices.index1 == entry_index1(mem@, off as int),
        e.indices.index2 == entry_index2(mem@, off as int),
        e.name@ == entry_name_bytes(mem@, off as int),
{
    VlibStatsEntry {
        type_: read_entry_tag(mem, off),
        value: read_entry_word(mem, off),
        indices: read_entry_indices(mem, off),
        name: read_entry_name(mem, off),
    }
}

pub proof fn lemma_c_str_bytes_take(s: Seq<u8>, i: int)
    requires
        0 <= i <= s.len(),
        forall|j: int| 0 <= j < i ==> s[j] != 0,
        i < s.len() ==> s[i] == 0,
    ensures
        c_str_bytes(s) == s.take(i),
    decreases i,
{
    if s.len() == 0 {
        assert(c_str_bytes(s) =~= s.take(i));
    } else if i == 0 {
        assert(s[0] == 0);
        assert(c_str_bytes(s) =~= s.take(0));
    } else {
        assert(s[0] != 0);
        let t = s.skip(1);
        assert(forall|j: int| 0 <= j < i - 1 ==> t[j] == s[j + 1] && t[j] != 0);
        lemma_c_str_bytes_take(t, i - 1);
        assert(c_str_bytes(s) =~= s.take(i)) by {
            assert(c_str_bytes(s) == seq![s[0]] + t.take(i - 1));
        }
    }
}

} // verus!
