//! Seqlock-style reader guard.
//!
//! The producer announces a mutation by raising `in_progress`, edits the
//! segment, advances `epoch`, then clears `in_progress`.  A reader captures
//! the epoch when it starts, decodes what it needs, and re-checks the header
//! when it ends: the decoded values are coherent if and only if the epoch is
//! unchanged and no mutation is in progress.
//!
//! The guard works over byte views of the live segment.  Each call takes the
//! bytes as observed at that moment; `start` and `end` may therefore see
//! different views, which is exactly the situation the protocol detects.

use vstd::prelude::*;
use crate::segment::{header_of, read_shared_header, SHARED_HEADER_SIZE};
use crate::VppStatSegmentAccessError;

verus! {

/// Rebasing of a producer-space pointer `p` into a segment offset:
/// `p - base` when that lies inside a segment of `seg_len` bytes,
/// nothing otherwise.
pub open spec fn spec_adjust(base: u64, seg_len: int, p: u64) -> Option<int> {
    if base <= p && p - base < seg_len {
        Some(p - base)
    } else {
        None
    }
}

/// What a successfully started guard remembers about the segment.
#[derive(Debug, Clone, Copy, PartialEq, Eq, Structural)]
pub struct StatSegmentAccess {
    /// Epoch captured at start.
    pub epoch: u64,
    /// Producer-space address of segment offset 0, captured at start.
    pub base: u64,
    /// Length of the mapped segment in bytes.
    pub seg_len: usize,
    /// Rebased offset of the directory array, captured at start.
    pub directory_vector: usize,
}

/// `start` succeeds on this view of the segment: the header is present, no
/// mutation is in progress, and the directory pointer rebases into the
/// segment.
pub open spec fn spec_start_ok(mem: Seq<u8>) -> bool {
    &&& mem.len() >= SHARED_HEADER_SIZE
    &&& header_of(mem).in_progress == 0
    &&& spec_adjust(header_of(mem).base, mem.len() as int, header_of(mem).directory_vector) is Some
}

/// The guard produced by a successful `start` on this view of the segment.
pub open spec fn spec_start(mem: Seq<u8>) -> StatSegmentAccess {
    StatSegmentAccess {
        epoch: header_of(mem).epoch,
        base: header_of(mem).base,
        seg_len: mem.len() as usize,
        directory_vector: spec_adjust(
            header_of(mem).base,
            mem.len() as int,
            header_of(mem).directory_vector,
        )->Some_0 as usize,
    }
}

/// The segment no longer matches what the guard captured: the header has
/// gone, the epoch moved, or a mutation is in progress.
pub open spec fn spec_data_changed(a: StatSegmentAccess, mem: Seq<u8>) -> bool {
    ||| mem.len() < SHARED_HEADER_SIZE
    ||| header_of(mem).epoch != a.epoch
    ||| header_of(mem).in_progress != 0
}

impl StatSegmentAccess {
    /// Opens a reader critical section on the given view of the segment:
    /// captures the epoch, refuses to proceed while a mutation is in
    /// progress, and rebases the directory pointer.
    pub fn start(mem: &[u8]) -> (r: Option<StatSegmentAccess>)
        ensures
            r is Some <==> spec_start_ok(mem@),
            r matches Some(a) ==> a == spec_start(mem@),
    {
        if mem.len() < SHARED_HEADER_SIZE {
            return None;
        }
        let h = read_shared_header(mem);
        if h.in_progress != 0 {
            return None;
        }
        let seg_len: usize = mem.len();
        match StatSegmentAccess::stat_segment_adjust_x(h.base, seg_len, h.directory_vector) {
            Some(dir) => Some(StatSegmentAccess {
                epoch: h.epoch,
                base: h.base,
                seg_len,
                directory_vector: dir,
            }),
            None => None,
        }
    }

    /// The epoch captured at start.
    pub fn get_epoch(&self) -> (e: u64)
        ensures
            e == self.epoch,
    {
        self.epoch
    }

    /// The rebased offset of the directory array captured at start.
    pub fn get_directory_vector(&self) -> (d: usize)
        ensures
            d == self.directory_vector,
    {
        self.directory_vector
    }

    /// Rebases a producer-space pointer stored in the segment against the
    /// base captured at start.
    pub fn stat_segment_adjust(&self, p: u64) -> (r: Option<usize>)
        ensures
            r is Some <==> spec_adjust(self.base, self.seg_len as int, p) is Some,
            r matches Some(o) ==> o == spec_adjust(self.base, self.seg_len as int, p)->Some_0,
    {
        StatSegmentAccess::stat_segment_adjust_x(self.base, self.seg_len, p)
    }

    /// Rebases a producer-space pointer `p` against a given producer base
    /// and segment length: the mapped offset is `p - base`, defined when it
    /// lies inside the segment.
    pub fn stat_segment_adjust_x(base: u64, seg_len: usize, p: u64) -> (r: Option<usize>)
        ensures
            r is Some <==> spec_adjust(base, seg_len as int, p) is Some,
            r matches Some(o) ==> o == spec_adjust(base, seg_len as int, p)->Some_0,
    {
        if base <= p && p - base < seg_len as u64 {
            Some((p - base) as usize)
        } else {
            None
        }
    }

    /// Re-reads the directory pointer from the given view and rebases it.
    pub fn get_stat_vector_r(&self, mem: &[u8]) -> (r: Option<usize>)
        ensures
            ({
                let ok = mem@.len() >= SHARED_HEADER_SIZE && spec_adjust(
                    self.base,
                    self.seg_len as int,
                    header_of(mem@).directory_vector,
                ) is Some;
                &&& r is Some <==> ok
                &&& r matches Some(o) ==> o == spec_adjust(
                    self.base,
                    self.seg_len as int,
                    header_of(mem@).directory_vector,
                )->Some_0
            }),
    {
        if mem.len() < SHARED_HEADER_SIZE {
            return None;
        }
        let h = read_shared_header(mem);
        StatSegmentAccess::stat_segment_adjust_x(self.base, self.seg_len, h.directory_vector)
    }

    /// True if the given view of the segment no longer matches what the
    /// guard captured: the epoch advanced or a mutation is in progress.
    pub fn data_changed(&self, mem: &[u8]) -> (b: bool)
        ensures
            b == spec_data_changed(*self, mem@),
    {
        if mem.len() < SHARED_HEADER_SIZE {
            return true;
        }
        let h = read_shared_header(mem);
        self.epoch != h.epoch || h.in_progress != 0
    }

    /// Closes the critical section against the given view of the segment.
    /// Succeeds if and only if the epoch is unchanged and no mutation is in
    /// progress; on failure the caller's decoded values are torn and must be
    /// discarded.
    pub fn end(self, mem: &[u8]) -> (r: Result<(), VppStatSegmentAccessError>)
        ensures
            r is Ok <==> !spec_data_changed(self, mem@),
            r is Err ==> r == Result::<(), VppStatSegmentAccessError>::Err(
                VppStatSegmentAccessError::StatSegmentChanged,
            ),
    {
        if self.data_changed(mem) {
            Err(VppStatSegmentAccessError::StatSegmentChanged)
        } else {
            Ok(())
        }
    }
}

/// Guard round trip: on a view where `start` succeeds, ending the guard on
/// the same view always succeeds, and the epoch is observed unchanged.
pub proof fn lemma_guard_round_trip(mem: Seq<u8>)
    requires
        spec_start_ok(mem),
    ensures
        !spec_data_changed(spec_start(mem), mem),
        spec_start(mem).epoch == header_of(mem).epoch,
{
}

/// Torn-read detection: if the epoch observed when the guard ends differs
/// from the epoch captured at start, or a mutation is then in progress, the
/// close check fails.
pub proof fn lemma_torn_read_detected(mem_start: Seq<u8>, mem_end: Seq<u8>)
    requires
        spec_start_ok(mem_start),
        header_of(mem_end).epoch != header_of(mem_start).epoch
            || header_of(mem_end).in_progress != 0,
    ensures
        spec_data_changed(spec_start(mem_start), mem_end),
{
}

/// Rebasing identity: when the producer's base address coincides with the
/// consumer's (offset 0 in this model), rebasing leaves a pointer unchanged.
pub proof fn lemma_rebase_identity(seg_len: int, p: u64)
    requires
        0 <= p < seg_len,
    ensures
        spec_adjust(0, seg_len, p) == Some(p as int),
{
}

} // verus!
