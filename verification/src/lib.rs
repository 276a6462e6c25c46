//! Client-side reader for a shared-memory statistics segment published by a
//! packet-processing dataplane.
//!
//! The producer maps a segment whose layout is a fixed header followed by a
//! heap of length-prefixed arrays.  This crate models the mapped region as a
//! sequence of bytes and verifies the reader logic over that model: the
//! seqlock-style coherence protocol, pointer rebasing between the producer's
//! and the consumer's address spaces, directory walking, pattern filtering,
//! symlink resolution and decoding of the variant-typed entries.

use vstd::prelude::*;

pub mod access;
pub mod client;
pub mod data;
pub mod decode;
pub mod dir;
pub mod patterns;
pub mod segment;

verus! {

/// Error reported by the seqlock guard when the producer mutated the segment
/// during the guarded window.
#[derive(Debug, Clone, PartialEq, Eq, Structural)]
pub enum VppStatSegmentAccessError {
    StatSegmentChanged,
}

/// Error reported by `ls` when a supplied pattern is not a valid regular
/// expression.
#[derive(Debug, Clone, PartialEq, Eq, Structural)]
pub enum VppStatLsError {
    RegexCompileError,
}

/// Connection-time errors.
#[derive(Debug, Clone, PartialEq, Eq, Structural)]
pub enum VppStatError {
    CouldNotOpenSocket,
    CouldNotConnect,
    ReceivingFdFailed,
    MmapFstatFailed,
    MmapMapFailed,
}

/// Errors reported by `dump`.
#[derive(Debug, Clone, PartialEq, Eq, Structural)]
pub enum VppStatDumpError {
    ObsoleteDirData,
    AccessStartFailed,
}

pub fn add(left: usize, right: usize) -> (r: usize)
    requires
        left + right <= usize::MAX,
    ensures
        r == left + right,
{
    left + right
}

} // verus!
