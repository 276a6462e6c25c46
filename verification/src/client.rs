//! The connected client.
//!
//! A client owns the read-only memory mapping of the statistics segment.
//! The producer rewrites the mapped bytes concurrently, so nothing relates
//! two fetches of the bytes; every operation fetches a view, works on it
//! with the fully specified scan functions, and re-checks coherence on a
//! fresh view where the protocol demands it.
//!
//! Creating the mapping (socket handshake, descriptor transfer, mmap) is
//! I/O and lives outside the library; `new` accepts the finished mapping.

use vstd::prelude::*;
use crate::access::StatSegmentAccess;
use crate::data::{entries_view, VppStatData};
use crate::decode::spec_dir_ok;
use crate::access::{spec_start, spec_start_ok};
use crate::dir::{
    dump_scan, index_name_scan, lemma_ls_indices_ascending, ls_scan, names_scan, spec_dump_entries,
    spec_patterns, VppStatDir,
};
use crate::patterns::{compile_patterns, regex_compiles, VppStringVec};
use crate::segment::{
    entry_in_bounds, entry_word, header_of, read_entry_word, read_shared_header, spec_vec_len,
    vec_len, VlibStatsSharedHeader, ENTRY_SIZE, SHARED_HEADER_SIZE, STAT_COUNTER_HEARTBEAT,
    VEC_HEADER_SIZE,
};
use crate::{VppStatDumpError, VppStatLsError};

verus! {

/// Bound on guard-acquisition attempts when no timeout is configured.
pub const DEFAULT_START_ATTEMPTS: u64 = 65536;

/// Bound on whole-scan retries when the segment keeps changing under `ls`.
pub const LS_RETRIES: u64 = 4;

/// Client bookkeeping: the epoch captured at connect time or at the last
/// coherent `ls` (a heartbeat read is trusted only under it), the length of
/// the mapping, and the bound on guard-acquisition attempts.
#[derive(Debug, Clone, Copy, PartialEq, Eq, Structural)]
pub struct StatClientMain {
    pub heartbeat_epoch: u64,
    pub memory_size: usize,
    pub timeout: Option<u64>,
}

#[verifier::external_type_specification]
#[verifier::external_body]
pub struct ExMmap(memmap::Mmap);

/// A connected client: owns the read-only mapping of the statistics
/// segment.  Dropping the client unmaps it; decoded snapshots are owned
/// copies and do not reference the mapping.
pub struct VppStatClient {
    mmap: memmap::Mmap,
    pub main: StatClientMain,
}

impl VppStatClient {
    /// The client bookkeeping, for specifications.
    pub closed spec fn spec_main(&self) -> StatClientMain {
        self.main
    }
}

/// What one heartbeat read returns on a view of the segment: the raw
/// 64-bit word of the well-known heartbeat entry (directory index 0), or 0
/// when the view's epoch differs from the epoch the client captured, no
/// guard can be opened on the view, or the directory has no entry 0.
pub open spec fn spec_heartbeat(mem: Seq<u8>, hb_epoch: u64) -> u64 {
    if mem.len() < SHARED_HEADER_SIZE {
        0
    } else if header_of(mem).epoch != hb_epoch {
        0
    } else if !spec_start_ok(mem) {
        0
    } else {
        let dir_off = spec_start(mem).directory_vector as int;
        if spec_dir_ok(mem, dir_off) && spec_vec_len(mem, dir_off) > 0 && entry_in_bounds(
            mem,
            dir_off,
        ) {
            entry_word(mem, dir_off + ENTRY_SIZE * STAT_COUNTER_HEARTBEAT as int)
        } else {
            0
        }
    }
}

/// Reads the heartbeat word from one view of the segment.
pub fn heartbeat_scan(mem: &[u8], hb_epoch: u64) -> (r: u64)
    ensures
        r == spec_heartbeat(mem@, hb_epoch),
{
    if mem.len() < SHARED_HEADER_SIZE {
        return 0;
    }
    let h = read_shared_header(mem);
    if h.epoch != hb_epoch {
        return 0;
    }
    let access = match StatSegmentAccess::start(mem) {
        Some(a) => a,
        None => {
            return 0;
        },
    };
    let dir_off: usize = access.get_directory_vector();
    let len: usize = mem.len();
    if dir_off < VEC_HEADER_SIZE || dir_off > len {
        return 0;
    }
    if vec_len(mem, dir_off) == 0 {
        return 0;
    }
    if len < ENTRY_SIZE || dir_off > len - ENTRY_SIZE {
        return 0;
    }
    read_entry_word(mem, dir_off)
}

impl VppStatClient {
    /// Relies on memmap::Mmap's Deref to [u8]: the bytes of the mapping as
    /// currently observable.  The producer rewrites them concurrently, so
    /// no two calls are related.
    #[verifier::external_body]
    fn mem_bytes(&self) -> &[u8] {
        &self.mmap[..]
    }

    /// Wraps a finished read-only mapping of the statistics segment and
    /// captures the current epoch for later heartbeat reads.
    pub fn new(mmap: memmap::Mmap) -> (c: Self)
        ensures
            c.spec_main().timeout is None,
    {
        let mut c = VppStatClient {
            mmap,
            main: StatClientMain { heartbeat_epoch: 0, memory_size: 0, timeout: None },
        };
        let mem = c.mem_bytes();
        let ms: usize = mem.len();
        let hb: u64 = if ms >= SHARED_HEADER_SIZE {
            read_shared_header(mem).epoch
        } else {
            0
        };
        c.main.memory_size = ms;
        c.main.heartbeat_epoch = hb;
        c
    }

    /// The configured bound on guard-acquisition attempts.
    pub fn get_timeout(&self) -> (t: Option<u64>)
        ensures
            t == self.spec_main().timeout,
    {
        self.main.timeout
    }

    /// Configures the bound on guard-acquisition attempts; nothing bounds
    /// the wait when unset but the implementation default.
    pub fn set_timeout(&mut self, timeout: Option<u64>)
        ensures
            final(self).spec_main().timeout == timeout,
            final(self).spec_main().heartbeat_epoch == old(self).spec_main().heartbeat_epoch,
            final(self).spec_main().memory_size == old(self).spec_main().memory_size,
    {
        self.main.timeout = timeout;
    }

    /// Parses the shared header from the current view of the mapping;
    /// nothing when the mapping is shorter than a header.
    pub fn get_shared_header(&self) -> Option<VlibStatsSharedHeader> {
        let mem = self.mem_bytes();
        if mem.len() < SHARED_HEADER_SIZE {
            None
        } else {
            Some(read_shared_header(mem))
        }
    }

    /// The raw 64-bit word of the heartbeat entry (directory index 0) on
    /// the current view, or 0 when the epoch moved since it was captured.
    /// `heartbeat_scan` says exactly what is returned for each view.
    pub fn heartbeat(&self) -> u64 {
        let mem = self.mem_bytes();
        heartbeat_scan(mem, self.main.heartbeat_epoch)
    }

    /// Looks up the name of directory entry `index` under a guard on the
    /// current view; nothing when no guard can be opened, the index is
    /// outside the directory, the entry is EMPTY, or its name is not UTF-8.
    /// `index_name_scan` says exactly what is returned for each view.
    pub fn stat_segment_index_to_name_r(&self, index: u32) -> Option<String> {
        let mem = self.mem_bytes();
        match StatSegmentAccess::start(mem) {
            Some(access) => index_name_scan(mem, &access, index),
            None => None,
        }
    }

    /// Walks the directory under a guard and returns a handle holding the
    /// retained indices, in ascending order, and the epoch they were
    /// captured under.  Fails exactly when some supplied pattern does not
    /// compile.  When the segment keeps changing during the scan, the scan
    /// is retried a bounded number of times; on persistent failure the
    /// returned handle is empty.  `ls_scan` says exactly which indices are
    /// retained on each view.
    pub fn ls_r(&mut self, patterns: Option<&VppStringVec>) -> (r: Result<
        VppStatDir,
        VppStatLsError,
    >)
        ensures
            r is Err <==> (patterns matches Some(p) && exists|i: int|
                0 <= i < p@.len() && !regex_compiles(p@[i])),
            r is Err ==> r == Result::<VppStatDir, VppStatLsError>::Err(
                VppStatLsError::RegexCompileError,
            ),
            r matches Ok(d) ==> forall|a: int, b: int|
                0 <= a < b < d.dir_vec@.len() ==> d.dir_vec@[a] < d.dir_vec@[b],
    {
        let mut match_all: bool = true;
        let mut regexes: Vec<regex::Regex> = Vec::new();
        match patterns {
            Some(p) => {
                match compile_patterns(p) {
                    Ok(rs) => {
                        regexes = rs;
                        match_all = false;
                    },
                    Err(e) => {
                        return Err(e);
                    },
                }
            },
            None => {},
        }
        let mut k: u64 = 0;
        while k < LS_RETRIES
            invariant
                patterns matches Some(p) ==> (forall|i: int|
                    0 <= i < p@.len() ==> regex_compiles(#[trigger] p@[i])),
            decreases LS_RETRIES - k,
        {
            let mem = self.mem_bytes();
            match StatSegmentAccess::start(mem) {
                Some(access) => {
                    let dir_vec = ls_scan(mem, &access, &regexes, match_all);
                    let current_epoch = access.get_epoch();
                    let mem2 = self.mem_bytes();
                    match access.end(mem2) {
                        Ok(_) => {
                            proof {
                                if spec_dir_ok(mem@, access.directory_vector as int) {
                                    lemma_ls_indices_ascending(
                                        mem@,
                                        access.directory_vector as int,
                                        spec_vec_len(mem@, access.directory_vector as int) as int,
                                        spec_patterns(regexes@, match_all),
                                    );
                                }
                            }
                            self.main.heartbeat_epoch = current_epoch;
                            return Ok(VppStatDir { dir_vec, current_epoch });
                        },
                        Err(_) => {},
                    }
                },
                None => {},
            }
            k += 1;
        }
        Ok(VppStatDir { dir_vec: Vec::new(), current_epoch: 0 })
    }

    /// Like `ls_r`, but a pattern-compilation failure yields an empty
    /// handle instead of an error.
    pub fn ls(&mut self, patterns: Option<&VppStringVec>) -> (r: VppStatDir)
        ensures
            forall|a: int, b: int|
                0 <= a < b < r.dir_vec@.len() ==> r.dir_vec@[a] < r.dir_vec@[b],
    {
        match self.ls_r(patterns) {
            Ok(d) => d,
            Err(_) => VppStatDir { dir_vec: Vec::new(), current_epoch: 0 },
        }
    }
}

/// One attempt to dump a directory handle against a single view of the
/// segment.  Fails with AccessStartFailed when no guard can be opened on
/// the view, with ObsoleteDirData exactly when the guard opens but the
/// view's epoch differs from the one captured at `ls` time; otherwise
/// decodes every retained index against the view.
pub fn dump_once(mem: &[u8], dir: &VppStatDir) -> (r: Result<VppStatData, VppStatDumpError>)
    ensures
        !spec_start_ok(mem@) <==> r == Result::<VppStatData, VppStatDumpError>::Err(
            VppStatDumpError::AccessStartFailed,
        ),
        (spec_start_ok(mem@) && header_of(mem@).epoch != dir.current_epoch) <==> r
            == Result::<VppStatData, VppStatDumpError>::Err(VppStatDumpError::ObsoleteDirData),
        r matches Ok(d) ==> entries_view(d.data@) == spec_dump_entries(
            mem@,
            spec_start(mem@).base,
            spec_start(mem@).directory_vector as int,
            dir.dir_vec@,
        ),
{
    let access = match StatSegmentAccess::start(mem) {
        Some(a) => a,
        None => {
            return Err(VppStatDumpError::AccessStartFailed);
        },
    };
    if access.get_epoch() != dir.current_epoch {
        return Err(VppStatDumpError::ObsoleteDirData);
    }
    let data = dump_scan(mem, &access, &dir.dir_vec);
    Ok(VppStatData { data })
}

impl VppStatDir {
    /// Decodes the retained entries under a fresh guard and re-checks
    /// coherence on a second view before handing the snapshot out.  Fails
    /// with ObsoleteDirData when the epoch no longer matches the one
    /// captured at `ls` time or the segment changed while decoding — no
    /// partial snapshot is returned — and with AccessStartFailed when no
    /// guard could be opened within the configured attempt bound.
    /// `dump_once` says exactly what one attempt yields on each view.
    pub fn dump(&self, client: &VppStatClient) -> (r: Result<VppStatData, VppStatDumpError>)
        ensures
            r is Err ==> (r == Result::<VppStatData, VppStatDumpError>::Err(
                VppStatDumpError::ObsoleteDirData,
            ) || r == Result::<VppStatData, VppStatDumpError>::Err(
                VppStatDumpError::AccessStartFailed,
            )),
    {
        let attempts: u64 = match client.main.timeout {
            Some(t) => t,
            None => DEFAULT_START_ATTEMPTS,
        };
        let mut k: u64 = 0;
        while k < attempts
            decreases attempts - k,
        {
            let mem = client.mem_bytes();
            match dump_once(mem, self) {
                Ok(data) => {
                    let mem2 = client.mem_bytes();
                    let changed: bool = if mem2.len() < SHARED_HEADER_SIZE {
                        true
                    } else {
                        let h = read_shared_header(mem2);
                        h.epoch != self.current_epoch || h.in_progress != 0
                    };
                    if changed {
                        return Err(VppStatDumpError::ObsoleteDirData);
                    }
                    return Ok(data);
                },
                Err(VppStatDumpError::ObsoleteDirData) => {
                    return Err(VppStatDumpError::ObsoleteDirData);
                },
                Err(VppStatDumpError::AccessStartFailed) => {},
            }
            k += 1;
        }
        Err(VppStatDumpError::AccessStartFailed)
    }

    /// Reads the names of the retained indices under a guard on one view of
    /// the segment, omitting entries that are gone, have become EMPTY, or
    /// whose name is not UTF-8.  `names_scan` says exactly which names are
    /// returned on each view.
    pub fn names(&self, client: &VppStatClient) -> Vec<String> {
        let mem = client.mem_bytes();
        match StatSegmentAccess::start(mem) {
            Some(access) => names_scan(mem, &access, &self.dir_vec),
            None => Vec::new(),
        }
    }
}

} // verus!
