use vpp_stat_client::access::StatSegmentAccess;
use vpp_stat_client::add;
use vpp_stat_client::client::{dump_once, heartbeat_scan, VppStatClient};
use vpp_stat_client::data::StatValue;
use vpp_stat_client::dir::VppStatDir;
use vpp_stat_client::patterns::VppStringVec;
use vpp_stat_client::segment::{read_entry, read_shared_header, vec_elt_at_index, vec_len};
use vpp_stat_client::{VppStatDumpError, VppStatLsError, VppStatSegmentAccessError};

/// Producer-space address of segment offset 0 in the synthetic segments.
const BASE: u64 = 0x1000_0000;
const DIR_OFF: usize = 72;
const ENTRY: usize = 152;

fn put_u64(m: &mut [u8], off: usize, v: u64) {
    m[off..off + 8].copy_from_slice(&v.to_le_bytes());
}

fn put_u32(m: &mut [u8], off: usize, v: u32) {
    m[off..off + 4].copy_from_slice(&v.to_le_bytes());
}

/// A segment with a header and an empty heap: directory vector of
/// `dir_len` entries at DIR_OFF (its length prefix right before it).
fn seg_new(size: usize, epoch: u64, dir_len: u32) -> Vec<u8> {
    let mut m = vec![0u8; size];
    put_u64(&mut m, 0, 1); // version
    put_u64(&mut m, 8, BASE);
    put_u64(&mut m, 16, epoch);
    put_u64(&mut m, 24, 0); // in_progress
    put_u64(&mut m, 32, BASE + DIR_OFF as u64);
    put_u32(&mut m, DIR_OFF - 8, dir_len);
    m
}

fn set_epoch(m: &mut [u8], epoch: u64) {
    put_u64(m, 16, epoch);
}

fn set_in_progress(m: &mut [u8], v: u64) {
    put_u64(m, 24, v);
}

fn put_entry(m: &mut [u8], i: usize, tag: u32, word: u64, name: &[u8]) {
    let off = DIR_OFF + ENTRY * i;
    put_u32(m, off, tag);
    put_u64(m, off + 8, word);
    m[off + 24..off + 24 + name.len()].copy_from_slice(name);
    m[off + 24 + name.len()] = 0;
}

fn put_symlink(m: &mut [u8], i: usize, index1: u32, index2: u32, name: &[u8]) {
    let off = DIR_OFF + ENTRY * i;
    put_u32(m, off, 6); // SYMLINK
    put_u32(m, off + 8, index1);
    put_u32(m, off + 12, index2);
    m[off + 24..off + 24 + name.len()].copy_from_slice(name);
    m[off + 24 + name.len()] = 0;
}

/// Writes a producer array of u64 values with its length prefix; elements
/// start at `off`.  Returns the producer-space pointer to it.
fn put_u64_vec(m: &mut [u8], off: usize, values: &[u64]) -> u64 {
    put_u32(m, off - 8, values.len() as u32);
    for (j, v) in values.iter().enumerate() {
        put_u64(m, off + 8 * j, *v);
    }
    BASE + off as u64
}

/// Writes a combined-counter array (16-byte elements) with its length
/// prefix.  Returns the producer-space pointer to it.
fn put_pair_vec(m: &mut [u8], off: usize, values: &[(u64, u64)]) -> u64 {
    put_u32(m, off - 8, values.len() as u32);
    for (j, (p, b)) in values.iter().enumerate() {
        put_u64(m, off + 16 * j, *p);
        put_u64(m, off + 16 * j + 8, *b);
    }
    BASE + off as u64
}

/// Writes a NUL-terminated byte array with its length prefix.  Returns the
/// producer-space pointer to it.
fn put_c_str(m: &mut [u8], off: usize, s: &str) -> u64 {
    let bytes = s.as_bytes();
    put_u32(m, off - 8, (bytes.len() + 1) as u32);
    m[off..off + bytes.len()].copy_from_slice(bytes);
    m[off + bytes.len()] = 0;
    BASE + off as u64
}

fn client_from(bytes: &[u8]) -> VppStatClient {
    let mut mm = memmap::MmapMut::map_anon(bytes.len()).unwrap();
    mm[..].copy_from_slice(bytes);
    VppStatClient::new(mm.make_read_only().unwrap())
}

fn patterns_of(pats: &[&str]) -> VppStringVec {
    let mut v = VppStringVec::new();
    for p in pats {
        v.push(p);
    }
    v
}

#[test]
fn it_works() {
    let result = add(2, 2);
    assert_eq!(result, 4);
}

#[test]
fn header_round_trip() {
    let m = seg_new(4096, 7, 0);
    let h = read_shared_header(&m);
    assert_eq!(h.version, 1);
    assert_eq!(h.base, BASE);
    assert_eq!(h.epoch, 7);
    assert_eq!(h.in_progress, 0);
    assert_eq!(h.directory_vector, BASE + DIR_OFF as u64);
}

#[test]
fn guard_round_trip_on_quiet_segment() {
    let m = seg_new(4096, 3, 0);
    for _ in 0..4 {
        let access = StatSegmentAccess::start(&m).unwrap();
        assert_eq!(access.get_epoch(), 3);
        assert!(!access.data_changed(&m));
        assert!(access.end(&m).is_ok());
    }
}

#[test]
fn torn_read_detected_on_epoch_advance() {
    let mut m = seg_new(4096, 3, 0);
    let access = StatSegmentAccess::start(&m).unwrap();
    set_epoch(&mut m, 4);
    assert!(access.data_changed(&m));
    assert_eq!(
        access.end(&m),
        Err(VppStatSegmentAccessError::StatSegmentChanged)
    );
}

#[test]
fn torn_read_detected_on_in_progress() {
    let mut m = seg_new(4096, 3, 0);
    let access = StatSegmentAccess::start(&m).unwrap();
    set_in_progress(&mut m, 1);
    assert!(access.data_changed(&m));
    assert!(access.end(&m).is_err());
}

#[test]
fn start_refused_while_in_progress() {
    let mut m = seg_new(4096, 3, 0);
    set_in_progress(&mut m, 1);
    assert!(StatSegmentAccess::start(&m).is_none());
}

#[test]
fn rebase_arithmetic() {
    let m = seg_new(4096, 0, 0);
    let access = StatSegmentAccess::start(&m).unwrap();
    assert_eq!(access.stat_segment_adjust(BASE + 100), Some(100));
    assert_eq!(access.stat_segment_adjust(BASE), Some(0));
    assert_eq!(access.stat_segment_adjust(BASE - 1), None);
    assert_eq!(access.stat_segment_adjust(BASE + 4096), None);
    assert_eq!(access.get_directory_vector(), DIR_OFF);
}

#[test]
fn rebase_identity_when_bases_coincide() {
    // A producer whose base address is 0: rebasing leaves pointers as they
    // are, as long as they fall inside the segment.
    assert_eq!(StatSegmentAccess::stat_segment_adjust_x(0, 4096, 72), Some(72));
    assert_eq!(StatSegmentAccess::stat_segment_adjust_x(0, 4096, 4095), Some(4095));
    assert_eq!(StatSegmentAccess::stat_segment_adjust_x(0, 4096, 4096), None);
}

#[test]
fn vec_len_reads_prefix() {
    let mut m = seg_new(4096, 0, 0);
    // A null array has length 0.
    assert_eq!(vec_len(&m, 0), 0);
    // The length is 0 exactly when the prefix field is 0.
    put_u32(&mut m, 1016, 0);
    assert_eq!(vec_len(&m, 1024), 0);
    put_u32(&mut m, 1016, 3);
    assert_eq!(vec_len(&m, 1024), 3);
    put_u32(&mut m, 1016, 0xffff_ffff);
    assert_eq!(vec_len(&m, 1024), 0xffff_ffff);
}

#[test]
fn vec_elt_offsets() {
    assert_eq!(vec_elt_at_index(100, 8, 0), 100);
    assert_eq!(vec_elt_at_index(100, 8, 3), 124);
    assert_eq!(vec_elt_at_index(72, 152, 2), 376);
}

#[test]
fn scalar_dump_bit_exact() {
    let mut m = seg_new(4096, 5, 1);
    put_entry(&mut m, 0, 1, 0x4059000000000000, b"/sys/uptime");
    let mut client = client_from(&m);
    let dir = client.ls(Some(&patterns_of(&[".*"])));
    assert_eq!(dir.current_epoch, 5);
    assert_eq!(dir.dir_vec, vec![0]);
    let data = dir.dump(&client).unwrap();
    assert_eq!(data.len(), 1);
    assert!(!data.is_empty());
    let d = data.get(0);
    assert_eq!(d.name, "/sys/uptime");
    assert!(!d.via_symlink);
    match &d.value {
        StatValue::ScalarIndex(bits) => {
            assert_eq!(*bits, 0x4059000000000000);
            assert_eq!(f64::from_bits(*bits), 100.0);
        }
        _ => panic!("expected a scalar"),
    }
}

#[test]
fn scalar_preserves_nan_payload() {
    let nan_bits: u64 = 0x7ff8_0000_0000_beef;
    let mut m = seg_new(4096, 1, 1);
    put_entry(&mut m, 0, 1, nan_bits, b"/sys/odd");
    let dir = VppStatDir { dir_vec: vec![0], current_epoch: 1 };
    let data = dump_once(&m, &dir).unwrap();
    let d = data.get(0);
    match &d.value {
        StatValue::ScalarIndex(bits) => {
            assert_eq!(*bits, nan_bits);
            assert!(f64::from_bits(*bits).is_nan());
        }
        _ => panic!("expected a scalar"),
    }
}

#[test]
fn simple_table_two_by_three() {
    let mut m = seg_new(4096, 1, 1);
    let r0 = put_u64_vec(&mut m, 1064, &[1, 2, 3]);
    let r1 = put_u64_vec(&mut m, 1104, &[4, 5, 6]);
    let outer = put_u64_vec(&mut m, 1032, &[r0, r1]);
    put_entry(&mut m, 0, 2, outer, b"/if/rx");
    let dir = VppStatDir { dir_vec: vec![0], current_epoch: 1 };
    let data = dump_once(&m, &dir).unwrap();
    assert_eq!(data.len(), 1);
    match &data.get(0).value {
        StatValue::CounterVectorSimple(t) => {
            assert_eq!(t.len(), 2);
            assert_eq!(t.row(0), &vec![1u64, 2, 3]);
            assert_eq!(t.row(1), &vec![4u64, 5, 6]);
            assert_eq!(t.vector, vec![vec![1u64, 2, 3], vec![4, 5, 6]]);
        }
        _ => panic!("expected a simple table"),
    }
}

#[test]
fn combined_table_one_by_two() {
    let mut m = seg_new(4096, 1, 1);
    let row = put_pair_vec(&mut m, 1256, &[(10, 100), (20, 200)]);
    let outer = put_u64_vec(&mut m, 1232, &[row]);
    put_entry(&mut m, 0, 3, outer, b"/if/rx");
    let dir = VppStatDir { dir_vec: vec![0], current_epoch: 1 };
    let data = dump_once(&m, &dir).unwrap();
    match &data.get(0).value {
        StatValue::CounterVectorCombined(t) => {
            assert_eq!(t.len(), 1);
            let r = t.row(0);
            assert_eq!(r.len(), 2);
            assert_eq!((r[0].packets, r[0].bytes), (10, 100));
            assert_eq!((r[1].packets, r[1].bytes), (20, 200));
        }
        _ => panic!("expected a combined table"),
    }
}

#[test]
fn name_vector_dump_and_names() {
    let mut m = seg_new(4096, 1, 1);
    let s0 = put_c_str(&mut m, 1344, "eth0");
    let s1 = put_c_str(&mut m, 1368, "eth1");
    let outer = put_u64_vec(&mut m, 1320, &[s0, s1]);
    put_entry(&mut m, 0, 4, outer, b"/if/names");
    let mut client = client_from(&m);
    let dir = client.ls(None);
    let names: Vec<String> = dir.names(&client);
    assert_eq!(names, vec!["/if/names".to_string()]);
    let data = dir.dump(&client).unwrap();
    match &data.get(0).value {
        StatValue::NameVector(nv) => {
            assert_eq!(nv.len(), 2);
            assert_eq!(nv.name_at(0).as_str(), "eth0");
            assert_eq!(nv.name_at(1).as_str(), "eth1");
        }
        _ => panic!("expected a name vector"),
    }
}

#[test]
fn symlink_projects_combined_column() {
    let mut m = seg_new(4096, 1, 2);
    let row = put_pair_vec(&mut m, 1256, &[(10, 100), (20, 200)]);
    let outer = put_u64_vec(&mut m, 1232, &[row]);
    put_entry(&mut m, 0, 3, outer, b"/if/rx");
    put_symlink(&mut m, 1, 0, 0, b"/if/rx-eth0");
    let dir = VppStatDir { dir_vec: vec![0, 1], current_epoch: 1 };
    let data = dump_once(&m, &dir).unwrap();
    assert_eq!(data.len(), 2);
    let link = data.get(1);
    assert_eq!(link.name, "/if/rx-eth0");
    assert!(link.via_symlink);
    match &link.value {
        StatValue::CounterVectorCombined(t) => {
            assert_eq!(t.len(), 1);
            let r = t.row(0);
            assert_eq!(r.len(), 1);
            assert_eq!((r[0].packets, r[0].bytes), (10, 100));
        }
        _ => panic!("expected a combined table"),
    }
    // The direct entry keeps its full shape and its own name.
    let direct = data.get(0);
    assert_eq!(direct.name, "/if/rx");
    assert!(!direct.via_symlink);
}

#[test]
fn symlink_second_column() {
    let mut m = seg_new(4096, 1, 2);
    let row = put_pair_vec(&mut m, 1256, &[(10, 100), (20, 200)]);
    let outer = put_u64_vec(&mut m, 1232, &[row]);
    put_entry(&mut m, 0, 3, outer, b"/if/rx");
    put_symlink(&mut m, 1, 0, 1, b"/if/rx-eth1");
    let dir = VppStatDir { dir_vec: vec![1], current_epoch: 1 };
    let data = dump_once(&m, &dir).unwrap();
    match &data.get(0).value {
        StatValue::CounterVectorCombined(t) => {
            let r = t.row(0);
            assert_eq!((r[0].packets, r[0].bytes), (20, 200));
        }
        _ => panic!("expected a combined table"),
    }
}

#[test]
fn pattern_union_filter() {
    let mut m = seg_new(4096, 1, 3);
    put_entry(&mut m, 0, 1, 0, b"main");
    put_entry(&mut m, 1, 1, 0, b"/bfd/udp4/sessions");
    put_entry(&mut m, 2, 1, 0, b"/err/ip4");
    let mut client = client_from(&m);
    let dir = client.ls(Some(&patterns_of(&["/bfd/.*", "main"])));
    assert_eq!(dir.dir_vec, vec![0, 1]);
}

#[test]
fn match_is_not_anchored() {
    let mut m = seg_new(4096, 1, 2);
    put_entry(&mut m, 0, 1, 0, b"/bfd/udp4/sessions");
    put_entry(&mut m, 1, 1, 0, b"/err/ip4");
    let mut client = client_from(&m);
    let dir = client.ls(Some(&patterns_of(&["udp4"])));
    assert_eq!(dir.dir_vec, vec![0]);
}

#[test]
fn wildcard_returns_exactly_non_empty() {
    let mut m = seg_new(4096, 1, 3);
    put_entry(&mut m, 0, 1, 0, b"/sys/a");
    put_entry(&mut m, 1, 5, 0, b"stale"); // EMPTY
    put_entry(&mut m, 2, 1, 0, b"/sys/b");
    let mut client = client_from(&m);
    let dir = client.ls(Some(&patterns_of(&[".*"])));
    assert_eq!(dir.dir_vec, vec![0, 2]);
}

#[test]
fn empty_pattern_list_means_no_patterns() {
    let mut m = seg_new(4096, 1, 3);
    put_entry(&mut m, 0, 1, 0, b"/sys/a");
    put_entry(&mut m, 1, 5, 0, b"stale"); // EMPTY
    put_entry(&mut m, 2, 1, 0, b"/sys/b");
    let mut client = client_from(&m);
    let with_empty = client.ls(Some(&patterns_of(&[])));
    let with_none = client.ls(None);
    assert_eq!(with_empty.dir_vec, with_none.dir_vec);
    assert_eq!(with_none.dir_vec, vec![0, 2]);
}

#[test]
fn invalid_pattern_fails_fast() {
    let m = seg_new(4096, 1, 0);
    let mut client = client_from(&m);
    let r = client.ls_r(Some(&patterns_of(&["foo(bar"])));
    assert_eq!(r.unwrap_err(), VppStatLsError::RegexCompileError);
    // ls maps the failure to an empty handle.
    let dir = client.ls(Some(&patterns_of(&["foo(bar"])));
    assert!(dir.dir_vec.is_empty());
}

#[test]
fn obsolete_directory_detected() {
    let mut m = seg_new(4096, 5, 1);
    put_entry(&mut m, 0, 1, 0x4059000000000000, b"/sys/uptime");
    // A handle captured under epoch 5 against a segment now at epoch 6.
    set_epoch(&mut m, 6);
    let dir = VppStatDir { dir_vec: vec![0], current_epoch: 5 };
    assert!(matches!(dump_once(&m, &dir), Err(VppStatDumpError::ObsoleteDirData)));
    // Same through the client API.
    let client = client_from(&m);
    assert!(matches!(dir.dump(&client), Err(VppStatDumpError::ObsoleteDirData)));
}

#[test]
fn dump_fails_while_mutation_in_progress() {
    let mut m = seg_new(4096, 5, 1);
    put_entry(&mut m, 0, 1, 0, b"/sys/uptime");
    set_in_progress(&mut m, 1);
    let dir = VppStatDir { dir_vec: vec![0], current_epoch: 5 };
    assert!(matches!(dump_once(&m, &dir), Err(VppStatDumpError::AccessStartFailed)));
}

#[test]
fn heartbeat_reads_entry_zero() {
    let bits = 100.25f64.to_bits();
    let mut m = seg_new(4096, 9, 1);
    put_entry(&mut m, 0, 1, bits, b"/sys/heartbeat");
    let client = client_from(&m);
    assert_eq!(client.heartbeat(), bits);
    assert_eq!(f64::from_bits(client.heartbeat()), 100.25);
}

#[test]
fn heartbeat_zero_on_stale_epoch() {
    let bits = 1.0f64.to_bits();
    let mut m = seg_new(4096, 9, 1);
    put_entry(&mut m, 0, 1, bits, b"/sys/heartbeat");
    // A heartbeat read is trusted only under the epoch captured earlier:
    // against a view at epoch 9, a client that captured 8 reads 0.
    assert_eq!(heartbeat_scan(&m, 8), 0);
    assert_eq!(heartbeat_scan(&m, 9), bits);
}

#[test]
fn index_to_name_lookup() {
    let mut m = seg_new(4096, 1, 3);
    put_entry(&mut m, 0, 1, 0, b"/sys/a");
    put_entry(&mut m, 1, 5, 0, b"gone"); // EMPTY
    put_entry(&mut m, 2, 1, 0, b"/sys/b");
    let client = client_from(&m);
    assert_eq!(client.stat_segment_index_to_name_r(0), Some("/sys/a".to_string()));
    assert_eq!(client.stat_segment_index_to_name_r(1), None);
    assert_eq!(client.stat_segment_index_to_name_r(2), Some("/sys/b".to_string()));
    assert_eq!(client.stat_segment_index_to_name_r(3), None);
}

#[test]
fn invalid_utf8_name_is_omitted() {
    let mut m = seg_new(4096, 1, 2);
    put_entry(&mut m, 0, 1, 0, b"/sys/a");
    put_entry(&mut m, 1, 1, 0, &[0xff, 0xfe, 0x41]);
    let mut client = client_from(&m);
    // Without patterns both indices are retained (no name is read) ...
    let dir = client.ls(None);
    assert_eq!(dir.dir_vec, vec![0, 1]);
    // ... but the undecodable name is omitted from names() and its entry
    // is skipped by dump.
    assert_eq!(dir.names(&client), vec!["/sys/a".to_string()]);
    let data = dir.dump(&client).unwrap();
    assert_eq!(data.len(), 1);
    assert_eq!(data.get(0).name, "/sys/a");
    // With a wildcard pattern the name must be read, so the entry with the
    // undecodable name is not retained at all.
    let filtered = client.ls(Some(&patterns_of(&[".*"])));
    assert_eq!(filtered.dir_vec, vec![0]);
}

#[test]
fn zero_length_outer_vector_is_empty_table() {
    let mut m = seg_new(4096, 1, 1);
    let outer = put_u64_vec(&mut m, 1032, &[]);
    put_entry(&mut m, 0, 2, outer, b"/if/rx");
    let dir = VppStatDir { dir_vec: vec![0], current_epoch: 1 };
    let data = dump_once(&m, &dir).unwrap();
    match &data.get(0).value {
        StatValue::CounterVectorSimple(t) => assert_eq!(t.len(), 0),
        _ => panic!("expected a simple table"),
    }
}

#[test]
fn null_data_pointer_is_empty_table() {
    let mut m = seg_new(4096, 1, 1);
    put_entry(&mut m, 0, 2, 0, b"/if/rx");
    let dir = VppStatDir { dir_vec: vec![0], current_epoch: 1 };
    let data = dump_once(&m, &dir).unwrap();
    match &data.get(0).value {
        StatValue::CounterVectorSimple(t) => assert_eq!(t.len(), 0),
        _ => panic!("expected a simple table"),
    }
}

#[test]
fn illegal_and_unknown_tags_are_skipped() {
    let mut m = seg_new(4096, 1, 3);
    put_entry(&mut m, 0, 0, 0, b"illegal");
    put_entry(&mut m, 1, 7, 0, b"unknown");
    put_entry(&mut m, 2, 1, 42, b"/sys/ok");
    let dir = VppStatDir { dir_vec: vec![0, 1, 2], current_epoch: 1 };
    let data = dump_once(&m, &dir).unwrap();
    assert_eq!(data.len(), 1);
    assert_eq!(data.get(0).name, "/sys/ok");
}

#[test]
fn read_entry_fields() {
    let mut m = seg_new(4096, 1, 2);
    put_entry(&mut m, 0, 1, 0xdead_beef_0123_4567, b"/sys/x");
    put_symlink(&mut m, 1, 7, 9, b"/sys/link");
    let e0 = read_entry(&m, DIR_OFF);
    assert_eq!(e0.type_, 1);
    assert_eq!(e0.value, 0xdead_beef_0123_4567);
    assert_eq!(e0.name, b"/sys/x".to_vec());
    let e1 = read_entry(&m, DIR_OFF + ENTRY);
    assert_eq!(e1.type_, 6);
    assert_eq!(e1.indices.index1, 7);
    assert_eq!(e1.indices.index2, 9);
    assert_eq!(e1.name, b"/sys/link".to_vec());
}

#[test]
fn dump_skips_entries_gone_empty() {
    // An index retained earlier whose entry has since become EMPTY is
    // skipped; the snapshot holds only the live entries.
    let mut m = seg_new(4096, 1, 2);
    put_entry(&mut m, 0, 5, 0, b"gone"); // EMPTY
    put_entry(&mut m, 1, 1, 3, b"/sys/live");
    let dir = VppStatDir { dir_vec: vec![0, 1], current_epoch: 1 };
    let data = dump_once(&m, &dir).unwrap();
    assert_eq!(data.len(), 1);
    assert_eq!(data.get(0).name, "/sys/live");
}

#[test]
fn string_vector_holds_patterns() {
    let mut v = VppStringVec::new();
    assert_eq!(v.len(), 0);
    v.push("main");
    v.push(".*");
    assert_eq!(v.len(), 2);
    assert_eq!(v.get(0).as_str(), "main");
    assert_eq!(v.get(1).as_str(), ".*");
}

#[test]
fn client_reports_timeout_and_header() {
    let m = seg_new(4096, 2, 0);
    let mut client = client_from(&m);
    assert_eq!(client.get_timeout(), None);
    client.set_timeout(Some(16));
    assert_eq!(client.get_timeout(), Some(16));
    let h = client.get_shared_header().unwrap();
    assert_eq!(h.epoch, 2);
    assert_eq!(h.base, BASE);
}
