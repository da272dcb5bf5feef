//! The pure decision layer: error translation, native strings, transfer
//! clamping, listing disambiguation and entry marshalling.

use hdfs::cstr::try_to_c_bytes;
use hdfs::cstr::StringPool;
use hdfs::entry::interpret_listing;
use hdfs::entry::marshal_entries;
use hdfs::entry::time_t_to_secs;
use hdfs::entry::ListSignal;
use hdfs::entry::RawFileInfo;
use hdfs::entry::LIST_COUNT_SENTINEL;
use hdfs::entry::OBJECT_KIND_DIRECTORY;
use hdfs::entry::OBJECT_KIND_FILE;
use hdfs::error::interpret_exists;
use hdfs::check_rt;
use hdfs::transfer::clamp_transfer_len;
use hdfs::transfer::interpret_transfer;
use hdfs::transfer::MAX_TRANSFER;
use hdfs::HdfsDirectoryEntryKind;
use hdfs::HdfsError;
use hdfs::HdfsErrorKind;

#[test]
fn check_rt_zero_is_ok_and_nonzero_carries_the_error() {
    assert!(check_rt(0, HdfsError::other("unused".to_string())).is_ok());
    let err = check_rt(-1, HdfsError::native(5, false, "io".to_string())).unwrap_err();
    assert_eq!(err.kind(), HdfsErrorKind::Other);
    assert_eq!(err.raw_os(), 5);
    assert_eq!(err.message(), "io");
}

#[test]
fn interpret_exists_disambiguates_not_found() {
    assert_eq!(interpret_exists(0, HdfsError::other("unused".to_string())).unwrap(), true);
    let not_found = HdfsError::native(2, true, "no such file".to_string());
    assert_eq!(interpret_exists(-1, not_found).unwrap(), false);
    let other = HdfsError::native(13, false, "permission denied".to_string());
    let err = interpret_exists(-1, other).unwrap_err();
    assert_eq!(err.kind(), HdfsErrorKind::Other);
    assert_eq!(err.raw_os(), 13);
}

#[test]
fn transfer_clamping_and_interpretation() {
    assert_eq!(clamp_transfer_len(10), 10);
    assert_eq!(clamp_transfer_len(MAX_TRANSFER), i32::MAX);
    assert_eq!(clamp_transfer_len(MAX_TRANSFER + 1), i32::MAX);
    assert_eq!(interpret_transfer(42, HdfsError::other("unused".to_string())).unwrap(), 42);
    assert_eq!(interpret_transfer(0, HdfsError::other("unused".to_string())).unwrap(), 0);
    let err = interpret_transfer(-1, HdfsError::native(5, false, "io".to_string())).unwrap_err();
    assert_eq!(err.raw_os(), 5);
}

#[test]
fn c_bytes_are_terminated_and_nul_is_rejected() {
    assert_eq!(try_to_c_bytes("ab").unwrap(), vec![97u8, 98, 0]);
    assert_eq!(try_to_c_bytes("").unwrap(), vec![0u8]);
    let err = try_to_c_bytes("a\0b").unwrap_err();
    assert_eq!(err.kind(), HdfsErrorKind::InvalidInput);
}

#[test]
fn string_pool_appends_and_keeps_entries() {
    let mut pool = StringPool::new();
    assert_eq!(pool.len(), 0);
    let first = pool.intern("alpha").unwrap();
    assert_eq!(first, 0);
    let second = pool.intern("beta").unwrap();
    assert_eq!(second, 1);
    let err = pool.intern("ga\0mma").unwrap_err();
    assert_eq!(err.kind(), HdfsErrorKind::InvalidInput);
    assert_eq!(pool.len(), 2);
    assert_eq!(pool.entry(0).clone(), vec![97u8, 108, 112, 104, 97, 0]);
    assert_eq!(pool.entry(1).clone(), vec![98u8, 101, 116, 97, 0]);
    assert_eq!(pool.intern_opt(None).unwrap(), None);
    assert_eq!(pool.intern_opt(Some("c")).unwrap(), Some(2));
    assert_eq!(pool.len(), 3);
    assert_eq!(pool.entry(0).clone(), vec![97u8, 108, 112, 104, 97, 0]);
}

#[test]
fn listing_signal_disambiguation() {
    assert_ne!(LIST_COUNT_SENTINEL, 0);
    assert_eq!(interpret_listing(true, 7), ListSignal::Entries);
    assert_eq!(interpret_listing(true, LIST_COUNT_SENTINEL), ListSignal::Entries);
    assert_eq!(interpret_listing(false, 0), ListSignal::EmptyDir);
    assert_eq!(interpret_listing(false, LIST_COUNT_SENTINEL), ListSignal::Failure);
}

#[test]
fn kind_codes_classify_with_an_escape_hatch() {
    assert_eq!(HdfsDirectoryEntryKind::from_code(OBJECT_KIND_FILE), HdfsDirectoryEntryKind::File);
    assert_eq!(
        HdfsDirectoryEntryKind::from_code(OBJECT_KIND_DIRECTORY),
        HdfsDirectoryEntryKind::Directory
    );
    assert_eq!(HdfsDirectoryEntryKind::from_code(1), HdfsDirectoryEntryKind::Unrecognized(1));
    assert_eq!(HdfsDirectoryEntryKind::from(OBJECT_KIND_FILE), HdfsDirectoryEntryKind::File);
}

#[test]
fn str_to_cstr_terminates_the_bytes() {
    assert_eq!(hdfs::cstr::str_to_cstr("hi"), vec![104u8, 105, 0]);
}

#[test]
fn marshalling_copies_fields_and_reinterprets_widths() {
    let raws = vec![
        RawFileInfo {
            kind_code: OBJECT_KIND_FILE,
            name: "hdfs://host/a".to_string(),
            last_modified: 1_600_000_000,
            size: 42,
            replication: 3,
            block_size: 134_217_728,
            owner: "alice".to_string(),
            group: "staff".to_string(),
            permissions: 0o644,
            last_access: 1_600_000_001,
        },
        RawFileInfo {
            kind_code: 9,
            name: "hdfs://host/weird".to_string(),
            last_modified: -1,
            size: -1,
            replication: -1,
            block_size: 0,
            owner: String::new(),
            group: String::new(),
            permissions: -1,
            last_access: 0,
        },
    ];
    let entries = marshal_entries(&raws);
    assert_eq!(entries.len(), 2);
    assert_eq!(entries[0].kind, HdfsDirectoryEntryKind::File);
    assert_eq!(entries[0].name, "hdfs://host/a");
    assert_eq!(entries[0].last_modified, 1_600_000_000);
    assert_eq!(entries[0].size, 42);
    assert_eq!(entries[0].replication, 3);
    assert_eq!(entries[0].block_size, 134_217_728);
    assert_eq!(entries[0].owner, "alice");
    assert_eq!(entries[0].group, "staff");
    assert_eq!(entries[0].permissions, 0o644);
    assert_eq!(entries[0].last_access, 1_600_000_001);
    assert_eq!(entries[1].kind, HdfsDirectoryEntryKind::Unrecognized(9));
    assert_eq!(entries[1].last_modified, u64::MAX);
    assert_eq!(entries[1].size, u64::MAX);
    assert_eq!(entries[1].replication, u16::MAX);
    assert_eq!(entries[1].permissions, u16::MAX);
}

#[test]
fn time_reinterprets_as_unsigned_seconds() {
    assert_eq!(time_t_to_secs(0), 0);
    assert_eq!(time_t_to_secs(1_600_000_000), 1_600_000_000);
    assert_eq!(time_t_to_secs(-1), u64::MAX);
}
