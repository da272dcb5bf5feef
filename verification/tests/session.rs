//! The session lifecycle against the in-memory namespace: connect, create,
//! read back, list, rename, move, delete.

use hdfs::HdfsBuilder;
use hdfs::HdfsConnection;
use hdfs::HdfsDirectoryEntryKind;
use hdfs::HdfsErrorKind;
use hdfs::SeekFrom;

fn local_connection() -> HdfsConnection {
    let mut builder = HdfsBuilder::new();
    builder.name_node(None);
    builder.connect().expect("connecting to the local namespace cannot fail")
}

fn put(conn: &mut HdfsConnection, path: &str, bytes: &[u8]) {
    let file_builder = conn.open_create_builder(path).unwrap();
    let mut file = file_builder.build(conn).unwrap();
    let n = file.write(&bytes.to_vec()).unwrap();
    assert_eq!(n, bytes.len());
    file.close(conn).unwrap();
}

fn get(conn: &mut HdfsConnection, path: &str) -> Vec<u8> {
    let mut file = conn.open_read(path).unwrap();
    let bytes = file.read_to_end().unwrap();
    file.close(conn).unwrap();
    bytes
}

#[test]
fn put_get_rm_round_trip() {
    let mut conn = local_connection();
    put(&mut conn, "/tmp/x", b"abc");
    assert_eq!(get(&mut conn, "/tmp/x"), b"abc".to_vec());
    conn.delete("/tmp/x", false).unwrap();
    assert_eq!(conn.path_exists("/tmp/x").unwrap(), false);
}

#[test]
fn empty_file_round_trip() {
    let mut conn = local_connection();
    put(&mut conn, "/empty_file", b"");
    assert_eq!(get(&mut conn, "/empty_file"), Vec::<u8>::new());
    let entries = conn.list_dir("/empty_file").unwrap();
    assert_eq!(entries[0].size, 0);
}

#[test]
fn exists_reflects_creation_and_deletion() {
    let mut conn = local_connection();
    assert_eq!(conn.path_exists("/a").unwrap(), false);
    put(&mut conn, "/a", b"1");
    assert_eq!(conn.path_exists("/a").unwrap(), true);
    put(&mut conn, "/b", b"2");
    conn.delete("/b", false).unwrap();
    assert_eq!(conn.path_exists("/a").unwrap(), true);
    assert_eq!(conn.path_exists("/b").unwrap(), false);
    assert_eq!(conn.path_exists("/").unwrap(), true);
}

#[test]
fn list_dir_empty_directory_is_ok_and_empty() {
    let mut conn = local_connection();
    conn.mkdir("/empty").unwrap();
    let entries = conn.list_dir("/empty").unwrap();
    assert_eq!(entries.len(), 0);
}

#[test]
fn list_dir_missing_path_is_not_found() {
    let conn = local_connection();
    let err = conn.list_dir("/nope").unwrap_err();
    assert_eq!(err.kind(), HdfsErrorKind::NotFound);
}

#[test]
fn list_dir_lists_direct_children_only() {
    let mut conn = local_connection();
    put(&mut conn, "/a", b"x");
    put(&mut conn, "/b/c", b"y");
    conn.mkdir("/d").unwrap();
    let entries = conn.list_dir("/").unwrap();
    let names: Vec<String> = entries.iter().map(|e| e.name.clone()).collect();
    assert_eq!(names, vec!["/a".to_string(), "/d".to_string()]);
    assert_eq!(entries[0].kind, HdfsDirectoryEntryKind::File);
    assert_eq!(entries[0].size, 1);
    assert_eq!(entries[1].kind, HdfsDirectoryEntryKind::Directory);
}

#[test]
fn list_dir_of_file_lists_the_file_itself() {
    let mut conn = local_connection();
    put(&mut conn, "/f", b"abcd");
    let entries = conn.list_dir("/f").unwrap();
    assert_eq!(entries.len(), 1);
    assert_eq!(entries[0].name, "/f");
    assert_eq!(entries[0].size, 4);
    assert_eq!(entries[0].kind, HdfsDirectoryEntryKind::File);
}

#[test]
fn chown_changes_owner_and_keeps_group() {
    let mut conn = local_connection();
    put(&mut conn, "/owned", b"z");
    conn.chown("/owned", None, Some("staff")).unwrap();
    conn.chown("/owned", Some("alice"), None).unwrap();
    let entries = conn.list_dir("/owned").unwrap();
    assert_eq!(entries[0].owner, "alice");
    assert_eq!(entries[0].group, "staff");
}

#[test]
fn chown_missing_path_is_not_found() {
    let mut conn = local_connection();
    let err = conn.chown("/nope", Some("alice"), None).unwrap_err();
    assert_eq!(err.kind(), HdfsErrorKind::NotFound);
}

#[test]
fn chmod_sets_permission_bits() {
    let mut conn = local_connection();
    put(&mut conn, "/m", b"z");
    conn.chmod("/m", 0o600).unwrap();
    let entries = conn.list_dir("/m").unwrap();
    assert_eq!(entries[0].permissions, 0o600);
}

#[test]
fn rename_moves_the_node() {
    let mut conn = local_connection();
    put(&mut conn, "/from", b"v");
    conn.rename("/from", "/to").unwrap();
    assert_eq!(conn.path_exists("/from").unwrap(), false);
    assert_eq!(get(&mut conn, "/to"), b"v".to_vec());
}

#[test]
fn rename_refuses_existing_destination_and_missing_source() {
    let mut conn = local_connection();
    put(&mut conn, "/one", b"1");
    put(&mut conn, "/two", b"2");
    let err = conn.rename("/one", "/two").unwrap_err();
    assert_eq!(err.kind(), HdfsErrorKind::Other);
    let err = conn.rename("/zero", "/three").unwrap_err();
    assert_eq!(err.kind(), HdfsErrorKind::NotFound);
}

#[test]
fn move_to_crosses_connections() {
    let mut src = local_connection();
    let mut dst = local_connection();
    put(&mut src, "/payload", b"data");
    src.move_to("/payload", &mut dst, "/landed").unwrap();
    assert_eq!(src.path_exists("/payload").unwrap(), false);
    assert_eq!(get(&mut dst, "/landed"), b"data".to_vec());
}

#[test]
fn delete_refuses_non_empty_directory_without_recursive() {
    let mut conn = local_connection();
    conn.mkdir("/d").unwrap();
    put(&mut conn, "/d/x", b"1");
    let err = conn.delete("/d", false).unwrap_err();
    assert_eq!(err.kind(), HdfsErrorKind::Other);
    conn.delete("/d", true).unwrap();
    assert_eq!(conn.path_exists("/d").unwrap(), false);
    assert_eq!(conn.path_exists("/d/x").unwrap(), false);
}

#[test]
fn delete_missing_path_is_not_found() {
    let mut conn = local_connection();
    let err = conn.delete("/nope", false).unwrap_err();
    assert_eq!(err.kind(), HdfsErrorKind::NotFound);
}

#[test]
fn truncate_shortens_and_checks_bounds() {
    let mut conn = local_connection();
    put(&mut conn, "/t", b"abcdef");
    conn.truncate("/t", 3).unwrap();
    assert_eq!(get(&mut conn, "/t"), b"abc".to_vec());
    let err = conn.truncate("/t", 10).unwrap_err();
    assert_eq!(err.kind(), HdfsErrorKind::Other);
    let err = conn.truncate("/t", -1).unwrap_err();
    assert_eq!(err.kind(), HdfsErrorKind::InvalidInput);
    conn.mkdir("/td").unwrap();
    let err = conn.truncate("/td", 0).unwrap_err();
    assert_eq!(err.kind(), HdfsErrorKind::Other);
}

#[test]
fn mkdir_is_idempotent_and_refuses_files() {
    let mut conn = local_connection();
    conn.mkdir("/dir").unwrap();
    conn.mkdir("/dir").unwrap();
    put(&mut conn, "/file", b"x");
    let err = conn.mkdir("/file").unwrap_err();
    assert_eq!(err.kind(), HdfsErrorKind::Other);
}

#[test]
fn append_extends_existing_content() {
    let mut conn = local_connection();
    put(&mut conn, "/log", b"one");
    let mut file = conn.open_append("/log").unwrap();
    file.write(&b",two".to_vec()).unwrap();
    file.close(&mut conn).unwrap();
    assert_eq!(get(&mut conn, "/log"), b"one,two".to_vec());
}

#[test]
fn append_to_missing_file_is_not_found() {
    let mut conn = local_connection();
    let err = conn.open_append("/nope").unwrap_err();
    assert_eq!(err.kind(), HdfsErrorKind::NotFound);
}

#[test]
fn open_read_missing_file_is_not_found() {
    let mut conn = local_connection();
    let err = conn.open_read("/nope").unwrap_err();
    assert_eq!(err.kind(), HdfsErrorKind::NotFound);
}

#[test]
fn flush_makes_writes_visible_before_close() {
    let mut conn = local_connection();
    let mut file = conn.open_create("/seen").unwrap();
    file.write(&b"early".to_vec()).unwrap();
    file.flush(&mut conn).unwrap();
    assert_eq!(get(&mut conn, "/seen"), b"early".to_vec());
    file.sync(&mut conn).unwrap();
    file.close(&mut conn).unwrap();
}

#[test]
fn create_overwrites_existing_file() {
    let mut conn = local_connection();
    put(&mut conn, "/w", b"first");
    put(&mut conn, "/w", b"second");
    assert_eq!(get(&mut conn, "/w"), b"second".to_vec());
}

#[test]
fn read_fills_buffer_prefix_and_advances() {
    let mut conn = local_connection();
    put(&mut conn, "/r", b"abcdef");
    let mut file = conn.open_read("/r").unwrap();
    let mut buf = vec![0u8; 4];
    let n = file.read(&mut buf).unwrap();
    assert_eq!(n, 4);
    assert_eq!(buf, b"abcd".to_vec());
    let n = file.read(&mut buf).unwrap();
    assert_eq!(n, 2);
    assert_eq!(buf, b"efcd".to_vec());
    let n = file.read(&mut buf).unwrap();
    assert_eq!(n, 0);
}

#[test]
fn read_on_write_handle_and_write_on_read_handle_fail() {
    let mut conn = local_connection();
    put(&mut conn, "/rw", b"abc");
    let mut reader = conn.open_read("/rw").unwrap();
    let err = reader.write(&b"x".to_vec()).unwrap_err();
    assert_eq!(err.kind(), HdfsErrorKind::Other);
    let mut writer = conn.open_create("/rw2").unwrap();
    let mut buf = vec![0u8; 1];
    let err = writer.read(&mut buf).unwrap_err();
    assert_eq!(err.kind(), HdfsErrorKind::Other);
}

#[test]
fn seek_current_zero_reports_preceding_seek_position() {
    let mut conn = local_connection();
    put(&mut conn, "/s", b"abcdef");
    let mut file = conn.open_read("/s").unwrap();
    let here = file.seek(SeekFrom::Start(2)).unwrap();
    assert_eq!(here, 2);
    let told = file.seek(SeekFrom::Current(0)).unwrap();
    assert_eq!(told, 2);
    let there = file.seek(SeekFrom::Current(3)).unwrap();
    assert_eq!(there, 5);
    let told = file.seek(SeekFrom::Current(0)).unwrap();
    assert_eq!(told, 5);
    assert_eq!(file.read_to_end().unwrap(), b"f".to_vec());
}

#[test]
fn seek_overflow_is_invalid_input_and_end_is_unsupported() {
    let mut conn = local_connection();
    put(&mut conn, "/s2", b"abc");
    let mut file = conn.open_read("/s2").unwrap();
    let err = file.seek(SeekFrom::Start(u64::MAX)).unwrap_err();
    assert_eq!(err.kind(), HdfsErrorKind::InvalidInput);
    file.seek(SeekFrom::Start(2)).unwrap();
    let err = file.seek(SeekFrom::Current(i64::MAX)).unwrap_err();
    assert_eq!(err.kind(), HdfsErrorKind::InvalidInput);
    let err = file.seek(SeekFrom::Current(-3)).unwrap_err();
    assert_eq!(err.kind(), HdfsErrorKind::Other);
    let err = file.seek(SeekFrom::End(0)).unwrap_err();
    assert_eq!(err.kind(), HdfsErrorKind::Unsupported);
    let told = file.seek(SeekFrom::Current(0)).unwrap();
    assert_eq!(told, 2);
}

#[test]
fn seek_beyond_end_or_on_write_handle_fails() {
    let mut conn = local_connection();
    put(&mut conn, "/s3", b"abc");
    let mut file = conn.open_read("/s3").unwrap();
    let err = file.seek(SeekFrom::Start(4)).unwrap_err();
    assert_eq!(err.kind(), HdfsErrorKind::Other);
    let mut writer = conn.open_create("/s4").unwrap();
    writer.write(&b"xy".to_vec()).unwrap();
    let err = writer.seek(SeekFrom::Start(0)).unwrap_err();
    assert_eq!(err.kind(), HdfsErrorKind::Other);
    let told = writer.seek(SeekFrom::Current(0)).unwrap();
    assert_eq!(told, 2);
}

#[test]
fn stream_builder_rejects_write_options_on_read_streams() {
    let mut conn = local_connection();
    put(&mut conn, "/opts", b"x");
    let mut read_builder = conn.open_read_builder("/opts").unwrap();
    read_builder.buffer_size(4096).unwrap();
    let err = read_builder.default_block_size(1 << 20).unwrap_err();
    assert_eq!(err.kind(), HdfsErrorKind::InvalidInput);
    let err = read_builder.replication(2).unwrap_err();
    assert_eq!(err.kind(), HdfsErrorKind::InvalidInput);
    let mut write_builder = conn.open_create_builder("/opts2").unwrap();
    write_builder.buffer_size(4096).unwrap();
    write_builder.default_block_size(1 << 20).unwrap();
    write_builder.replication(2).unwrap();
    let file = write_builder.build(&mut conn).unwrap();
    file.close(&mut conn).unwrap();
    let entries = conn.list_dir("/opts2").unwrap();
    assert_eq!(entries[0].replication, 2);
    assert_eq!(entries[0].block_size, 1 << 20);
}

#[test]
fn builder_user_becomes_owner_of_created_files() {
    let mut builder = HdfsConnection::builder();
    builder.name_node(Some("default"));
    builder.user_name("bob");
    builder.force_new_instance();
    builder.conf_set("dfs.client.use.datanode.hostname", "true").unwrap();
    let mut conn = builder.connect().unwrap();
    put(&mut conn, "/mine", b"x");
    let entries = conn.list_dir("/mine").unwrap();
    assert_eq!(entries[0].owner, "bob");
}

#[test]
fn conf_set_rejects_embedded_terminator() {
    let mut builder = HdfsBuilder::new();
    let err = builder.conf_set("bad\0key", "value").unwrap_err();
    assert_eq!(err.kind(), HdfsErrorKind::InvalidInput);
    let err = builder.conf_set("key", "bad\0value").unwrap_err();
    assert_eq!(err.kind(), HdfsErrorKind::InvalidInput);
    builder.conf_set("key", "value").unwrap();
}
