use node_fs::error::{ErrorKind, ErrorValue, OsError};
use node_fs::reply::{
    finish_errno_unit, finish_open, finish_read_sync, finish_realpath, finish_rm, finish_seek,
    finish_stat, finish_unit, rm_removal, Removal,
};
use node_fs::stat::Metadata;
use node_fs::value::Reply;

fn not_found() -> OsError {
    OsError { code: Some(2), kind: ErrorKind::NotFound, message: "not found".to_string() }
}

fn not_found_value() -> ErrorValue {
    ErrorValue::Os { code: Some(2), kind: "NotFound".to_string(), message: "not found".to_string() }
}

#[test]
fn rm_missing_with_force_is_silent() {
    assert_eq!(finish_rm(Err(not_found()), true), Reply::UnDefined);
}

#[test]
fn rm_missing_without_force_raises() {
    assert_eq!(finish_rm(Err(not_found()), false), Reply::Throw(not_found_value()));
}

#[test]
fn rm_force_does_not_hide_other_errors() {
    let e = OsError { code: Some(39), kind: ErrorKind::Other("DirectoryNotEmpty".to_string()), message: "m".to_string() };
    assert_eq!(
        finish_rm(Err(e), true),
        Reply::Throw(ErrorValue::Os { code: Some(39), kind: "DirectoryNotEmpty".to_string(), message: "m".to_string() })
    );
    assert_eq!(finish_rm(Ok(()), false), Reply::UnDefined);
}

#[test]
fn rm_removal_choice() {
    assert_eq!(rm_removal(true, true), Removal::File);
    assert_eq!(rm_removal(false, true), Removal::DirAll);
    assert_eq!(rm_removal(false, false), Removal::Dir);
}

#[test]
fn mkdir_with_missing_parent_raises_not_found() {
    assert_eq!(finish_unit(Err(not_found())), Reply::Throw(not_found_value()));
    assert_eq!(finish_unit(Ok(())), Reply::UnDefined);
}

#[test]
fn open_of_existing_with_exclusive_raises() {
    assert_eq!(
        finish_open(Err(wasi::ERRNO_EXIST)),
        Reply::Throw(ErrorValue::Sandbox { message: "File exists.".to_string() })
    );
    assert_eq!(finish_open(Ok(7)), Reply::Fd(7));
}

#[test]
fn read_sync_returns_whole_buffer() {
    let buf = vec![104, 105, 0, 0];
    assert_eq!(finish_read_sync(buf.clone(), Ok(2)), Reply::Buffer(buf));
    assert_eq!(
        finish_read_sync(vec![0; 4], Err(wasi::ERRNO_BADF)),
        Reply::Throw(ErrorValue::Sandbox { message: "Bad file descriptor.".to_string() })
    );
}

#[test]
fn seek_failure_ends_the_call() {
    assert_eq!(finish_seek(Ok(10)), None);
    assert_eq!(
        finish_seek(Err(wasi::ERRNO_BADF)),
        Some(Reply::Throw(ErrorValue::Sandbox { message: "Bad file descriptor.".to_string() }))
    );
}

#[test]
fn sandbox_unit_calls() {
    assert_eq!(finish_errno_unit(Ok(())), Reply::UnDefined);
    assert_eq!(
        finish_errno_unit(Err(wasi::ERRNO_NOENT)),
        Reply::Throw(ErrorValue::Sandbox { message: "No such file or directory.".to_string() })
    );
}

#[test]
fn stat_and_realpath_replies() {
    let m = Metadata {
        is_file: false,
        is_dir: true,
        is_symlink: false,
        is_block_device: false,
        is_char_device: false,
        is_socket: false,
        len: 4096,
        modified: None,
        accessed: None,
        created: None,
        dev: 1,
        ino: 2,
        readonly: false,
        nlink: 3,
    };
    match finish_stat(Ok(m)) {
        Reply::Stat(r) => {
            assert!(r.is_directory);
            assert_eq!(r.size, 4096);
            assert_eq!(r.mode, 0o777);
        }
        other => panic!("unexpected {:?}", other),
    }
    assert_eq!(finish_stat(Err(not_found())), Reply::Throw(not_found_value()));
    assert_eq!(finish_realpath(Ok("/real".to_string())), Reply::Path("/real".to_string()));
}
