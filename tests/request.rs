use node_fs::flags::translate_open_flags;
use node_fs::request::{decode, Op, Request};
use node_fs::value::JsValue;

fn s(v: &str) -> JsValue {
    JsValue::Str(v.to_string())
}

#[test]
fn stat_and_lstat_differ_in_follow() {
    let args = vec![s("/a")];
    assert_eq!(decode(Op::StatSync, &args), Some(Request::Stat { path: "/a".to_string(), follow: true }));
    assert_eq!(decode(Op::LstatSync, &args), Some(Request::Stat { path: "/a".to_string(), follow: false }));
}

#[test]
fn missing_or_mistyped_arguments_make_no_request() {
    assert_eq!(decode(Op::StatSync, &vec![]), None);
    assert_eq!(decode(Op::StatSync, &vec![JsValue::Int(3)]), None);
    assert_eq!(decode(Op::FstatSync, &vec![s("3")]), None);
    // mkdir needs its mode as an integer even though it is not used
    assert_eq!(decode(Op::MkdirSync, &vec![s("/d"), JsValue::Bool(true)]), None);
    assert_eq!(decode(Op::MkdirSync, &vec![s("/d"), JsValue::Int(1), JsValue::Int(0o777)]), None);
    assert_eq!(decode(Op::RmSync, &vec![s("/x"), JsValue::Bool(false), JsValue::Null]), None);
    assert_eq!(decode(Op::RenameSync, &vec![s("/x")]), None);
    assert_eq!(decode(Op::UtimeSync, &vec![s("/x"), JsValue::Int(1), JsValue::Float(2)]), None);
    assert_eq!(decode(Op::FreadSync, &vec![JsValue::Int(3), JsValue::Int(0)]), None);
    assert_eq!(decode(Op::OpenSync, &vec![s("/x"), JsValue::Int(0), JsValue::UnDefined]), None);
    assert_eq!(decode(Op::Fread, &vec![JsValue::Other, JsValue::Int(0), JsValue::Int(1)]), None);
}

#[test]
fn mkdir_rmdir_rm() {
    let a = vec![s("/d/e"), JsValue::Bool(true), JsValue::Int(0o755)];
    assert_eq!(decode(Op::MkdirSync, &a), Some(Request::Mkdir { path: "/d/e".to_string(), recursive: true }));
    let b = vec![s("/d"), JsValue::Bool(false)];
    assert_eq!(decode(Op::RmdirSync, &b), Some(Request::Rmdir { path: "/d".to_string(), recursive: false }));
    let c = vec![s("/gone"), JsValue::Bool(false), JsValue::Bool(true)];
    assert_eq!(
        decode(Op::RmSync, &c),
        Some(Request::Rm { path: "/gone".to_string(), recursive: false, force: true })
    );
}

#[test]
fn two_path_operations() {
    let a = vec![s("/from"), s("/to")];
    let (f, t) = ("/from".to_string(), "/to".to_string());
    assert_eq!(decode(Op::RenameSync, &a), Some(Request::Rename { from: f.clone(), to: t.clone() }));
    assert_eq!(decode(Op::CopyFileSync, &a), Some(Request::CopyFile { from: f.clone(), to: t.clone() }));
    assert_eq!(decode(Op::LinkSync, &a), Some(Request::Link { from: f.clone(), to: t.clone() }));
    assert_eq!(decode(Op::SymlinkSync, &a), Some(Request::Symlink { from: f, to: t }));
    assert_eq!(decode(Op::RealpathSync, &a), Some(Request::Realpath { path: "/from".to_string() }));
}

#[test]
fn lengths_and_descriptors_are_cast() {
    let a = vec![s("/f"), JsValue::Int(10)];
    assert_eq!(decode(Op::TruncateSync, &a), Some(Request::Truncate { path: "/f".to_string(), len: 10 }));
    let b = vec![JsValue::Int(5), JsValue::Int(-1)];
    assert_eq!(decode(Op::FtruncateSync, &b), Some(Request::Ftruncate { fd: 5, len: u64::MAX }));
    assert_eq!(decode(Op::FcloseSync, &b), Some(Request::Close { fd: 5 }));
    assert_eq!(decode(Op::FsyncSync, &b), Some(Request::Sync { fd: 5, data_only: false }));
    assert_eq!(decode(Op::FdatasyncSync, &b), Some(Request::Sync { fd: 5, data_only: true }));
    assert_eq!(decode(Op::FstatSync, &vec![JsValue::Int(-2)]), Some(Request::Fstat { fd: -2 }));
    assert_eq!(decode(Op::FcloseSync, &vec![JsValue::Int(-1)]), Some(Request::Close { fd: u32::MAX }));
}

#[test]
fn time_stamps() {
    let a = vec![s("/f"), JsValue::Float(1000), JsValue::Float(2000)];
    assert_eq!(
        decode(Op::UtimeSync, &a),
        Some(Request::Utime { path: "/f".to_string(), atime: 1000, mtime: 2000 })
    );
    let b = vec![JsValue::Int(4), JsValue::Float(1), JsValue::Float(2)];
    assert_eq!(decode(Op::FutimeSync, &b), Some(Request::Futime { fd: 4, atime: 1, mtime: 2 }));
}

#[test]
fn reads_seek_only_for_nonzero_position() {
    let a = vec![JsValue::Int(3), JsValue::Int(0), JsValue::Int(16)];
    assert_eq!(decode(Op::FreadSync, &a), Some(Request::ReadSync { fd: 3, seek: None, len: 16 }));
    let b = vec![JsValue::Int(3), JsValue::Int(-4), JsValue::Int(16)];
    assert_eq!(decode(Op::FreadSync, &b), Some(Request::ReadSync { fd: 3, seek: Some(-4), len: 16 }));
    assert_eq!(
        decode(Op::Fread, &b),
        Some(Request::Read { fd: 3, host_fd: 3, seek: Some(-4), len: 16 })
    );
}

#[test]
fn open_translates_flags() {
    let a = vec![s("/f"), JsValue::Int(512 | 2048 | 2), JsValue::Int(0o644)];
    assert_eq!(
        decode(Op::OpenSync, &a),
        Some(Request::Open { path: "/f".to_string(), params: translate_open_flags(512 | 2048 | 2) })
    );
}

#[test]
fn extra_arguments_are_ignored() {
    let a = vec![s("/a"), JsValue::Null, JsValue::Other];
    assert_eq!(decode(Op::StatSync, &a), Some(Request::Stat { path: "/a".to_string(), follow: true }));
}
