//! The operations of the module and the decoding of their untyped arguments
//! into host requests. A call whose arguments do not fit produces no request
//! at all, so nothing reaches the host for it.
use vstd::prelude::*;
use crate::flags::{open_params_of, translate_open_flags, OpenParams};
use crate::value::{
    arg_bool, arg_float, arg_int, arg_str, bool_arg, float_arg, int_arg, str_arg, JsValue,
};

verus! {

/// The operations the module exports.
#[derive(Clone, Copy, Debug, PartialEq, Eq, Structural)]
pub enum Op {
    StatSync,
    LstatSync,
    FstatSync,
    MkdirSync,
    RmdirSync,
    RmSync,
    RenameSync,
    TruncateSync,
    FtruncateSync,
    RealpathSync,
    CopyFileSync,
    LinkSync,
    SymlinkSync,
    UtimeSync,
    FutimeSync,
    FcloseSync,
    FsyncSync,
    FdatasyncSync,
    FreadSync,
    Fread,
    OpenSync,
}

/// One host operation, with its arguments in the types the host takes.
#[allow(inconsistent_fields)]
#[derive(Clone, Debug, PartialEq, Eq)]
pub enum Request {
    /// Metadata by path; `follow` tells whether a final symlink is followed.
    Stat { path: String, follow: bool },
    /// Metadata of an open descriptor.
    Fstat { fd: i32 },
    Mkdir { path: String, recursive: bool },
    Rmdir { path: String, recursive: bool },
    /// Removal of a path of any type; see [`crate::reply::rm_removal`].
    Rm { path: String, recursive: bool, force: bool },
    Rename { from: String, to: String },
    /// Sets the length of the file at `path`, through a handle opened on it.
    Truncate { path: String, len: u64 },
    Ftruncate { fd: u32, len: u64 },
    Realpath { path: String },
    CopyFile { from: String, to: String },
    Link { from: String, to: String },
    Symlink { from: String, to: String },
    /// Sets access and modification stamps, following symlinks.
    Utime { path: String, atime: u64, mtime: u64 },
    Futime { fd: u32, atime: u64, mtime: u64 },
    Close { fd: u32 },
    /// Flushes a descriptor; `data_only` leaves metadata out.
    Sync { fd: u32, data_only: bool },
    /// A blocking read of `len` bytes, after moving the offset by `seek`.
    ReadSync { fd: u32, seek: Option<i64>, len: usize },
    /// A read handed to the event loop (`fd`, `len`), after a blocking move
    /// of the offset of `host_fd` by `seek`.
    Read { fd: i32, host_fd: u32, seek: Option<i64>, len: u64 },
    Open { path: String, params: OpenParams },
}

/// The relative move of a read: none for a zero position.
pub open spec fn seek_of(position: i32) -> Option<i64> {
    if position != 0 { Some(position as i64) } else { None }
}

/// Whether the arguments have, at each position the operation reads, a value
/// of the type it needs.
pub open spec fn accepts(op: Op, args: Seq<JsValue>) -> bool {
    match op {
        Op::StatSync | Op::LstatSync | Op::RealpathSync => str_arg(args, 0) is Some,
        Op::FstatSync | Op::FcloseSync | Op::FsyncSync | Op::FdatasyncSync => int_arg(args, 0) is Some,
        Op::MkdirSync => str_arg(args, 0) is Some && bool_arg(args, 1) is Some && int_arg(args, 2) is Some,
        Op::RmdirSync => str_arg(args, 0) is Some && bool_arg(args, 1) is Some,
        Op::RmSync => str_arg(args, 0) is Some && bool_arg(args, 1) is Some && bool_arg(args, 2) is Some,
        Op::RenameSync | Op::CopyFileSync | Op::LinkSync | Op::SymlinkSync => str_arg(args, 0) is Some
            && str_arg(args, 1) is Some,
        Op::TruncateSync => str_arg(args, 0) is Some && int_arg(args, 1) is Some,
        Op::FtruncateSync => int_arg(args, 0) is Some && int_arg(args, 1) is Some,
        Op::UtimeSync => str_arg(args, 0) is Some && float_arg(args, 1) is Some && float_arg(args, 2) is Some,
        Op::FutimeSync => int_arg(args, 0) is Some && float_arg(args, 1) is Some && float_arg(args, 2) is Some,
        Op::FreadSync | Op::Fread => int_arg(args, 0) is Some && int_arg(args, 1) is Some && int_arg(args, 2) is Some,
        Op::OpenSync => str_arg(args, 0) is Some && int_arg(args, 1) is Some && int_arg(args, 2) is Some,
    }
}

/// Whether `q` is the request that `op` makes of `args`.
pub open spec fn request_for(op: Op, args: Seq<JsValue>, q: Request) -> bool {
    accepts(op, args) && match op {
        Op::StatSync => q matches Request::Stat { path, follow } && follow && str_arg(args, 0) == Some(path@),
        Op::LstatSync => q matches Request::Stat { path, follow } && !follow && str_arg(args, 0) == Some(path@),
        Op::FstatSync => q == Request::Fstat { fd: int_arg(args, 0).unwrap() },
        Op::MkdirSync => q matches Request::Mkdir { path, recursive } && str_arg(args, 0) == Some(path@)
            && bool_arg(args, 1) == Some(recursive),
        Op::RmdirSync => q matches Request::Rmdir { path, recursive } && str_arg(args, 0) == Some(path@)
            && bool_arg(args, 1) == Some(recursive),
        Op::RmSync => q matches Request::Rm { path, recursive, force } && str_arg(args, 0) == Some(path@)
            && bool_arg(args, 1) == Some(recursive) && bool_arg(args, 2) == Some(force),
        Op::RenameSync => q matches Request::Rename { from, to } && str_arg(args, 0) == Some(from@)
            && str_arg(args, 1) == Some(to@),
        Op::TruncateSync => q matches Request::Truncate { path, len } && str_arg(args, 0) == Some(path@)
            && len == int_arg(args, 1).unwrap() as u64,
        Op::FtruncateSync => q == Request::Ftruncate {
            fd: int_arg(args, 0).unwrap() as u32,
            len: int_arg(args, 1).unwrap() as u64,
        },
        Op::RealpathSync => q matches Request::Realpath { path } && str_arg(args, 0) == Some(path@),
        Op::CopyFileSync => q matches Request::CopyFile { from, to } && str_arg(args, 0) == Some(from@)
            && str_arg(args, 1) == Some(to@),
        Op::LinkSync => q matches Request::Link { from, to } && str_arg(args, 0) == Some(from@)
            && str_arg(args, 1) == Some(to@),
        Op::SymlinkSync => q matches Request::Symlink { from, to } && str_arg(args, 0) == Some(from@)
            && str_arg(args, 1) == Some(to@),
        Op::UtimeSync => q matches Request::Utime { path, atime, mtime } && str_arg(args, 0) == Some(path@)
            && float_arg(args, 1) == Some(atime) && float_arg(args, 2) == Some(mtime),
        Op::FutimeSync => q == Request::Futime {
            fd: int_arg(args, 0).unwrap() as u32,
            atime: float_arg(args, 1).unwrap(),
            mtime: float_arg(args, 2).unwrap(),
        },
        Op::FcloseSync => q == Request::Close { fd: int_arg(args, 0).unwrap() as u32 },
        Op::FsyncSync => q == Request::Sync { fd: int_arg(args, 0).unwrap() as u32, data_only: false },
        Op::FdatasyncSync => q == Request::Sync { fd: int_arg(args, 0).unwrap() as u32, data_only: true },
        Op::FreadSync => q == Request::ReadSync {
            fd: int_arg(args, 0).unwrap() as u32,
            seek: seek_of(int_arg(args, 1).unwrap()),
            len: int_arg(args, 2).unwrap() as usize,
        },
        Op::Fread => q == Request::Read {
            fd: int_arg(args, 0).unwrap(),
            host_fd: int_arg(args, 0).unwrap() as u32,
            seek: seek_of(int_arg(args, 1).unwrap()),
            len: int_arg(args, 2).unwrap() as u64,
        },
        Op::OpenSync => q matches Request::Open { path, params } && str_arg(args, 0) == Some(path@)
            && params == open_params_of(int_arg(args, 1).unwrap()),
    }
}

fn seek(position: i32) -> (r: Option<i64>)
    ensures
        r == seek_of(position),
{
    if position != 0 { Some(position as i64) } else { None }
}

/// Decodes the arguments of one call of `op`. Each position the operation
/// reads must hold a value of the type it needs; otherwise no request is made.
pub fn decode(op: Op, args: &Vec<JsValue>) -> (r: Option<Request>)
    ensures
        r is Some <==> accepts(op, args@),
        r matches Some(q) ==> request_for(op, args@, q),
{
    match op {
        Op::StatSync | Op::LstatSync => match arg_str(args, 0) {
            Some(path) => Some(Request::Stat { path, follow: op == Op::StatSync }),
            None => None,
        },
        Op::FstatSync => match arg_int(args, 0) {
            Some(fd) => Some(Request::Fstat { fd }),
            None => None,
        },
        Op::MkdirSync => match (arg_str(args, 0), arg_bool(args, 1), arg_int(args, 2)) {
            (Some(path), Some(recursive), Some(_mode)) => Some(Request::Mkdir { path, recursive }),
            _ => None,
        },
        Op::RmdirSync => match (arg_str(args, 0), arg_bool(args, 1)) {
            (Some(path), Some(recursive)) => Some(Request::Rmdir { path, recursive }),
            _ => None,
        },
        Op::RmSync => match (arg_str(args, 0), arg_bool(args, 1), arg_bool(args, 2)) {
            (Some(path), Some(recursive), Some(force)) => Some(Request::Rm { path, recursive, force }),
            _ => None,
        },
        Op::RenameSync | Op::CopyFileSync | Op::LinkSync | Op::SymlinkSync => match (
            arg_str(args, 0),
            arg_str(args, 1),
        ) {
            (Some(from), Some(to)) => Some(
                match op {
                    Op::RenameSync => Request::Rename { from, to },
                    Op::CopyFileSync => Request::CopyFile { from, to },
                    Op::LinkSync => Request::Link { from, to },
                    _ => Request::Symlink { from, to },
                },
            ),
            _ => None,
        },
        Op::TruncateSync => match (arg_str(args, 0), arg_int(args, 1)) {
            (Some(path), Some(len)) => Some(Request::Truncate { path, len: len as u64 }),
            _ => None,
        },
        Op::FtruncateSync => match (arg_int(args, 0), arg_int(args, 1)) {
            (Some(fd), Some(len)) => Some(Request::Ftruncate { fd: fd as u32, len: len as u64 }),
            _ => None,
        },
        Op::RealpathSync => match arg_str(args, 0) {
            Some(path) => Some(Request::Realpath { path }),
            None => None,
        },
        Op::UtimeSync => match (arg_str(args, 0), arg_float(args, 1), arg_float(args, 2)) {
            (Some(path), Some(atime), Some(mtime)) => Some(Request::Utime { path, atime, mtime }),
            _ => None,
        },
        Op::FutimeSync => match (arg_int(args, 0), arg_float(args, 1), arg_float(args, 2)) {
            (Some(fd), Some(atime), Some(mtime)) => Some(Request::Futime { fd: fd as u32, atime, mtime }),
            _ => None,
        },
        Op::FcloseSync => match arg_int(args, 0) {
            Some(fd) => Some(Request::Close { fd: fd as u32 }),
            None => None,
        },
        Op::FsyncSync | Op::FdatasyncSync => match arg_int(args, 0) {
            Some(fd) => Some(Request::Sync { fd: fd as u32, data_only: op == Op::FdatasyncSync }),
            None => None,
        },
        Op::FreadSync => match (arg_int(args, 0), arg_int(args, 1), arg_int(args, 2)) {
            (Some(fd), Some(position), Some(length)) => Some(
                Request::ReadSync { fd: fd as u32, seek: seek(position), len: length as usize },
            ),
            _ => None,
        },
        Op::Fread => match (arg_int(args, 0), arg_int(args, 1), arg_int(args, 2)) {
            (Some(fd), Some(position), Some(length)) => Some(
                Request::Read { fd, host_fd: fd as u32, seek: seek(position), len: length as u64 },
            ),
            _ => None,
        },
        Op::OpenSync => match (arg_str(args, 0), arg_int(args, 1), arg_int(args, 2)) {
            (Some(path), Some(flags), Some(_mode)) => Some(
                Request::Open { path, params: translate_open_flags(flags) },
            ),
            _ => None,
        },
    }
}

/// Malformed arguments (a missing position, or a value of another type)
/// make no request of the host at all, so the call has no side effect.
pub proof fn lemma_malformed_makes_no_request(op: Op, args: Seq<JsValue>, q: Request)
    requires
        !accepts(op, args),
    ensures
        !request_for(op, args, q),
{
}

/// `statSync` and `lstatSync` accept the same arguments and ask for the
/// metadata of the same path; they differ only in whether a final symlink
/// is followed.
pub proof fn lemma_stat_lstat_same_path(args: Seq<JsValue>, q1: Request, q2: Request)
    ensures
        accepts(Op::StatSync, args) == accepts(Op::LstatSync, args),
        request_for(Op::StatSync, args, q1) && request_for(Op::LstatSync, args, q2) ==> (q1 matches Request::Stat {
            path: p1,
            follow: f1,
        } && q2 matches Request::Stat { path: p2, follow: f2 } && p1@ == p2@ && f1 && !f2),
{
}

} // verus!
