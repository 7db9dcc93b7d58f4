//! Turning the outcome of a host call into the reply a script receives.
//! Every failure becomes a raised error object; the one exception is the
//! removal of a missing path with `force`.
use vstd::prelude::*;
use crate::error::{
    err_to_js_object, errno_message, errno_to_js_object, os_error_value, ErrorKind, ErrorView,
    OsError,
};
use crate::stat::{stat_record_of, stat_to_js_object, Metadata};
use crate::value::{Reply, ReplyView};

verus! {

/// The reply for a failed OS call.
pub open spec fn os_failure(e: OsError) -> ReplyView {
    ReplyView::Throw(os_error_value(e))
}

/// Whether `r` raises the error object of some sandbox-interface error.
pub open spec fn is_errno_failure(r: ReplyView) -> bool {
    exists|code: u16| r == ReplyView::Throw(ErrorView::Sandbox { message: errno_message(code) })
}

/// The reply of an OS call that has no result of its own.
pub fn finish_unit(res: Result<(), OsError>) -> (r: Reply)
    ensures
        match res {
            Ok(()) => r@ == ReplyView::UnDefined,
            Err(e) => r@ == os_failure(e),
        },
{
    match res {
        Ok(()) => Reply::UnDefined,
        Err(e) => Reply::Throw(err_to_js_object(&e)),
    }
}

/// The reply of a sandbox-interface call that has no result of its own.
pub fn finish_errno_unit(res: Result<(), wasi::Errno>) -> (r: Reply)
    ensures
        res is Ok ==> r@ == ReplyView::UnDefined,
        res is Err ==> is_errno_failure(r@),
{
    match res {
        Ok(()) => Reply::UnDefined,
        Err(e) => Reply::Throw(errno_to_js_object(&e)),
    }
}

/// The reply of a metadata query.
pub fn finish_stat(res: Result<Metadata, OsError>) -> (r: Reply)
    requires
        res matches Ok(m) ==> m.wf(),
    ensures
        match res {
            Ok(m) => r@ == ReplyView::Stat(stat_record_of(m)),
            Err(e) => r@ == os_failure(e),
        },
{
    match res {
        Ok(m) => Reply::Stat(stat_to_js_object(&m)),
        Err(e) => Reply::Throw(err_to_js_object(&e)),
    }
}

/// The reply of a path resolution.
pub fn finish_realpath(res: Result<String, OsError>) -> (r: Reply)
    ensures
        match res {
            Ok(p) => r@ == ReplyView::Path(p@),
            Err(e) => r@ == os_failure(e),
        },
{
    match res {
        Ok(p) => Reply::Path(p),
        Err(e) => Reply::Throw(err_to_js_object(&e)),
    }
}

/// The reply of an open: the new descriptor as a script integer.
pub fn finish_open(res: Result<u32, wasi::Errno>) -> (r: Reply)
    ensures
        res matches Ok(fd) ==> r@ == ReplyView::Fd(fd as i32),
        res is Err ==> is_errno_failure(r@),
{
    match res {
        Ok(fd) => Reply::Fd(fd as i32),
        Err(e) => Reply::Throw(errno_to_js_object(&e)),
    }
}

/// What a blocking read hands back: the whole buffer it read into, whatever
/// count the host gave, so a short read leaves the zero-filled tail in place.
pub fn finish_read_sync(buf: Vec<u8>, res: Result<usize, wasi::Errno>) -> (r: Reply)
    ensures
        res is Ok ==> r@ == ReplyView::Buffer(buf@),
        res is Err ==> is_errno_failure(r@),
{
    match res {
        Ok(_) => Reply::Buffer(buf),
        Err(e) => Reply::Throw(errno_to_js_object(&e)),
    }
}

/// The outcome of the offset move before a read: `None` to go on with the
/// read, or the reply that ends the call.
pub fn finish_seek(res: Result<u64, wasi::Errno>) -> (r: Option<Reply>)
    ensures
        res is Ok <==> r is None,
        r matches Some(q) ==> is_errno_failure(q@),
{
    match res {
        Ok(_) => None,
        Err(e) => Some(Reply::Throw(errno_to_js_object(&e))),
    }
}

/// How `rm` removes an existing path.
#[derive(Clone, Copy, Debug, PartialEq, Eq, Structural)]
pub enum Removal {
    /// Unlink a regular file.
    File,
    /// Remove a directory with everything below it.
    DirAll,
    /// Remove an empty directory.
    Dir,
}

/// A regular file is unlinked; anything else is removed as a directory,
/// with its contents when `recursive`.
pub fn rm_removal(is_file: bool, recursive: bool) -> (r: Removal)
    ensures
        is_file ==> r == Removal::File,
        !is_file && recursive ==> r == Removal::DirAll,
        !is_file && !recursive ==> r == Removal::Dir,
{
    if is_file {
        Removal::File
    } else if recursive {
        Removal::DirAll
    } else {
        Removal::Dir
    }
}

/// The reply of `rm`. A missing path with `force` is a silent success; every
/// other failure is raised.
pub fn finish_rm(res: Result<(), OsError>, force: bool) -> (r: Reply)
    ensures
        match res {
            Ok(()) => r@ == ReplyView::UnDefined,
            Err(e) => if e.kind == ErrorKind::NotFound && force {
                r@ == ReplyView::UnDefined
            } else {
                r@ == os_failure(e)
            },
        },
{
    match res {
        Ok(()) => Reply::UnDefined,
        Err(e) => {
            let not_found = match e.kind {
                ErrorKind::NotFound => true,
                _ => false,
            };
            if not_found && force {
                Reply::UnDefined
            } else {
                Reply::Throw(err_to_js_object(&e))
            }
        },
    }
}

} // verus!
