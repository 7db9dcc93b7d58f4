//! Translation of a POSIX-style open-flag word into the three parameters of a
//! capability-scoped `path_open`: descriptor flags, open flags and rights.
use vstd::prelude::*;

verus! {

/// Caller bits: read or write intent (the two low bits).
pub const O_ACCESS_MASK: i32 = 3;
/// Caller bit: append on every write.
pub const O_APPEND: i32 = 8;
/// Caller bit: non-blocking descriptor.
pub const O_NONBLOCK: i32 = 128;
/// Caller bit: create the file if it is missing.
pub const O_CREAT: i32 = 512;
/// Caller bit: truncate the file to length zero.
pub const O_TRUNC: i32 = 1024;
/// Caller bit: fail if the file exists (with `O_CREAT`).
pub const O_EXCL: i32 = 2048;

/// Host descriptor flag: append mode.
pub const FDFLAGS_APPEND: u16 = 1;
/// Host descriptor flag: non-blocking mode.
pub const FDFLAGS_NONBLOCK: u16 = 4;
/// Host descriptor flag: synchronized writes.
pub const FDFLAGS_SYNC: u16 = 16;

/// Host open flag: create if missing.
pub const OFLAGS_CREAT: u16 = 1;
/// Host open flag: fail if present.
pub const OFLAGS_EXCL: u16 = 4;
/// Host open flag: truncate to zero length.
pub const OFLAGS_TRUNC: u16 = 8;

/// Host right: `fd_datasync`.
pub const RIGHTS_FD_DATASYNC: u64 = 1;
/// Host right: `fd_seek`.
pub const RIGHTS_FD_SEEK: u64 = 4;
/// Host right: `fd_fdstat_set_flags`.
pub const RIGHTS_FD_FDSTAT_SET_FLAGS: u64 = 8;
/// Host right: `fd_sync`.
pub const RIGHTS_FD_SYNC: u64 = 16;
/// Host right: `fd_write`.
pub const RIGHTS_FD_WRITE: u64 = 64;
/// Host right: `fd_advise`.
pub const RIGHTS_FD_ADVISE: u64 = 128;
/// Host right: `fd_allocate`.
pub const RIGHTS_FD_ALLOCATE: u64 = 256;
/// Host right: `fd_filestat_get`.
pub const RIGHTS_FD_FILESTAT_GET: u64 = 2097152;
/// Host right: `fd_filestat_set_size`.
pub const RIGHTS_FD_FILESTAT_SET_SIZE: u64 = 4194304;
/// Host right: `fd_filestat_set_times`.
pub const RIGHTS_FD_FILESTAT_SET_TIMES: u64 = 8388608;
/// Host right: `poll_oneoff` readiness on the descriptor.
pub const RIGHTS_POLL_FD_READWRITE: u64 = 134217728;

/// Rights granted when the caller asks to read or write.
pub const RIGHTS_READ_WRITE: u64 = RIGHTS_FD_WRITE | RIGHTS_FD_ADVISE | RIGHTS_FD_ALLOCATE
    | RIGHTS_FD_DATASYNC | RIGHTS_FD_FDSTAT_SET_FLAGS | RIGHTS_FD_FILESTAT_SET_SIZE
    | RIGHTS_FD_FILESTAT_SET_TIMES | RIGHTS_FD_SYNC;

/// Rights granted on every open.
pub const RIGHTS_ALWAYS: u64 = RIGHTS_FD_FILESTAT_GET | RIGHTS_FD_SEEK | RIGHTS_POLL_FD_READWRITE;

/// The parameters handed to the host's `path_open`.
#[derive(Clone, Copy, Debug, PartialEq, Eq, Structural)]
pub struct OpenParams {
    pub fdflags: u16,
    pub oflags: u16,
    pub rights: u64,
}

/// Whether any bit of `mask` is set in `flags`.
pub open spec fn has_bit(flags: i32, mask: i32) -> bool {
    flags & mask != 0
}

pub open spec fn fdflags_of(flags: i32) -> u16 {
    (if has_bit(flags, O_NONBLOCK) { FDFLAGS_NONBLOCK } else { FDFLAGS_SYNC })
        | (if has_bit(flags, O_APPEND) { FDFLAGS_APPEND } else { 0 })
}

pub open spec fn oflags_of(flags: i32) -> u16 {
    (if has_bit(flags, O_CREAT) { OFLAGS_CREAT } else { 0 })
        | (if has_bit(flags, O_EXCL) { OFLAGS_EXCL } else { 0 })
        | (if has_bit(flags, O_TRUNC) { OFLAGS_TRUNC } else { 0 })
}

pub open spec fn rights_of(flags: i32) -> u64 {
    (if has_bit(flags, O_ACCESS_MASK) { RIGHTS_READ_WRITE } else { 0 }) | RIGHTS_ALWAYS
}

pub open spec fn open_params_of(flags: i32) -> OpenParams {
    OpenParams { fdflags: fdflags_of(flags), oflags: oflags_of(flags), rights: rights_of(flags) }
}

/// Translates the caller's flag word. Each caller bit is tested on its own,
/// so bits above it do not change the outcome.
pub fn translate_open_flags(flags: i32) -> (r: OpenParams)
    ensures
        r == open_params_of(flags),
{
    let fdflags: u16 = (if flags & O_NONBLOCK != 0 { FDFLAGS_NONBLOCK } else { FDFLAGS_SYNC })
        | (if flags & O_APPEND != 0 { FDFLAGS_APPEND } else { 0 });
    let oflags: u16 = (if flags & O_CREAT != 0 { OFLAGS_CREAT } else { 0 })
        | (if flags & O_EXCL != 0 { OFLAGS_EXCL } else { 0 })
        | (if flags & O_TRUNC != 0 { OFLAGS_TRUNC } else { 0 });
    let rights: u64 = (if flags & O_ACCESS_MASK != 0 { RIGHTS_READ_WRITE } else { 0 })
        | RIGHTS_ALWAYS;
    OpenParams { fdflags, oflags, rights }
}

/// Asking to create exclusively yields an open that creates and refuses an
/// existing file; without the exclusive bit the host is not asked to refuse,
/// and the truncate bit alone decides truncation.
pub proof fn lemma_create_exclusive(flags: i32)
    ensures
        has_bit(flags, O_CREAT) && has_bit(flags, O_EXCL) ==> open_params_of(flags).oflags
            & OFLAGS_CREAT != 0 && open_params_of(flags).oflags & OFLAGS_EXCL != 0,
        !has_bit(flags, O_EXCL) ==> open_params_of(flags).oflags & OFLAGS_EXCL == 0,
        has_bit(flags, O_TRUNC) <==> open_params_of(flags).oflags & OFLAGS_TRUNC != 0,
{
    let c = has_bit(flags, O_CREAT);
    let e = has_bit(flags, O_EXCL);
    let t = has_bit(flags, O_TRUNC);
    let o = open_params_of(flags).oflags;
    assert(o == (if c { 1u16 } else { 0u16 }) | (if e { 4u16 } else { 0u16 }) | (if t { 8u16 } else { 0u16 }));
    assert(((if c { 1u16 } else { 0u16 }) | (if e { 4u16 } else { 0u16 }) | (if t { 8u16 } else { 0u16 })) & 1 != 0 <==> c) by (bit_vector);
    assert(((if c { 1u16 } else { 0u16 }) | (if e { 4u16 } else { 0u16 }) | (if t { 8u16 } else { 0u16 })) & 4 != 0 <==> e) by (bit_vector);
    assert(((if c { 1u16 } else { 0u16 }) | (if e { 4u16 } else { 0u16 }) | (if t { 8u16 } else { 0u16 })) & 8 != 0 <==> t) by (bit_vector);
}

} // verus!
