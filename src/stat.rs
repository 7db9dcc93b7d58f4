//! File metadata as the host reports it, and the record that scripts see.
use vstd::prelude::*;

verus! {

/// A host time stamp as an offset from the Unix epoch.
#[derive(Clone, Copy, Debug, PartialEq, Eq, Structural)]
pub struct FileTime {
    /// Whether the stamp lies before the epoch.
    pub before_epoch: bool,
    /// Whole seconds of the offset.
    pub secs: u64,
    /// Nanoseconds of the offset beyond `secs`.
    pub nanos: u32,
}

impl FileTime {
    pub open spec fn wf(self) -> bool {
        self.nanos < 1_000_000_000
    }

    /// The magnitude of the offset in whole milliseconds.
    pub open spec fn millis(self) -> nat {
        self.secs as nat * 1000 + self.nanos as nat / 1_000_000
    }
}

/// Host metadata of one file: what the marshaller reads of it.
#[derive(Clone, Copy, Debug, PartialEq, Eq, Structural)]
pub struct Metadata {
    pub is_file: bool,
    pub is_dir: bool,
    pub is_symlink: bool,
    pub is_block_device: bool,
    pub is_char_device: bool,
    pub is_socket: bool,
    pub len: u64,
    /// `None` where the host could not give the time.
    pub modified: Option<FileTime>,
    pub accessed: Option<FileTime>,
    pub created: Option<FileTime>,
    pub dev: u64,
    pub ino: u64,
    pub readonly: bool,
    pub nlink: u64,
}

impl Metadata {
    pub open spec fn wf(self) -> bool {
        (self.modified matches Some(t) ==> t.wf())
            && (self.accessed matches Some(t) ==> t.wf())
            && (self.created matches Some(t) ==> t.wf())
    }
}

/// The structured value a script receives from `statSync` and its kin.
/// Times are in milliseconds from the epoch, `None` standing for null.
#[derive(Clone, Copy, Debug, PartialEq, Eq, Structural)]
pub struct StatRecord {
    pub is_file: bool,
    pub is_directory: bool,
    pub is_symlink: bool,
    pub is_block_device: bool,
    pub is_char_device: bool,
    pub is_socket: bool,
    pub size: u64,
    pub mtime: Option<u128>,
    pub atime: Option<u128>,
    pub birthtime: Option<u128>,
    pub dev: u64,
    pub ino: u64,
    pub mode: i32,
    pub nlink: u64,
    pub uid: i32,
    pub gid: i32,
    pub rdev: i32,
    pub blksize: i32,
    pub blocks: i32,
}

/// Milliseconds of a time stamp; a stamp before the epoch gives the magnitude
/// of its offset, and a missing stamp gives `None`.
pub open spec fn msec_of(t: Option<FileTime>) -> Option<int> {
    match t {
        Some(t) => Some(t.millis() as int),
        None => None,
    }
}

/// Converts a host time stamp to milliseconds from the epoch. A stamp before
/// the epoch is reported as the (non-negative) size of its offset.
pub fn to_msec(maybe_time: Option<FileTime>) -> (r: Option<u128>)
    requires
        maybe_time matches Some(t) ==> t.wf(),
    ensures
        r matches Some(v) ==> msec_of(maybe_time) == Some(v as int),
        r is None <==> maybe_time is None,
{
    match maybe_time {
        Some(time) => {
            let ms: u128 = time.secs as u128 * 1000 + (time.nanos / 1_000_000) as u128;
            Some(ms)
        },
        None => None,
    }
}

/// The three permission bits given to owner, group and others alike.
pub open spec fn perm_bits(readonly: bool) -> i32 {
    if readonly { 5 } else { 7 }
}

/// The synthesized mode: an approximation, since the host has only a
/// read-only flag. Read-only gives `0o555`, writable `0o777`.
pub open spec fn mode_of(readonly: bool) -> i32 {
    (perm_bits(readonly) * 64 + perm_bits(readonly) * 8 + perm_bits(readonly)) as i32
}

/// Synthesizes a Unix mode from the host's read-only flag: read and execute
/// for a read-only file, read, write and execute otherwise, repeated for
/// owner, group and others.
pub fn permissions_to_mode(readonly: bool) -> (r: i32)
    ensures
        r == mode_of(readonly),
        readonly ==> r == 0o555,
        !readonly ==> r == 0o777,
{
    let read: i32 = 4;
    let write: i32 = 2;
    let exec: i32 = 1;
    let p: i32 = if readonly { read | exec } else { read | write | exec };
    assert(p == perm_bits(readonly)) by (bit_vector)
        requires
            read == 4 && write == 2 && exec == 1,
            p == if readonly { read | exec } else { read | write | exec },
    ;
    let r: i32 = p | p << 3 | p << 6;
    assert(r == p * 64 + p * 8 + p) by (bit_vector)
        requires
            0 <= p <= 7,
            r == p | p << 3 | p << 6,
    ;
    r
}

/// The record for `meta`.
pub open spec fn stat_record_of(meta: Metadata) -> StatRecord {
    StatRecord {
        is_file: meta.is_file,
        is_directory: meta.is_dir,
        is_symlink: meta.is_symlink,
        is_block_device: meta.is_block_device,
        is_char_device: meta.is_char_device,
        is_socket: meta.is_socket,
        size: meta.len,
        mtime: match meta.modified { Some(t) => Some(t.millis() as u128), None => None },
        atime: match meta.accessed { Some(t) => Some(t.millis() as u128), None => None },
        birthtime: match meta.created { Some(t) => Some(t.millis() as u128), None => None },
        dev: meta.dev,
        ino: meta.ino,
        mode: mode_of(meta.readonly),
        nlink: meta.nlink,
        uid: 0,
        gid: 0,
        rdev: 0,
        blksize: 0,
        blocks: 0,
    }
}

/// Marshals host metadata into the record scripts see. Owner, group, device
/// number and block figures are not asked of the host and read zero.
pub fn stat_to_js_object(stat: &Metadata) -> (r: StatRecord)
    requires
        stat.wf(),
    ensures
        r == stat_record_of(*stat),
{
    StatRecord {
        is_file: stat.is_file,
        is_directory: stat.is_dir,
        is_symlink: stat.is_symlink,
        is_block_device: stat.is_block_device,
        is_char_device: stat.is_char_device,
        is_socket: stat.is_socket,
        size: stat.len,
        mtime: to_msec(stat.modified),
        atime: to_msec(stat.accessed),
        birthtime: to_msec(stat.created),
        dev: stat.dev,
        ino: stat.ino,
        mode: permissions_to_mode(stat.readonly),
        nlink: stat.nlink,
        uid: 0,
        gid: 0,
        rdev: 0,
        blksize: 0,
        blocks: 0,
    }
}

} // verus!
