use node_fs::flags::{
    translate_open_flags, OpenParams, FDFLAGS_APPEND, FDFLAGS_NONBLOCK, FDFLAGS_SYNC, OFLAGS_CREAT,
    OFLAGS_EXCL, OFLAGS_TRUNC, O_APPEND, O_CREAT, O_EXCL, O_NONBLOCK, O_TRUNC, RIGHTS_ALWAYS,
    RIGHTS_READ_WRITE,
};

#[test]
fn host_constants_match_wasi() {
    assert_eq!(FDFLAGS_APPEND, wasi::FDFLAGS_APPEND);
    assert_eq!(FDFLAGS_NONBLOCK, wasi::FDFLAGS_NONBLOCK);
    assert_eq!(FDFLAGS_SYNC, wasi::FDFLAGS_SYNC);
    assert_eq!(OFLAGS_CREAT, wasi::OFLAGS_CREAT);
    assert_eq!(OFLAGS_EXCL, wasi::OFLAGS_EXCL);
    assert_eq!(OFLAGS_TRUNC, wasi::OFLAGS_TRUNC);
    assert_eq!(
        RIGHTS_READ_WRITE,
        wasi::RIGHTS_FD_WRITE
            | wasi::RIGHTS_FD_ADVISE
            | wasi::RIGHTS_FD_ALLOCATE
            | wasi::RIGHTS_FD_DATASYNC
            | wasi::RIGHTS_FD_FDSTAT_SET_FLAGS
            | wasi::RIGHTS_FD_FILESTAT_SET_SIZE
            | wasi::RIGHTS_FD_FILESTAT_SET_TIMES
            | wasi::RIGHTS_FD_SYNC
    );
    assert_eq!(
        RIGHTS_ALWAYS,
        wasi::RIGHTS_FD_FILESTAT_GET | wasi::RIGHTS_FD_SEEK | wasi::RIGHTS_POLL_FD_READWRITE
    );
}

#[test]
fn read_only_open_gets_sync_and_base_rights() {
    let p = translate_open_flags(0);
    assert_eq!(p, OpenParams { fdflags: FDFLAGS_SYNC, oflags: 0, rights: RIGHTS_ALWAYS });
    assert_eq!(p.rights, 0x0820_0004);
}

#[test]
fn write_create_truncate() {
    // O_WRONLY | O_CREAT | O_TRUNC
    let p = translate_open_flags(1 | 512 | 1024);
    assert_eq!(p.fdflags, 16);
    assert_eq!(p.oflags, 1 | 8);
    assert_eq!(p.rights, RIGHTS_READ_WRITE | RIGHTS_ALWAYS);
    assert_eq!(p.rights, 0x08E0_01DD);
}

#[test]
fn create_exclusive_asks_host_to_refuse_existing() {
    let p = translate_open_flags(O_CREAT | O_EXCL | 2);
    assert_eq!(p.oflags, OFLAGS_CREAT | OFLAGS_EXCL);
    let q = translate_open_flags(O_CREAT | O_TRUNC | 2);
    assert_eq!(q.oflags & OFLAGS_EXCL, 0);
    assert_eq!(q.oflags, OFLAGS_CREAT | OFLAGS_TRUNC);
}

#[test]
fn append_and_nonblock() {
    let p = translate_open_flags(O_APPEND | O_NONBLOCK | 1);
    assert_eq!(p.fdflags, FDFLAGS_NONBLOCK | FDFLAGS_APPEND);
    let q = translate_open_flags(O_APPEND);
    assert_eq!(q.fdflags, FDFLAGS_SYNC | FDFLAGS_APPEND);
    assert_eq!(q.rights, RIGHTS_ALWAYS);
}

#[test]
fn higher_bits_do_not_hide_a_bit() {
    // Every caller bit together with unrelated high bits.
    let all = O_APPEND | O_NONBLOCK | O_CREAT | O_TRUNC | O_EXCL | 3 | 0x10000;
    let p = translate_open_flags(all);
    assert_eq!(p.fdflags, FDFLAGS_NONBLOCK | FDFLAGS_APPEND);
    assert_eq!(p.oflags, OFLAGS_CREAT | OFLAGS_EXCL | OFLAGS_TRUNC);
    assert_eq!(p.rights, RIGHTS_READ_WRITE | RIGHTS_ALWAYS);
}
