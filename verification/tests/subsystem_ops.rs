use sftp::error::status;
use sftp::request::{stat_reply, statvfs_reply, LSTAT, READLINK, REALPATH, STAT};
use sftp::teardown::succeeded;
use sftp::{Error, FileStat, Growth, OpenFlags, OpenType, RenameFlags, Request, Sftp, TeardownStep};

fn ops_open_sftp() -> Sftp {
    Sftp::from_raw_opt(0x5f7, None).unwrap()
}

fn ops_closed_sftp() -> Sftp {
    let mut sftp = ops_open_sftp();
    assert!(sftp.shutdown().is_ok());
    sftp
}

fn ops_is_bad_use(r: Result<Request, Error>) -> bool {
    matches!(r, Err(Error::BadUse))
}

#[test]
fn request_constants_are_those_of_the_wire() {
    assert_eq!(STAT, libssh2_sys::LIBSSH2_SFTP_STAT);
    assert_eq!(LSTAT, libssh2_sys::LIBSSH2_SFTP_LSTAT);
    assert_eq!(READLINK, libssh2_sys::LIBSSH2_SFTP_READLINK);
    assert_eq!(REALPATH, libssh2_sys::LIBSSH2_SFTP_REALPATH);
}

#[test]
fn subsystem_that_did_not_start_gives_its_error() {
    let e = Sftp::from_raw_opt(0, Some(Error::Session { code: -21 })).unwrap_err();
    assert_eq!(e, Error::Session { code: -21 });
    let e = Sftp::from_raw_opt(0, None).unwrap_err();
    assert_eq!(e, Error::Unknown);
    assert_eq!(e.code(), i32::MIN);
}

#[test]
fn subsystem_that_started_is_open() {
    let sftp = Sftp::from_raw_opt(9, Some(Error::Session { code: -21 })).unwrap();
    assert!(sftp.is_open());
    assert_eq!(sftp.raw(), 9);
}

#[test]
fn open_mode_carries_flags_mode_and_kind() {
    let sftp = ops_open_sftp();
    let flags = OpenFlags::read().union(OpenFlags::append());
    match sftp.open_mode(b"/tmp/f", flags, 0o600, OpenType::File) {
        Ok(Request::Open { sftp, filename, flags, mode, open_type }) => {
            assert_eq!(sftp, 0x5f7);
            assert_eq!(filename, b"/tmp/f");
            assert_eq!(flags, 0x5);
            assert_eq!(mode, 0o600);
            assert_eq!(open_type, 0);
        }
        _ => panic!("no open request"),
    }
    match sftp.open_mode(b"/tmp", OpenFlags::read(), -1, OpenType::Dir) {
        Ok(Request::Open { mode, open_type, .. }) => {
            assert_eq!(mode, -1);
            assert_eq!(open_type, 1);
        }
        _ => panic!("no open request"),
    }
}

#[test]
fn open_is_a_read_only_file_open() {
    match ops_open_sftp().open(b"notes") {
        Ok(Request::Open { sftp, filename, flags, mode, open_type }) => {
            assert_eq!(sftp, 0x5f7);
            assert_eq!(filename, b"notes");
            assert_eq!(flags, 0x1);
            assert_eq!(mode, 0o644);
            assert_eq!(open_type, libssh2_sys::LIBSSH2_SFTP_OPENFILE);
        }
        _ => panic!("no open request"),
    }
}

#[test]
fn create_is_a_write_and_truncate_open_at_mode_644() {
    match ops_open_sftp().create(b"out.bin") {
        Ok(Request::Open { filename, flags, mode, open_type, .. }) => {
            assert_eq!(filename, b"out.bin");
            assert_eq!(flags, 0x02 | 0x10 | 0x08);
            assert_eq!(mode, 0o644);
            assert_eq!(open_type, libssh2_sys::LIBSSH2_SFTP_OPENFILE);
        }
        _ => panic!("no open request"),
    }
}

#[test]
fn opendir_is_a_read_only_directory_open() {
    match ops_open_sftp().opendir(b"/var") {
        Ok(Request::Open { filename, flags, mode, open_type, .. }) => {
            assert_eq!(filename, b"/var");
            assert_eq!(flags, 0x1);
            assert_eq!(mode, 0);
            assert_eq!(open_type, libssh2_sys::LIBSSH2_SFTP_OPENDIR);
        }
        _ => panic!("no open request"),
    }
}

#[test]
fn open_reply_wraps_the_new_handle() {
    let sftp = ops_open_sftp();
    let file = sftp.open_reply(42, None).unwrap();
    assert!(file.is_open());
    assert!(matches!(file.stat(), Ok(Request::FStat { handle: 42 })));
}

#[test]
fn open_reply_without_a_handle_gives_the_sessions_error() {
    let sftp = ops_open_sftp();
    assert_eq!(
        sftp.open_reply(0, Some(Error::Session { code: -31 })).unwrap_err(),
        Error::Session { code: -31 }
    );
    assert_eq!(sftp.open_reply(0, None).unwrap_err(), Error::Unknown);
}

#[test]
fn open_reply_on_a_closed_subsystem_is_a_bad_use() {
    let sftp = ops_closed_sftp();
    assert_eq!(sftp.open_reply(42, None).unwrap_err(), Error::BadUse);
}

#[test]
fn mkdir_and_rmdir_and_unlink() {
    let sftp = ops_open_sftp();
    match sftp.mkdir(b"d", 0o755) {
        Ok(Request::Mkdir { sftp, path, mode }) => {
            assert_eq!((sftp, path, mode), (0x5f7, &b"d"[..], 0o755));
        }
        _ => panic!("no mkdir request"),
    }
    match sftp.rmdir(b"d") {
        Ok(Request::Rmdir { sftp, path }) => assert_eq!((sftp, path), (0x5f7, &b"d"[..])),
        _ => panic!("no rmdir request"),
    }
    match sftp.unlink(b"f") {
        Ok(Request::Unlink { sftp, path }) => assert_eq!((sftp, path), (0x5f7, &b"f"[..])),
        _ => panic!("no unlink request"),
    }
}

#[test]
fn stat_and_lstat_differ_in_the_follow_flag_only() {
    let sftp = ops_open_sftp();
    match (sftp.stat(b"link"), sftp.lstat(b"link")) {
        (
            Ok(Request::Stat { sftp: a, path: p, stat_type: s }),
            Ok(Request::Stat { sftp: b, path: q, stat_type: l }),
        ) => {
            assert_eq!(a, b);
            assert_eq!(p, q);
            assert_eq!(s, libssh2_sys::LIBSSH2_SFTP_STAT);
            assert_eq!(l, libssh2_sys::LIBSSH2_SFTP_LSTAT);
        }
        _ => panic!("no stat request"),
    }
}

#[test]
fn setstat_marks_only_what_is_present() {
    let sftp = ops_open_sftp();
    let stat =
        FileStat { size: None, uid: None, gid: None, perm: Some(0o600), atime: None, mtime: None };
    match sftp.setstat(b"f", stat) {
        Ok(Request::SetStat { sftp, path, attrs }) => {
            assert_eq!(sftp, 0x5f7);
            assert_eq!(path, b"f");
            assert_eq!(attrs.flags, 0x4);
            assert_eq!(attrs.permissions, 0o600);
            assert_eq!(attrs.filesize, 0);
            assert_eq!(attrs.uid, 0);
            assert_eq!(attrs.mtime, 0);
        }
        _ => panic!("no setstat request"),
    }
}

#[test]
fn symlink_names_the_link_and_its_target() {
    match ops_open_sftp().symlink(b"link", b"/target") {
        Ok(Request::Symlink { sftp, path, target }) => {
            assert_eq!(sftp, 0x5f7);
            assert_eq!(path, b"link");
            assert_eq!(target, b"/target");
        }
        _ => panic!("no symlink request"),
    }
}

#[test]
fn readlink_and_realpath_differ_in_the_sub_code_only() {
    let sftp = ops_open_sftp();
    let growth = Growth::new();
    match sftp.readlink(b"l", &growth) {
        Ok(Request::ReadLink { sftp, path, link_type, capacity }) => {
            assert_eq!(sftp, 0x5f7);
            assert_eq!(path, b"l");
            assert_eq!(link_type, libssh2_sys::LIBSSH2_SFTP_READLINK);
            assert_eq!(capacity, 128);
        }
        _ => panic!("no readlink request"),
    }
    match sftp.realpath(b"l", &growth) {
        Ok(Request::ReadLink { sftp, path, link_type, capacity }) => {
            assert_eq!(sftp, 0x5f7);
            assert_eq!(path, b"l");
            assert_eq!(link_type, libssh2_sys::LIBSSH2_SFTP_REALPATH);
            assert_eq!(capacity, 128);
        }
        _ => panic!("no realpath request"),
    }
}

#[test]
fn readlink_asks_again_with_the_grown_buffer() {
    let sftp = ops_open_sftp();
    let mut growth = Growth::new();
    growth.settle(libssh2_sys::LIBSSH2_ERROR_BUFFER_TOO_SMALL);
    growth.settle(libssh2_sys::LIBSSH2_ERROR_BUFFER_TOO_SMALL);
    match sftp.readlink(b"l", &growth) {
        Ok(Request::ReadLink { path, capacity, .. }) => {
            assert_eq!(path, b"l");
            assert_eq!(capacity, 512);
        }
        _ => panic!("no readlink request"),
    }
}

#[test]
fn rename_without_flags_is_rename_with_all_three() {
    let sftp = ops_open_sftp();
    let explicit =
        RenameFlags::atomic().union(RenameFlags::overwrite()).union(RenameFlags::native());
    match (sftp.rename(b"a", b"b", None), sftp.rename(b"a", b"b", Some(explicit))) {
        (
            Ok(Request::Rename { sftp: s1, src: a1, dst: b1, flags: f1 }),
            Ok(Request::Rename { sftp: s2, src: a2, dst: b2, flags: f2 }),
        ) => {
            assert_eq!((s1, a1, b1, f1), (s2, a2, b2, f2));
            assert_eq!(f1, 0x7);
            assert_eq!(a1, b"a");
            assert_eq!(b1, b"b");
        }
        _ => panic!("no rename request"),
    }
    let closed = ops_closed_sftp();
    assert!(ops_is_bad_use(closed.rename(b"a", b"b", None)));
    assert!(ops_is_bad_use(closed.rename(b"a", b"b", Some(explicit))));
}

#[test]
fn rename_with_flags_carries_them_unchanged() {
    let sftp = ops_open_sftp();
    match sftp.rename(b"a", b"b", Some(RenameFlags::overwrite())) {
        Ok(Request::Rename { flags, .. }) => assert_eq!(flags, 0x1),
        _ => panic!("no rename request"),
    }
    match sftp.rename(b"a", b"b", Some(RenameFlags::empty())) {
        Ok(Request::Rename { flags, .. }) => assert_eq!(flags, 0),
        _ => panic!("no rename request"),
    }
}

#[test]
fn shutdown_twice_is_a_bad_use_the_second_time() {
    let mut sftp = ops_open_sftp();
    assert!(matches!(sftp.shutdown(), Ok(Request::Shutdown { sftp: 0x5f7 })));
    assert!(!sftp.is_open());
    assert!(ops_is_bad_use(sftp.shutdown()));
    assert!(ops_is_bad_use(sftp.shutdown()));
}

#[test]
fn every_path_operation_on_a_closed_subsystem_is_a_bad_use() {
    let sftp = ops_closed_sftp();
    let growth = Growth::new();
    let stat = FileStat { size: None, uid: None, gid: None, perm: None, atime: None, mtime: None };
    assert!(ops_is_bad_use(sftp.open_mode(b"p", OpenFlags::read(), 0, OpenType::File)));
    assert!(ops_is_bad_use(sftp.open(b"p")));
    assert!(ops_is_bad_use(sftp.create(b"p")));
    assert!(ops_is_bad_use(sftp.opendir(b"p")));
    assert!(matches!(sftp.readdir(b"p"), Err(Error::BadUse)));
    assert!(ops_is_bad_use(sftp.mkdir(b"p", 0)));
    assert!(ops_is_bad_use(sftp.rmdir(b"p")));
    assert!(ops_is_bad_use(sftp.stat(b"p")));
    assert!(ops_is_bad_use(sftp.lstat(b"p")));
    assert!(ops_is_bad_use(sftp.setstat(b"p", stat)));
    assert!(ops_is_bad_use(sftp.symlink(b"p", b"q")));
    assert!(ops_is_bad_use(sftp.readlink(b"p", &growth)));
    assert!(ops_is_bad_use(sftp.realpath(b"p", &growth)));
    assert!(ops_is_bad_use(sftp.unlink(b"p")));
    assert_eq!(Error::BadUse.code(), libssh2_sys::LIBSSH2_ERROR_BAD_USE);
    assert_eq!(Error::BadUse.message(), None);
}

#[test]
fn status_of_a_request() {
    assert_eq!(status(0), Ok(()));
    assert_eq!(status(1), Ok(()));
    assert_eq!(status(i32::MAX), Ok(()));
    assert_eq!(status(-1), Err(Error::Session { code: -1 }));
    assert_eq!(status(-31), Err(Error::Session { code: -31 }));
    assert_eq!(status(i32::MIN), Err(Error::Session { code: i32::MIN }));
    assert_eq!(Error::Session { code: -31 }.code(), -31);
    assert_eq!(Error::Session { code: -31 }.message(), None);
}

#[test]
fn stat_reply_decodes_on_success_and_fails_on_a_negative_status() {
    let raw = libssh2_sys::LIBSSH2_SFTP_ATTRIBUTES {
        flags: 0x5,
        filesize: 1024,
        uid: 1,
        gid: 2,
        permissions: 0o100600,
        atime: 3,
        mtime: 4,
    };
    assert_eq!(
        stat_reply(0, &raw),
        Ok(FileStat {
            size: Some(1024),
            uid: None,
            gid: None,
            perm: Some(0o100600),
            atime: None,
            mtime: None,
        })
    );
    assert_eq!(stat_reply(-31, &raw), Err(Error::Session { code: -31 }));
}

#[test]
fn statvfs_reply_hands_the_statistics_on() {
    let vfs = libssh2_sys::LIBSSH2_SFTP_STATVFS {
        f_bsize: 1,
        f_frsize: 2,
        f_blocks: 3,
        f_bfree: 4,
        f_bavail: 5,
        f_files: 6,
        f_ffree: 7,
        f_favail: 8,
        f_fsid: 9,
        f_flag: 10,
        f_namemax: 11,
    };
    let out = statvfs_reply(0, vfs).unwrap();
    assert_eq!(
        (out.f_bsize, out.f_frsize, out.f_blocks, out.f_bfree, out.f_bavail, out.f_files),
        (1, 2, 3, 4, 5, 6)
    );
    assert_eq!((out.f_ffree, out.f_favail, out.f_fsid, out.f_flag, out.f_namemax), (7, 8, 9, 10, 11));
    assert!(matches!(statvfs_reply(-31, vfs), Err(Error::Session { code: -31 })));
}

#[test]
fn dropping_an_open_subsystem_shuts_it_down_in_blocking_mode() {
    for was_blocking in [false, true] {
        let mut sftp = ops_open_sftp();
        let steps = sftp.teardown(was_blocking);
        assert!(!sftp.is_open());
        assert_eq!(steps.len(), 3);
        assert!(matches!(steps[0], TeardownStep::SetBlocking(true)));
        assert!(matches!(steps[1], TeardownStep::MustSucceed(Request::Shutdown { sftp: 0x5f7 })));
        match steps[2] {
            TeardownStep::SetBlocking(b) => assert_eq!(b, was_blocking),
            _ => panic!("mode not restored"),
        }
    }
}

#[test]
fn dropping_a_subsystem_that_was_shut_down_does_nothing() {
    let mut sftp = ops_closed_sftp();
    assert!(sftp.teardown(true).is_empty());
    assert!(sftp.teardown(false).is_empty());
    let mut again = ops_open_sftp();
    assert_eq!(again.teardown(true).len(), 3);
    assert!(again.teardown(true).is_empty());
}

#[test]
fn a_teardown_request_has_to_come_back_with_zero() {
    assert!(succeeded(0));
    assert!(!succeeded(-1));
    assert!(!succeeded(1));
    assert!(!succeeded(libssh2_sys::LIBSSH2_ERROR_EAGAIN));
}
