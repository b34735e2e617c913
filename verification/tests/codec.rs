use libssh2_sys::LIBSSH2_SFTP_ATTRIBUTES;
use sftp::stat::{
    ATTR_ACMODTIME, ATTR_PERMISSIONS, ATTR_SIZE, ATTR_UIDGID, S_IFDIR, S_IFLNK, S_IFMT, S_IFREG,
};
use sftp::FileStat;

fn codec_empty_stat() -> FileStat {
    FileStat { size: None, uid: None, gid: None, perm: None, atime: None, mtime: None }
}

fn codec_record(flags: u64) -> LIBSSH2_SFTP_ATTRIBUTES {
    LIBSSH2_SFTP_ATTRIBUTES {
        flags: flags as _,
        filesize: 11,
        uid: 22,
        gid: 33,
        permissions: 0o100644,
        atime: 55,
        mtime: 66,
    }
}

#[test]
fn attribute_constants_are_those_of_the_wire() {
    assert_eq!(ATTR_SIZE, libssh2_sys::LIBSSH2_SFTP_ATTR_SIZE);
    assert_eq!(ATTR_UIDGID, libssh2_sys::LIBSSH2_SFTP_ATTR_UIDGID);
    assert_eq!(ATTR_PERMISSIONS, libssh2_sys::LIBSSH2_SFTP_ATTR_PERMISSIONS);
    assert_eq!(ATTR_ACMODTIME, libssh2_sys::LIBSSH2_SFTP_ATTR_ACMODTIME);
    assert_eq!(S_IFMT, libssh2_sys::LIBSSH2_SFTP_S_IFMT);
    assert_eq!(S_IFDIR, libssh2_sys::LIBSSH2_SFTP_S_IFDIR);
    assert_eq!(S_IFREG, libssh2_sys::LIBSSH2_SFTP_S_IFREG);
    assert_eq!(S_IFLNK, libssh2_sys::LIBSSH2_SFTP_S_IFLNK);
}

#[test]
fn round_trip_with_every_field_present() {
    let v = FileStat {
        size: Some(u64::MAX),
        uid: Some(1000),
        gid: Some(u32::MAX),
        perm: Some(0o100755),
        atime: Some(1_600_000_000),
        mtime: Some(1_700_000_000),
    };
    assert_eq!(FileStat::from_raw(&v.raw()), v);
}

#[test]
fn round_trip_with_every_field_absent() {
    let v = codec_empty_stat();
    let raw = v.raw();
    assert_eq!(raw.flags, 0);
    assert_eq!(raw.filesize, 0);
    assert_eq!(raw.uid, 0);
    assert_eq!(raw.gid, 0);
    assert_eq!(raw.permissions, 0);
    assert_eq!(raw.atime, 0);
    assert_eq!(raw.mtime, 0);
    assert_eq!(FileStat::from_raw(&raw), v);
}

#[test]
fn round_trip_over_every_paired_subset() {
    for mask in 0u32..16 {
        let v = FileStat {
            size: if mask & 1 != 0 { Some(4096) } else { None },
            uid: if mask & 2 != 0 { Some(7) } else { None },
            gid: if mask & 2 != 0 { Some(8) } else { None },
            perm: if mask & 4 != 0 { Some(0o040700) } else { None },
            atime: if mask & 8 != 0 { Some(9) } else { None },
            mtime: if mask & 8 != 0 { Some(10) } else { None },
        };
        let raw = v.raw();
        assert_eq!(raw.flags, mask as _);
        assert_eq!(FileStat::from_raw(&raw), v);
    }
}

#[test]
fn encode_sets_exact_flags_and_values() {
    let v = FileStat {
        size: Some(123),
        uid: None,
        gid: None,
        perm: Some(0o644),
        atime: None,
        mtime: None,
    };
    let raw = v.raw();
    assert_eq!(raw.flags, 0x5);
    assert_eq!(raw.filesize, 123);
    assert_eq!(raw.permissions, 0o644);
    assert_eq!(raw.uid, 0);
    assert_eq!(raw.gid, 0);
    assert_eq!(raw.atime, 0);
    assert_eq!(raw.mtime, 0);
}

#[test]
fn only_uid_sets_the_owner_flag_and_sends_gid_zero() {
    let mut v = codec_empty_stat();
    v.uid = Some(501);
    let raw = v.raw();
    assert_eq!(raw.flags, ATTR_UIDGID);
    assert_eq!(raw.uid, 501);
    assert_eq!(raw.gid, 0);
    let back = FileStat::from_raw(&raw);
    assert_eq!(back.uid, Some(501));
    assert_eq!(back.gid, Some(0));
    assert_eq!(back.size, None);
    assert_eq!(back.perm, None);
    assert_eq!(back.atime, None);
    assert_eq!(back.mtime, None);
    assert_ne!(back, v);
}

#[test]
fn only_gid_sets_the_owner_flag_and_sends_uid_zero() {
    let mut v = codec_empty_stat();
    v.gid = Some(20);
    let raw = v.raw();
    assert_eq!(raw.flags, ATTR_UIDGID);
    assert_eq!(raw.uid, 0);
    assert_eq!(raw.gid, 20);
    let back = FileStat::from_raw(&raw);
    assert_eq!(back.uid, Some(0));
    assert_eq!(back.gid, Some(20));
}

#[test]
fn only_mtime_sets_the_time_flag_and_sends_atime_zero() {
    let mut v = codec_empty_stat();
    v.mtime = Some(77);
    let raw = v.raw();
    assert_eq!(raw.flags, ATTR_ACMODTIME);
    assert_eq!(raw.atime, 0);
    assert_eq!(raw.mtime, 77);
    let back = FileStat::from_raw(&raw);
    assert_eq!(back.atime, Some(0));
    assert_eq!(back.mtime, Some(77));
}

#[test]
fn decode_surfaces_a_field_only_under_its_flag() {
    let none = FileStat::from_raw(&codec_record(0));
    assert_eq!(none, codec_empty_stat());

    let size = FileStat::from_raw(&codec_record(0x1));
    assert_eq!(size.size, Some(11));
    assert_eq!(size.uid, None);
    assert_eq!(size.perm, None);
    assert_eq!(size.mtime, None);

    let owner = FileStat::from_raw(&codec_record(0x2));
    assert_eq!(owner.size, None);
    assert_eq!(owner.uid, Some(22));
    assert_eq!(owner.gid, Some(33));

    let perm = FileStat::from_raw(&codec_record(0x4));
    assert_eq!(perm.perm, Some(0o100644));
    assert_eq!(perm.gid, None);

    let times = FileStat::from_raw(&codec_record(0x8));
    assert_eq!(times.atime, Some(55));
    assert_eq!(times.mtime, Some(66));
    assert_eq!(times.size, None);

    let all = FileStat::from_raw(&codec_record(0xf));
    assert_eq!(
        all,
        FileStat {
            size: Some(11),
            uid: Some(22),
            gid: Some(33),
            perm: Some(0o100644),
            atime: Some(55),
            mtime: Some(66),
        }
    );
}

#[test]
fn decode_ignores_flag_bits_it_does_not_know() {
    let raw = codec_record(0x8000_0000);
    assert_eq!(FileStat::from_raw(&raw), codec_empty_stat());
}

#[test]
fn decode_keeps_the_low_32_bits_of_owner_and_permissions() {
    let mut raw = codec_record(0x6);
    raw.uid = 0x1_0000_0005u64 as _;
    raw.gid = 0xffff_ffffu64 as _;
    raw.permissions = 0x7_0000_81a4u64 as _;
    let v = FileStat::from_raw(&raw);
    assert_eq!(v.uid, Some(5));
    assert_eq!(v.gid, Some(u32::MAX));
    assert_eq!(v.perm, Some(0x81a4));
}

#[test]
fn file_type_reads_the_type_bits() {
    let mut v = codec_empty_stat();
    v.perm = Some(0o040755);
    assert!(v.is_dir());
    assert!(!v.is_file());
    assert!(v.file_type().is_dir());
    assert!(!v.file_type().is_file());
    assert!(!v.file_type().is_symlink());

    v.perm = Some(0o100644);
    assert!(v.is_file());
    assert!(!v.is_dir());
    assert!(v.file_type().is_file());

    v.perm = Some(0o120777);
    assert!(!v.is_file());
    assert!(!v.is_dir());
    assert!(v.file_type().is_symlink());
}

#[test]
fn file_type_of_absent_permissions_is_none_of_them() {
    let v = codec_empty_stat();
    assert!(!v.is_dir());
    assert!(!v.is_file());
    assert!(!v.file_type().is_symlink());
}

#[test]
fn file_type_compares_all_type_bits() {
    let mut v = codec_empty_stat();
    // a socket shares a bit with a directory and one with a regular file
    v.perm = Some(0o140000);
    assert!(!v.is_dir());
    assert!(!v.is_file());
    assert!(!v.file_type().is_symlink());
    // a block device shares a bit with a directory
    v.perm = Some(0o060000);
    assert!(!v.is_dir());
}
