//! File metadata and its attribute record.
//!
//! An attribute record has one flag word and six value fields. A flag bit
//! says which values are meaningful. The owner and the group share one bit,
//! and so do the two times.

use libc::c_ulong;
use libssh2_sys::LIBSSH2_SFTP_ATTRIBUTES;
use vstd::prelude::*;

verus! {

/// Flag bit: the size is meaningful.
pub const ATTR_SIZE: c_ulong = 0x0000_0001;

/// Flag bit: owner and group are meaningful.
pub const ATTR_UIDGID: c_ulong = 0x0000_0002;

/// Flag bit: the permission bits are meaningful.
pub const ATTR_PERMISSIONS: c_ulong = 0x0000_0004;

/// Flag bit: access and modification time are meaningful.
pub const ATTR_ACMODTIME: c_ulong = 0x0000_0008;

/// Mask of the file-type bits among the permission bits.
pub const S_IFMT: c_ulong = 0o170000;

/// File-type bits of a directory.
pub const S_IFDIR: c_ulong = 0o040000;

/// File-type bits of a regular file.
pub const S_IFREG: c_ulong = 0o100000;

/// File-type bits of a symbolic link.
pub const S_IFLNK: c_ulong = 0o120000;

#[verifier::external_type_specification]
pub struct ExAttributes(LIBSSH2_SFTP_ATTRIBUTES);

/// Metadata information about a remote file.
///
/// Fields are not necessarily all provided.
#[derive(Debug, Clone, Eq, PartialEq)]
pub struct FileStat {
    /// File size, in bytes of the file.
    pub size: Option<u64>,
    /// Owner ID of the file
    pub uid: Option<u32>,
    /// Owning group of the file
    pub gid: Option<u32>,
    /// Permissions (mode) of the file
    pub perm: Option<u32>,
    /// Last access time of the file
    pub atime: Option<u64>,
    /// Last modification time of the file
    pub mtime: Option<u64>,
}

/// A structure representing a type of file.
pub struct FileType {
    perm: c_ulong,
}

/// The flag `bit` where `present` holds, no bit otherwise.
pub open spec fn flag_if(present: bool, bit: c_ulong) -> c_ulong {
    if present {
        bit
    } else {
        0
    }
}

/// The low 32 bits of a record's value.
pub open spec fn low32(v: c_ulong) -> u32 {
    (v % 0x1_0000_0000) as u32
}

impl FileStat {
    /// The metadata that an attribute record holds: a field is present
    /// exactly where the record's flag bit for it is set.
    pub open spec fn decoded(raw: LIBSSH2_SFTP_ATTRIBUTES) -> FileStat {
        FileStat {
            size: if raw.flags & ATTR_SIZE != 0 {
                Some(raw.filesize)
            } else {
                None
            },
            uid: if raw.flags & ATTR_UIDGID != 0 {
                Some(low32(raw.uid))
            } else {
                None
            },
            gid: if raw.flags & ATTR_UIDGID != 0 {
                Some(low32(raw.gid))
            } else {
                None
            },
            perm: if raw.flags & ATTR_PERMISSIONS != 0 {
                Some(low32(raw.permissions))
            } else {
                None
            },
            atime: if raw.flags & ATTR_ACMODTIME != 0 {
                Some(raw.atime)
            } else {
                None
            },
            mtime: if raw.flags & ATTR_ACMODTIME != 0 {
                Some(raw.mtime)
            } else {
                None
            },
        }
    }

    /// The flag word of this metadata's record: one bit for each field that
    /// is present, the owner bit where owner or group is, the time bit
    /// where either time is.
    pub open spec fn encoded_flags(&self) -> c_ulong {
        flag_if(self.size.is_some(), ATTR_SIZE) | flag_if(
            self.uid.is_some() || self.gid.is_some(),
            ATTR_UIDGID,
        ) | flag_if(self.perm.is_some(), ATTR_PERMISSIONS) | flag_if(
            self.atime.is_some() || self.mtime.is_some(),
            ATTR_ACMODTIME,
        )
    }

    /// The attribute record of this metadata: the flag word, each present
    /// value, and zero for each absent one.
    pub open spec fn encoded(&self) -> LIBSSH2_SFTP_ATTRIBUTES {
        LIBSSH2_SFTP_ATTRIBUTES {
            flags: self.encoded_flags(),
            filesize: self.size.unwrap_or(0),
            uid: self.uid.unwrap_or(0) as c_ulong,
            gid: self.gid.unwrap_or(0) as c_ulong,
            permissions: self.perm.unwrap_or(0) as c_ulong,
            atime: self.atime.unwrap_or(0),
            mtime: self.mtime.unwrap_or(0),
        }
    }

    /// This metadata as it comes back from its own record: a field that
    /// shares its flag bit with a present one is present too, as zero.
    pub open spec fn paired(&self) -> FileStat {
        let owner = self.uid.is_some() || self.gid.is_some();
        let times = self.atime.is_some() || self.mtime.is_some();
        FileStat {
            size: self.size,
            uid: if owner {
                Some(self.uid.unwrap_or(0))
            } else {
                None
            },
            gid: if owner {
                Some(self.gid.unwrap_or(0))
            } else {
                None
            },
            perm: self.perm,
            atime: if times {
                Some(self.atime.unwrap_or(0))
            } else {
                None
            },
            mtime: if times {
                Some(self.mtime.unwrap_or(0))
            } else {
                None
            },
        }
    }

    /// Whether owner and group are both present or both absent, and the two
    /// times likewise.
    pub open spec fn is_paired(&self) -> bool {
        &&& self.uid.is_some() == self.gid.is_some()
        &&& self.atime.is_some() == self.mtime.is_some()
    }

    /// Returns the file type for this filestat: the view of its permission
    /// bits, absent ones read as zero.
    pub fn file_type(&self) -> (t: FileType)
        ensures
            t.perm() == self.perm.unwrap_or(0) as c_ulong,
    {
        let perm: u32 = match self.perm {
            Some(p) => p,
            None => 0,
        };
        FileType { perm: perm as c_ulong }
    }

    /// Whether the permission bits, absent ones read as zero, are those of
    /// a directory.
    pub open spec fn spec_is_dir(&self) -> bool {
        (self.perm.unwrap_or(0) as c_ulong) & S_IFMT == S_IFDIR
    }

    /// Returns whether this metadata is for a directory.
    #[verifier::when_used_as_spec(spec_is_dir)]
    pub fn is_dir(&self) -> (b: bool)
        ensures
            b == self.spec_is_dir(),
    {
        self.file_type().is_dir()
    }

    /// Whether the permission bits, absent ones read as zero, are those of
    /// a regular file.
    pub open spec fn spec_is_file(&self) -> bool {
        (self.perm.unwrap_or(0) as c_ulong) & S_IFMT == S_IFREG
    }

    /// Returns whether this metadata is for a regular file.
    #[verifier::when_used_as_spec(spec_is_file)]
    pub fn is_file(&self) -> (b: bool)
        ensures
            b == self.spec_is_file(),
    {
        self.file_type().is_file()
    }

    /// Creates a new instance of a stat from a raw instance.
    pub fn from_raw(raw: &LIBSSH2_SFTP_ATTRIBUTES) -> (stat: FileStat)
        ensures
            stat == FileStat::decoded(*raw),
    {
        let owner: bool = raw.flags & ATTR_UIDGID != 0;
        let times: bool = raw.flags & ATTR_ACMODTIME != 0;
        let uid: u32 = narrow(raw.uid);
        let gid: u32 = narrow(raw.gid);
        let perm: u32 = narrow(raw.permissions);
        FileStat {
            size: if raw.flags & ATTR_SIZE != 0 {
                Some(raw.filesize)
            } else {
                None
            },
            uid: if owner {
                Some(uid)
            } else {
                None
            },
            gid: if owner {
                Some(gid)
            } else {
                None
            },
            perm: if raw.flags & ATTR_PERMISSIONS != 0 {
                Some(perm)
            } else {
                None
            },
            atime: if times {
                Some(raw.atime)
            } else {
                None
            },
            mtime: if times {
                Some(raw.mtime)
            } else {
                None
            },
        }
    }

    /// Convert this stat structure to its raw representation.
    pub fn raw(&self) -> (raw: LIBSSH2_SFTP_ATTRIBUTES)
        ensures
            raw == self.encoded(),
    {
        let size_bit: c_ulong = if self.size.is_some() {
            ATTR_SIZE
        } else {
            0
        };
        let owner_bit: c_ulong = if self.uid.is_some() || self.gid.is_some() {
            ATTR_UIDGID
        } else {
            0
        };
        let perm_bit: c_ulong = if self.perm.is_some() {
            ATTR_PERMISSIONS
        } else {
            0
        };
        let time_bit: c_ulong = if self.atime.is_some() || self.mtime.is_some() {
            ATTR_ACMODTIME
        } else {
            0
        };
        LIBSSH2_SFTP_ATTRIBUTES {
            flags: size_bit | owner_bit | perm_bit | time_bit,
            filesize: self.size.unwrap_or(0),
            uid: self.uid.unwrap_or(0) as c_ulong,
            gid: self.gid.unwrap_or(0) as c_ulong,
            permissions: self.perm.unwrap_or(0) as c_ulong,
            atime: self.atime.unwrap_or(0),
            mtime: self.mtime.unwrap_or(0),
        }
    }
}

/// Of four words that each hold one distinct flag bit or nothing, the
/// union holds a bit exactly where its word does.
proof fn lemma_flag_bits(a: c_ulong, b: c_ulong, c: c_ulong, d: c_ulong)
    by (bit_vector)
    requires
        a == 0 || a == 0x1,
        b == 0 || b == 0x2,
        c == 0 || c == 0x4,
        d == 0 || d == 0x8,
    ensures
        ((a | b | c | d) & 0x1 != 0) == (a == 0x1),
        ((a | b | c | d) & 0x2 != 0) == (b == 0x2),
        ((a | b | c | d) & 0x4 != 0) == (c == 0x4),
        ((a | b | c | d) & 0x8 != 0) == (d == 0x8),
{
}

/// A flag bit is set in a record exactly where a field that it covers is
/// present, and the storage of an absent field is zero.
pub proof fn lemma_encoded_flags(v: FileStat)
    ensures
        (v.encoded().flags & ATTR_SIZE != 0) == v.size.is_some(),
        (v.encoded().flags & ATTR_UIDGID != 0) == (v.uid.is_some() || v.gid.is_some()),
        (v.encoded().flags & ATTR_PERMISSIONS != 0) == v.perm.is_some(),
        (v.encoded().flags & ATTR_ACMODTIME != 0) == (v.atime.is_some() || v.mtime.is_some()),
        v.size.is_none() ==> v.encoded().filesize == 0,
        v.uid.is_none() ==> v.encoded().uid == 0,
        v.gid.is_none() ==> v.encoded().gid == 0,
        v.perm.is_none() ==> v.encoded().permissions == 0,
        v.atime.is_none() ==> v.encoded().atime == 0,
        v.mtime.is_none() ==> v.encoded().mtime == 0,
{
    lemma_flag_bits(
        flag_if(v.size.is_some(), ATTR_SIZE),
        flag_if(v.uid.is_some() || v.gid.is_some(), ATTR_UIDGID),
        flag_if(v.perm.is_some(), ATTR_PERMISSIONS),
        flag_if(v.atime.is_some() || v.mtime.is_some(), ATTR_ACMODTIME),
    );
}

/// Decoding the record of any metadata gives that metadata with its
/// paired fields filled in: what was present keeps its value, and a field
/// that shares its flag bit with a present one comes back as zero.
pub proof fn lemma_decode_encode(v: FileStat)
    ensures
        FileStat::decoded(v.encoded()) == v.paired(),
{
    lemma_encoded_flags(v);
}

/// Metadata whose owner and group are both present or both absent, and
/// whose two times are likewise, survives the way through its record
/// unchanged: absent fields stay absent and present fields keep their
/// value.
pub proof fn lemma_round_trip(v: FileStat)
    requires
        v.is_paired(),
    ensures
        FileStat::decoded(v.encoded()) == v,
{
    lemma_decode_encode(v);
}

/// Metadata comes back from its record unchanged only if it is paired.
pub proof fn lemma_round_trip_only_if_paired(v: FileStat)
    requires
        FileStat::decoded(v.encoded()) == v,
    ensures
        v.is_paired(),
{
    lemma_decode_encode(v);
}

/// An owner without a group sets the one flag bit that covers both and
/// sends the group as zero; the record then decodes to both, the group
/// being zero. The same holds of a group without an owner.
pub proof fn lemma_owner_pairing(v: FileStat)
    requires
        v.uid.is_some() != v.gid.is_some(),
    ensures
        v.encoded().flags & ATTR_UIDGID != 0,
        v.uid.is_some() ==> v.encoded().gid == 0,
        v.gid.is_some() ==> v.encoded().uid == 0,
        FileStat::decoded(v.encoded()).uid == Some(v.uid.unwrap_or(0)),
        FileStat::decoded(v.encoded()).gid == Some(v.gid.unwrap_or(0)),
{
    lemma_decode_encode(v);
    lemma_encoded_flags(v);
}

/// Narrows a record's value to 32 bits, dropping what lies above them.
fn narrow(v: c_ulong) -> (r: u32)
    ensures
        r == low32(v),
{
    assert(v & 0xffff_ffff == v % 0x1_0000_0000) by (bit_vector);
    assert(v & 0xffff_ffff <= 0xffff_ffff) by (bit_vector);
    (v & 0xffff_ffff) as u32
}

impl FileType {
    /// The permission bits this type was read from.
    pub closed spec fn perm(&self) -> c_ulong {
        self.perm
    }

    /// Whether the file-type bits are exactly `kind`.
    pub open spec fn spec_is(&self, kind: c_ulong) -> bool {
        self.perm() & S_IFMT == kind
    }

    /// Test whether this file type represents a directory.
    pub fn is_dir(&self) -> (b: bool)
        ensures
            b == self.spec_is(S_IFDIR),
    {
        self.is(S_IFDIR)
    }

    /// Test whether this file type represents a regular file.
    pub fn is_file(&self) -> (b: bool)
        ensures
            b == self.spec_is(S_IFREG),
    {
        self.is(S_IFREG)
    }

    /// Test whether this file type represents a symbolic link.
    pub fn is_symlink(&self) -> (b: bool)
        ensures
            b == self.spec_is(S_IFLNK),
    {
        self.is(S_IFLNK)
    }

    fn is(&self, perm: c_ulong) -> (b: bool)
        ensures
            b == self.spec_is(perm),
    {
        (self.perm & S_IFMT) == perm
    }
}

} // verus!
