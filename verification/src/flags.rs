//! The bit sets that configure an open and a rename, and the kind of an
//! open.

use libc::{c_int, c_long, c_ulong};
use vstd::prelude::*;

verus! {

/// Bit of [`OpenFlags::read`].
pub const FXF_READ: c_ulong = 0x0000_0001;

/// Bit of [`OpenFlags::write`].
pub const FXF_WRITE: c_ulong = 0x0000_0002;

/// Bit of [`OpenFlags::append`].
pub const FXF_APPEND: c_ulong = 0x0000_0004;

/// Bit of [`OpenFlags::create`].
pub const FXF_CREAT: c_ulong = 0x0000_0008;

/// The bit that [`OpenFlags::truncate`] adds to the one of `create`.
pub const FXF_TRUNC: c_ulong = 0x0000_0010;

/// The bit that [`OpenFlags::exclusive`] adds to the one of `create`.
pub const FXF_EXCL: c_ulong = 0x0000_0020;

/// Every bit that an [`OpenFlags`] value may hold.
pub const FXF_ALL: c_ulong = 0x0000_003f;

/// Bit of [`RenameFlags::overwrite`].
pub const RENAME_OVERWRITE: c_long = 0x1;

/// Bit of [`RenameFlags::atomic`].
pub const RENAME_ATOMIC: c_long = 0x2;

/// Bit of [`RenameFlags::native`].
pub const RENAME_NATIVE: c_long = 0x4;

/// Every bit that a [`RenameFlags`] value may hold.
pub const RENAME_ALL: c_long = 0x7;

/// Kind code of an open that yields a file.
pub const OPENFILE: c_int = 0;

/// Kind code of an open that yields a directory.
pub const OPENDIR: c_int = 1;

/// Options that can be used to configure how a file is opened
#[derive(Clone, Copy, Debug, PartialEq, Eq, Structural)]
pub struct OpenFlags {
    /// The bits as the request carries them.
    pub bits: c_ulong,
}

impl OpenFlags {
    /// Open the file for reading.
    pub fn read() -> (f: OpenFlags)
        ensures
            f.bits == FXF_READ,
    {
        OpenFlags { bits: FXF_READ }
    }

    /// Open the file for writing. If both this and `read` are specified,
    /// the file is opened for both reading and writing.
    pub fn write() -> (f: OpenFlags)
        ensures
            f.bits == FXF_WRITE,
    {
        OpenFlags { bits: FXF_WRITE }
    }

    /// Force all writes to append data at the end of the file.
    pub fn append() -> (f: OpenFlags)
        ensures
            f.bits == FXF_APPEND,
    {
        OpenFlags { bits: FXF_APPEND }
    }

    /// If this flag is specified, then a new file will be created if one
    /// does not already exist (if `truncate` is specified, the new file
    /// will be truncated to zero length if it previously exists).
    pub fn create() -> (f: OpenFlags)
        ensures
            f.bits == FXF_CREAT,
    {
        OpenFlags { bits: FXF_CREAT }
    }

    /// Forces an existing file with the same name to be truncated to zero
    /// length when creating a file by specifying `create`. Using this flag
    /// implies the `create` flag.
    pub fn truncate() -> (f: OpenFlags)
        ensures
            f.bits == FXF_TRUNC | FXF_CREAT,
            f.contains(OpenFlags { bits: FXF_CREAT }),
    {
        assert((FXF_TRUNC | FXF_CREAT) & FXF_CREAT == FXF_CREAT) by (bit_vector);
        OpenFlags { bits: FXF_TRUNC | FXF_CREAT }
    }

    /// Causes the request to fail if the named file already exists. Using
    /// this flag implies the `create` flag.
    pub fn exclusive() -> (f: OpenFlags)
        ensures
            f.bits == FXF_EXCL | FXF_CREAT,
            f.contains(OpenFlags { bits: FXF_CREAT }),
    {
        assert((FXF_EXCL | FXF_CREAT) & FXF_CREAT == FXF_CREAT) by (bit_vector);
        OpenFlags { bits: FXF_EXCL | FXF_CREAT }
    }

    /// The set without any flag.
    pub fn empty() -> (f: OpenFlags)
        ensures
            f.bits == 0,
    {
        OpenFlags { bits: 0 }
    }

    /// The set's bits as the request carries them.
    pub fn bits(&self) -> (bits: c_ulong)
        ensures
            bits == self.bits,
    {
        self.bits
    }

    /// The set with exactly these bits, if each of them is a flag's.
    pub fn from_bits(bits: c_ulong) -> (f: Option<OpenFlags>)
        ensures
            f == if bits & !FXF_ALL == 0 {
                Some(OpenFlags { bits })
            } else {
                None
            },
    {
        if bits & !FXF_ALL == 0 {
            Some(OpenFlags { bits })
        } else {
            None
        }
    }

    /// Whether every flag of `other` is in this set.
    pub open spec fn spec_contains(&self, other: OpenFlags) -> bool {
        self.bits & other.bits == other.bits
    }

    /// Whether every flag of `other` is in this set.
    #[verifier::when_used_as_spec(spec_contains)]
    pub fn contains(&self, other: OpenFlags) -> (b: bool)
        ensures
            b == self.spec_contains(other),
    {
        self.bits & other.bits == other.bits
    }

    /// The flags of this set together with those of `other`.
    pub open spec fn spec_union(self, other: OpenFlags) -> OpenFlags {
        OpenFlags { bits: self.bits | other.bits }
    }

    /// The flags of this set together with those of `other`.
    #[verifier::when_used_as_spec(spec_union)]
    pub fn union(self, other: OpenFlags) -> (f: OpenFlags)
        ensures
            f == self.spec_union(other),
    {
        OpenFlags { bits: self.bits | other.bits }
    }
}

/// A union holds both of its parts, and nothing that neither holds.
pub proof fn lemma_open_union(a: OpenFlags, b: OpenFlags, c: OpenFlags)
    ensures
        a.union(b).contains(a),
        a.union(b).contains(b),
        a.contains(c) || b.contains(c) ==> a.union(b).contains(c),
        c.contains(a) && c.contains(b) ==> c.contains(a.union(b)),
{
    let x = a.bits;
    let y = b.bits;
    let z = c.bits;
    assert((x | y) & x == x) by (bit_vector);
    assert((x | y) & y == y) by (bit_vector);
    assert((x & z == z || y & z == z) ==> (x | y) & z == z) by (bit_vector);
    assert((z & x == x && z & y == y) ==> z & (x | y) == (x | y)) by (bit_vector);
}

/// Options to `Sftp::rename`.
#[derive(Clone, Copy, Debug, PartialEq, Eq, Structural)]
pub struct RenameFlags {
    /// The bits as the request carries them.
    pub bits: c_long,
}

impl RenameFlags {
    /// In a rename operation, overwrite the destination if it already
    /// exists. If this flag is not present then it is an error if the
    /// destination already exists.
    pub fn overwrite() -> (f: RenameFlags)
        ensures
            f.bits == RENAME_OVERWRITE,
    {
        RenameFlags { bits: RENAME_OVERWRITE }
    }

    /// Inform the remote that an atomic rename operation is desired if
    /// available.
    pub fn atomic() -> (f: RenameFlags)
        ensures
            f.bits == RENAME_ATOMIC,
    {
        RenameFlags { bits: RENAME_ATOMIC }
    }

    /// Inform the remote end that the native system calls for renaming
    /// should be used.
    pub fn native() -> (f: RenameFlags)
        ensures
            f.bits == RENAME_NATIVE,
    {
        RenameFlags { bits: RENAME_NATIVE }
    }

    /// The set without any flag.
    pub fn empty() -> (f: RenameFlags)
        ensures
            f.bits == 0,
    {
        RenameFlags { bits: 0 }
    }

    /// The set's bits as the request carries them.
    pub fn bits(&self) -> (bits: c_long)
        ensures
            bits == self.bits,
    {
        self.bits
    }

    /// Whether every flag of `other` is in this set.
    pub open spec fn spec_contains(&self, other: RenameFlags) -> bool {
        self.bits & other.bits == other.bits
    }

    /// Whether every flag of `other` is in this set.
    #[verifier::when_used_as_spec(spec_contains)]
    pub fn contains(&self, other: RenameFlags) -> (b: bool)
        ensures
            b == self.spec_contains(other),
    {
        self.bits & other.bits == other.bits
    }

    /// The flags of this set together with those of `other`.
    pub open spec fn spec_union(self, other: RenameFlags) -> RenameFlags {
        RenameFlags { bits: self.bits | other.bits }
    }

    /// The flags of this set together with those of `other`.
    #[verifier::when_used_as_spec(spec_union)]
    pub fn union(self, other: RenameFlags) -> (f: RenameFlags)
        ensures
            f == self.spec_union(other),
    {
        RenameFlags { bits: self.bits | other.bits }
    }

    /// The flags of a rename whose caller names none: atomic, overwrite
    /// and native together.
    pub open spec fn spec_all() -> RenameFlags {
        RenameFlags { bits: RENAME_ATOMIC }.spec_union(RenameFlags { bits: RENAME_OVERWRITE })
            .spec_union(RenameFlags { bits: RENAME_NATIVE })
    }

    /// The flags of a rename whose caller names none: atomic, overwrite
    /// and native together.
    #[verifier::when_used_as_spec(spec_all)]
    pub fn all() -> (f: RenameFlags)
        ensures
            f == RenameFlags::spec_all(),
            f.bits == RENAME_ALL,
    {
        assert((RENAME_ATOMIC | RENAME_OVERWRITE) | RENAME_NATIVE == RENAME_ALL) by (bit_vector);
        RenameFlags::atomic().union(RenameFlags::overwrite()).union(RenameFlags::native())
    }

    /// The flags that a rename goes out with: those that the caller names,
    /// all of them where the caller names none.
    pub open spec fn spec_or_all(flags: Option<RenameFlags>) -> RenameFlags {
        match flags {
            Some(f) => f,
            None => RenameFlags::spec_all(),
        }
    }

    /// The flags that a rename goes out with: those that the caller names,
    /// all of them where the caller names none.
    #[verifier::when_used_as_spec(spec_or_all)]
    pub fn or_all(flags: Option<RenameFlags>) -> (f: RenameFlags)
        ensures
            f == RenameFlags::spec_or_all(flags),
    {
        match flags {
            Some(f) => f,
            None => RenameFlags::all(),
        }
    }
}

/// How to open a file handle.
#[derive(Clone, Copy, Debug, PartialEq, Eq, Structural)]
pub enum OpenType {
    /// Specify that a file should be opened.
    File,
    /// Specify that a directory should be opened.
    Dir,
}

impl OpenType {
    /// The kind code that the open request carries.
    pub open spec fn spec_code(self) -> c_int {
        match self {
            OpenType::File => OPENFILE,
            OpenType::Dir => OPENDIR,
        }
    }

    /// The kind code that the open request carries.
    #[verifier::when_used_as_spec(spec_code)]
    pub fn code(self) -> (code: c_int)
        ensures
            code == self.spec_code(),
    {
        match self {
            OpenType::File => OPENFILE,
            OpenType::Dir => OPENDIR,
        }
    }
}

} // verus!
