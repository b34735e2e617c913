//! The handle of the subsystem and the operations that go by path.

use crate::error::{last_error_or_unknown, spec_last_error_or_unknown, Error};
use crate::flags::{
    OpenFlags, OpenType, RenameFlags, FXF_CREAT, FXF_READ, FXF_TRUNC, FXF_WRITE, RENAME_ATOMIC,
    RENAME_NATIVE, RENAME_OVERWRITE,
};
use crate::growth::Growth;
use crate::handle::File;
use crate::listing::Listing;
use crate::request::{Request, LSTAT, READLINK, REALPATH, STAT};
use crate::stat::FileStat;
use crate::teardown::{spec_teardown, teardown, TeardownStep};
use libc::{c_int, c_long};
use vstd::prelude::*;

verus! {

/// A handle to a remote filesystem over SFTP.
///
/// It is open from its making until it is shut down or torn down; after
/// that every operation ends in [`Error::BadUse`] and asks for no request.
#[derive(Debug)]
pub struct Sftp {
    inner: Option<usize>,
}

impl Sftp {
    /// The identity of the subsystem while the handle is open.
    pub closed spec fn view(&self) -> Option<usize> {
        self.inner
    }

    /// Whether the handle is open.
    pub open spec fn spec_is_open(&self) -> bool {
        self@.is_some()
    }

    /// What an operation on this handle comes to: `request` while the
    /// handle is open, [`Error::BadUse`] after that.
    pub open spec fn issues<'a>(&self, request: Request<'a>) -> Result<Request<'a>, Error> {
        if self@.is_some() {
            Ok(request)
        } else {
            Err(Error::BadUse)
        }
    }

    /// The identity of the subsystem while the handle is open, zero after
    /// that.
    pub open spec fn id(&self) -> usize {
        match self@ {
            Some(raw) => raw,
            None => 0,
        }
    }

    /// Wraps the identity that the transport gave for the subsystem. Zero
    /// is no identity: the subsystem did not start, and the error is the
    /// one that came with it, if one did.
    pub fn from_raw_opt(raw: usize, err: Option<Error>) -> (r: Result<Sftp, Error>)
        ensures
            raw == 0 ==> r == Err::<Sftp, Error>(spec_last_error_or_unknown(err)),
            raw != 0 ==> (r matches Ok(sftp) && sftp@ == Some(raw)),
    {
        if raw == 0 {
            Err(last_error_or_unknown(err))
        } else {
            Ok(Sftp { inner: Some(raw) })
        }
    }

    /// Whether the handle is open.
    #[verifier::when_used_as_spec(spec_is_open)]
    pub fn is_open(&self) -> (b: bool)
        ensures
            b == self.spec_is_open(),
    {
        self.inner.is_some()
    }

    /// The identity of the subsystem while the handle is open, zero after
    /// that.
    #[verifier::when_used_as_spec(id)]
    pub fn raw(&self) -> (raw: usize)
        ensures
            raw == self.id(),
    {
        match self.inner {
            Some(raw) => raw,
            None => 0,
        }
    }

    /// The identity to issue a request through, or the refusal of a handle
    /// that is no longer open.
    fn lock(&self) -> (r: Result<usize, Error>)
        ensures
            r == match self@ {
                Some(raw) => Ok::<usize, Error>(raw),
                None => Err::<usize, Error>(Error::BadUse),
            },
    {
        match self.inner {
            Some(raw) => Ok(raw),
            None => Err(Error::BadUse),
        }
    }

    /// Open a handle to a file.
    pub fn open_mode<'a>(
        &self,
        filename: &'a [u8],
        flags: OpenFlags,
        mode: i32,
        open_type: OpenType,
    ) -> (r: Result<Request<'a>, Error>)
        ensures
            r == self.issues(
                Request::Open {
                    sftp: self.id(),
                    filename,
                    flags: flags.bits,
                    mode: mode as c_long,
                    open_type: open_type.spec_code(),
                },
            ),
    {
        let sftp = self.lock()?;
        Ok(
            Request::Open {
                sftp,
                filename,
                flags: flags.bits(),
                mode: mode as c_long,
                open_type: open_type.code(),
            },
        )
    }

    /// Takes the reply to an open request: the identity of the new handle,
    /// or zero where none was made, and the session's last error, if it
    /// has one.
    pub fn open_reply(&self, raw: usize, last_error: Option<Error>) -> (r: Result<File, Error>)
        ensures
            !self.spec_is_open() ==> r == Err::<File, Error>(Error::BadUse),
            self.spec_is_open() && raw == 0 ==> r == Err::<File, Error>(
                spec_last_error_or_unknown(last_error),
            ),
            self.spec_is_open() && raw != 0 ==> (r matches Ok(file) && file@ == Some(raw)
                && file.owner() == self.id()),
    {
        if !self.is_open() {
            Err(Error::BadUse)
        } else if raw == 0 {
            Err(last_error_or_unknown(last_error))
        } else {
            Ok(File::from_raw(self, raw))
        }
    }

    /// Helper to open a file in the `Read` mode.
    pub fn open<'a>(&self, filename: &'a [u8]) -> (r: Result<Request<'a>, Error>)
        ensures
            r == self.issues(
                Request::Open {
                    sftp: self.id(),
                    filename,
                    flags: FXF_READ,
                    mode: 0o644,
                    open_type: OpenType::File.spec_code(),
                },
            ),
    {
        self.open_mode(filename, OpenFlags::read(), 0o644, OpenType::File)
    }

    /// Helper to create a file in write-only mode with truncation.
    pub fn create<'a>(&self, filename: &'a [u8]) -> (r: Result<Request<'a>, Error>)
        ensures
            r == self.issues(
                Request::Open {
                    sftp: self.id(),
                    filename,
                    flags: FXF_WRITE | (FXF_TRUNC | FXF_CREAT),
                    mode: 0o644,
                    open_type: OpenType::File.spec_code(),
                },
            ),
    {
        self.open_mode(
            filename,
            OpenFlags::write().union(OpenFlags::truncate()),
            0o644,
            OpenType::File,
        )
    }

    /// Helper to open a directory for reading its contents.
    pub fn opendir<'a>(&self, dirname: &'a [u8]) -> (r: Result<Request<'a>, Error>)
        ensures
            r == self.issues(
                Request::Open {
                    sftp: self.id(),
                    filename: dirname,
                    flags: FXF_READ,
                    mode: 0,
                    open_type: OpenType::Dir.spec_code(),
                },
            ),
    {
        self.open_mode(dirname, OpenFlags::read(), 0, OpenType::Dir)
    }

    /// Convenience function to read the files in a directory: the request
    /// that opens it and the listing that takes its entries as they come.
    ///
    /// The returned paths are all joined with `dirname` when returned, and
    /// the paths `.` and `..` are filtered out of the returned list.
    pub fn readdir<'a>(&self, dirname: &'a [u8]) -> (r: Result<(Request<'a>, Listing<'a>), Error>)
        ensures
            !self.spec_is_open() ==> r == Err::<(Request<'a>, Listing<'a>), Error>(Error::BadUse),
            self.spec_is_open() ==> (r matches Ok(pair) && pair.0 == (Request::Open {
                sftp: self.id(),
                filename: dirname,
                flags: FXF_READ,
                mode: 0,
                open_type: OpenType::Dir.spec_code(),
            }) && pair.1.dirname() == dirname@ && pair.1@ == Seq::<(Seq<u8>, FileStat)>::empty()),
    {
        let request = self.opendir(dirname)?;
        Ok((request, Listing::new(dirname)))
    }

    /// Create a directory on the remote file system.
    pub fn mkdir<'a>(&self, filename: &'a [u8], mode: i32) -> (r: Result<Request<'a>, Error>)
        ensures
            r == self.issues(
                Request::Mkdir { sftp: self.id(), path: filename, mode: mode as c_long },
            ),
    {
        let sftp = self.lock()?;
        Ok(Request::Mkdir { sftp, path: filename, mode: mode as c_long })
    }

    /// Remove a directory from the remote file system.
    pub fn rmdir<'a>(&self, filename: &'a [u8]) -> (r: Result<Request<'a>, Error>)
        ensures
            r == self.issues(Request::Rmdir { sftp: self.id(), path: filename }),
    {
        let sftp = self.lock()?;
        Ok(Request::Rmdir { sftp, path: filename })
    }

    /// Get the metadata for a file, performed by stat(2)
    pub fn stat<'a>(&self, filename: &'a [u8]) -> (r: Result<Request<'a>, Error>)
        ensures
            r == self.issues(Request::Stat { sftp: self.id(), path: filename, stat_type: STAT }),
    {
        let sftp = self.lock()?;
        Ok(Request::Stat { sftp, path: filename, stat_type: STAT })
    }

    /// Get the metadata for a file, performed by lstat(2)
    pub fn lstat<'a>(&self, filename: &'a [u8]) -> (r: Result<Request<'a>, Error>)
        ensures
            r == self.issues(Request::Stat { sftp: self.id(), path: filename, stat_type: LSTAT }),
    {
        let sftp = self.lock()?;
        Ok(Request::Stat { sftp, path: filename, stat_type: LSTAT })
    }

    /// Set the metadata for a file. What `stat` leaves absent is not
    /// marked in the record that goes out, and stays as it is.
    pub fn setstat<'a>(&self, filename: &'a [u8], stat: FileStat) -> (r: Result<
        Request<'a>,
        Error,
    >)
        ensures
            r == self.issues(
                Request::SetStat { sftp: self.id(), path: filename, attrs: stat.encoded() },
            ),
    {
        let sftp = self.lock()?;
        Ok(Request::SetStat { sftp, path: filename, attrs: stat.raw() })
    }

    /// Create a symlink at `path` pointing at `target`.
    pub fn symlink<'a>(&self, path: &'a [u8], target: &'a [u8]) -> (r: Result<Request<'a>, Error>)
        ensures
            r == self.issues(Request::Symlink { sftp: self.id(), path, target }),
    {
        let sftp = self.lock()?;
        Ok(Request::Symlink { sftp, path, target })
    }

    /// Read a symlink at `path`: the request of the next attempt, with a
    /// buffer as `growth` sizes it.
    pub fn readlink<'a>(&self, path: &'a [u8], growth: &Growth) -> (r: Result<Request<'a>, Error>)
        ensures
            r == self.issues(
                Request::ReadLink {
                    sftp: self.id(),
                    path,
                    link_type: READLINK,
                    capacity: growth.spec_capacity(),
                },
            ),
    {
        self.readlink_op(path, READLINK, growth)
    }

    /// Resolve the real path for `path`: the request of the next attempt,
    /// with a buffer as `growth` sizes it.
    pub fn realpath<'a>(&self, path: &'a [u8], growth: &Growth) -> (r: Result<Request<'a>, Error>)
        ensures
            r == self.issues(
                Request::ReadLink {
                    sftp: self.id(),
                    path,
                    link_type: REALPATH,
                    capacity: growth.spec_capacity(),
                },
            ),
    {
        self.readlink_op(path, REALPATH, growth)
    }

    fn readlink_op<'a>(&self, path: &'a [u8], op: c_int, growth: &Growth) -> (r: Result<
        Request<'a>,
        Error,
    >)
        ensures
            r == self.issues(
                Request::ReadLink {
                    sftp: self.id(),
                    path,
                    link_type: op,
                    capacity: growth.spec_capacity(),
                },
            ),
    {
        let sftp = self.lock()?;
        Ok(Request::ReadLink { sftp, path, link_type: op, capacity: growth.capacity() })
    }

    /// What a rename comes to.
    pub open spec fn spec_rename<'a>(
        &self,
        src: &'a [u8],
        dst: &'a [u8],
        flags: Option<RenameFlags>,
    ) -> Result<Request<'a>, Error> {
        self.issues(
            Request::Rename {
                sftp: self.id(),
                src,
                dst,
                flags: RenameFlags::spec_or_all(flags).bits,
            },
        )
    }

    /// Rename a filesystem object on the remote filesystem.
    ///
    /// The semantics of this command typically include the ability to move a
    /// filesystem object between folders and/or filesystem mounts. If the
    /// `Overwrite` flag is not set and the destfile entry already exists, the
    /// operation will fail.
    ///
    /// Use of the other flags (Native or Atomic) indicate a preference (but
    /// not a requirement) for the remote end to perform an atomic rename
    /// operation and/or using native system calls when possible.
    ///
    /// If no flags are specified then all flags are used.
    pub fn rename<'a>(&self, src: &'a [u8], dst: &'a [u8], flags: Option<RenameFlags>) -> (r:
        Result<Request<'a>, Error>)
        ensures
            r == self.spec_rename(src, dst, flags),
    {
        let flags = RenameFlags::or_all(flags);
        let sftp = self.lock()?;
        Ok(Request::Rename { sftp, src, dst, flags: flags.bits() })
    }

    /// Remove a file on the remote filesystem
    pub fn unlink<'a>(&self, file: &'a [u8]) -> (r: Result<Request<'a>, Error>)
        ensures
            r == self.issues(Request::Unlink { sftp: self.id(), path: file }),
    {
        let sftp = self.lock()?;
        Ok(Request::Unlink { sftp, path: file })
    }

    /// What a shutdown comes to.
    pub open spec fn spec_shutdown(&self) -> Result<Request<'static>, Error> {
        self.issues(Request::Shutdown { sftp: self.id() })
    }

    /// Shuts the subsystem down. The handle is closed from here on,
    /// whatever the request comes back with: a second call asks for no
    /// request.
    pub fn shutdown(&mut self) -> (r: Result<Request<'static>, Error>)
        ensures
            final(self)@ == None::<usize>,
            r == old(self).spec_shutdown(),
    {
        let sftp = self.lock()?;
        self.inner = None;
        Ok(Request::Shutdown { sftp })
    }

    /// What is owed when the handle goes away, on a session whose blocking
    /// mode is `was_blocking`: nothing if it was shut down before, else
    /// the shutdown in blocking mode, and the old mode after it.
    pub fn teardown(&mut self, was_blocking: bool) -> (steps: Vec<TeardownStep>)
        ensures
            final(self)@ == None::<usize>,
            steps@ == match old(self)@ {
                Some(sftp) => spec_teardown(Request::Shutdown { sftp }, was_blocking),
                None => Seq::<TeardownStep>::empty(),
            },
    {
        match self.inner {
            Some(sftp) => {
                self.inner = None;
                teardown(Request::Shutdown { sftp }, was_blocking)
            },
            None => Vec::new(),
        }
    }
}

/// A rename without flags comes to what a rename with atomic, overwrite
/// and native comes to, on every handle and for every pair of paths.
pub proof fn lemma_rename_default(sftp: Sftp, src: &[u8], dst: &[u8])
    ensures
        sftp.spec_rename(src, dst, None) == sftp.spec_rename(
            src,
            dst,
            Some(
                RenameFlags { bits: RENAME_ATOMIC }.spec_union(
                    RenameFlags { bits: RENAME_OVERWRITE },
                ).spec_union(RenameFlags { bits: RENAME_NATIVE }),
            ),
        ),
{
}

/// A shutdown leaves the handle closed, and on a closed handle a shutdown
/// asks for no request: it ends in the error of a bad use.
pub proof fn lemma_shutdown_twice(after: Sftp)
    requires
        after@ == None::<usize>,
    ensures
        after.spec_shutdown() == Err::<Request<'static>, Error>(Error::BadUse),
{
}

} // verus!
