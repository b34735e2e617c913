//! The handle of one open file or directory.

use crate::error::Error;
use crate::growth::Growth;
use crate::request::Request;
use crate::stat::FileStat;
use crate::subsystem::Sftp;
use crate::teardown::{spec_teardown, teardown, TeardownStep};
use std::io::SeekFrom;
use vstd::prelude::*;

verus! {

#[verifier::external_type_specification]
pub struct ExSeekFrom(SeekFrom);

/// A file handle to an SFTP connection.
///
/// It is open from its making until it is closed or torn down, and never
/// opens again; after that every operation ends in [`Error::BadUse`] and
/// asks for no request.
#[derive(Debug)]
pub struct File {
    inner: Option<usize>,
    sftp: usize,
}

/// Why a seek set no position.
#[derive(Clone, Copy, Debug, PartialEq, Eq, Structural)]
pub enum SeekError {
    /// The handle was closed before.
    BadUse,
    /// The metadata that the end of the file was to be read from could not
    /// be had.
    Stat(Error),
    /// The remote side reported no size, so the end of the file is not
    /// known.
    NoFileSize,
}

impl SeekError {
    /// What this error says of itself, where that is known on this side.
    pub fn message(&self) -> (m: Option<&'static str>)
        ensures
            *self == SeekError::NoFileSize ==> (m matches Some(text) && text@
                == "no file size available"@),
            self matches SeekError::Stat(e) ==> (e == Error::NoMoreFiles ==> (m matches Some(text)
                && text@ == "no more files"@)) && (e != Error::NoMoreFiles ==> m is None),
            *self == SeekError::BadUse ==> m is None,
    {
        match *self {
            SeekError::NoFileSize => Some("no file size available"),
            SeekError::Stat(e) => e.message(),
            SeekError::BadUse => None,
        }
    }
}

/// The first step of a seek.
#[derive(Clone, Copy)]
pub enum Seeking {
    /// The position is known: this request sets it.
    Absolute(Request<'static>),
    /// The position counts from the current one: this request asks for it,
    /// and its answer goes to [`File::seek_from_current`] with `offset`.
    FromCurrent { tell: Request<'static>, offset: i64 },
    /// The position counts from the end: this request asks for the
    /// metadata, and its answer goes to [`File::seek_from_end`] with
    /// `offset`.
    FromEnd { stat: Request<'static>, offset: i64 },
}

/// The position `offset` bytes from `base`, in 64 bits: what lies beyond
/// them wraps around.
pub open spec fn seek_target(base: u64, offset: i64) -> u64 {
    ((base + offset) % 0x1_0000_0000_0000_0000) as u64
}

impl File {
    /// The identity of the handle while it is open.
    pub closed spec fn view(&self) -> Option<usize> {
        self.inner
    }

    /// The identity of the subsystem that the handle came from.
    pub closed spec fn owner(&self) -> usize {
        self.sftp
    }

    /// Whether the handle is open.
    pub open spec fn spec_is_open(&self) -> bool {
        self@.is_some()
    }

    /// The identity of the handle while it is open, zero after that.
    pub open spec fn id(&self) -> usize {
        match self@ {
            Some(raw) => raw,
            None => 0,
        }
    }

    /// What an operation on this handle comes to: `request` while the
    /// handle is open, [`Error::BadUse`] after that.
    pub open spec fn issues<'a>(&self, request: Request<'a>) -> Result<Request<'a>, Error> {
        if self@.is_some() {
            Ok(request)
        } else {
            Err(Error::BadUse)
        }
    }

    /// Wraps the identity of a handle that `sftp` has just opened.
    pub fn from_raw(sftp: &Sftp, raw: usize) -> (file: File)
        requires
            sftp.spec_is_open(),
        ensures
            file@ == Some(raw),
            file.owner() == sftp.id(),
    {
        File { inner: Some(raw), sftp: sftp.raw() }
    }

    /// The identity of the subsystem that the handle came from.
    #[verifier::when_used_as_spec(owner)]
    pub fn subsystem(&self) -> (raw: usize)
        ensures
            raw == self.owner(),
    {
        self.sftp
    }

    /// Whether the handle is open.
    #[verifier::when_used_as_spec(spec_is_open)]
    pub fn is_open(&self) -> (b: bool)
        ensures
            b == self.spec_is_open(),
    {
        self.inner.is_some()
    }

    /// The identity to issue a request on, or the refusal of a handle that
    /// is no longer open.
    fn lock(&self) -> (r: Result<usize, Error>)
        ensures
            r == match self@ {
                Some(raw) => Ok::<usize, Error>(raw),
                None => Err::<usize, Error>(Error::BadUse),
            },
    {
        match self.inner {
            Some(raw) => Ok(raw),
            None => Err(Error::BadUse),
        }
    }

    /// Set the metadata for this handle. What `stat` leaves absent is not
    /// marked in the record that goes out, and stays as it is.
    pub fn setstat(&self, stat: FileStat) -> (r: Result<Request<'static>, Error>)
        ensures
            r == self.issues(Request::FSetStat { handle: self.id(), attrs: stat.encoded() }),
    {
        let handle = self.lock()?;
        Ok(Request::FSetStat { handle, attrs: stat.raw() })
    }

    /// Get the metadata for this handle.
    pub fn stat(&self) -> (r: Result<Request<'static>, Error>)
        ensures
            r == self.issues(Request::FStat { handle: self.id() }),
    {
        let handle = self.lock()?;
        Ok(Request::FStat { handle })
    }

    /// Get the statistics of the volume that holds this handle.
    pub fn statvfs(&self) -> (r: Result<Request<'static>, Error>)
        ensures
            r == self.issues(Request::FStatVfs { handle: self.id() }),
    {
        let handle = self.lock()?;
        Ok(Request::FStatVfs { handle })
    }

    /// Reads a block of data from a handle and returns file entry
    /// information for the next entry, if any: the request of the next
    /// attempt, with a buffer as `growth` sizes it.
    ///
    /// The entry that comes back is the next one as the remote side has
    /// it: files such as `.` and `..` are among them, and the names are not
    /// absolute paths but the names of the files in this directory.
    pub fn readdir(&self, growth: &Growth) -> (r: Result<Request<'static>, Error>)
        ensures
            r == self.issues(
                Request::ReadDir { handle: self.id(), capacity: growth.spec_capacity() },
            ),
    {
        let handle = self.lock()?;
        Ok(Request::ReadDir { handle, capacity: growth.capacity() })
    }

    /// This function causes the remote server to synchronize the file data
    /// and metadata to disk (like fsync(2)).
    ///
    /// Whether the remote side can do so is not looked into here: where it
    /// cannot, the request fails.
    pub fn fsync(&self) -> (r: Result<Request<'static>, Error>)
        ensures
            r == self.issues(Request::FSync { handle: self.id() }),
    {
        let handle = self.lock()?;
        Ok(Request::FSync { handle })
    }

    /// What a close comes to.
    pub open spec fn spec_close(&self) -> Result<Request<'static>, Error> {
        self.issues(Request::Close { handle: self.id() })
    }

    /// Closes the handle. It is closed from here on, whatever the request
    /// comes back with: a second call asks for no request.
    pub fn close(&mut self) -> (r: Result<Request<'static>, Error>)
        ensures
            final(self)@ == None::<usize>,
            final(self).owner() == old(self).owner(),
            r == old(self).spec_close(),
    {
        let handle = self.lock()?;
        self.inner = None;
        Ok(Request::Close { handle })
    }

    /// Reads up to `len` bytes at the handle's position.
    pub fn read(&self, len: usize) -> (r: Result<Request<'static>, Error>)
        ensures
            r == self.issues(Request::Read { handle: self.id(), len }),
    {
        let handle = self.lock()?;
        Ok(Request::Read { handle, len })
    }

    /// Writes `buf` at the handle's position.
    pub fn write<'a>(&self, buf: &'a [u8]) -> (r: Result<Request<'a>, Error>)
        ensures
            r == self.issues(Request::Write { handle: self.id(), data: buf }),
    {
        let handle = self.lock()?;
        Ok(Request::Write { handle, data: buf })
    }

    /// Nothing is held back on this side, so there is nothing to flush.
    pub fn flush(&self) -> (r: Result<(), Error>)
        ensures
            r == Ok::<(), Error>(()),
    {
        Ok(())
    }

    /// What the first step of a seek is.
    pub open spec fn spec_seek(&self, how: SeekFrom) -> Result<Seeking, Error> {
        match self@ {
            None => Err(Error::BadUse),
            Some(handle) => Ok(
                match how {
                    SeekFrom::Start(pos) => Seeking::Absolute(Request::Seek { handle, offset: pos }),
                    SeekFrom::Current(offset) => Seeking::FromCurrent {
                        tell: Request::Tell { handle },
                        offset,
                    },
                    SeekFrom::End(offset) => Seeking::FromEnd {
                        stat: Request::FStat { handle },
                        offset,
                    },
                },
            ),
        }
    }

    /// Move the file handle's internal pointer to an arbitrary location.
    ///
    /// File pointers are a local notion: no packets are exchanged with the
    /// server during a seek, but for the metadata that a seek from the end
    /// asks for. The position is used as the offset of the reads and writes
    /// that follow.
    ///
    /// You MUST NOT seek during writing or reading a file with SFTP, as the
    /// internals use outstanding packets and changing the "file position"
    /// during transit will results in badness.
    pub fn seek(&self, how: SeekFrom) -> (r: Result<Seeking, Error>)
        ensures
            r == self.spec_seek(how),
    {
        let handle = self.lock()?;
        Ok(
            match how {
                SeekFrom::Start(pos) => Seeking::Absolute(Request::Seek { handle, offset: pos }),
                SeekFrom::Current(offset) => Seeking::FromCurrent {
                    tell: Request::Tell { handle },
                    offset,
                },
                SeekFrom::End(offset) => Seeking::FromEnd {
                    stat: Request::FStat { handle },
                    offset,
                },
            },
        )
    }

    /// The second step of a seek that counts from the current position:
    /// the request that sets the position `offset` bytes from `position`.
    pub fn seek_from_current(&self, position: u64, offset: i64) -> (r: Result<
        Request<'static>,
        Error,
    >)
        ensures
            r == self.issues(
                Request::Seek { handle: self.id(), offset: seek_target(position, offset) },
            ),
    {
        let handle = self.lock()?;
        Ok(Request::Seek { handle, offset: target(position, offset) })
    }

    /// What the second step of a seek from the end comes to.
    pub open spec fn spec_seek_from_end(&self, stat: Result<FileStat, Error>, offset: i64) -> Result<
        Request<'static>,
        SeekError,
    > {
        match stat {
            Err(e) => Err(SeekError::Stat(e)),
            Ok(s) => match s.size {
                None => Err(SeekError::NoFileSize),
                Some(size) => match self@ {
                    None => Err(SeekError::BadUse),
                    Some(handle) => Ok(
                        Request::Seek { handle, offset: seek_target(size, offset) },
                    ),
                },
            },
        }
    }

    /// The second step of a seek that counts from the end of the file: the
    /// request that sets the position `offset` bytes from the size that
    /// `stat` reports. Where the metadata could not be had, or holds no
    /// size, no position is made up: the seek fails.
    pub fn seek_from_end(&self, stat: Result<FileStat, Error>, offset: i64) -> (r: Result<
        Request<'static>,
        SeekError,
    >)
        ensures
            r == self.spec_seek_from_end(stat, offset),
    {
        match stat {
            Err(e) => Err(SeekError::Stat(e)),
            Ok(s) => match s.size {
                None => Err(SeekError::NoFileSize),
                Some(size) => match self.inner {
                    None => Err(SeekError::BadUse),
                    Some(handle) => Ok(Request::Seek { handle, offset: target(size, offset) }),
                },
            },
        }
    }

    /// What is owed when the handle goes away, on a session whose blocking
    /// mode is `was_blocking`: nothing if it was closed before, else the
    /// close in blocking mode, and the old mode after it.
    pub fn teardown(&mut self, was_blocking: bool) -> (steps: Vec<TeardownStep>)
        ensures
            final(self)@ == None::<usize>,
            final(self).owner() == old(self).owner(),
            steps@ == match old(self)@ {
                Some(handle) => spec_teardown(Request::Close { handle }, was_blocking),
                None => Seq::<TeardownStep>::empty(),
            },
    {
        match self.inner {
            Some(handle) => {
                self.inner = None;
                teardown(Request::Close { handle }, was_blocking)
            },
            None => Vec::new(),
        }
    }
}

/// The position `offset` bytes from `base`.
fn target(base: u64, offset: i64) -> (t: u64)
    ensures
        t == seek_target(base, offset),
{
    base.wrapping_add_signed(offset)
}

/// A close leaves the handle closed, and on a closed handle a close asks
/// for no request: it ends in the error of a bad use.
pub proof fn lemma_close_twice(after: File)
    requires
        after@ == None::<usize>,
    ensures
        after.spec_close() == Err::<Request<'static>, Error>(Error::BadUse),
{
}

/// A seek from the end fails wherever the metadata holds no size,
/// whatever the offset and the state of the handle.
pub proof fn lemma_seek_from_end_needs_size(file: File, stat: FileStat, offset: i64)
    requires
        stat.size.is_none(),
    ensures
        file.spec_seek_from_end(Ok(stat), offset) == Err::<Request<'static>, SeekError>(
            SeekError::NoFileSize,
        ),
{
}

} // verus!
