//! The requests that the handles ask for, and what their replies mean.

use crate::error::{Error, ERROR_BUFFER_TOO_SMALL};
use crate::growth::{payload, spec_payload, Growth, Settled};
use crate::stat::FileStat;
use libc::{c_int, c_long, c_ulong};
use libssh2_sys::{LIBSSH2_SFTP_ATTRIBUTES, LIBSSH2_SFTP_STATVFS};
use vstd::prelude::*;

verus! {

/// Sub-code of a metadata request that follows a final symbolic link.
pub const STAT: c_int = 0;

/// Sub-code of a metadata request that does not follow a final symbolic
/// link.
pub const LSTAT: c_int = 1;

/// Sub-code of a link request that reads where a symbolic link points.
pub const READLINK: c_int = 1;

/// Sub-code of a link request that resolves a path.
pub const REALPATH: c_int = 2;

#[verifier::external_type_specification]
#[verifier::external_body]
pub struct ExStatVfs(LIBSSH2_SFTP_STATVFS);

/// One request to the remote side, with all that it carries. `sftp` is the
/// identity of the subsystem that it goes through, `handle` that of the
/// open file or directory that it is about.
#[allow(inconsistent_fields)]
#[derive(Clone, Copy)]
pub enum Request<'a> {
    /// Open `filename` as a file or a directory, by `open_type`.
    Open { sftp: usize, filename: &'a [u8], flags: c_ulong, mode: c_long, open_type: c_int },
    /// Create the directory `path`.
    Mkdir { sftp: usize, path: &'a [u8], mode: c_long },
    /// Remove the directory `path`.
    Rmdir { sftp: usize, path: &'a [u8] },
    /// Get the metadata of `path`; `stat_type` says whether a final
    /// symbolic link is followed.
    Stat { sftp: usize, path: &'a [u8], stat_type: c_int },
    /// Set the metadata of `path` to what `attrs` marks.
    SetStat { sftp: usize, path: &'a [u8], attrs: LIBSSH2_SFTP_ATTRIBUTES },
    /// Create the symbolic link `path`, pointing to `target`.
    Symlink { sftp: usize, path: &'a [u8], target: &'a [u8] },
    /// Read where `path` points, or resolve it, by `link_type`, into a
    /// buffer of `capacity` bytes.
    ReadLink { sftp: usize, path: &'a [u8], link_type: c_int, capacity: usize },
    /// Rename `src` to `dst`.
    Rename { sftp: usize, src: &'a [u8], dst: &'a [u8], flags: c_long },
    /// Remove the file `path`.
    Unlink { sftp: usize, path: &'a [u8] },
    /// Shut the subsystem down.
    Shutdown { sftp: usize },
    /// Get the metadata of an open handle.
    FStat { handle: usize },
    /// Set the metadata of an open handle to what `attrs` marks.
    FSetStat { handle: usize, attrs: LIBSSH2_SFTP_ATTRIBUTES },
    /// Get the statistics of the volume that holds an open handle.
    FStatVfs { handle: usize },
    /// Read the next entry of an open directory, its name into a buffer of
    /// `capacity` bytes.
    ReadDir { handle: usize, capacity: usize },
    /// Have the remote side flush an open handle's data and metadata.
    FSync { handle: usize },
    /// Close an open handle.
    Close { handle: usize },
    /// Read up to `len` bytes from an open handle.
    Read { handle: usize, len: usize },
    /// Write `data` to an open handle.
    Write { handle: usize, data: &'a [u8] },
    /// Ask for the position of an open handle. No packet is exchanged.
    Tell { handle: usize },
    /// Set the position of an open handle. No packet is exchanged.
    Seek { handle: usize, offset: u64 },
}

/// What the reply to a metadata request means: the metadata that the
/// record holds, unless the status is negative.
pub open spec fn spec_stat_reply(rc: int, raw: LIBSSH2_SFTP_ATTRIBUTES) -> Result<
    FileStat,
    Error,
> {
    if rc >= 0 {
        Ok(FileStat::decoded(raw))
    } else {
        Err(Error::Session { code: rc as i32 })
    }
}

/// Takes the reply to a metadata request: its status and the record that
/// the request filled.
pub fn stat_reply(rc: c_int, raw: &LIBSSH2_SFTP_ATTRIBUTES) -> (r: Result<FileStat, Error>)
    ensures
        r == spec_stat_reply(rc as int, *raw),
{
    if rc >= 0 {
        Ok(FileStat::from_raw(raw))
    } else {
        Err(Error::Session { code: rc })
    }
}

/// Takes the reply to a request for a volume's statistics: they are
/// handed on as they came, unless the status is negative.
pub fn statvfs_reply(rc: c_int, ret: LIBSSH2_SFTP_STATVFS) -> (r: Result<
    LIBSSH2_SFTP_STATVFS,
    Error,
>)
    ensures
        r == if rc >= 0 {
            Ok::<LIBSSH2_SFTP_STATVFS, Error>(ret)
        } else {
            Err::<LIBSSH2_SFTP_STATVFS, Error>(Error::Session { code: rc })
        },
{
    if rc >= 0 {
        Ok(ret)
    } else {
        Err(Error::Session { code: rc })
    }
}

/// What the reply to a read or a write means: the number of bytes
/// transferred, which may be any number from zero on, unless the status
/// is negative.
pub open spec fn spec_transfer_reply(rc: int) -> Result<usize, Error> {
    if rc >= 0 {
        Ok(rc as usize)
    } else {
        Err(Error::Session { code: rc as i32 })
    }
}

/// Takes the reply to a read or a write. A count below what was asked for
/// is a result like any other: nothing is retried.
pub fn transfer_reply(rc: isize) -> (r: Result<usize, Error>)
    ensures
        r == spec_transfer_reply(rc as int),
{
    if rc >= 0 {
        Ok(rc as usize)
    } else {
        Err(Error::Session { code: #[verifier::truncate] (rc as i32) })
    }
}

/// How an attempt at a request with a sized buffer ended.
#[derive(Debug)]
pub enum Attempt<T> {
    /// The buffer was too small: the same request is due again, with the
    /// capacity that the sizing now gives.
    Retry,
    /// The request is over, with this result.
    Done(Result<T, Error>),
}

/// Takes the reply to a request that reads or resolves a link: its status
/// and the buffer that it filled. A retry is due where the buffer was too
/// small; a negative status fails the request; any other status is the
/// length of the path at the front of the buffer.
pub fn readlink_reply(growth: &mut Growth, rc: c_int, buf: Vec<u8>) -> (r: Attempt<Vec<u8>>)
    requires
        old(growth).wf(),
        rc == ERROR_BUFFER_TOO_SMALL ==> old(growth).spec_can_grow(),
    ensures
        final(growth).wf(),
        rc == ERROR_BUFFER_TOO_SMALL ==> r is Retry && final(growth).spec_capacity() == 2 * old(
            growth,
        ).spec_capacity() && final(growth).spec_retries() == old(growth).spec_retries() + 1,
        rc != ERROR_BUFFER_TOO_SMALL ==> final(growth).spec_capacity() == old(
            growth,
        ).spec_capacity() && final(growth).spec_retries() == old(growth).spec_retries(),
        rc != ERROR_BUFFER_TOO_SMALL && rc < 0 ==> r == Attempt::<Vec<u8>>::Done(
            Err(Error::Session { code: rc }),
        ),
        rc >= 0 ==> (r matches Attempt::Done(Ok(path)) && path@ == spec_payload(buf@, rc as int)),
{
    match growth.settle(rc) {
        Settled::Retry => Attempt::Retry,
        Settled::Failed(e) => Attempt::Done(Err(e)),
        Settled::Ready(len) => Attempt::Done(Ok(payload(buf, len))),
    }
}

/// Takes the reply to a request for the next entry of a directory: its
/// status, the buffer that it filled with the name, and the record that it
/// filled with the metadata. A retry is due where the buffer was too
/// small; a negative status fails the request; status zero says that the
/// directory has no further entry; any other status is the length of the
/// name at the front of the buffer. No name is left out here, neither `.`
/// nor `..`.
pub fn readdir_reply(
    growth: &mut Growth,
    rc: c_int,
    buf: Vec<u8>,
    raw: &LIBSSH2_SFTP_ATTRIBUTES,
) -> (r: Attempt<(Vec<u8>, FileStat)>)
    requires
        old(growth).wf(),
        rc == ERROR_BUFFER_TOO_SMALL ==> old(growth).spec_can_grow(),
    ensures
        final(growth).wf(),
        rc == ERROR_BUFFER_TOO_SMALL ==> r is Retry && final(growth).spec_capacity() == 2 * old(
            growth,
        ).spec_capacity() && final(growth).spec_retries() == old(growth).spec_retries() + 1,
        rc != ERROR_BUFFER_TOO_SMALL ==> final(growth).spec_capacity() == old(
            growth,
        ).spec_capacity() && final(growth).spec_retries() == old(growth).spec_retries(),
        rc != ERROR_BUFFER_TOO_SMALL && rc < 0 ==> r == Attempt::<(Vec<u8>, FileStat)>::Done(
            Err(Error::Session { code: rc }),
        ),
        rc == 0 ==> r == Attempt::<(Vec<u8>, FileStat)>::Done(Err(Error::NoMoreFiles)),
        rc > 0 ==> (r matches Attempt::Done(Ok(entry)) && entry.0@ == spec_payload(
            buf@,
            rc as int,
        ) && entry.1 == FileStat::decoded(*raw)),
{
    match growth.settle(rc) {
        Settled::Retry => Attempt::Retry,
        Settled::Failed(e) => Attempt::Done(Err(e)),
        Settled::Ready(len) => {
            if len == 0 {
                Attempt::Done(Err(Error::NoMoreFiles))
            } else {
                Attempt::Done(Ok((payload(buf, len), FileStat::from_raw(raw))))
            }
        },
    }
}

} // verus!
