//! Listing a directory: taking its entries one by one until the remote
//! side has no more.

use crate::error::Error;
use crate::stat::FileStat;
use vstd::prelude::*;

verus! {

/// The byte that separates the parts of a remote path.
pub const SEPARATOR: u8 = 0x2f;

/// The byte that the names `.` and `..` are made of.
pub const DOT: u8 = 0x2e;

/// Whether `name` is `.` or `..`: the directory itself or its parent.
pub open spec fn spec_is_dot(name: Seq<u8>) -> bool {
    name == seq![DOT] || name == seq![DOT, DOT]
}

/// Whether `name` is `.` or `..`: the directory itself or its parent.
pub fn is_dot(name: &[u8]) -> (b: bool)
    ensures
        b == spec_is_dot(name@),
{
    if name.len() == 1 {
        let b = name[0] == DOT;
        assert(b == (name@ =~= seq![DOT]));
        b
    } else if name.len() == 2 {
        let b = name[0] == DOT && name[1] == DOT;
        assert(b == (name@ =~= seq![DOT, DOT]));
        b
    } else {
        false
    }
}

/// The path of `name` under `dir`. A name that starts at the root stands
/// for itself; any other follows `dir`, after a separator unless `dir` is
/// empty or ends in one.
pub open spec fn joined(dir: Seq<u8>, name: Seq<u8>) -> Seq<u8> {
    if name.len() > 0 && name[0] == SEPARATOR {
        name
    } else if dir.len() == 0 || dir.last() == SEPARATOR {
        dir + name
    } else {
        dir + seq![SEPARATOR] + name
    }
}

/// The path of `name` under `dir`.
pub fn join(dir: &[u8], name: &[u8]) -> (path: Vec<u8>)
    ensures
        path@ == joined(dir@, name@),
{
    let mut path: Vec<u8> = Vec::new();
    if !(name.len() > 0 && name[0] == SEPARATOR) {
        append(&mut path, dir);
        if dir.len() > 0 && dir[dir.len() - 1] != SEPARATOR {
            path.push(SEPARATOR);
        }
    }
    append(&mut path, name);
    assert(path@ =~= joined(dir@, name@));
    path
}

/// Adds the bytes of `more` to the end of `bytes`.
fn append(bytes: &mut Vec<u8>, more: &[u8])
    ensures
        final(bytes)@ == old(bytes)@ + more@,
{
    let mut i: usize = 0;
    while i < more.len()
        invariant
            i <= more.len(),
            bytes@ == old(bytes)@ + more@.take(i as int),
        decreases more.len() - i,
    {
        bytes.push(more[i]);
        assert(more@.take(i as int + 1) =~= more@.take(i as int).push(more@[i as int]));
        i = i + 1;
    }
    assert(more@.take(more@.len() as int) =~= more@);
}

/// What one reply to a single-entry read does to a listing.
#[derive(Clone, Copy, Debug, PartialEq, Eq, Structural)]
pub enum Progress {
    /// The entry was taken; the next read is due.
    More,
    /// The directory has no further entry: the listing is complete.
    Finished,
    /// The read failed, and the listing with it.
    Failed(Error),
}

/// The entries of a directory as they are gathered.
#[derive(Debug)]
pub struct Listing<'a> {
    dirname: &'a [u8],
    entries: Vec<(Vec<u8>, FileStat)>,
}

/// The entries of a listing as plain values: each path with its metadata.
pub open spec fn entries_view(entries: Seq<(Vec<u8>, FileStat)>) -> Seq<(Seq<u8>, FileStat)> {
    entries.map_values(|e: (Vec<u8>, FileStat)| (e.0@, e.1))
}

/// The listing that the entries `seen` of the directory `dir` come to, in
/// the order in which they came: `.` and `..` are left out, and every other
/// name is joined to `dir`.
pub open spec fn listed(dir: Seq<u8>, seen: Seq<(Seq<u8>, FileStat)>) -> Seq<(Seq<u8>, FileStat)> {
    seen.filter_map(
        |e: (Seq<u8>, FileStat)|
            if spec_is_dot(e.0) {
                None
            } else {
                Some((joined(dir, e.0), e.1))
            },
    )
}

impl<'a> Listing<'a> {
    /// The path of the directory that is listed.
    pub closed spec fn dirname(&self) -> Seq<u8> {
        self.dirname@
    }

    /// The entries gathered so far, each path with its metadata.
    pub closed spec fn view(&self) -> Seq<(Seq<u8>, FileStat)> {
        entries_view(self.entries@)
    }

    /// The listing of `dirname` before its first entry.
    pub fn new(dirname: &'a [u8]) -> (listing: Listing<'a>)
        ensures
            listing.dirname() == dirname@,
            listing@ == Seq::<(Seq<u8>, FileStat)>::empty(),
    {
        let listing = Listing { dirname, entries: Vec::new() };
        assert(listing@ =~= Seq::<(Seq<u8>, FileStat)>::empty());
        listing
    }

    /// What the reply `reply` does to the entries gathered so far: an
    /// entry other than `.` and `..` is added at the end, joined to the
    /// directory; any other reply adds nothing.
    pub open spec fn spec_accepted(&self, reply: Result<(Vec<u8>, FileStat), Error>) -> Seq<
        (Seq<u8>, FileStat),
    > {
        match reply {
            Ok(entry) => if spec_is_dot(entry.0@) {
                self@
            } else {
                self@.push((joined(self.dirname(), entry.0@), entry.1))
            },
            Err(_) => self@,
        }
    }

    /// What the reply `reply` means for the listing: after an entry the
    /// next read is due; the error whose code says "no such file" ends the
    /// listing; any other error fails it.
    pub open spec fn spec_progress(reply: Result<(Vec<u8>, FileStat), Error>) -> Progress {
        match reply {
            Ok(_) => Progress::More,
            Err(e) => if e.spec_ends_listing() {
                Progress::Finished
            } else {
                Progress::Failed(e)
            },
        }
    }

    /// Takes the reply to one single-entry read of the directory.
    pub fn accept(&mut self, reply: Result<(Vec<u8>, FileStat), Error>) -> (p: Progress)
        ensures
            final(self).dirname() == old(self).dirname(),
            final(self)@ == old(self).spec_accepted(reply),
            p == Listing::spec_progress(reply),
    {
        match reply {
            Ok((filename, stat)) => {
                if !is_dot(filename.as_slice()) {
                    let path = join(self.dirname, filename.as_slice());
                    let ghost before = self.entries@;
                    self.entries.push((path, stat));
                    assert(entries_view(self.entries@) =~= entries_view(before).push(
                        (joined(self.dirname@, filename@), stat),
                    ));
                }
                Progress::More
            },
            Err(e) => {
                if e.ends_listing() {
                    Progress::Finished
                } else {
                    Progress::Failed(e)
                }
            },
        }
    }

    /// The entries gathered, in the order in which they came.
    pub fn into_entries(self) -> (entries: Vec<(Vec<u8>, FileStat)>)
        ensures
            entries_view(entries@) == self@,
    {
        self.entries
    }
}

/// Taking the entries `seen` one after the other, from the empty listing
/// of `dir` on, gathers exactly `listed(dir, seen)`: nothing is listed
/// before the first entry, and a listing that has gathered `listed(dir,
/// seen)` and takes one more entry has gathered the listing of the longer
/// sequence.
pub proof fn lemma_accept_extends_listed(
    listing: Listing,
    seen: Seq<(Seq<u8>, FileStat)>,
    entry: (Vec<u8>, FileStat),
)
    requires
        listing@ == listed(listing.dirname(), seen),
    ensures
        listed(listing.dirname(), Seq::empty()) == Seq::<(Seq<u8>, FileStat)>::empty(),
        listing.spec_accepted(Ok(entry)) == listed(
            listing.dirname(),
            seen.push((entry.0@, entry.1)),
        ),
{
    let longer = seen.push((entry.0@, entry.1));
    assert(longer.drop_last() =~= seen);
    assert(listing.spec_accepted(Ok(entry)) =~= listed(listing.dirname(), longer));
}

/// A reply that is no entry leaves what was gathered as it is, and only
/// the error whose code says "no such file" completes the listing.
pub proof fn lemma_listing_ends(listing: Listing, e: Error)
    ensures
        listing.spec_accepted(Err(e)) == listing@,
        Listing::spec_progress(Err(e)) == Progress::Finished <==> e.spec_code()
            == crate::error::ERROR_FILE,
        Listing::spec_progress(Err(e)) != Progress::Finished ==> Listing::spec_progress(Err(e))
            == Progress::Failed(e),
{
}

} // verus!
