//! Sizing the buffer of a request whose answer has no known length.
//!
//! Such a request goes out with a buffer of a fixed first capacity. Where
//! the status says that the buffer was too small, the capacity is doubled
//! and the same request goes out again; any other status ends it.

use crate::error::{Error, ERROR_BUFFER_TOO_SMALL};
use vstd::arithmetic::power2::{lemma2_to64, lemma_pow2_unfold, pow2};
use vstd::prelude::*;

verus! {

/// The capacity of the first attempt.
pub const INITIAL_CAPACITY: usize = 128;

/// The buffer capacity of a request that is retried until its answer fits.
#[derive(Debug)]
pub struct Growth {
    capacity: usize,
    retries: usize,
}

/// What a status says of the attempt that it answers.
#[derive(Clone, Copy, Debug, PartialEq, Eq, Structural)]
pub enum Settled {
    /// The buffer was too small: the capacity has been doubled, and the
    /// same request is due again.
    Retry,
    /// The request failed.
    Failed(Error),
    /// The request succeeded and wrote this many bytes to the buffer.
    Ready(usize),
}

/// What the status `rc` says of an attempt.
pub open spec fn settled(rc: int) -> Settled {
    if rc == ERROR_BUFFER_TOO_SMALL {
        Settled::Retry
    } else if rc < 0 {
        Settled::Failed(Error::Session { code: rc as i32 })
    } else {
        Settled::Ready(rc as usize)
    }
}

/// The capacity of the attempt that follows `retries` retries: the first
/// capacity, doubled once for each of them.
pub open spec fn capacity_after(retries: nat) -> nat {
    INITIAL_CAPACITY as nat * pow2(retries)
}

impl Growth {
    /// The capacity of the next attempt.
    pub closed spec fn spec_capacity(&self) -> usize {
        self.capacity
    }

    /// How many attempts were answered with "buffer too small" so far.
    pub closed spec fn spec_retries(&self) -> usize {
        self.retries
    }

    /// The capacity is the first one, doubled once for each retry.
    pub open spec fn wf(&self) -> bool {
        self.spec_capacity() == capacity_after(self.spec_retries() as nat)
    }

    /// Whether the capacity can be doubled once more.
    pub open spec fn spec_can_grow(&self) -> bool {
        2 * self.spec_capacity() <= usize::MAX
    }

    /// The sizing of a request before its first attempt.
    pub fn new() -> (g: Growth)
        ensures
            g.wf(),
            g.spec_retries() == 0,
            g.spec_capacity() == INITIAL_CAPACITY,
    {
        proof {
            lemma_capacity_grows(0);
        }
        Growth { capacity: INITIAL_CAPACITY, retries: 0 }
    }

    /// The capacity of the next attempt.
    #[verifier::when_used_as_spec(spec_capacity)]
    pub fn capacity(&self) -> (c: usize)
        ensures
            c == self.spec_capacity(),
    {
        self.capacity
    }

    /// How many attempts were answered with "buffer too small" so far.
    #[verifier::when_used_as_spec(spec_retries)]
    pub fn retries(&self) -> (n: usize)
        ensures
            n == self.spec_retries(),
    {
        self.retries
    }

    /// Whether the capacity can be doubled once more.
    #[verifier::when_used_as_spec(spec_can_grow)]
    pub fn can_grow(&self) -> (b: bool)
        ensures
            b == self.spec_can_grow(),
    {
        self.capacity <= usize::MAX / 2
    }

    /// Takes the status of an attempt. Where it is "buffer too small" the
    /// capacity is doubled and a retry is due; on any other status the
    /// sizing stays as it is, and the status is a failure if negative, the
    /// number of bytes written if not.
    pub fn settle(&mut self, rc: i32) -> (s: Settled)
        requires
            old(self).wf(),
            rc == ERROR_BUFFER_TOO_SMALL ==> old(self).spec_can_grow(),
        ensures
            final(self).wf(),
            s == settled(rc as int),
            rc == ERROR_BUFFER_TOO_SMALL ==> final(self).spec_capacity() == 2 * old(
                self,
            ).spec_capacity() && final(self).spec_retries() == old(self).spec_retries() + 1,
            rc != ERROR_BUFFER_TOO_SMALL ==> final(self).spec_capacity() == old(
                self,
            ).spec_capacity() && final(self).spec_retries() == old(self).spec_retries(),
    {
        if rc == ERROR_BUFFER_TOO_SMALL {
            proof {
                lemma_capacity_grows(self.retries as nat);
            }
            self.capacity = self.capacity * 2;
            self.retries = self.retries + 1;
            Settled::Retry
        } else if rc < 0 {
            Settled::Failed(Error::Session { code: rc })
        } else {
            Settled::Ready(rc as usize)
        }
    }
}

/// Each retry doubles the capacity, so the capacity is never below the
/// first one and always above the number of retries that led to it.
pub proof fn lemma_capacity_grows(retries: nat)
    ensures
        capacity_after(0) == INITIAL_CAPACITY,
        capacity_after(retries + 1) == 2 * capacity_after(retries),
        capacity_after(retries) >= INITIAL_CAPACITY,
        capacity_after(retries) > retries,
    decreases retries,
{
    lemma2_to64();
    lemma_pow2_unfold(retries + 1);
    if retries > 0 {
        lemma_capacity_grows((retries - 1) as nat);
    }
}

/// The bytes of an answer: the first `len` bytes of the buffer, all of it
/// where it holds no more.
pub open spec fn spec_payload(buf: Seq<u8>, len: int) -> Seq<u8> {
    if 0 <= len <= buf.len() {
        buf.take(len)
    } else {
        buf
    }
}

/// Cuts the buffer of a successful attempt down to the bytes written.
pub fn payload(buf: Vec<u8>, len: usize) -> (bytes: Vec<u8>)
    ensures
        bytes@ == spec_payload(buf@, len as int),
{
    let mut bytes = buf;
    bytes.truncate(len);
    bytes
}

} // verus!
