//! What is owed when a handle goes away without having been closed.

use crate::request::Request;
use vstd::prelude::*;

verus! {

/// One step of a teardown. The steps are taken in order, under the
/// session's lock.
#[derive(Clone, Copy)]
pub enum TeardownStep {
    /// Set the session's blocking mode.
    SetBlocking(bool),
    /// Issue the request and wait for it; it has to come back with a
    /// status that [`succeeded`] accepts.
    MustSucceed(Request<'static>),
}

/// The steps that release `request`'s handle on a session whose blocking
/// mode was `was_blocking`: force blocking mode, issue the request, and
/// put the mode back.
pub open spec fn spec_teardown(request: Request<'static>, was_blocking: bool) -> Seq<
    TeardownStep,
> {
    seq![
        TeardownStep::SetBlocking(true),
        TeardownStep::MustSucceed(request),
        TeardownStep::SetBlocking(was_blocking),
    ]
}

/// The steps that release `request`'s handle on a session whose blocking
/// mode was `was_blocking`.
pub fn teardown(request: Request<'static>, was_blocking: bool) -> (steps: Vec<TeardownStep>)
    ensures
        steps@ == spec_teardown(request, was_blocking),
{
    let mut steps: Vec<TeardownStep> = Vec::new();
    steps.push(TeardownStep::SetBlocking(true));
    steps.push(TeardownStep::MustSucceed(request));
    steps.push(TeardownStep::SetBlocking(was_blocking));
    assert(steps@ =~= spec_teardown(request, was_blocking));
    steps
}

/// Whether the status of a teardown's request is the one that it has to
/// come back with: zero.
pub fn succeeded(rc: i32) -> (ok: bool)
    ensures
        ok == (rc == 0),
{
    rc == 0
}

} // verus!
