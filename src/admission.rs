use vstd::prelude::*;

use crate::ratelimit::{not_after, would_exceed, RateLimiter};

verus! {

/// What becomes of a new connection.
#[derive(Clone, Copy, Debug, PartialEq, Eq, Structural)]
pub enum Admission {
    /// Serve it in a session of its own.
    Admit,
    /// Drop it: as many sessions as allowed are running.
    NoPermit,
    /// Drop it: connections arrive faster than allowed.
    RateLimited,
}

/// Decides on a connection accepted at time `now`, given whether a session
/// permit could be taken: without one it is dropped, and the limiter is not
/// hit; with one, the accept hits the limiter and is dropped if that
/// exceeds its budget.
pub fn decide_admission(permit_taken: bool, limiter: &mut RateLimiter, now: u64) -> (r: Admission)
    requires
        old(limiter).wf(),
        not_after(old(limiter).history(), now),
    ensures
        final(limiter).wf(),
        final(limiter).window_spec() == old(limiter).window_spec(),
        final(limiter).budget_spec() == old(limiter).budget_spec(),
        !permit_taken ==> r == Admission::NoPermit
            && final(limiter).history() == old(limiter).history(),
        permit_taken && would_exceed(*old(limiter), now) ==> r == Admission::RateLimited
            && final(limiter).history() == old(limiter).history(),
        permit_taken && !would_exceed(*old(limiter), now) ==> r == Admission::Admit
            && final(limiter).history() == old(limiter).history().push(now),
{
    if !permit_taken {
        return Admission::NoPermit;
    }
    if limiter.hit(now) {
        Admission::RateLimited
    } else {
        Admission::Admit
    }
}

} // verus!
