use vstd::prelude::*;

use circular_queue::CircularQueue;

use crate::queue::{last_n, queue_capacity, queue_items, queue_push, queue_to_vec, queue_with_capacity};

verus! {

/// Whether the timestamp `t` lies in the window of length `window` that ends
/// at `now`.
pub open spec fn in_window(t: u64, now: u64, window: u64) -> bool {
    now - t < window
}

/// The number of timestamps of `h` that lie in the window of length `window`
/// that ends at `now`.
pub open spec fn hits_within(h: Seq<u64>, now: u64, window: u64) -> nat
    decreases h.len(),
{
    if h.len() == 0 {
        0
    } else {
        hits_within(h.drop_last(), now, window) + if in_window(h.last(), now, window) {
            1nat
        } else {
            0nat
        }
    }
}

/// The timestamps of `h` never decrease.
pub open spec fn ascending(h: Seq<u64>) -> bool {
    forall|i: int, j: int| 0 <= i <= j < h.len() ==> h[i] <= h[j]
}

/// No timestamp of `h` lies after `now`.
pub open spec fn not_after(h: Seq<u64>, now: u64) -> bool {
    forall|i: int| 0 <= i < h.len() ==> h[i] <= now
}

/// Whether a hit at `now` exceeds the budget of `lim`: the budget is zero, or
/// the last `budget` accepted hits all lie in the window ending at `now`.
pub open spec fn would_exceed(lim: RateLimiter, now: u64) -> bool {
    lim.budget_spec() == 0 || (lim@.len() == lim.budget_spec() && in_window(
        lim@[0],
        now,
        lim.window_spec(),
    ))
}

/// A sliding-window limiter: at most `budget` accepted hits in any window of
/// length `window` (in the unit of the timestamps given to `hit`).
pub struct RateLimiter {
    window: u64,
    budget: usize,
    hits: CircularQueue<u64>,
    /// Every accepted hit so far, in order.
    accepted: Ghost<Seq<u64>>,
}

impl View for RateLimiter {
    type V = Seq<u64>;

    /// The timestamps of the last `budget` accepted hits, oldest first.
    closed spec fn view(&self) -> Seq<u64> {
        queue_items(self.hits)
    }
}

impl RateLimiter {
    /// The length of the window.
    pub closed spec fn window_spec(&self) -> u64 {
        self.window
    }

    /// The number of hits allowed in one window.
    pub closed spec fn budget_spec(&self) -> nat {
        self.budget as nat
    }

    /// Every accepted hit so far, in order.
    pub closed spec fn history(&self) -> Seq<u64> {
        self.accepted@
    }

    /// The limiter remembers the last `budget` accepted hits, which came in
    /// order of time.
    pub closed spec fn wf(&self) -> bool {
        &&& queue_capacity(self.hits) == self.budget
        &&& self@ == last_n(self.history(), self.budget as nat)
        &&& ascending(self.history())
    }

    /// A limiter that allows `budget` hits in any window of length `window`.
    pub fn new(window: u64, budget: usize) -> (r: RateLimiter)
        ensures
            r.wf(),
            r.window_spec() == window,
            r.budget_spec() == budget,
            r.history() == Seq::<u64>::empty(),
            r@ == Seq::<u64>::empty(),
    {
        RateLimiter {
            window,
            budget,
            hits: queue_with_capacity(budget),
            accepted: Ghost(Seq::empty()),
        }
    }

    /// Registers a hit at time `now`. Returns `true` (exceeded) when the
    /// budget is zero, or when the last `budget` accepted hits all lie in the
    /// window ending at `now`; the hit is then not recorded. Otherwise records
    /// it, forgetting the oldest when `budget` are held, and returns `false`.
    pub fn hit(&mut self, now: u64) -> (exceeded: bool)
        requires
            old(self).wf(),
            not_after(old(self).history(), now),
        ensures
            final(self).wf(),
            final(self).window_spec() == old(self).window_spec(),
            final(self).budget_spec() == old(self).budget_spec(),
            exceeded == would_exceed(*old(self), now),
            exceeded ==> final(self)@ == old(self)@ && final(self).history() == old(
                self,
            ).history(),
            !exceeded ==> final(self)@ == last_n(
                old(self)@.push(now),
                old(self).budget_spec(),
            ) && final(self).history() == old(self).history().push(now),
            exceeded == (hits_within(old(self).history(), now, old(self).window_spec())
                >= old(self).budget_spec()),
    {
        proof {
            lemma_window_count(self.accepted@, now, self.window, self.budget as nat);
        }
        if self.budget == 0 {
            return true;
        }
        let v = queue_to_vec(&self.hits);
        if v.len() == self.budget {
            let oldest = v[0];
            proof {
                let h = self.accepted@;
                assert(oldest == h[h.len() - self.budget]);
            }
            if now - oldest < self.window {
                return true;
            }
        }
        let ghost h = self.accepted@;
        let ghost b = self.budget as nat;
        proof {
            assert(last_n(last_n(h, b).push(now), b) =~= last_n(h.push(now), b));
            assert(ascending(h.push(now)));
        }
        queue_push(&mut self.hits, now);
        self.accepted = Ghost(self.accepted@.push(now));
        proof {
            if h.len() >= b {
                assert(last_n(h, b).drop_first().push(now) =~= last_n(h.push(now), b));
            } else {
                assert(last_n(h, b).push(now) =~= last_n(h.push(now), b));
            }
        }
        false
    }
}

/// Counting hits of an ascending history in the window ending at `now`: at
/// least `k` of them lie there exactly when the `k`-th newest does.
proof fn lemma_window_suffix(h: Seq<u64>, now: u64, window: u64, k: nat)
    requires
        ascending(h),
        not_after(h, now),
        1 <= k <= h.len(),
    ensures
        (hits_within(h, now, window) >= k) == in_window(h[h.len() - k], now, window),
    decreases h.len(),
{
    let p = h.drop_last();
    assert(ascending(p));
    assert(not_after(p, now));
    if !in_window(h.last(), now, window) {
        lemma_none_within(p, now, window, h.last());
    } else if k > 1 {
        lemma_window_suffix(p, now, window, (k - 1) as nat);
        assert(p[p.len() - (k - 1)] == h[h.len() - k]);
    }
}

/// When no hit lies after `bound`, and `bound` itself lies outside the
/// window, no hit lies in the window.
proof fn lemma_none_within(h: Seq<u64>, now: u64, window: u64, bound: u64)
    requires
        forall|i: int| 0 <= i < h.len() ==> h[i] <= bound,
        bound <= now,
        !in_window(bound, now, window),
    ensures
        hits_within(h, now, window) == 0,
    decreases h.len(),
{
    if h.len() > 0 {
        lemma_none_within(h.drop_last(), now, window, bound);
    }
}

/// A history holds no more hits in a window than it holds at all.
proof fn lemma_within_at_most_len(h: Seq<u64>, now: u64, window: u64)
    ensures
        hits_within(h, now, window) <= h.len(),
    decreases h.len(),
{
    if h.len() > 0 {
        lemma_within_at_most_len(h.drop_last(), now, window);
    }
}

/// What the limiter decides from its last `budget` hits matches the count of
/// hits in the window over the whole history.
proof fn lemma_window_count(h: Seq<u64>, now: u64, window: u64, budget: nat)
    requires
        ascending(h),
        not_after(h, now),
    ensures
        (budget == 0 || (last_n(h, budget).len() == budget && in_window(
            last_n(h, budget)[0],
            now,
            window,
        ))) == (hits_within(h, now, window) >= budget),
{
    lemma_within_at_most_len(h, now, window);
    if budget > 0 && h.len() >= budget {
        lemma_window_suffix(h, now, window, budget);
    }
}

/// The limiter reports a hit as exceeding its budget exactly when at least
/// `budget` accepted hits already lie in the window of length `window` that
/// ends at the hit's time, that is when the new hit would make more than
/// `budget` in that window.
pub proof fn lemma_exceeded_iff_window_full(lim: RateLimiter, now: u64)
    requires
        lim.wf(),
        not_after(lim.history(), now),
    ensures
        would_exceed(lim, now) == (hits_within(lim.history(), now, lim.window_spec())
            >= lim.budget_spec()),
{
    lemma_window_count(lim.history(), now, lim.window_spec(), lim.budget_spec());
}

} // verus!
