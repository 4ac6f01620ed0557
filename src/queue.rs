use vstd::prelude::*;

use circular_queue::CircularQueue;

verus! {

#[verifier::external_type_specification]
#[verifier::external_body]
#[verifier::reject_recursive_types(T)]
pub struct ExCircularQueue<T>(CircularQueue<T>);

/// The items of a queue of integers (ids or timestamps), from the oldest to
/// the newest.
pub uninterp spec fn queue_items(q: CircularQueue<u64>) -> Seq<u64>;

/// The capacity that a queue of integers was made with.
pub uninterp spec fn queue_capacity(q: CircularQueue<u64>) -> nat;

/// Relies on `CircularQueue::with_capacity`: an empty queue of that capacity.
#[verifier::external_body]
pub(crate) fn queue_with_capacity(capacity: usize) -> (q: CircularQueue<u64>)
    ensures
        queue_items(q) == Seq::<u64>::empty(),
        queue_capacity(q) == capacity,
{
    CircularQueue::with_capacity(capacity)
}

/// Relies on `CircularQueue::push`: the item is appended; when the queue is
/// full the oldest item is overwritten.
#[verifier::external_body]
pub(crate) fn queue_push(q: &mut CircularQueue<u64>, x: u64)
    requires
        queue_capacity(*old(q)) > 0,
        queue_items(*old(q)).len() <= queue_capacity(*old(q)),
    ensures
        queue_capacity(*final(q)) == queue_capacity(*old(q)),
        queue_items(*final(q)) == if queue_items(*old(q)).len() < queue_capacity(*old(q)) {
            queue_items(*old(q)).push(x)
        } else {
            queue_items(*old(q)).drop_first().push(x)
        },
{
    q.push(x);
}

/// Relies on `CircularQueue::asc_iter`: the items from the oldest to the
/// newest.
#[verifier::external_body]
pub(crate) fn queue_to_vec(q: &CircularQueue<u64>) -> (v: Vec<u64>)
    ensures
        v@ == queue_items(*q),
{
    q.asc_iter().copied().collect()
}

/// The last `n` items of `s` (all of them when there are fewer).
pub open spec fn last_n(s: Seq<u64>, n: nat) -> Seq<u64> {
    if s.len() <= n {
        s
    } else {
        s.subrange(s.len() - n, s.len() as int)
    }
}

} // verus!
