use vstd::prelude::*;

use circular_queue::CircularQueue;

use crate::queue::{last_n, queue_capacity, queue_items, queue_push, queue_to_vec, queue_with_capacity};

use crate::error::Error;
use crate::message::MsgId;

verus! {

/// The number of recent ids that a session remembers.
pub const ID_CACHE_SIZE: usize = 32;

/// The recent ids after `id` is recorded: appended, with the oldest evicted
/// when `ID_CACHE_SIZE` are already held.
pub open spec fn recorded(ids: Seq<u64>, id: u64) -> Seq<u64> {
    if ids.len() < ID_CACHE_SIZE {
        ids.push(id)
    } else {
        ids.drop_first().push(id)
    }
}

/// A bounded FIFO of the ids of the last inbound messages of a session.
pub struct DuplicateFilter {
    ids: CircularQueue<u64>,
    /// Every id accepted so far, in order.
    accepted: Ghost<Seq<u64>>,
}

impl View for DuplicateFilter {
    type V = Seq<u64>;

    /// The remembered ids, from the oldest to the newest.
    closed spec fn view(&self) -> Seq<u64> {
        queue_items(self.ids)
    }
}

impl DuplicateFilter {
    /// Every id accepted so far, in order.
    pub closed spec fn history(&self) -> Seq<u64> {
        self.accepted@
    }

    /// The number of ids that the filter can hold.
    pub closed spec fn capacity(&self) -> nat {
        queue_capacity(self.ids)
    }

    /// The filter holds at most `ID_CACHE_SIZE` ids: the last ones accepted.
    pub open spec fn wf(&self) -> bool {
        &&& self.capacity() == ID_CACHE_SIZE
        &&& self@ == last_n(self.history(), ID_CACHE_SIZE as nat)
    }

    /// An empty filter.
    pub fn new() -> (r: DuplicateFilter)
        ensures
            r.wf(),
            r@ == Seq::<u64>::empty(),
            r.history() == Seq::<u64>::empty(),
    {
        DuplicateFilter { ids: queue_with_capacity(ID_CACHE_SIZE), accepted: Ghost(Seq::empty()) }
    }

    /// Whether `id` is among the remembered ids.
    pub fn contains(&self, id: MsgId) -> (r: bool)
        ensures
            r == self@.contains(id),
    {
        let v = queue_to_vec(&self.ids);
        let mut i: usize = 0;
        while i < v.len()
            invariant
                v@ == self@,
                i <= v@.len(),
                forall|k: int| 0 <= k < i ==> v@[k] != id,
            decreases v@.len() - i,
        {
            if v[i] == id {
                assert(self@[i as int] == id);
                return true;
            }
            i = i + 1;
        }
        false
    }

    /// Remembers `id`, forgetting the oldest id when `ID_CACHE_SIZE` are
    /// already held.
    pub fn record(&mut self, id: MsgId)
        requires
            old(self).wf(),
        ensures
            final(self).wf(),
            final(self)@ == recorded(old(self)@, id),
            final(self)@.contains(id),
            final(self).history() == old(self).history().push(id),
    {
        proof {
            lemma_recorded_last_n(self.accepted@, id);
        }
        queue_push(&mut self.ids, id);
        self.accepted = Ghost(self.accepted@.push(id));
        assert(self@[self@.len() - 1] == id);
    }

    /// Accepts `id` if it is not among the remembered ids, and remembers it;
    /// otherwise fails with `DuplicateMessage` and changes nothing.
    pub fn check(&mut self, id: MsgId) -> (r: Result<(), Error>)
        requires
            old(self).wf(),
        ensures
            final(self).wf(),
            old(self)@.contains(id) ==> r == Err::<(), Error>(Error::DuplicateMessage)
                && *final(self) == *old(self),
            !old(self)@.contains(id) ==> r == Ok::<(), Error>(())
                && final(self)@ == recorded(old(self)@, id)
                && final(self).history() == old(self).history().push(id),
            final(self)@.contains(id),
            r is Err ==> last_n(old(self).history(), ID_CACHE_SIZE as nat).contains(id),
    {
        if self.contains(id) {
            Err(Error::DuplicateMessage)
        } else {
            self.record(id);
            Ok(())
        }
    }
}

/// Recording an id keeps the filter equal to the last accepted ids.
proof fn lemma_recorded_last_n(h: Seq<u64>, id: u64)
    ensures
        recorded(last_n(h, ID_CACHE_SIZE as nat), id) == last_n(h.push(id), ID_CACHE_SIZE as nat),
{
    let n = ID_CACHE_SIZE as nat;
    if h.len() < n {
    } else if h.len() == n {
        assert(last_n(h, n).drop_first().push(id) =~= h.push(id).subrange(1, h.len() as int + 1));
    } else {
        assert(last_n(h, n).drop_first().push(id) =~= h.push(id).subrange(
            h.len() as int + 1 - n,
            h.len() as int + 1,
        ));
    }
}

/// Once `ID_CACHE_SIZE` distinct ids are remembered, recording one more
/// distinct id evicts the oldest.
pub proof fn lemma_full_filter_evicts_oldest(ids: Seq<u64>, id: u64)
    requires
        ids.len() == ID_CACHE_SIZE,
        ids.no_duplicates(),
        !ids.contains(id),
    ensures
        !recorded(ids, id).contains(ids[0]),
        recorded(ids, id).len() == ID_CACHE_SIZE,
        recorded(ids, id).last() == id,
{
    let r = recorded(ids, id);
    if r.contains(ids[0]) {
        let k = choose|k: int| 0 <= k < r.len() && r[k] == ids[0];
        if k < r.len() - 1 {
            assert(r[k] == ids[k + 1]);
        }
    }
}

} // verus!
