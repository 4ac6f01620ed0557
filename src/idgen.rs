use vstd::prelude::*;

use ring::rand::SystemRandom;

use crate::message::MsgId;

verus! {

#[verifier::external_type_specification]
#[verifier::external_body]
pub struct ExSystemRandom(SystemRandom);

/// Relies on `SecureRandom::fill` of `ring::rand::SystemRandom`: eight
/// bytes from the system's secure generator, read as one id; `None` when the
/// generator fails.
#[verifier::external_body]
fn random_id(rng: &SystemRandom) -> Option<MsgId> {
    let mut bytes = [0u8; 8];
    match ring::rand::SecureRandom::fill(rng, &mut bytes) {
        Ok(()) => Some(MsgId::from_ne_bytes(bytes)),
        Err(_) => None,
    }
}

/// A source of unpredictable ids, drawn from the system's secure generator
/// in batches of `n` and handed out in the order drawn.
pub struct RngBuf {
    rng: SystemRandom,
    buf: Vec<MsgId>,
    n: usize,
}

impl View for RngBuf {
    type V = Seq<MsgId>;

    /// The ids drawn and not yet handed out, in order.
    closed spec fn view(&self) -> Seq<MsgId> {
        self.buf@
    }
}

impl RngBuf {
    /// The size of a batch.
    pub closed spec fn batch(&self) -> nat {
        self.n as nat
    }

    /// No more ids are held than one batch.
    pub closed spec fn wf(&self) -> bool {
        self.buf@.len() <= self.n
    }

    /// A source that draws batches of `length` ids from `rng`; the first
    /// batch is drawn at once.
    pub fn new(rng: SystemRandom, length: usize) -> (r: RngBuf)
        ensures
            r.wf(),
            r.batch() == length,
    {
        let mut r = RngBuf { rng, buf: Vec::new(), n: length };
        r.refill();
        r
    }

    /// Draws up to one batch of ids; stops at the first failure of the
    /// generator.
    fn refill(&mut self)
        requires
            old(self)@.len() == 0,
        ensures
            final(self).wf(),
            final(self).batch() == old(self).batch(),
    {
        let mut i: usize = 0;
        while i < self.n
            invariant
                i <= self.n,
                self.n == old(self).n,
                self.buf@.len() == i,
            decreases self.n - i,
        {
            match random_id(&self.rng) {
                Some(id) => self.buf.push(id),
                None => return ,
            }
            i = i + 1;
        }
    }

    /// Hands out the oldest id drawn, drawing a new batch when none is
    /// left; `None` when the generator gives none.
    pub fn take_next(&mut self) -> (r: Option<MsgId>)
        requires
            old(self).wf(),
        ensures
            final(self).wf(),
            final(self).batch() == old(self).batch(),
            old(self)@.len() > 0 ==> r == Some(old(self)@[0])
                && final(self)@ == old(self)@.drop_first(),
            old(self)@.len() == 0 ==> (r is None ==> final(self)@.len() == 0) && (r is Some
                ==> final(self)@.len() < final(self).batch()),
    {
        if self.buf.len() == 0 {
            self.refill();
        }
        if self.buf.len() == 0 {
            return None;
        }
        Some(self.buf.remove(0))
    }

    /// Marks the source as in use; it holds no state to refresh.
    pub fn touch(&self) {
    }
}

} // verus!
