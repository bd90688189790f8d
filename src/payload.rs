use vstd::prelude::*;

use crate::dispose::{disposal_of, Disposal, OnFault};

verus! {

/// An unwinding payload, held until a disposition is chosen for it.
///
/// Its state is `Some(p)` while it holds the payload `p`, and `None` once the
/// payload has been consumed. A driver that destroys a carrier still holding
/// its payload disposes of it as [`Payload::drop_or_abort`] does, through
/// [`Payload::release`].
pub struct Payload<P> {
    slot: Option<P>,
}

impl<P> View for Payload<P> {
    type V = Option<P>;

    closed spec fn view(&self) -> Option<P> {
        self.slot
    }
}

/// The state of a carrier after `release` and what `release` returns, from
/// the state `v` before it.
pub open spec fn released<P>(v: Option<P>) -> (Option<P>, Option<Disposal<P>>) {
    match v {
        Some(p) => (None, Some(disposal_of(p, OnFault::Abort))),
        None => (None, None),
    }
}

impl<P> Payload<P> {
    /// Wraps a captured payload.
    pub fn new(payload: P) -> (r: Self)
        ensures
            r@ == Some(payload),
    {
        Payload { slot: Some(payload) }
    }

    /// Whether the payload is still held.
    pub fn is_present(&self) -> (r: bool)
        ensures
            r == self@ is Some,
    {
        self.slot.is_some()
    }

    /// Borrows the payload.
    pub fn get(&self) -> (r: &P)
        requires
            self@ is Some,
        ensures
            *r == self@->Some_0,
    {
        match &self.slot {
            Some(p) => p,
            None => vstd::pervasive::unreached(),
        }
    }

    /// Borrows the payload mutably.
    pub fn get_mut(&mut self) -> (r: &mut P)
        requires
            old(self)@ is Some,
        ensures
            *r == old(self)@->Some_0,
            final(self)@ == Some(*final(r)),
    {
        self.slot.as_mut().unwrap()
    }

    /// Takes the payload out; the caller is then in charge of finalizing it.
    pub fn into_inner(self) -> (r: P)
        requires
            self@ is Some,
        ensures
            r == self@->Some_0,
    {
        self.slot.unwrap()
    }

    /// Consumes the carrier and requests the finalization of its payload; an
    /// interruption raised by it terminates the process.
    pub fn drop_or_abort(self) -> (r: Disposal<P>)
        requires
            self@ is Some,
        ensures
            r == disposal_of(self@->Some_0, OnFault::Abort),
    {
        crate::dispose::drop_or_abort(self.into_inner())
    }

    /// Consumes the carrier and requests the finalization of its payload; an
    /// interruption raised by it is leaked.
    pub fn drop_or_forget(self) -> (r: Disposal<P>)
        requires
            self@ is Some,
        ensures
            r == disposal_of(self@->Some_0, OnFault::Forget),
    {
        crate::dispose::drop_or_forget(self.into_inner())
    }

    /// Consumes the payload if it is still held, and returns the disposal that
    /// a carrier destroyed without an explicit decision owes it.
    pub fn release(&mut self) -> (r: Option<Disposal<P>>)
        ensures
            (final(self)@, r) == released(old(self)@),
    {
        match self.slot.take() {
            Some(p) => Some(crate::dispose::drop_or_abort(p)),
            None => None,
        }
    }
}

/// Destroying a carrier that still holds its payload disposes of it exactly
/// as `drop_or_abort` does.
pub proof fn lemma_release_is_drop_or_abort<P>(c: Payload<P>)
    requires
        c@ is Some,
    ensures
        released(c@) == (None::<P>, Some(disposal_of(c@->Some_0, OnFault::Abort))),
{
}

/// A payload is consumed once: after release the carrier is empty, and
/// releasing it again hands nothing out.
pub proof fn lemma_consumed_once<P>(v: Option<P>)
    ensures
        released(v).0 is None,
        released(released(v).0).1 is None,
{
}

} // verus!
