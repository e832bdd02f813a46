use vstd::prelude::*;

verus! {

/// What the slot holds once `v` was delivered: `v`, whatever waited before.
pub open spec fn delivered<T>(slot: Option<T>, v: T) -> Option<T> {
    Some(v)
}

/// What the slot holds after the values of `vs` were delivered one by one,
/// in order, with no read in between.
pub open spec fn delivered_in_turn<T>(slot: Option<T>, vs: Seq<T>) -> Option<T>
    decreases vs.len(),
{
    if vs.len() == 0 {
        slot
    } else {
        delivered(delivered_in_turn(slot, vs.drop_last()), vs.last())
    }
}

/// After any run of deliveries with no read in between, only the last value
/// delivered is waiting: the earlier ones, and what the slot held before,
/// cannot be observed.
pub proof fn lemma_only_latest_is_observable<T>(slot: Option<T>, other: Option<T>, vs: Seq<T>)
    requires
        vs.len() > 0,
    ensures
        delivered_in_turn(slot, vs) == Some(vs.last()),
        delivered_in_turn(slot, vs) == delivered_in_turn(other, vs),
{
}

/// A single-slot hand-off: a delivery overwrites what was not yet taken, and
/// a value can be taken once.
#[derive(Debug)]
pub struct Mailbox<T> {
    slot: Option<T>,
}

impl<T> Mailbox<T> {
    /// The value waiting to be taken, if any.
    pub closed spec fn pending(self) -> Option<T> {
        self.slot
    }

    /// An empty mailbox.
    pub fn new() -> (r: Mailbox<T>)
        ensures
            r.pending().is_none(),
    {
        Mailbox { slot: None }
    }

    /// Puts `v` in the slot, over whatever was waiting there. Never fails and
    /// never waits.
    pub fn deliver(&mut self, v: T)
        ensures
            final(self).pending() == delivered(old(self).pending(), v),
    {
        self.slot = Some(v);
    }

    /// Hands out the waiting value and leaves the slot empty; `None` when
    /// nothing was delivered since the last take.
    pub fn try_take(&mut self) -> (r: Option<T>)
        ensures
            r == old(self).pending(),
            final(self).pending().is_none(),
    {
        self.slot.take()
    }
}

} // verus!
