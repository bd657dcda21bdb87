//! The slot through which the sensor task hands its latest value to the
//! render task: one value at most, the newest.

use vstd::prelude::*;

verus! {

/// A slot for one pending value. Publishing replaces what is pending;
/// taking empties the slot.
pub struct Handoff<T> {
    pending: Option<T>,
}

impl<T> View for Handoff<T> {
    type V = Option<T>;

    closed spec fn view(&self) -> Option<T> {
        self.pending
    }
}

/// The slot after `value` was published into `slot`: whatever was pending
/// is gone.
pub open spec fn publish_into<T>(slot: Option<T>, value: T) -> Option<T> {
    Some(value)
}

/// The slot after `values` were published into `slot` one after another.
pub open spec fn published<T>(slot: Option<T>, values: Seq<T>) -> Option<T>
    decreases values.len(),
{
    if values.len() == 0 {
        slot
    } else {
        publish_into(published(slot, values.drop_last()), values.last())
    }
}

/// What a take gets out of `slot`, and the slot that it leaves: empty.
pub open spec fn take_from<T>(slot: Option<T>) -> (Option<T>, Option<T>) {
    (slot, None)
}

/// However many values are published between two takes, and whatever was
/// pending before, the next take gets the last of them and no other: the
/// values before it are never seen. The take after that one, with nothing
/// published in between, gets nothing.
pub proof fn lemma_latest_wins<T>(slot: Option<T>, values: Seq<T>)
    requires
        values.len() > 0,
    ensures
        take_from(published(slot, values)).0 == Some(values.last()),
        take_from(take_from(published(slot, values)).1).0 == None::<T>,
{
}

impl<T> Handoff<T> {
    /// An empty slot.
    pub fn new() -> (slot: Self)
        ensures
            slot@.is_none(),
    {
        Handoff { pending: None }
    }

    /// Stores `value` in place of whatever was pending.
    pub fn publish(&mut self, value: T)
        ensures
            final(self)@ == publish_into(old(self)@, value),
    {
        self.pending = Some(value);
    }

    /// Whether a value is pending.
    pub fn is_pending(&self) -> (pending: bool)
        ensures
            pending == self@.is_some(),
    {
        self.pending.is_some()
    }

    /// Takes the pending value out, if there is one, and leaves the slot
    /// empty.
    pub fn take(&mut self) -> (value: Option<T>)
        ensures
            (value, final(self)@) == take_from(old(self)@),
    {
        self.pending.take()
    }
}

} // verus!
