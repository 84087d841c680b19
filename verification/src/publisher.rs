//! The single slot that holds the latest heart rate for the display.

use crate::decoder::UNKNOWN;
use vstd::prelude::*;

verus! {

/// The latest value handed to the display: a live gauge, not a log. A write
/// replaces what was there, so values written between two reads are lost.
#[derive(Clone, Copy, Debug, PartialEq, Eq)]
pub struct SharedValue {
    value: u8,
}

impl View for SharedValue {
    type V = u8;

    closed spec fn view(&self) -> u8 {
        self.value
    }
}

impl SharedValue {
    /// A slot that nothing has been written to yet: it reads as unknown.
    pub fn new() -> (slot: SharedValue)
        ensures
            slot@ == UNKNOWN,
    {
        SharedValue { value: UNKNOWN }
    }

    /// Replaces the stored value.
    pub fn publish(&mut self, value: u8)
        ensures
            final(self)@ == written(old(self)@, value),
    {
        self.value = value;
    }

    /// The value of the latest write, or unknown if there was none.
    pub fn current(&self) -> (value: u8)
        ensures
            value == self@,
    {
        self.value
    }
}

/// What a slot that held `before` reads once `value` has been written to it:
/// nothing of `before` is kept.
pub open spec fn written(before: u8, value: u8) -> u8 {
    value
}

/// What a slot that held `before` reads after `values` were published to it
/// one by one, in order.
pub open spec fn after_publishing(before: u8, values: Seq<u8>) -> u8
    decreases values.len(),
{
    if values.len() == 0 {
        before
    } else {
        written(after_publishing(before, values.drop_last()), values.last())
    }
}

/// Last write wins: after any number of publishes a read returns the last
/// value published, and a read before any publish returns what the slot
/// held, which for a new slot is unknown.
pub proof fn lemma_last_write_wins(before: u8, values: Seq<u8>)
    ensures
        values.len() == 0 ==> after_publishing(before, values) == before,
        values.len() > 0 ==> after_publishing(before, values) == values.last(),
{
}

} // verus!
