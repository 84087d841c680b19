//! A stand-in for the strap: a value that climbs by one on every tick of a
//! timer and starts over when it reaches the end of its cycle.

use crate::publisher::{written, SharedValue};
use crate::subscriber::RefreshSignal;
use vstd::prelude::*;

verus! {

/// The pause between two ticks, in milliseconds.
pub const TICK_INTERVAL_MS: u64 = 100;

/// The length of the cycle: the values run from 0 to `CYCLE - 1`.
pub const CYCLE: u8 = 200;

/// The value produced by the tick that follows `n` earlier ticks.
pub open spec fn sample(n: nat) -> u8 {
    (n % (CYCLE as nat)) as u8
}

/// The source of simulated heart rates. It can tick for ever: it keeps its
/// place in the cycle and counts the ticks only in the proof.
pub struct SimulatedSource {
    phase: u8,
    ticks: Ghost<nat>,
}

impl SimulatedSource {
    #[verifier::type_invariant]
    spec fn in_step(&self) -> bool {
        self.phase == sample(self.ticks@)
    }

    /// How many ticks the source has produced so far.
    pub closed spec fn ticks(&self) -> nat {
        self.ticks@
    }

    /// A source that has not ticked yet.
    pub fn new() -> (source: SimulatedSource)
        ensures
            source.ticks() == 0,
    {
        SimulatedSource { phase: 0, ticks: Ghost(0) }
    }

    /// Produces the next value and counts the tick.
    pub fn tick(&mut self) -> (value: u8)
        ensures
            value == sample(old(self).ticks()),
            final(self).ticks() == old(self).ticks() + 1,
    {
        proof {
            use_type_invariant(&*self);
        }
        let value = self.phase;
        let next: u8 = if value == CYCLE - 1 {
            0
        } else {
            value + 1
        };
        let ghost count = self.ticks@ + 1;
        *self = SimulatedSource { phase: next, ticks: Ghost(count) };
        value
    }

    /// One beat of the timer: publishes the next value to the slot, counts
    /// the tick, and asks the display to refresh.
    pub fn publish_next(&mut self, slot: &mut SharedValue) -> (signal: RefreshSignal)
        ensures
            final(slot)@ == written(old(slot)@, sample(old(self).ticks())),
            final(self).ticks() == old(self).ticks() + 1,
    {
        let value = self.tick();
        slot.publish(value);
        RefreshSignal
    }
}

/// The values climb one by one and wrap from the last of the cycle to 0:
/// each value follows from the one before it, and all stay inside the cycle.
pub proof fn lemma_cycle(n: nat)
    ensures
        sample(n) < CYCLE,
        sample(n) == n % 200,
        sample(n) < CYCLE - 1 ==> sample(n + 1) == sample(n) + 1,
        sample(n) == CYCLE - 1 ==> sample(n + 1) == 0,
{
}

} // verus!
