//! A single seedable source of pseudo-random draws.
//!
//! All randomized behavior in the library (escape tests, diet selection)
//! draws from a [`Tide`], so a caller that fixes the seed gets fully
//! deterministic outcomes. The generator is a linear congruential step over
//! 31-bit states; its exact evolution is part of its contract.

use vstd::prelude::*;

verus! {

/// Multiplier of the congruential step.
pub const STEP_MUL: u64 = 1103515245;
/// Increment of the congruential step.
pub const STEP_INC: u64 = 12345;
/// Modulus of the congruential step: the states are the 31-bit integers.
pub const STEP_MOD: u64 = 0x8000_0000;

/// The successor of a generator state.
pub open spec fn next_state(s: u64) -> u64 {
    ((s as int * STEP_MUL as int + STEP_INC as int) % (STEP_MOD as int)) as u64
}

/// The draw produced from state `s` when `n` outcomes are possible.
pub open spec fn draw_of(s: u64, n: u32) -> u32
    recommends
        n > 0,
{
    (next_state(s) as int % n as int) as u32
}

/// The seedable source of randomness; a deterministic stream of draws.
pub struct Tide {
    state: u64,
}

impl Tide {
    /// The current state, as the contracts speak of it.
    pub closed spec fn view(&self) -> u64 {
        self.state
    }

    /// A well-formed generator holds a reduced state.
    pub open spec fn wf(&self) -> bool {
        self@ < STEP_MOD
    }

    /// Seeds a generator; any seed is accepted and reduced.
    pub fn new(seed: u64) -> (r: Tide)
        ensures
            r.wf(),
            r@ == seed % STEP_MOD,
    {
        Tide { state: seed % STEP_MOD }
    }

    /// Advances the state once and returns a draw below `n`.
    pub fn below(&mut self, n: u32) -> (r: u32)
        requires
            old(self).wf(),
            n > 0,
        ensures
            final(self).wf(),
            final(self)@ == next_state(old(self)@),
            r == draw_of(old(self)@, n),
            r < n,
    {
        let s = (self.state * STEP_MUL + STEP_INC) % STEP_MOD;
        self.state = s;
        (s % (n as u64)) as u32
    }
}

} // verus!
