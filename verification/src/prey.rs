//! The prey items: a closed sum type over the concrete variants, each fixing
//! a dietary class at construction and carrying its own escape policy.

use vstd::prelude::*;
use crate::diet::Diet;
use crate::rng::Tide;
use crate::rng::draw_of;
use crate::rng::next_state;

verus! {

/// The speed every minnow is stocked with.
pub const MINNOW_STOCK_SPEED: u32 = 25;
/// The energy every shrimp is stocked with.
pub const SHRIMP_STOCK_ENERGY: u32 = 1;

/// A prey unit. Each variant fixes its dietary class and its
/// capture-resistance behavior:
/// - a minnow is fast-moving: it escapes when a speed-derived draw beats the
///   hunter's speed;
/// - a shrimp escapes with a fixed probability, independent of the hunter;
/// - clams and algae are stationary: they never escape.
#[derive(Clone, Copy, Debug, PartialEq, Eq, Structural)]
pub enum Prey {
    Minnow { speed: u32 },
    Shrimp { energy: u32 },
    Clam,
    Algae,
}

/// The dietary class a prey item belongs to.
pub open spec fn diet_of(p: Prey) -> Diet {
    match p {
        Prey::Minnow { .. } => Diet::Fish,
        Prey::Shrimp { .. } => Diet::Shellfish,
        Prey::Clam => Diet::Shellfish,
        Prey::Algae => Diet::Plants,
    }
}

/// Whether the variant can never evade a capture attempt.
pub open spec fn is_stationary(p: Prey) -> bool {
    match p {
        Prey::Minnow { .. } => false,
        Prey::Shrimp { .. } => false,
        Prey::Clam => true,
        Prey::Algae => true,
    }
}

/// How many outcomes the variant's escape draw ranges over; stationary
/// variants draw nothing.
pub open spec fn escape_modulus(p: Prey) -> u32 {
    match p {
        Prey::Minnow { speed } => if speed == 0 {
            1u32
        } else {
            speed
        },
        Prey::Shrimp { .. } => 2u32,
        Prey::Clam => 1u32,
        Prey::Algae => 1u32,
    }
}

/// Whether an escape test against a hunter of speed `hunter_speed` succeeds,
/// when the generator stands at `state`.
pub open spec fn escapes(p: Prey, hunter_speed: u32, state: u64) -> bool {
    match p {
        Prey::Minnow { .. } => draw_of(state, escape_modulus(p)) > hunter_speed,
        Prey::Shrimp { .. } => draw_of(state, 2) == 0,
        Prey::Clam => false,
        Prey::Algae => false,
    }
}

/// The generator state after an escape test that started at `state`.
pub open spec fn state_after_escape(p: Prey, state: u64) -> u64 {
    if is_stationary(p) {
        state
    } else {
        next_state(state)
    }
}

impl Prey {
    /// The dietary class, fixed at construction.
    pub fn diet(&self) -> (r: Diet)
        ensures
            r == diet_of(*self),
    {
        match self {
            Prey::Minnow { .. } => Diet::Fish,
            Prey::Shrimp { .. } => Diet::Shellfish,
            Prey::Clam => Diet::Shellfish,
            Prey::Algae => Diet::Plants,
        }
    }

    /// Runs this item's escape test against a hunter of the given speed.
    /// Stationary variants return false without touching the generator.
    pub fn try_escape(&self, hunter_speed: u32, rng: &mut Tide) -> (r: bool)
        requires
            old(rng).wf(),
        ensures
            final(rng).wf(),
            final(rng)@ == state_after_escape(*self, old(rng)@),
            r == escapes(*self, hunter_speed, old(rng)@),
            is_stationary(*self) ==> !r,
    {
        match self {
            Prey::Minnow { speed } => {
                let m = if *speed == 0 {
                    1
                } else {
                    *speed
                };
                let draw = rng.below(m);
                draw > hunter_speed
            },
            Prey::Shrimp { .. } => {
                let draw = rng.below(2);
                draw == 0
            },
            Prey::Clam => false,
            Prey::Algae => false,
        }
    }
}

} // verus!
