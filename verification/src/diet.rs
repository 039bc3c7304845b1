//! The dietary classes: an equality-comparable tag gating which prey a crab
//! may consume.

use vstd::prelude::*;
use crate::rng::Tide;
use crate::rng::draw_of;
use crate::rng::next_state;

verus! {

/// What a crab eats, and what class a prey item belongs to.
#[derive(Clone, Copy, Debug, PartialEq, Eq, Structural)]
pub enum Diet {
    Plants,
    Fish,
    Shellfish,
}

/// The diet picked by a draw among the three classes.
pub open spec fn diet_of_draw(d: u32) -> Diet {
    if d == 0 {
        Diet::Plants
    } else if d == 1 {
        Diet::Fish
    } else {
        Diet::Shellfish
    }
}

impl Diet {
    /// Picks a diet uniformly among the three classes, consuming one draw.
    pub fn random_diet(rng: &mut Tide) -> (r: Diet)
        requires
            old(rng).wf(),
        ensures
            final(rng).wf(),
            final(rng)@ == next_state(old(rng)@),
            r == diet_of_draw(draw_of(old(rng)@, 3)),
    {
        let d = rng.below(3);
        if d == 0 {
            Diet::Plants
        } else if d == 1 {
            Diet::Fish
        } else {
            Diet::Shellfish
        }
    }
}

} // verus!
