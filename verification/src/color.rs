//! The visual trait of a crab, and the deterministic crossing rule used by
//! breeding.

use vstd::prelude::*;

verus! {

/// A crab's visual trait.
#[derive(Clone, Copy, Debug, PartialEq, Eq, Structural)]
pub enum Color {
    Red,
    Green,
    Blue,
}

/// The crossing rule: two equal parents pass their color on; two different
/// parents yield the third color.
pub open spec fn crossed(a: Color, b: Color) -> Color {
    if a == b {
        a
    } else if a != Color::Red && b != Color::Red {
        Color::Red
    } else if a != Color::Green && b != Color::Green {
        Color::Green
    } else {
        Color::Blue
    }
}

impl Color {
    /// Combines the visual traits of two parents into the offspring's trait.
    pub fn cross(a: &Color, b: &Color) -> (r: Color)
        ensures
            r == crossed(*a, *b),
    {
        match (a, b) {
            (Color::Red, Color::Red) => Color::Red,
            (Color::Green, Color::Green) => Color::Green,
            (Color::Blue, Color::Blue) => Color::Blue,
            (Color::Green, Color::Blue) => Color::Red,
            (Color::Blue, Color::Green) => Color::Red,
            (Color::Red, Color::Blue) => Color::Green,
            (Color::Blue, Color::Red) => Color::Green,
            (Color::Red, Color::Green) => Color::Blue,
            (Color::Green, Color::Red) => Color::Blue,
        }
    }
}

} // verus!
