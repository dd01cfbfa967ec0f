//! The few colours the game draws with.
//!
//! The renderer owns the actual pixel format; the simulation only ever
//! names one of these.

use vstd::prelude::*;

verus! {

/// A drawing colour.
#[derive(Clone, Copy, Debug, PartialEq, Eq, Structural)]
pub enum Colour {
    Black,
    White,
    Red,
    Green,
}

impl Colour {
    /// Red, green, blue and alpha of the colour, each in `0..=255`.
    pub fn rgba(&self) -> (c: (u8, u8, u8, u8))
        ensures
            c == spec_rgba(*self),
    {
        match *self {
            Colour::Black => (0, 0, 0, 255),
            Colour::White => (255, 255, 255, 255),
            Colour::Red => (255, 0, 0, 255),
            Colour::Green => (0, 255, 0, 255),
        }
    }
}

/// The channel values of each colour.
pub open spec fn spec_rgba(c: Colour) -> (u8, u8, u8, u8) {
    match c {
        Colour::Black => (0u8, 0u8, 0u8, 255u8),
        Colour::White => (255u8, 255u8, 255u8, 255u8),
        Colour::Red => (255u8, 0u8, 0u8, 255u8),
        Colour::Green => (0u8, 255u8, 0u8, 255u8),
    }
}

} // verus!
