//! Sprite identifiers.
//!
//! The renderer maps each identifier to a texture; the simulation only
//! selects which one a component or weapon is drawn with.

use vstd::prelude::*;

verus! {

/// Identifies one of the game's sprites.
#[derive(Clone, Copy, Debug, PartialEq, Eq, Structural)]
pub enum Image {
    Metal,
    Pipe,
    Reactor,
    Engine,
    Rock,
    Hardpoint,
    Laser,
    TractionBeam,
}

} // verus!
