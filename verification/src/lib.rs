//! Core simulation logic for a 2D game of composite rigid-body ships.
//!
//! A ship is a grid of components (armour, reactors, engines, weapon
//! hardpoints) backed by a single rigid body in a physics world.  This
//! crate holds the verified heart of the game: the component model, the
//! weapon aiming state machine, thrust and impulse computation, ray-hit
//! resolution and the damage / body-rebuild lifecycle.
//!
//! All quantities are fixed-point integers: positions and vectors in
//! milli-units (one grid cell is 32 units), angles in milliradians, and
//! rotations as cosine/sine pairs scaled by 1000.  The surrounding
//! program owns the physics engine and the window; it converts between
//! these integers and its floating-point world, and performs the actions
//! (impulses, body swaps) that the functions here decide on.

use vstd::prelude::*;

pub mod colours;
pub mod geom;
pub mod resources;
pub mod ships;
pub mod weapons;

verus! {

/// One tick's input snapshot, read-only to the simulation.
///
/// The cursor position itself stays with the caller: per-hardpoint
/// bearings to the cursor are handed to [`ships::Ship::step`] as angles,
/// already quantised to milliradians.
pub struct Controls {
    pub up: bool,
    pub left: bool,
    pub right: bool,
    pub fire: bool,
}

} // verus!
