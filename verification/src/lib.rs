//! Level-layout logic of a small LDtk-driven platformer: how the layers of a
//! level are scheduled, where tiles, int-grid cells and entities are placed,
//! how entity definitions are resolved, and the player's movement decisions.
//! Everything here works on plain integers and booleans; rendering, physics in
//! floating point and the game engine itself stay outside this crate.

use vstd::prelude::*;

pub mod arith;
pub mod definitions;
pub mod entities;
pub mod layer;
pub mod movement;
pub mod int_grid;
pub mod tiles;

verus! {

} // verus!
