//! A planet of the space game: it stores the energy of sunrays in its cells,
//! spends a charged cell on each resource that an explorer asks for, and
//! meets an asteroid with a rocket if it can.
//!
//! `stacks` is the pool that keeps track of the cells, `planet` the behaviour
//! that works with the pool, `my_planet` a behaviour that works without one.
//! `messages` holds what goes in and out, `cells` what both behaviours do with
//! a cell, and `game` what is assumed of the game framework.

use vstd::prelude::*;

pub mod cells;
pub mod game;
pub mod messages;
pub mod my_planet;
pub mod planet;
pub mod stacks;

verus! {

/// Number of energy cells of the planet.
pub const N_CELLS: usize = 5;

} // verus!
