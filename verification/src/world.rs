//! The plain values of the game state that an action carries.

use vstd::prelude::*;

verus! {

/// A position on the map. The protocol has 16 bits for each of the two
/// fields where it sends a position, and 32 bits where it sends a move.
#[derive(Clone, Copy, Debug, PartialEq, Eq, Structural)]
pub struct Coordinate {
    pub x: u32,
    pub y: u32,
}

/// What an action needs to know of a player: where the player stands.
#[derive(Clone, Copy, Debug, PartialEq, Eq, Structural)]
pub struct Player {
    pub location: Coordinate,
}

} // verus!
