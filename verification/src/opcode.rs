//! Opcodes: the byte that opens a packet and tells the kind of action.

use vstd::prelude::*;

verus! {

/// Walk to a place.
pub const WALK: u8 = 0x01;

/// Run to a place.
pub const RUN: u8 = 0x03;

/// Be set down at a place.
pub const RELOCATE: u8 = 0x5f;

/// Cast on a place. Also opens the packet of a cast on a player, which is
/// sent as a cast on the place where that player stands.
pub const CAST_ON_COORD: u8 = 0x0c;

/// Cast on an object.
pub const CAST_ON_OBJECT: u8 = 0x0d;

/// Ask the server to reassign an entity.
pub const REQUEST_REASSIGNMENT: u8 = 0x4b;

/// End the dialogue with an entity.
pub const TERMINATE_ENTITY_DIALOGUE: u8 = 0x30;

/// Move an entity of the player.
pub const MAKE_ENTITY_MOVE: u8 = 0x59;

/// Select a skill.
pub const SWITCH_SKILL: u8 = 0x3c;

/// Drink a potion.
pub const DRINK_POTION: u8 = 0x26;

} // verus!
