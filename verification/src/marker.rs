//! Marker pools: the constant filler groups of the protocol. They carry no
//! value of the action; they fill bytes that the protocol reserves.

use vstd::prelude::*;

verus! {

/// The single byte that marks a direct target.
pub const ONE: [u8; 1] = [0x01];

/// One reserved zero byte.
pub const ZERO: [u8; 1] = [0x00];

/// A reserved field of four zero bytes.
pub const NULLS: [u8; 4] = [0x00, 0x00, 0x00, 0x00];

} // verus!
