//! Encoder for the action packets that a game client sends to its server.
//!
//! Every packet is one opcode byte followed by a payload whose layout is
//! fixed by the kind of action. Multi-byte fields travel most significant
//! byte first.

pub mod field;
pub mod packet;
pub mod marker;
pub mod opcode;
pub mod world;
pub mod action;
