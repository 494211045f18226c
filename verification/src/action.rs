//! The action catalog: for each kind of action its opcode and the ordered
//! byte groups of its payload, and the functions that build the packets.

use crate::field::{be16, be32, u16_to_byte_array, u32_to_byte_array};
use crate::marker::{NULLS, ONE, ZERO};
use crate::opcode;
use crate::packet::{
    build_packet, group_bytes, lemma_packet_shape, lemma_total_len_by_lengths, packet_bytes,
    total_len,
};
use crate::world::{Coordinate, Player};
use vstd::prelude::*;

verus! {

/// The four bytes that close a skill switch.
pub const ALL_ONES: [u8; 4] = [0xff, 0xff, 0xff, 0xff];

/// A command of the client, with the values that its payload carries.
#[derive(Clone, Copy, Debug, PartialEq, Eq, Structural)]
pub enum Action {
    Walk { coords: Coordinate },
    Run { coords: Coordinate },
    Relocate { coords: Coordinate },
    CastOnCoord { coords: Coordinate },
    CastOnPlayer { player: Player },
    CastOnObject { id: u32 },
    RequestReassignment { id: u32 },
    TerminateEntityDialogue { id: u32 },
    MakeEntityMove { id: u32, coords: Coordinate },
    SwitchSkill { skill: u32 },
    DrinkPotion { id: u32 },
}

impl Action {
    /// The opcode of each kind of action.
    pub open spec fn spec_opcode(&self) -> u8 {
        match *self {
            Action::Walk { .. } => opcode::WALK,
            Action::Run { .. } => opcode::RUN,
            Action::Relocate { .. } => opcode::RELOCATE,
            Action::CastOnCoord { .. } => opcode::CAST_ON_COORD,
            Action::CastOnPlayer { .. } => opcode::CAST_ON_COORD,
            Action::CastOnObject { .. } => opcode::CAST_ON_OBJECT,
            Action::RequestReassignment { .. } => opcode::REQUEST_REASSIGNMENT,
            Action::TerminateEntityDialogue { .. } => opcode::TERMINATE_ENTITY_DIALOGUE,
            Action::MakeEntityMove { .. } => opcode::MAKE_ENTITY_MOVE,
            Action::SwitchSkill { .. } => opcode::SWITCH_SKILL,
            Action::DrinkPotion { .. } => opcode::DRINK_POTION,
        }
    }

    /// The byte groups of the payload, in the order in which they are sent.
    pub open spec fn groups(&self) -> Seq<Seq<u8>> {
        match *self {
            Action::Walk { coords } => seq![be16(coords.x), be16(coords.y)],
            Action::Run { coords } => seq![be16(coords.x), be16(coords.y)],
            Action::Relocate { coords } => seq![be16(coords.x), be16(coords.y)],
            Action::CastOnCoord { coords } => seq![be16(coords.x), be16(coords.y)],
            Action::CastOnPlayer { player } => seq![
                be16(player.location.x),
                be16(player.location.y),
            ],
            Action::CastOnObject { id } => seq![ONE@, be32(id)],
            Action::RequestReassignment { id } => seq![NULLS@, be32(id)],
            Action::TerminateEntityDialogue { id } => seq![ONE@, be32(id)],
            Action::MakeEntityMove { id, coords } => seq![
                ONE@,
                be32(id),
                be32(coords.x),
                ZERO@,
                ZERO@,
                be32(coords.y),
                ZERO@,
                ZERO@,
            ],
            Action::SwitchSkill { skill } => seq![be32(skill), ALL_ONES@],
            Action::DrinkPotion { id } => seq![be32(id), NULLS@, NULLS@],
        }
    }

    /// The packet of the action: its opcode, then its groups.
    pub open spec fn packet(&self) -> Seq<u8> {
        packet_bytes(self.spec_opcode(), self.groups())
    }

    /// The opcode that opens the packet of this action.
    #[verifier::when_used_as_spec(spec_opcode)]
    pub fn opcode(&self) -> (op: u8)
        ensures
            op == self.spec_opcode(),
    {
        match *self {
            Action::Walk { .. } => opcode::WALK,
            Action::Run { .. } => opcode::RUN,
            Action::Relocate { .. } => opcode::RELOCATE,
            Action::CastOnCoord { .. } => opcode::CAST_ON_COORD,
            Action::CastOnPlayer { .. } => opcode::CAST_ON_COORD,
            Action::CastOnObject { .. } => opcode::CAST_ON_OBJECT,
            Action::RequestReassignment { .. } => opcode::REQUEST_REASSIGNMENT,
            Action::TerminateEntityDialogue { .. } => opcode::TERMINATE_ENTITY_DIALOGUE,
            Action::MakeEntityMove { .. } => opcode::MAKE_ENTITY_MOVE,
            Action::SwitchSkill { .. } => opcode::SWITCH_SKILL,
            Action::DrinkPotion { .. } => opcode::DRINK_POTION,
        }
    }
}

/// The packet that moves an entity of the player to `coords`. Here the two
/// fields of the position have four bytes each, and two reserved zero bytes
/// follow each of them.
pub fn make_entity_move(id: u32, coords: Coordinate) -> (packet: Vec<u8>)
    ensures
        packet@ == (Action::MakeEntityMove { id, coords }).packet(),
{
    let entity = u32_to_byte_array(id);
    let x = u32_to_byte_array(coords.x);
    let y = u32_to_byte_array(coords.y);
    let groups: [&[u8]; 8] = [&ONE, &entity, &x, &ZERO, &ZERO, &y, &ZERO, &ZERO];
    assert(group_bytes(groups@) =~= (Action::MakeEntityMove { id, coords }).groups());
    build_packet(opcode::MAKE_ENTITY_MOVE, &groups)
}

/// The packet that makes the character drink the potion `id`.
pub fn drink_potion(id: u32) -> (packet: Vec<u8>)
    ensures
        packet@ == (Action::DrinkPotion { id }).packet(),
{
    let potion = u32_to_byte_array(id);
    let groups: [&[u8]; 3] = [&potion, &NULLS, &NULLS];
    assert(group_bytes(groups@) =~= (Action::DrinkPotion { id }).groups());
    build_packet(opcode::DRINK_POTION, &groups)
}

/// The packet that makes the character walk to `coords`.
pub fn walk(coords: Coordinate) -> (packet: Vec<u8>)
    ensures
        packet@ == (Action::Walk { coords }).packet(),
{
    let x = u16_to_byte_array(coords.x);
    let y = u16_to_byte_array(coords.y);
    let groups: [&[u8]; 2] = [&x, &y];
    assert(group_bytes(groups@) =~= (Action::Walk { coords }).groups());
    build_packet(opcode::WALK, &groups)
}

/// The packet that makes the character run to `coords`.
pub fn run(coords: Coordinate) -> (packet: Vec<u8>)
    ensures
        packet@ == (Action::Run { coords }).packet(),
{
    let x = u16_to_byte_array(coords.x);
    let y = u16_to_byte_array(coords.y);
    let groups: [&[u8]; 2] = [&x, &y];
    assert(group_bytes(groups@) =~= (Action::Run { coords }).groups());
    build_packet(opcode::RUN, &groups)
}

/// The packet that sets the character down at `coords`.
pub fn relocate(coords: Coordinate) -> (packet: Vec<u8>)
    ensures
        packet@ == (Action::Relocate { coords }).packet(),
{
    let x = u16_to_byte_array(coords.x);
    let y = u16_to_byte_array(coords.y);
    let groups: [&[u8]; 2] = [&x, &y];
    assert(group_bytes(groups@) =~= (Action::Relocate { coords }).groups());
    build_packet(opcode::RELOCATE, &groups)
}

/// The packet that casts the selected skill on the place `coords`.
pub fn cast_on_coord(coords: Coordinate) -> (packet: Vec<u8>)
    ensures
        packet@ == (Action::CastOnCoord { coords }).packet(),
{
    let x = u16_to_byte_array(coords.x);
    let y = u16_to_byte_array(coords.y);
    let groups: [&[u8]; 2] = [&x, &y];
    assert(group_bytes(groups@) =~= (Action::CastOnCoord { coords }).groups());
    build_packet(opcode::CAST_ON_COORD, &groups)
}

/// The packet that casts the selected skill on `player`: a cast on the
/// place where the player stands.
pub fn cast_on_player(player: Player) -> (packet: Vec<u8>)
    ensures
        packet@ == (Action::CastOnPlayer { player }).packet(),
        packet@ == (Action::CastOnCoord { coords: player.location }).packet(),
{
    let x = u16_to_byte_array(player.location.x);
    let y = u16_to_byte_array(player.location.y);
    let groups: [&[u8]; 2] = [&x, &y];
    assert(group_bytes(groups@) =~= (Action::CastOnPlayer { player }).groups());
    build_packet(opcode::CAST_ON_COORD, &groups)
}

/// The packet that casts the selected skill on the object `id`.
pub fn cast_on_object(id: u32) -> (packet: Vec<u8>)
    ensures
        packet@ == (Action::CastOnObject { id }).packet(),
{
    let object = u32_to_byte_array(id);
    let groups: [&[u8]; 2] = [&ONE, &object];
    assert(group_bytes(groups@) =~= (Action::CastOnObject { id }).groups());
    build_packet(opcode::CAST_ON_OBJECT, &groups)
}

/// The packet that asks the server to reassign the entity `id`.
pub fn request_reassignment(id: u32) -> (packet: Vec<u8>)
    ensures
        packet@ == (Action::RequestReassignment { id }).packet(),
{
    let entity = u32_to_byte_array(id);
    let groups: [&[u8]; 2] = [&NULLS, &entity];
    assert(group_bytes(groups@) =~= (Action::RequestReassignment { id }).groups());
    build_packet(opcode::REQUEST_REASSIGNMENT, &groups)
}

/// The packet that ends the dialogue with the entity `id`.
pub fn terminate_entity_dialogue(id: u32) -> (packet: Vec<u8>)
    ensures
        packet@ == (Action::TerminateEntityDialogue { id }).packet(),
{
    let entity = u32_to_byte_array(id);
    let groups: [&[u8]; 2] = [&ONE, &entity];
    assert(group_bytes(groups@) =~= (Action::TerminateEntityDialogue { id }).groups());
    build_packet(opcode::TERMINATE_ENTITY_DIALOGUE, &groups)
}

/// The packet that selects the skill `skill`.
pub fn switch_skill(skill: u32) -> (packet: Vec<u8>)
    ensures
        packet@ == (Action::SwitchSkill { skill }).packet(),
{
    let selected = u32_to_byte_array(skill);
    let groups: [&[u8]; 2] = [&selected, &ALL_ONES];
    assert(group_bytes(groups@) =~= (Action::SwitchSkill { skill }).groups());
    build_packet(opcode::SWITCH_SKILL, &groups)
}

/// The packet of `action`, whatever its kind.
pub fn encode_action(action: &Action) -> (packet: Vec<u8>)
    ensures
        packet@ == action.packet(),
{
    match *action {
        Action::Walk { coords } => walk(coords),
        Action::Run { coords } => run(coords),
        Action::Relocate { coords } => relocate(coords),
        Action::CastOnCoord { coords } => cast_on_coord(coords),
        Action::CastOnPlayer { player } => cast_on_player(player),
        Action::CastOnObject { id } => cast_on_object(id),
        Action::RequestReassignment { id } => request_reassignment(id),
        Action::TerminateEntityDialogue { id } => terminate_entity_dialogue(id),
        Action::MakeEntityMove { id, coords } => make_entity_move(id, coords),
        Action::SwitchSkill { skill } => switch_skill(skill),
        Action::DrinkPotion { id } => drink_potion(id),
    }
}

/// A cast on a player is sent as a cast on the place where the player
/// stands: the two packets are the same, byte for byte.
pub proof fn lemma_cast_on_player_is_cast_on_coord(player: Player)
    ensures
        (Action::CastOnPlayer { player }).packet() == (Action::CastOnCoord {
            coords: player.location,
        }).packet(),
{
}

/// The packet depends on the action alone: whenever the same action is
/// encoded, the same bytes come out.
pub proof fn lemma_encoding_deterministic(action: Action, first: Seq<u8>, second: Seq<u8>)
    requires
        first == action.packet(),
        second == action.packet(),
    ensures
        first == second,
{
}

/// Every packet opens with the opcode of its action and is one byte longer
/// than the groups of its payload together.
pub proof fn lemma_packet_opens_with_opcode(action: Action)
    ensures
        action.packet().len() == 1 + total_len(action.groups()),
        action.packet()[0] == action.opcode(),
{
    lemma_packet_shape(action.opcode(), action.groups());
}

/// The opcode fixes the layout of the payload: two actions with the same
/// opcode have the same number of groups, each as long as its counterpart,
/// whatever values the actions carry. So their packets have the same length.
pub proof fn lemma_layout_fixed_by_opcode(a: Action, b: Action)
    requires
        a.opcode() == b.opcode(),
    ensures
        a.groups().len() == b.groups().len(),
        forall|i: int|
            #![trigger a.groups()[i]]
            0 <= i < a.groups().len() ==> a.groups()[i].len() == b.groups()[i].len(),
        a.packet().len() == b.packet().len(),
{
    lemma_total_len_by_lengths(a.groups(), b.groups());
    lemma_packet_shape(a.opcode(), a.groups());
    lemma_packet_shape(b.opcode(), b.groups());
}

} // verus!
