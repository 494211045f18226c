//! Packet builder: one opcode byte, then the byte groups of the payload in
//! the order given.

use vstd::prelude::*;

verus! {

/// The contents of each byte group, in order.
pub open spec fn group_bytes(groups: Seq<&[u8]>) -> Seq<Seq<u8>> {
    groups.map_values(|g: &[u8]| g@)
}

/// The sum of the lengths of the groups.
pub open spec fn total_len(groups: Seq<Seq<u8>>) -> nat
    decreases groups.len(),
{
    if groups.len() == 0 {
        0
    } else {
        total_len(groups.drop_last()) + groups.last().len()
    }
}

/// A packet: the opcode, then every group in order, with nothing between
/// them and nothing after the last.
pub open spec fn packet_bytes(command: u8, groups: Seq<Seq<u8>>) -> Seq<u8> {
    seq![command] + groups.flatten()
}

/// The groups laid end to end are as long as the groups together.
pub proof fn lemma_flatten_len(groups: Seq<Seq<u8>>)
    ensures
        groups.flatten().len() == total_len(groups),
    decreases groups.len(),
{
    if groups.len() > 0 {
        lemma_flatten_len(groups.drop_last());
        groups.drop_last().lemma_flatten_push(groups.last());
        assert(groups.drop_last().push(groups.last()) =~= groups);
    }
}

/// A packet is one byte longer than its groups together, and its first byte
/// is the opcode.
pub proof fn lemma_packet_shape(command: u8, groups: Seq<Seq<u8>>)
    ensures
        packet_bytes(command, groups).len() == 1 + total_len(groups),
        packet_bytes(command, groups)[0] == command,
{
    lemma_flatten_len(groups);
}

/// Groups that agree in number and, one by one, in length are as long
/// together.
pub proof fn lemma_total_len_by_lengths(first: Seq<Seq<u8>>, second: Seq<Seq<u8>>)
    requires
        first.len() == second.len(),
        forall|i: int|
            #![trigger first[i]]
            0 <= i < first.len() ==> first[i].len() == second[i].len(),
    ensures
        total_len(first) == total_len(second),
    decreases first.len(),
{
    if first.len() > 0 {
        lemma_total_len_by_lengths(first.drop_last(), second.drop_last());
    }
}

/// Builds the packet for `command` from `groups`.
pub fn build_packet(command: u8, groups: &[&[u8]]) -> (packet: Vec<u8>)
    ensures
        packet@ == packet_bytes(command, group_bytes(groups@)),
        packet@.len() == 1 + total_len(group_bytes(groups@)),
{
    let ghost all = group_bytes(groups@);
    let mut packet: Vec<u8> = Vec::new();
    packet.push(command);
    let mut i: usize = 0;
    while i < groups.len()
        invariant
            i <= groups.len(),
            all == group_bytes(groups@),
            packet@ == packet_bytes(command, all.take(i as int)),
        decreases groups.len() - i,
    {
        let group: &[u8] = groups[i];
        let ghost before = packet@;
        packet.extend_from_slice(group);
        proof {
            assert(packet@ =~= before + group@);
            assert(all[i as int] == group@);
            all.take(i as int).lemma_flatten_push(group@);
            assert(all.take(i as int).push(group@) =~= all.take(i + 1));
        }
        i += 1;
    }
    proof {
        assert(all.take(i as int) =~= all);
        lemma_packet_shape(command, all);
    }
    packet
}

} // verus!
