use action_packets::marker::{NULLS, ONE, ZERO};
use action_packets::packet::build_packet;

fn summed(groups: &[&[u8]]) -> usize {
    groups.iter().map(|group| group.len()).sum()
}

#[test]
fn packet_is_opcode_then_groups_in_order() {
    let groups: [&[u8]; 2] = [&[0x01, 0x2c], &[0x01, 0x90]];
    assert_eq!(build_packet(0x01, &groups), vec![0x01, 0x01, 0x2c, 0x01, 0x90]);
}

#[test]
fn packet_keeps_the_order_of_the_groups() {
    let forward: [&[u8]; 3] = [&[1], &[2, 3], &[4, 5, 6]];
    let backward: [&[u8]; 3] = [&[4, 5, 6], &[2, 3], &[1]];
    assert_eq!(build_packet(0xaa, &forward), vec![0xaa, 1, 2, 3, 4, 5, 6]);
    assert_eq!(build_packet(0xaa, &backward), vec![0xaa, 4, 5, 6, 2, 3, 1]);
}

#[test]
fn packet_without_groups_is_the_opcode_alone() {
    let groups: [&[u8]; 0] = [];
    assert_eq!(build_packet(0x7f, &groups), vec![0x7f]);
}

#[test]
fn empty_groups_add_nothing() {
    let groups: [&[u8]; 4] = [&[], &[9], &[], &[]];
    assert_eq!(build_packet(0x00, &groups), vec![0x00, 9]);
}

#[test]
fn packet_adds_no_padding_and_no_terminator() {
    let groups: [&[u8]; 2] = [&[0x00], &[0x00, 0x00, 0x00]];
    assert_eq!(build_packet(0x00, &groups), vec![0x00, 0x00, 0x00, 0x00, 0x00]);
}

#[test]
fn packet_length_is_one_more_than_the_groups_together() {
    let long = [0x5au8; 300];
    let lists: [&[&[u8]]; 6] = [
        &[],
        &[&[]],
        &[&[1]],
        &[&[1, 2], &[3, 4, 5]],
        &[&long, &[], &long, &[7]],
        &[&ONE, &NULLS, &ZERO, &ZERO],
    ];
    for groups in lists {
        assert_eq!(build_packet(0x42, groups).len(), 1 + summed(groups));
    }
}

#[test]
fn packet_opens_with_the_opcode() {
    let groups: [&[u8]; 1] = [&[0xff, 0xfe]];
    for command in [0x00u8, 0x01, 0x59, 0xff] {
        assert_eq!(build_packet(command, &groups)[0], command);
        assert_eq!(build_packet(command, &groups)[1..], [0xff, 0xfe]);
    }
}

#[test]
fn packet_takes_a_long_group_whole() {
    let long: Vec<u8> = (0..1000u32).map(|i| (i % 251) as u8).collect();
    let groups: [&[u8]; 2] = [&long, &[0xee]];
    let packet = build_packet(0x10, &groups);
    assert_eq!(packet.len(), 1002);
    assert_eq!(packet[0], 0x10);
    assert_eq!(&packet[1..1001], &long[..]);
    assert_eq!(packet[1001], 0xee);
}

#[test]
fn markers_hold_their_fixed_bytes() {
    assert_eq!(ONE, [0x01]);
    assert_eq!(ZERO, [0x00]);
    assert_eq!(NULLS, [0x00, 0x00, 0x00, 0x00]);
}
