use overlay_core::id::{BoxKey, PublicId, SignKey};
use overlay_core::routing_table::{
    has_sound_connections, quorum_size, AddResult, NodeInfo, RoutingTable, BUCKET_CAPACITY,
    GROUP_SIZE,
};
use overlay_core::xor_name::{closer_to_target, XorName};

fn name(first: u8, last: u8) -> XorName {
    let mut bytes = [0u8; 64];
    bytes[0] = first;
    bytes[63] = last;
    XorName(bytes)
}

fn id(n: XorName) -> PublicId {
    PublicId::new(n, SignKey([n.0[0]; 32]), BoxKey([n.0[63]; 32]))
}

fn node(n: XorName, connection: u64) -> NodeInfo {
    NodeInfo::new(id(n), vec![connection])
}

fn added(result: &AddResult) -> bool {
    matches!(result, AddResult::Added)
}

#[test]
fn new_table_is_empty_and_has_the_default_sizes() {
    let our = name(0, 0);
    let table = RoutingTable::new(&our);
    assert_eq!(table.len(), 0);
    assert!(table.our_name().same(&our));
    assert_eq!(GROUP_SIZE, 8);
    assert_eq!(BUCKET_CAPACITY, 8);
    assert_eq!(table.dynamic_quorum_size(), 1);
    assert!(table.our_close_group().is_empty());
    assert!(table.is_close(&name(200, 1)));
}

#[test]
fn adding_self_or_a_known_name_is_rejected() {
    let our = name(0, 0);
    let mut table = RoutingTable::new(&our);
    assert!(!table.want_to_add(&our));
    assert!(matches!(table.add_node(node(our, 1)), AddResult::Rejected));
    assert_eq!(table.len(), 0);
    let peer = name(128, 1);
    assert!(table.want_to_add(&peer));
    assert!(added(&table.add_node(node(peer, 1))));
    assert!(!table.want_to_add(&peer));
    assert!(matches!(table.add_node(node(peer, 2)), AddResult::Rejected));
    assert_eq!(table.len(), 1);
    assert_eq!(table.get(&peer).map(|n| n.connections.clone()), Some(vec![1]));
}

#[test]
fn want_to_add_is_false_exactly_when_the_bucket_is_full_of_closer_contacts() {
    // Bucket 0 of the name 0 holds the names whose first bit is set; with a
    // capacity of 2 it is full after two contacts.
    let our = name(0, 0);
    let mut table = RoutingTable::with_sizes(&our, 8, 2);
    assert!(added(&table.add_node(node(name(0b1000_0100, 0), 1))));
    assert!(table.want_to_add(&name(0b1111_0000, 0)));
    assert!(added(&table.add_node(node(name(0b1001_0000, 0), 2))));
    // farther than both occupants: no slot, nobody farther
    assert!(!table.want_to_add(&name(0b1111_0000, 0)));
    // between the two occupants: one occupant is strictly farther
    assert!(table.want_to_add(&name(0b1000_1000, 0)));
    // closer than both
    assert!(table.want_to_add(&name(0b1000_0001, 0)));
    // another distance class has room
    assert!(table.want_to_add(&name(0b0100_0000, 0)));
}

#[test]
fn add_evicts_the_farthest_contact_of_a_full_bucket() {
    let our = name(0, 0);
    let mut table = RoutingTable::with_sizes(&our, 8, 2);
    let near = name(0b1000_0100, 0);
    let far = name(0b1001_0000, 0);
    assert!(added(&table.add_node(node(far, 10))));
    assert!(added(&table.add_node(node(near, 11))));
    // a candidate that is farther than every occupant is turned away
    assert!(matches!(table.add_node(node(name(0b1111_0000, 0), 12)), AddResult::Rejected));
    assert_eq!(table.len(), 2);
    // a closer one displaces the farthest occupant, not an arbitrary one
    let closer = name(0b1000_0010, 0);
    match table.add_node(node(closer, 13)) {
        AddResult::AddedAndEvicted(gone) => {
            assert!(gone.name().same(&far));
            assert_eq!(gone.connections, vec![10]);
        }
        _ => panic!("expected an eviction"),
    }
    assert_eq!(table.len(), 2);
    assert!(table.get(&far).is_none());
    assert!(table.get(&near).is_some());
    assert!(table.get(&closer).is_some());
    // the candidate between the two that remain displaces the farther one
    let between = name(0b1000_0011, 0);
    match table.add_node(node(between, 14)) {
        AddResult::AddedAndEvicted(gone) => assert!(gone.name().same(&near)),
        _ => panic!("expected an eviction"),
    }
}

#[test]
fn with_sizes_raises_zero_to_one() {
    let our = name(0, 0);
    let mut table = RoutingTable::with_sizes(&our, 0, 0);
    assert!(added(&table.add_node(node(name(128, 1), 1))));
    assert!(matches!(table.add_node(node(name(255, 1), 2)), AddResult::Rejected));
    assert_eq!(table.our_close_group().len(), 1);
}

#[test]
fn close_group_lists_the_nearest_contacts_nearest_first() {
    let our = name(0, 0);
    let mut table = RoutingTable::with_sizes(&our, 3, 8);
    let names = [name(1, 0), name(2, 0), name(4, 0), name(8, 0), name(16, 0), name(200, 0)];
    for (i, n) in names.iter().enumerate() {
        assert!(added(&table.add_node(node(*n, i as u64))));
    }
    let group = table.our_close_group();
    assert_eq!(group.len(), 3);
    assert!(group[0].name.same(&names[0]));
    assert!(group[1].name.same(&names[1]));
    assert!(group[2].name.same(&names[2]));
    // around another target the order follows the distance to the target
    let target = name(16 ^ 1, 0);
    let group = table.close_group(&target);
    assert_eq!(group.len(), 3);
    assert!(group[0].name.same(&names[4])); // distance 1
    assert!(group[1].name.same(&names[0])); // distance 16
    assert!(group[2].name.same(&names[1])); // distance 16 ^ 1 ^ 2 = 19
    for pair in group.windows(2) {
        assert!(closer_to_target(&pair[0].name, &pair[1].name, &target));
    }
    assert_eq!(group[0], id(names[4]));
}

#[test]
fn is_close_counts_the_contacts_that_are_closer_than_we_are() {
    let our = name(0, 0);
    let mut table = RoutingTable::with_sizes(&our, 2, 8);
    assert!(added(&table.add_node(node(name(0b1000_0000, 0), 1))));
    assert!(added(&table.add_node(node(name(0b1100_0000, 0), 2))));
    assert!(added(&table.add_node(node(name(0b0000_0001, 0), 3))));
    // two contacts are closer to this target than we are: we are not close
    assert!(!table.is_close(&name(0b1010_0000, 0)));
    // only one contact is closer to this one
    assert!(table.is_close(&name(0b0000_0011, 0)));
    assert!(table.is_close(&our));
    // a sender next to the target belongs to the target's group
    assert!(table.try_confirm_safe_group_distance(&name(0b1010_0000, 0), &name(0b1010_0001, 0)));
    // we do not, seen from the table
    assert!(!table.try_confirm_safe_group_distance(&name(0b1010_0000, 0), &our));
    assert!(!table.in_close_group_of(&name(0b1010_0000, 0), &our));
}

#[test]
fn dynamic_quorum_size_is_more_than_half_of_the_close_group() {
    let expected = [(1usize, 1usize), (2, 2), (3, 2), (4, 3), (7, 4)];
    for (size, quorum) in expected {
        let our = name(0, 0);
        let mut table = RoutingTable::new(&our);
        for i in 0..size {
            assert!(added(&table.add_node(node(name(1 << (i % 8), 1 + i as u8), i as u64))));
        }
        assert_eq!(table.our_close_group().len(), size);
        assert_eq!(table.dynamic_quorum_size(), quorum);
        assert_eq!(quorum_size(size), quorum);
    }
    assert_eq!(quorum_size(0), 1);
    assert_eq!(quorum_size(8), 5);
}

#[test]
fn the_quorum_counts_at_most_a_close_group() {
    let our = name(0, 0);
    let mut table = RoutingTable::with_sizes(&our, 4, 8);
    for i in 0..12u8 {
        assert!(added(&table.add_node(node(name(1 << (i % 8), 1 + i), i as u64))));
    }
    assert_eq!(table.len(), 12);
    assert_eq!(table.dynamic_quorum_size(), 3);
}

#[test]
fn a_contact_leaves_with_its_last_connection() {
    let our = name(0, 0);
    let mut table = RoutingTable::new(&our);
    let peer = name(128, 1);
    assert!(added(&table.add_node(node(peer, 7))));
    assert!(table.add_connection(&peer, 8));
    assert!(!table.add_connection(&peer, 8));
    assert!(!table.add_connection(&name(64, 1), 9));
    assert_eq!(table.drop_connection(99), None);
    assert_eq!(table.drop_connection(7), None);
    assert_eq!(table.get(&peer).map(|n| n.connections.clone()), Some(vec![8]));
    assert_eq!(table.drop_connection(8), Some(peer));
    assert_eq!(table.len(), 0);
    assert!(table.get(&peer).is_none());
}

#[test]
fn drop_node_removes_a_contact_whatever_its_connections() {
    let our = name(0, 0);
    let mut table = RoutingTable::new(&our);
    let peer = name(128, 1);
    let other = name(64, 1);
    assert!(added(&table.add_node(node(peer, 7))));
    assert!(added(&table.add_node(node(other, 8))));
    let gone = table.drop_node(&peer).expect("the contact was there");
    assert!(gone.name().same(&peer));
    assert_eq!(gone.connections, vec![7]);
    assert!(table.drop_node(&peer).is_none());
    assert_eq!(table.len(), 1);
    assert_eq!(table.position(&other), Some(0));
    assert_eq!(table.position(&peer), None);
}

#[test]
fn a_contact_needs_connections_and_none_twice() {
    let our = name(0, 0);
    let mut table = RoutingTable::new(&our);
    let peer = name(128, 1);
    assert!(table.want_to_add(&peer));
    assert_eq!(table.add_node(NodeInfo::new(id(peer), vec![])), AddResult::Rejected);
    assert_eq!(table.add_node(NodeInfo::new(id(peer), vec![4, 5, 4])), AddResult::Rejected);
    assert_eq!(table.len(), 0);
    assert_eq!(table.add_node(NodeInfo::new(id(peer), vec![4, 5, 6])), AddResult::Added);
    assert!(has_sound_connections(&vec![1]));
    assert!(has_sound_connections(&vec![3, 1, 2]));
    assert!(!has_sound_connections(&vec![]));
    assert!(!has_sound_connections(&vec![1, 1]));
    assert!(!has_sound_connections(&vec![1, 2, 3, 2]));
    // a handle that is dropped is gone, and the contact leaves with the last
    assert_eq!(table.drop_connection(5), None);
    assert_eq!(table.drop_connection(5), None);
    assert_eq!(table.get(&peer).map(|n| n.connections.clone()), Some(vec![4, 6]));
    assert_eq!(table.drop_connection(4), None);
    assert_eq!(table.drop_connection(6), Some(peer));
    assert_eq!(table.len(), 0);
}
