use overlay_core::crypto::hash_to_name;
use overlay_core::error::RoutingError;
use overlay_core::relocation::calculate_relocated_name;
use overlay_core::xor_name::XorName;
use sodiumoxide::crypto::hash::sha512;

fn name(first: u8) -> XorName {
    let mut bytes = [7u8; 64];
    bytes[0] = first;
    XorName(bytes)
}

fn digest(names: &[XorName]) -> XorName {
    let mut bytes = Vec::new();
    for n in names {
        bytes.extend_from_slice(&n.0);
    }
    XorName(sha512::hash(&bytes).0)
}

#[test]
fn an_empty_group_gives_no_name() {
    assert_eq!(calculate_relocated_name(vec![], &name(1)), Err(RoutingError::RoutingTableEmpty));
}

#[test]
fn the_name_is_the_digest_of_the_joining_name_and_the_two_nearest() {
    let joining = name(0b0000_0001);
    let near = name(0b0000_0011);
    let nearer = name(0b0000_0000);
    let far = name(0b1000_0000);
    let got = calculate_relocated_name(vec![far, near, nearer], &joining);
    assert_eq!(got, Ok(digest(&[joining, nearer, near])));
    // a group of one
    assert_eq!(calculate_relocated_name(vec![far], &joining), Ok(digest(&[joining, far])));
    // a group of two, given farthest first
    assert_eq!(
        calculate_relocated_name(vec![far, near], &joining),
        Ok(digest(&[joining, near, far]))
    );
}

#[test]
fn two_members_compute_the_same_name_from_the_same_group() {
    let group = vec![name(9), name(200), name(17), name(16), name(3)];
    let joining = name(18);
    let first = calculate_relocated_name(group.clone(), &joining).unwrap();
    let second = calculate_relocated_name(group.clone(), &joining).unwrap();
    assert_eq!(first.0.to_vec(), second.0.to_vec());
    // the order in which the group is listed does not matter either
    let mut reversed = group;
    reversed.reverse();
    assert_eq!(calculate_relocated_name(reversed, &joining), Ok(first));
    let shuffled = vec![name(16), name(3), name(200), name(9), name(17)];
    assert_eq!(calculate_relocated_name(shuffled, &joining), Ok(first));
    // another joining name gets another name
    assert_ne!(calculate_relocated_name(vec![name(9)], &name(19)).unwrap(), first);
}

#[test]
fn hash_to_name_is_sha512() {
    let expected = sha512::hash(b"abc").0;
    assert_eq!(hash_to_name(b"abc"), XorName(expected));
    assert_eq!(expected[0], 0xdd);
    assert_eq!(expected[1], 0xaf);
    assert_eq!(expected[63], 0x9f);
    assert_ne!(hash_to_name(b"abc"), hash_to_name(b"abd"));
}
