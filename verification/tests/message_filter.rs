use overlay_core::message_filter::MessageFilter;
use overlay_core::xor_name::XorName;

fn key(b: u8) -> XorName {
    XorName([b; 64])
}

const TTL: u64 = 1_200_000;

#[test]
fn a_key_is_held_until_its_time_to_live_has_elapsed() {
    let mut filter = MessageFilter::with_expiry_duration(TTL);
    let start = 5_000;
    assert!(!filter.contains(&key(1), start));
    assert!(!filter.insert(key(1), start));
    assert!(filter.contains(&key(1), start));
    assert!(filter.contains(&key(1), start + 1));
    assert!(filter.contains(&key(1), start + TTL - 1));
    // the clock passes the time to live
    assert!(!filter.contains(&key(1), start + TTL));
    assert!(!filter.contains(&key(1), start + TTL + 1));
    assert!(!filter.contains(&key(2), start));
}

#[test]
fn a_second_insertion_renews_the_key() {
    let mut filter = MessageFilter::with_expiry_duration(100);
    assert!(!filter.insert(key(1), 0));
    assert!(filter.insert(key(1), 60));
    assert!(filter.contains(&key(1), 150));
    assert!(!filter.contains(&key(1), 160));
    // after expiry the key counts as new
    assert!(!filter.insert(key(1), 500));
}

#[test]
fn insertion_forgets_what_has_expired() {
    let mut filter = MessageFilter::with_expiry_duration(100);
    for i in 0..10u8 {
        let _ = filter.insert(key(i), 10 * i as u64);
    }
    assert_eq!(filter.len(), 10);
    // at 145 the keys stamped 50 and later are live
    let _ = filter.insert(key(200), 145);
    assert_eq!(filter.len(), 6);
    assert!(!filter.contains(&key(4), 145));
    assert!(filter.contains(&key(5), 145));
    assert!(filter.contains(&key(200), 145));
}

#[test]
fn a_filter_without_time_to_live_holds_nothing() {
    let mut filter = MessageFilter::with_expiry_duration(0);
    assert!(!filter.insert(key(1), 10));
    assert!(!filter.contains(&key(1), 10));
}
