use overlay_core::timed_map::{live, TimedMap};
use overlay_core::xor_name::XorName;

fn key(b: u8) -> XorName {
    XorName([b; 64])
}

#[test]
fn live_is_strictly_within_the_time_to_live() {
    assert!(live(100, 100, 1));
    assert!(live(100, 109, 10));
    assert!(!live(100, 110, 10));
    assert!(!live(100, 100, 0));
    // a clock that went back leaves the record valid
    assert!(live(100, 50, 10));
    // no overflow at the end of time
    assert!(live(u64::MAX, u64::MAX, u64::MAX));
    assert!(live(u64::MAX - 1, u64::MAX, 2));
    assert!(!live(u64::MAX - 1, u64::MAX, 1));
}

#[test]
fn insert_get_and_remove() {
    let mut map: TimedMap<u32> = TimedMap::new();
    assert_eq!(map.len(), 0);
    assert!(map.insert(key(1), 10, 100).is_none());
    assert!(map.insert(key(2), 20, 200).is_none());
    assert_eq!(map.len(), 2);
    assert!(map.contains_key(&key(1)));
    assert!(!map.contains_key(&key(3)));
    let e = map.get(&key(2)).expect("stored");
    assert_eq!((e.time, e.value), (20, 200));
    // a second insertion replaces the record and hands the old one back
    let old = map.insert(key(1), 30, 101).expect("was there");
    assert_eq!((old.time, old.value), (10, 100));
    assert_eq!(map.len(), 2);
    let e = map.get(&key(1)).expect("stored");
    assert_eq!((e.time, e.value), (30, 101));
    assert_eq!(map.remove(&key(2)).map(|e| e.value), Some(200));
    assert!(map.remove(&key(2)).is_none());
    assert_eq!(map.len(), 1);
    assert_eq!(map.position(&key(1)), Some(0));
    assert_eq!(map.record(0).value, 101);
}

#[test]
fn remove_expired_keeps_what_is_live() {
    let mut map: TimedMap<u8> = TimedMap::new();
    for i in 0..10u8 {
        let _ = map.insert(key(i), 100 * i as u64, i);
    }
    // at time 1000 with a time to live of 500 the stamps above 500 are live
    map.remove_expired(1000, 500);
    assert_eq!(map.len(), 4);
    for i in 0..10u8 {
        assert_eq!(map.contains_key(&key(i)), i >= 6);
    }
    map.remove_expired(1000, 0);
    assert_eq!(map.len(), 0);
}
