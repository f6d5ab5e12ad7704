use overlay_core::back_pressure::{
    is_significant, BackPressure, DEFAULT_MSGS_PER_S_AND_PEER, INITIAL_MSGS_PER_S,
    MIN_REPORT_INTERVAL, REPORT_TTL,
};
use overlay_core::xor_name::XorName;

fn peer(b: u8) -> XorName {
    XorName([b; 64])
}

#[test]
fn the_constants_are_a_minute_and_five_minutes() {
    assert_eq!(MIN_REPORT_INTERVAL, 60_000);
    assert_eq!(REPORT_TTL, 300_000);
    assert_eq!(DEFAULT_MSGS_PER_S_AND_PEER, INITIAL_MSGS_PER_S / 10);
}

#[test]
fn the_first_call_of_a_peer_reports_the_candidate_rate() {
    let mut bp = BackPressure::new(0);
    // no peer yet: the whole local rate
    assert_eq!(bp.tolerated_msgs_per_s(&peer(1), 1_000, 400_000), Some(400_000));
    // one peer is known: the local rate divided by one
    assert_eq!(bp.tolerated_msgs_per_s(&peer(2), 1_000, 400_000), Some(400_000));
    // two peers are known: half of it
    assert_eq!(bp.tolerated_msgs_per_s(&peer(3), 1_000, 400_000), Some(200_000));
    // the floor holds when the share falls below it
    assert_eq!(bp.tolerated_msgs_per_s(&peer(4), 1_000, 90_000), Some(50_000));
}

#[test]
fn two_calls_within_a_minute_give_at_most_one_report() {
    let mut bp = BackPressure::new(0);
    assert!(bp.tolerated_msgs_per_s(&peer(1), 10_000, 400_000).is_some());
    assert_eq!(bp.tolerated_msgs_per_s(&peer(1), 10_001, 100_000), None);
    assert_eq!(bp.tolerated_msgs_per_s(&peer(1), 70_000, 100_000), None);
    // a clock that went back reports nothing either
    assert_eq!(bp.tolerated_msgs_per_s(&peer(1), 5_000, 100_000), None);
    // more than a minute later the changed rate is reported
    assert_eq!(bp.tolerated_msgs_per_s(&peer(1), 70_001, 100_000), Some(100_000));
}

#[test]
fn a_change_within_the_band_is_not_reported() {
    let mut bp = BackPressure::with_floor(0, 10);
    assert_eq!(bp.tolerated_msgs_per_s(&peer(1), 1, 1_000), Some(1_000));
    // 5 % lower and 10 % higher are still within the band
    assert_eq!(bp.tolerated_msgs_per_s(&peer(1), 100_000, 950), None);
    assert_eq!(bp.tolerated_msgs_per_s(&peer(1), 200_000, 1_100), None);
    assert_eq!(bp.tolerated_msgs_per_s(&peer(1), 300_000, 1_101), Some(1_101));
    assert_eq!(bp.tolerated_msgs_per_s(&peer(1), 400_000, 1_045), Some(1_045));
}

#[test]
fn the_record_of_a_peer_is_what_was_last_sent_to_it() {
    let mut bp = BackPressure::with_floor(0, 10);
    assert_eq!(bp.tolerated_msgs_per_s(&peer(1), 1, 1_000), Some(1_000));
    // a silent call leaves the record alone: the next candidate is held
    // against the 1000 that was sent, not against the 1090 that was not
    assert_eq!(bp.tolerated_msgs_per_s(&peer(1), 100_000, 1_090), None);
    assert_eq!(bp.tolerated_msgs_per_s(&peer(1), 100_001, 1_150), Some(1_150));
    // nor does a silent call start a new interval
    assert!(!bp.report_due(&peer(1), 160_001));
    assert!(bp.report_due(&peer(1), 160_002));
    assert_eq!(bp.tolerated_msgs_per_s(&peer(1), 160_002, 1_100), None);
    assert!(bp.report_due(&peer(1), 160_003));
    assert!(bp.report_due(&peer(2), 0));
    // a rate that drifts in small steps is reported once it has left the band
    assert_eq!(bp.tolerated_msgs_per_s(&peer(1), 230_000, 1_200), None);
    assert_eq!(bp.tolerated_msgs_per_s(&peer(1), 230_001, 1_250), None);
    assert_eq!(bp.tolerated_msgs_per_s(&peer(1), 230_002, 1_266), Some(1_266));
}

#[test]
fn try_get_new_value_reports_outside_the_band_only() {
    let mut bp = BackPressure::with_floor(0, 10);
    assert_eq!(bp.try_get_new_value(&peer(1), 1, 1_000), Some(1_000));
    assert!(bp.report_due(&peer(1), 70_000));
    assert_eq!(bp.try_get_new_value(&peer(1), 70_000, 951), None);
    assert_eq!(bp.try_get_new_value(&peer(1), 70_000, 1_099), None);
    assert_eq!(bp.try_get_new_value(&peer(1), 70_000, 949), Some(949));
}

#[test]
fn significance_is_five_percent_down_or_ten_percent_up() {
    assert!(!is_significant(1_000, 1_000));
    assert!(!is_significant(950, 1_000));
    assert!(is_significant(949, 1_000));
    assert!(!is_significant(1_100, 1_000));
    assert!(is_significant(1_101, 1_000));
    assert!(!is_significant(0, 0));
    assert!(is_significant(1, 0));
    assert!(is_significant(0, 1));
    assert!(!is_significant(u64::MAX, u64::MAX));
    assert!(is_significant(u64::MAX, u64::MAX / 2));
}

#[test]
fn reports_are_forgotten_after_five_minutes() {
    let mut bp = BackPressure::with_floor(0, 1);
    assert_eq!(bp.tolerated_msgs_per_s(&peer(1), 1_000, 1_000), Some(1_000));
    assert_eq!(bp.tolerated_msgs_per_s(&peer(2), 2_000, 1_000), Some(1_000));
    // peer 3 calls after more than five minutes: it is the third peer for the
    // rate, and the eviction pass that follows forgets the first two
    assert_eq!(bp.tolerated_msgs_per_s(&peer(3), 400_000, 1_000), Some(500));
    // so peer 1 is new again, and one of two peers
    assert_eq!(bp.tolerated_msgs_per_s(&peer(1), 400_001, 1_000), Some(1_000));
    assert_eq!(bp.tolerated_msgs_per_s(&peer(2), 400_002, 1_200), Some(600));
}
