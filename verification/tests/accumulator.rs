use overlay_core::accumulator::{
    collect_shares, contains_voter, decide, same_voter, Accumulator, Decision, Outcome, SigShare,
    SignatureShare,
    Vote,
};
use overlay_core::id::SignKey;
use overlay_core::xor_name::XorName;

fn key(b: u8) -> XorName {
    XorName([b; 64])
}

fn signer(b: u8) -> Vote {
    Vote::Signed(SignKey([b; 32]))
}

const TTL: u64 = 300_000;
const DONE_TTL: u64 = 1_200_000;

#[test]
fn the_same_signer_is_counted_once() {
    let mut acc = Accumulator::with_duration(3, TTL, DONE_TTL);
    assert_eq!(acc.add(key(1), signer(1), 10), Outcome::Pending);
    assert_eq!(acc.add(key(1), signer(1), 11), Outcome::Pending);
    assert_eq!(acc.add(key(1), signer(1), 12), Outcome::Pending);
    assert_eq!(acc.add(key(1), signer(2), 13), Outcome::Pending);
    assert_eq!(acc.add(key(1), signer(2), 14), Outcome::Pending);
    assert!(!acc.is_decided(&key(1), 14));
    // only the third distinct signer completes the quorum
    assert_eq!(
        acc.add(key(1), signer(3), 15),
        Outcome::Complete(vec![signer(1), signer(2), signer(3)])
    );
    assert!(acc.is_decided(&key(1), 15));
}

#[test]
fn a_decision_is_emitted_once() {
    let mut acc = Accumulator::with_duration(2, TTL, DONE_TTL);
    assert_eq!(acc.add(key(1), signer(1), 0), Outcome::Pending);
    assert_eq!(acc.add(key(1), signer(2), 1), Outcome::Complete(vec![signer(1), signer(2)]));
    assert_eq!(acc.add(key(1), signer(3), 2), Outcome::Late);
    assert_eq!(acc.add(key(1), signer(4), 3), Outcome::Late);
    assert_eq!(acc.add(key(1), signer(1), 4), Outcome::Late);
    // once the decision is forgotten the content counts as new
    assert!(!acc.is_decided(&key(1), 1 + DONE_TTL));
    assert_eq!(acc.add(key(1), signer(3), 1 + DONE_TTL), Outcome::Pending);
}

#[test]
fn contents_are_counted_apart() {
    let mut acc = Accumulator::with_duration(2, TTL, DONE_TTL);
    assert_eq!(acc.add(key(1), signer(1), 0), Outcome::Pending);
    assert_eq!(acc.add(key(2), signer(1), 0), Outcome::Pending);
    assert_eq!(acc.add(key(2), signer(2), 0), Outcome::Complete(vec![signer(1), signer(2)]));
    assert_eq!(acc.add(key(1), signer(2), 0), Outcome::Complete(vec![signer(1), signer(2)]));
}

#[test]
fn votes_expire() {
    let mut acc = Accumulator::with_duration(2, TTL, DONE_TTL);
    assert_eq!(acc.add(key(1), signer(1), 0), Outcome::Pending);
    // the first vote is gone when the second arrives
    assert_eq!(acc.add(key(1), signer(2), TTL), Outcome::Pending);
    assert_eq!(acc.add(key(1), signer(1), TTL + 1), Outcome::Complete(vec![signer(2), signer(1)]));
}

#[test]
fn the_quorum_can_change_under_way() {
    let mut acc = Accumulator::with_duration(3, TTL, DONE_TTL);
    assert_eq!(acc.quorum_size(), 3);
    assert_eq!(acc.add(key(1), signer(1), 0), Outcome::Pending);
    assert_eq!(acc.add(key(1), signer(2), 0), Outcome::Pending);
    acc.set_quorum_size(2);
    assert_eq!(acc.quorum_size(), 2);
    // a vote that was counted before completes the lowered quorum
    assert_eq!(acc.add(key(1), signer(2), 0), Outcome::Complete(vec![signer(1), signer(2)]));
    // a quorum of one decides at once
    acc.set_quorum_size(1);
    assert_eq!(acc.add(key(9), signer(5), 0), Outcome::Complete(vec![signer(5)]));
}

#[test]
fn voters_are_told_apart_by_key_or_index() {
    let a = SignatureShare { index: 1, share: [1; 96] };
    let b = SignatureShare { index: 1, share: [2; 96] };
    let c = SignatureShare { index: 2, share: [1; 96] };
    assert!(same_voter(&Vote::Share(a), &Vote::Share(b)));
    assert!(!same_voter(&Vote::Share(a), &Vote::Share(c)));
    assert!(same_voter(&signer(1), &signer(1)));
    assert!(!same_voter(&signer(1), &signer(2)));
    assert!(!same_voter(&signer(1), &Vote::Share(a)));
    let votes = vec![signer(1), Vote::Share(a)];
    assert!(contains_voter(&votes, &Vote::Share(b)));
    assert!(!contains_voter(&votes, &Vote::Share(c)));
    assert_eq!(collect_shares(&vec![signer(1), Vote::Share(a), signer(2), Vote::Share(c)]), vec![a, c]);
    assert_eq!(decide(None), Decision::Failed);
    assert_eq!(decide(Some([3; 96])), Decision::Decided([3; 96]));
}

#[test]
fn a_share_that_was_told_invalid_is_not_counted() {
    let mut acc = Accumulator::with_duration(2, TTL, DONE_TTL);
    let a = SignatureShare { index: 0, share: [1; 96] };
    let b = SignatureShare { index: 1, share: [2; 96] };
    assert_eq!(acc.record_share(key(1), a, false, 0), None);
    assert_eq!(acc.record_share(key(1), a, true, 0), Some(Outcome::Pending));
    assert_eq!(acc.record_share(key(1), b, false, 0), None);
    assert_eq!(
        acc.record_share(key(1), b, true, 0),
        Some(Outcome::Complete(vec![Vote::Share(a), Vote::Share(b)]))
    );
}

fn share_of(set: &blsttc::SecretKeySet, index: u64, payload: &[u8]) -> SigShare {
    let signature_share = set.secret_key_share(index).sign(payload).expect("signs").to_bytes();
    SigShare { public_key_set: set.public_keys().to_bytes(), index, signature_share }
}

#[test]
fn three_members_with_quorum_two_decide_once() {
    let set = blsttc::SecretKeySet::random(1, &mut rand::thread_rng());
    let public = set.public_keys();
    let payload = b"proposal P".to_vec();
    let proposal = key(42);
    let mut acc = Accumulator::with_duration(2, TTL, DONE_TTL);

    let first = acc.add_share(proposal, &payload, &share_of(&set, 0, &payload), 10);
    assert_eq!(first, Decision::Pending);
    // the same share again does not count twice
    let again = acc.add_share(proposal, &payload, &share_of(&set, 0, &payload), 11);
    assert_eq!(again, Decision::Pending);
    let second = acc.add_share(proposal, &payload, &share_of(&set, 1, &payload), 12);
    let signature = match second {
        Decision::Decided(signature) => signature,
        other => panic!("expected a decision, got {:?}", other),
    };
    let combined = blsttc::Signature::from_bytes(signature).expect("a signature");
    assert!(public.public_key().verify(&combined, &payload).is_ok());
    assert!(public.public_key().verify(&combined, b"another payload").is_err());
    // the third share is taken and leads to nothing
    let third = acc.add_share(proposal, &payload, &share_of(&set, 2, &payload), 13);
    assert_eq!(third, Decision::Late);
    assert!(acc.is_decided(&proposal, 13));
}

#[test]
fn invalid_shares_are_rejected_at_once() {
    let set = blsttc::SecretKeySet::random(1, &mut rand::thread_rng());
    let public_bytes = set.public_keys().to_bytes();
    let payload = b"proposal P".to_vec();
    let mut acc = Accumulator::with_duration(2, TTL, DONE_TTL);
    // a share under the wrong index
    let mut wrong_index = share_of(&set, 0, &payload);
    wrong_index.index = 1;
    assert_eq!(acc.add_share(key(1), &payload, &wrong_index, 0), Decision::Invalid);
    // a share of another payload
    let other = share_of(&set, 1, b"something else");
    assert_eq!(acc.add_share(key(1), &payload, &other, 0), Decision::Invalid);
    // bytes that are no share
    let garbage =
        SigShare { public_key_set: public_bytes.clone(), index: 1, signature_share: [0xff; 96] };
    assert!(!garbage.verify(&payload));
    assert_eq!(acc.add_share(key(1), &payload, &garbage, 0), Decision::Invalid);
    // a key set without a key
    let good = share_of(&set, 1, &payload);
    let mut no_keys = good.clone();
    no_keys.public_key_set = vec![1, 2, 3];
    assert_eq!(acc.add_share(key(1), &payload, &no_keys, 0), Decision::Invalid);
    // a share that names another group's key set
    let mut foreign = good.clone();
    foreign.public_key_set =
        blsttc::SecretKeySet::random(1, &mut rand::thread_rng()).public_keys().to_bytes();
    assert_eq!(acc.add_share(key(1), &payload, &foreign, 0), Decision::Invalid);
    assert!(good.verify(&payload) && !good.verify(b"other"));
    assert_eq!(good.share(), SignatureShare { index: 1, share: good.signature_share });
    // none of them counted: one valid share is still pending
    assert_eq!(acc.add_share(key(1), &payload, &good, 0), Decision::Pending);
}

#[test]
fn a_quorum_below_the_threshold_cannot_combine() {
    // three shares are needed, the quorum asks for two
    let set = blsttc::SecretKeySet::random(2, &mut rand::thread_rng());
    let payload = b"proposal".to_vec();
    let mut acc = Accumulator::with_duration(2, TTL, DONE_TTL);
    let d = acc.add_share(key(1), &payload, &share_of(&set, 0, &payload), 0);
    assert_eq!(d, Decision::Pending);
    let d = acc.add_share(key(1), &payload, &share_of(&set, 1, &payload), 0);
    assert_eq!(d, Decision::Failed);
}

#[test]
fn any_two_of_three_shares_give_the_same_signature() {
    let set = blsttc::SecretKeySet::random(1, &mut rand::thread_rng());
    let payload = b"proposal P".to_vec();
    let mut signatures = Vec::new();
    for (first, second) in [(0u64, 1u64), (0, 2), (1, 2), (2, 0)] {
        let mut acc = Accumulator::with_duration(2, TTL, DONE_TTL);
        let d = acc.add_share(key(1), &payload, &share_of(&set, first, &payload), 0);
        assert_eq!(d, Decision::Pending);
        match acc.add_share(key(1), &payload, &share_of(&set, second, &payload), 1) {
            Decision::Decided(signature) => signatures.push(signature.to_vec()),
            other => panic!("expected a decision, got {:?}", other),
        }
    }
    assert!(signatures.iter().all(|s| *s == signatures[0]));
    let expected = set.secret_key().sign(&payload).expect("signs").to_bytes();
    assert_eq!(signatures[0], expected.to_vec());
}

#[test]
fn a_drawn_key_set_combines_at_the_quorum_of_its_section() {
    for elders in [3usize, 7] {
        let drawn = overlay_core::keys::SecretKeySet::random(elders).expect("random keys");
        let set = blsttc::SecretKeySet::from_bytes(drawn.secret_key_set().clone()).expect("a set");
        let quorum = overlay_core::routing_table::quorum_size(elders);
        let payload = b"proposal P".to_vec();
        let mut acc = Accumulator::with_duration(quorum, TTL, DONE_TTL);
        for index in 0..elders as u64 {
            let d = acc.add_share(key(7), &payload, &share_of(&set, index, &payload), index);
            if index + 1 < quorum as u64 {
                assert_eq!(d, Decision::Pending);
            } else if index + 1 == quorum as u64 {
                let expected = set.secret_key().sign(&payload).expect("signs").to_bytes();
                assert_eq!(d, Decision::Decided(expected));
            } else {
                assert_eq!(d, Decision::Late);
            }
        }
    }
}
