use overlay_core::accumulator::{Accumulator, Decision};
use overlay_core::error::RoutingError;
use overlay_core::keys::keyed_signed;
use overlay_core::bytes::{append_bytes, copy_bytes};
use overlay_core::proposal::{signed_share, KeyedSig, Proposal, ProposalMsg, SectionAuth};
use overlay_core::xor_name::XorName;

// Stands for an encoded section authority provider: a prefix, the names and
// addresses of four elders, and the section key.
fn section_authority_provider(section_key: &blsttc::PublicKey) -> Vec<u8> {
    let elders: Vec<([u8; 32], String)> =
        (0..4u8).map(|i| ([i; 32], format!("127.0.0.1:{}", 12000 + i as u16))).collect();
    bincode::serialize(&(0u64, elders, section_key)).expect("serialises")
}

fn verify_serialize_for_signing(proposal: &Proposal, should_serialize_as: &[u8]) {
    let actual = proposal.as_signable_bytes().expect("signable");
    assert_eq!(
        actual, should_serialize_as,
        "expected SignableView({:?}) to serialize same as {:?}, but didn't",
        proposal, should_serialize_as
    );
}

#[test]
fn serialize_for_signing() {
    // Proposal::SectionInfo
    let section_key = blsttc::SecretKey::random().public_key();
    let section_auth = section_authority_provider(&section_key);
    let proposal = Proposal::SectionInfo { sap: section_auth.clone(), generation: 0 };
    verify_serialize_for_signing(&proposal, &section_auth);

    // Proposal::NewElders
    let new_sk = blsttc::SecretKey::random();
    let new_pk = new_sk.public_key();
    let sig = keyed_signed(&new_sk.to_bytes(), &section_auth).expect("signs");
    assert_eq!(sig.public_key, new_pk.to_bytes());
    let section_signed_auth = SectionAuth { value: section_auth, sig };
    let proposal = Proposal::NewElders(section_signed_auth);
    let expected = bincode::serialize(&new_pk).expect("serialises");
    assert_eq!(expected.len(), 48);
    verify_serialize_for_signing(&proposal, &expected);
}

#[test]
fn the_generation_is_not_signed() {
    let sap = vec![1u8, 2, 3];
    let a = Proposal::SectionInfo { sap: sap.clone(), generation: 0 };
    let b = Proposal::SectionInfo { sap: sap.clone(), generation: 99 };
    assert_eq!(a.as_signable_bytes(), Ok(sap.clone()));
    assert_eq!(a.as_signable_bytes(), b.as_signable_bytes());
}

#[test]
fn offline_signs_the_node_state_and_joins_allowed_one_byte() {
    let state = vec![9u8, 8, 7, 6];
    assert_eq!(Proposal::Offline(state.clone()).as_signable_bytes(), Ok(state));
    assert_eq!(Proposal::JoinsAllowed(true).as_signable_bytes(), Ok(vec![1u8]));
    assert_eq!(Proposal::JoinsAllowed(false).as_signable_bytes(), Ok(vec![0u8]));
    assert_eq!(Ok(vec![1u8]), bincode::serialize(&true).map_err(|_| RoutingError::SerializationFailure));
}

#[test]
fn new_elders_with_bytes_that_are_no_key_cannot_be_signed() {
    let sig = KeyedSig { public_key: [0xff; 48], signature: [0; 96] };
    let proposal = Proposal::NewElders(SectionAuth { value: vec![1], sig });
    assert_eq!(proposal.as_signable_bytes(), Err(RoutingError::SerializationFailure));
    assert_eq!(
        proposal.sign_with_key_share(vec![], 0, &[1; 32]),
        Err(RoutingError::SerializationFailure)
    );
}

#[test]
fn sign_with_key_share_gives_a_share_that_the_accumulator_accepts() {
    let set = blsttc::SecretKeySet::random(1, &mut rand::thread_rng());
    let public = set.public_keys();
    let proposal = Proposal::JoinsAllowed(true);
    let payload = proposal.as_signable_bytes().expect("signable");
    let mut acc = Accumulator::with_duration(2, 1_000, 1_000);
    let key = XorName([5; 64]);
    let mut decision = Decision::Pending;
    for index in 0..2u64 {
        let secret = set.secret_key_share(index).to_bytes();
        let share =
            proposal.sign_with_key_share(public.to_bytes(), index, &secret).expect("signs");
        assert_eq!(share.public_key_set, public.to_bytes());
        assert!(share.verify(&payload));
        assert_eq!(share.index, index);
        let expected = set.secret_key_share(index).sign(&payload).expect("signs").to_bytes();
        assert_eq!(share.signature_share.to_vec(), expected.to_vec());
        decision = acc.add_share(key, &payload, &share, 0);
    }
    match decision {
        Decision::Decided(signature) => {
            let signature = blsttc::Signature::from_bytes(signature).expect("a signature");
            assert!(public.public_key().verify(&signature, &payload).is_ok());
        }
        other => panic!("expected a decision, got {:?}", other),
    }
}

#[test]
fn a_key_share_that_is_no_key_cannot_sign() {
    // the bytes are above the order of the field
    let proposal = Proposal::JoinsAllowed(false);
    assert_eq!(
        proposal.sign_with_key_share(vec![1], 3, &[0xff; 32]),
        Err(RoutingError::SignatureInvalid)
    );
    assert_eq!(signed_share(vec![1], 3, None), Err(RoutingError::SignatureInvalid));
    assert_eq!(
        signed_share(vec![9], 3, Some([1; 96])).map(|s| (s.public_key_set, s.index, s.signature_share[0])),
        Ok((vec![9], 3, 1))
    );
}

#[test]
fn into_msg_keeps_every_part() {
    let sig = KeyedSig { public_key: [1; 48], signature: [2; 96] };
    let auth = SectionAuth { value: vec![1, 2], sig };
    assert_eq!(Proposal::Offline(vec![1]).into_msg(), ProposalMsg::Offline(vec![1]));
    assert_eq!(
        Proposal::SectionInfo { sap: vec![3], generation: 7 }.into_msg(),
        ProposalMsg::SectionInfo { sap: vec![3], generation: 7 }
    );
    assert_eq!(Proposal::NewElders(auth.clone()).into_msg(), ProposalMsg::NewElders(auth));
    assert_eq!(Proposal::JoinsAllowed(true).into_msg(), ProposalMsg::JoinsAllowed(true));
    assert_eq!(copy_bytes(&vec![1, 2, 3]), vec![1, 2, 3]);
    let mut buffer = vec![1u8, 2];
    append_bytes(&mut buffer, &[3, 4]);
    append_bytes(&mut buffer, &[]);
    assert_eq!(buffer, vec![1, 2, 3, 4]);
}
