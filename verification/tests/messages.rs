use overlay_core::authority::Authority;
use overlay_core::crypto::{check_signature, SecretSignKey, Signature};
use overlay_core::id::{same_bytes, BoxKey, PublicId, SignKey};
use overlay_core::messages::{
    decode_public_id, encode_public_id, sign_public_id, RequestContent, RequestMessage,
    ResponseContent, ResponseMessage, RoutingMessage, SignedMessage, PUBLIC_ID_LEN,
};
use overlay_core::xor_name::XorName;
use sodiumoxide::crypto::{hash::sha512, sign};

fn id(seed: u8) -> PublicId {
    let mut name = [0u8; 64];
    for (i, b) in name.iter_mut().enumerate() {
        *b = seed.wrapping_add(i as u8);
    }
    PublicId::new(XorName(name), SignKey([seed.wrapping_add(100); 32]), BoxKey([seed.wrapping_add(200); 32]))
}

#[test]
fn authorities_know_their_name_and_whether_they_are_groups() {
    let n = XorName([4; 64]);
    let key = SignKey([5; 32]);
    assert!(Authority::NaeManager(n).is_group());
    assert!(Authority::NodeManager(n).is_group());
    assert!(Authority::Section(n).is_group());
    assert!(!Authority::ManagedNode(n).is_group());
    let client = Authority::Client { client_key: key, proxy_node_name: n };
    assert!(!client.is_group());
    assert_eq!(*client.get_name(), n);
    assert_eq!(*Authority::ManagedNode(n).get_name(), n);
    assert_eq!(*Authority::Section(n).get_name(), n);
}

#[test]
fn messages_know_their_source_and_destination() {
    let src = Authority::ManagedNode(XorName([1; 64]));
    let dst = Authority::NodeManager(XorName([2; 64]));
    let m = RoutingMessage::Request(RequestMessage { src, dst, content: RequestContent::Connect });
    assert_eq!((*m.src(), *m.dst()), (src, dst));
    let m = RoutingMessage::Response(ResponseMessage {
        src: dst,
        dst: src,
        content: ResponseContent::Put { done: false },
    });
    assert_eq!((*m.src(), *m.dst()), (dst, src));
}

#[test]
fn an_identity_survives_encoding() {
    for seed in [0u8, 1, 77, 255] {
        let bytes = encode_public_id(&id(seed));
        assert_eq!(bytes.len(), PUBLIC_ID_LEN);
        assert_eq!(&bytes[..64], &id(seed).name.0[..]);
        assert_eq!(&bytes[64..96], &[seed.wrapping_add(100); 32][..]);
        assert_eq!(&bytes[96..], &[seed.wrapping_add(200); 32][..]);
        assert_eq!(decode_public_id(&bytes), Some(id(seed)));
    }
    assert_eq!(decode_public_id(&[0u8; 127]), None);
    assert_eq!(decode_public_id(&[0u8; 129]), None);
    assert_eq!(decode_public_id(&[]), None);
}

#[test]
fn identities_compare_by_all_their_parts() {
    let a = id(1);
    assert!(a.same(&id(1)));
    let mut b = a;
    b.set_name(XorName([9; 64]));
    assert!(!a.same(&b));
    assert_eq!(*b.name(), XorName([9; 64]));
    assert_eq!(*b.signing_public_key(), *a.signing_public_key());
    let c = PublicId::new(a.name, a.signing_public_key, BoxKey([0; 32]));
    assert!(!a.same(&c));
    assert!(a.encrypting_public_key().same(&BoxKey([201; 32])));
    assert!(!a.signing_public_key().same(&SignKey([0; 32])));
    assert!(same_bytes(&[3; 32], &[3; 32]));
    let mut other = [3u8; 32];
    other[31] = 4;
    assert!(!same_bytes(&[3; 32], &other));
}

#[test]
fn signatures_are_checked_against_bytes_and_key() {
    let _ = sodiumoxide::init();
    let (pk, sk) = sign::gen_keypair();
    let id = PublicId::new(XorName([1; 64]), SignKey(pk.0), BoxKey([0; 32]));
    let (bytes, signature) = sign_public_id(&id, &SecretSignKey(sk.0));
    assert_eq!(bytes, encode_public_id(&id));
    assert_eq!(signature.0, sign::sign_detached(&bytes, &sk).to_bytes());
    assert!(check_signature(&signature, &bytes, &SignKey(pk.0)));
    assert!(!check_signature(&signature, &bytes[1..], &SignKey(pk.0)));
    assert!(!check_signature(&signature, &bytes, &SignKey([1; 32])));
    // bytes that are no signature at all
    assert!(!check_signature(&Signature([0xff; 64]), &bytes, &SignKey(pk.0)));
}

#[test]
fn keys_of_a_signed_message_are_digests_of_its_bytes() {
    let content = RoutingMessage::Request(RequestMessage {
        src: Authority::ManagedNode(XorName([1; 64])),
        dst: Authority::ManagedNode(XorName([2; 64])),
        content: RequestContent::Connect,
    });
    let m = SignedMessage {
        content,
        encoded: vec![1, 2, 3],
        public_id: id(1),
        signature: Signature([9; 64]),
    };
    assert_eq!(m.content_key(), XorName(sha512::hash(&[1, 2, 3]).0));
    let mut all = vec![1u8, 2, 3];
    all.extend_from_slice(&[9; 64]);
    assert_eq!(m.fingerprint(), XorName(sha512::hash(&all).0));
    assert!(!m.check_integrity());
}
