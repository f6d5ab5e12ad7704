use overlay_core::keys::{threshold, Error, SecretKey, DEFAULT_ELDER_COUNT};
use overlay_core::routing_table::quorum_size;

#[test]
fn the_threshold_is_one_less_than_the_quorum() {
    assert_eq!(threshold(3), 1);
    assert_eq!(threshold(DEFAULT_ELDER_COUNT), 3);
    assert_eq!(threshold(0), 0);
    assert_eq!(threshold(1), 0);
    assert_eq!(threshold(2), 1);
    assert_eq!(threshold(4), 2);
    for elders in 0..50usize {
        assert_eq!(threshold(elders) + 1, quorum_size(elders));
    }
    assert_eq!(threshold(usize::MAX), usize::MAX / 2);
}

#[test]
fn ed25519_from_hex_reads_32_bytes() {
    let text = "000102030405060708090a0b0c0d0e0f101112131415161718191A1B1C1D1E1F";
    match SecretKey::ed25519_from_hex(text) {
        Ok(SecretKey::Ed25519(bytes)) => {
            for i in 0..32 {
                assert_eq!(bytes[i], i as u8);
            }
        }
        other => panic!("unexpected {:?}", other),
    }
}

#[test]
fn ed25519_from_hex_rejects_bad_text() {
    assert!(matches!(SecretKey::ed25519_from_hex("abc"), Err(Error::FailedToParse(_))));
    assert!(matches!(SecretKey::ed25519_from_hex("zz"), Err(Error::FailedToParse(_))));
    assert!(matches!(SecretKey::ed25519_from_hex("0011"), Err(Error::FailedToParse(_))));
}

#[test]
fn keyed_signed_signs_under_the_matching_public_key() {
    let secret = blsttc::SecretKey::random();
    let sig = overlay_core::keys::keyed_signed(&secret.to_bytes(), b"bytes").expect("signs");
    assert_eq!(sig.public_key, secret.public_key().to_bytes());
    let signature = blsttc::Signature::from_bytes(sig.signature).expect("a signature");
    assert!(secret.public_key().verify(&signature, b"bytes").is_ok());
    assert!(secret.public_key().verify(&signature, b"other").is_err());
    assert!(overlay_core::keys::keyed_signed(&[0xff; 32], b"bytes").is_none());
}

#[test]
fn a_random_key_set_has_the_threshold_of_its_section() {
    for (elders, shares) in [(3usize, 2usize), (7, 4), (1, 1), (0, 1)] {
        let set = overlay_core::keys::SecretKeySet::random(elders).expect("random keys");
        assert_eq!(set.secret_key_set().len(), shares * 32);
        assert_eq!(&set.secret_key_set()[..32], &set.secret_key()[..]);
        let read = blsttc::SecretKeySet::from_bytes(set.secret_key_set().clone()).expect("a key set");
        assert_eq!(read.threshold(), threshold(elders));
        assert_eq!(read.threshold() + 1, shares);
        assert_eq!(read.secret_key().to_bytes(), *set.secret_key());
    }
    let one = overlay_core::keys::SecretKeySet::random(7).expect("random keys");
    let other = overlay_core::keys::SecretKeySet::random(7).expect("random keys");
    assert_ne!(other.secret_key(), one.secret_key());
    // no set is drawn for a section beyond measure
    assert!(overlay_core::keys::SecretKeySet::random(2 * 65_535 + 1).is_some());
    assert!(overlay_core::keys::SecretKeySet::random(2 * 65_536).is_none());
    assert!(overlay_core::keys::SecretKeySet::random(usize::MAX).is_none());
}
