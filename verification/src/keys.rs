//! Secret keys, key sets and the threshold of a section.

use crate::proposal::KeyedSig;
use crate::routing_table::{quorum_of, quorum_size};
use vstd::prelude::*;

verus! {

/// The number of elders that is recommended for a section.
pub const DEFAULT_ELDER_COUNT: usize = 7;

/// Length of an Ed25519 secret key in bytes.
pub const SECRET_KEY_LENGTH: usize = 32;

/// Errors of this module.
#[derive(Clone, Debug, PartialEq, Eq)]
pub enum Error {
    /// A key could not be read from its text; the message says why.
    FailedToParse(String),
}

/// Wrapper for different secret key types.
#[derive(Debug)]
pub enum SecretKey {
    /// Ed25519 secretkey.
    Ed25519([u8; 32]),
    /// BLS secretkey share.
    BlsShare([u8; 32]),
}

/// Value of a hexadecimal digit.
pub open spec fn hex_digit(c: char) -> Option<u8> {
    if '0' <= c && c <= '9' {
        Some((c as u8 - '0' as u8) as u8)
    } else if 'a' <= c && c <= 'f' {
        Some((c as u8 - 'a' as u8 + 10) as u8)
    } else if 'A' <= c && c <= 'F' {
        Some((c as u8 - 'A' as u8 + 10) as u8)
    } else {
        None
    }
}

/// The bytes that a hexadecimal text stands for: two digits a byte, the high
/// one first. A text of odd length or with another character stands for
/// nothing.
pub open spec fn hex_decoded(text: Seq<char>) -> Option<Seq<u8>> {
    if text.len() % 2 != 0 || exists|i: int| 0 <= i < text.len() && hex_digit(text[i]).is_none() {
        None
    } else {
        Some(
            Seq::new(
                text.len() / 2,
                |i: int|
                    (16 * hex_digit(text[2 * i]).unwrap() + hex_digit(text[2 * i + 1]).unwrap()) as u8,
            ),
        )
    }
}

/// Calls `hex::decode`. Trusted: the bytes are what `hex_decoded` says of the
/// text; where `hex::decode` fails, that is nothing, and the error carries the
/// outside error's own words.
#[verifier::external_body]
fn decode_hex(text: &str) -> (r: Result<Vec<u8>, String>)
    ensures
        match r {
            Ok(bytes) => hex_decoded(text@) == Some(bytes@),
            Err(_) => hex_decoded(text@).is_none(),
        },
{
    hex::decode(text).map_err(
        |err| format!("Couldn't parse edd25519 secret key bytes from hex: {}", err),
    )
}

/// Calls `ed25519_dalek::SecretKey::from_bytes`. Trusted: it accepts exactly
/// the byte strings of length 32 and keeps their bytes.
#[verifier::external_body]
fn ed25519_from_bytes(bytes: &[u8]) -> (r: Result<[u8; 32], String>)
    ensures
        match r {
            Ok(key) => bytes@.len() == 32 && key@ == bytes@,
            Err(_) => bytes@.len() != 32,
        },
{
    ed25519_dalek::SecretKey::from_bytes(bytes).map(|key| key.to_bytes()).map_err(
        |err| format!("Couldn't parse ed25519 secret key from bytes: {}", err),
    )
}

impl SecretKey {
    /// Construct a secret key from a hex string: 64 hexadecimal digits.
    pub fn ed25519_from_hex(hex: &str) -> (r: Result<SecretKey, Error>)
        ensures
            match r {
                Ok(key) => key matches SecretKey::Ed25519(bytes) && hex_decoded(hex@) == Some(
                    bytes@,
                ),
                Err(e) => e is FailedToParse && (hex_decoded(hex@).is_none() || hex_decoded(
                    hex@,
                ).unwrap().len() != 32),
            },
    {
        let bytes = match decode_hex(hex) {
            Ok(bytes) => bytes,
            Err(message) => {
                return Err(Error::FailedToParse(message));
            },
        };
        match ed25519_from_bytes(bytes.as_slice()) {
            Ok(key) => Ok(SecretKey::Ed25519(key)),
            Err(message) => Err(Error::FailedToParse(message)),
        }
    }
}

/// The threshold of the key set of a section with `elder_count` elders: one
/// less than the section's quorum, so that the shares of a quorum of elders,
/// and of no fewer, combine to the section's signature.
pub fn threshold(elder_count: usize) -> (t: usize)
    ensures
        t + 1 == quorum_of(elder_count as nat),
        t == elder_count / 2,
{
    quorum_size(elder_count) - 1
}

/// The public key that belongs to the BLS secret key with these bytes;
/// nothing if the bytes are no secret key.
pub uninterp spec fn bls_public_key(secret_key: Seq<u8>) -> Option<Seq<u8>>;

/// The BLS signature of `message` under the secret key with these bytes;
/// nothing if the bytes are no secret key.
pub uninterp spec fn bls_signature(secret_key: Seq<u8>, message: Seq<u8>) -> Option<Seq<u8>>;

/// Calls `blsttc::SecretKey::public_key` on the key that
/// `blsttc::SecretKey::from_bytes` reads. Trusted: the result is the function
/// `bls_public_key` of the bytes.
#[verifier::external_body]
fn public_key_of(secret_key: &[u8; 32]) -> (r: Option<[u8; 48]>)
    ensures
        match r {
            Some(key) => bls_public_key(secret_key@) == Some(key@),
            None => bls_public_key(secret_key@).is_none(),
        },
{
    Some(blsttc::SecretKey::from_bytes(*secret_key).ok()?.public_key().to_bytes())
}

/// Calls `blsttc::SecretKey::sign` on the key that
/// `blsttc::SecretKey::from_bytes` reads. Trusted: the result is the function
/// `bls_signature` of the bytes and the message.
#[verifier::external_body]
fn sign_with(secret_key: &[u8; 32], message: &[u8]) -> (r: Option<[u8; 96]>)
    ensures
        match r {
            Some(sig) => bls_signature(secret_key@, message@) == Some(sig@),
            None => bls_signature(secret_key@, message@).is_none(),
        },
{
    blsttc::SecretKey::from_bytes(*secret_key).ok()?.sign(message).ok().map(|sig| sig.to_bytes())
}

/// Length of one coefficient of a serialised set of secret key shares, which
/// is the length of a secret key.
pub const COEFFICIENT_LEN: usize = 32;

/// The largest threshold for which a random key set is asked.
pub const MAX_THRESHOLD: usize = 65_535;

/// The threshold of a serialised set of secret key shares: one less than
/// the number of its coefficients.
pub open spec fn threshold_of(set: Seq<u8>) -> int {
    set.len() / 32 - 1
}

/// Calls `blsttc::SecretKeySet::try_random` with `rand::thread_rng`, and
/// hands back the set as `to_bytes` gives it and the key that `secret_key`
/// gives, as bytes. The keys are random. Trusted: the call succeeds; the set
/// is a polynomial with one coefficient more than the threshold, serialised
/// coefficient by coefficient from the constant one on, each in 32 bytes; and
/// the secret key, the value of the polynomial at zero, is the constant
/// coefficient. Thresholds whose coefficients may not fit into memory are
/// left out.
#[verifier::external_body]
fn random_key_set(threshold: usize) -> (r: Option<(Vec<u8>, [u8; 32])>)
    requires
        threshold <= MAX_THRESHOLD,
    ensures
        r.is_some(),
        r.unwrap().0@.len() == (threshold + 1) * COEFFICIENT_LEN,
        r.unwrap().1@ == r.unwrap().0@.take(COEFFICIENT_LEN as int),
{
    blsttc::SecretKeySet::try_random(threshold, &mut rand::thread_rng()).ok().map(
        |set| (set.to_bytes(), set.secret_key().to_bytes()),
    )
}

/// A set of secret key shares together with the secret key that the shares
/// are shares of, both in their serialised form.
pub struct SecretKeySet {
    set: Vec<u8>,
    key: [u8; 32],
}

impl SecretKeySet {
    /// The serialised set.
    pub closed spec fn set_bytes(&self) -> Seq<u8> {
        self.set@
    }

    /// The bytes of the secret key.
    pub closed spec fn key_bytes(&self) -> Seq<u8> {
        self.key@
    }

    /// Whether the key is the key of the set: the set holds whole
    /// coefficients, and the key is the first of them.
    pub open spec fn matching(&self) -> bool {
        &&& self.set_bytes().len() >= COEFFICIENT_LEN
        &&& self.set_bytes().len() % (COEFFICIENT_LEN as nat) == 0
        &&& self.key_bytes() == self.set_bytes().take(COEFFICIENT_LEN as int)
    }

    /// A random key set for a section with `elder_count` elders: its
    /// threshold is that of `threshold`, so that the shares of a quorum of
    /// the elders combine, and its key is the key of the set. No set is drawn
    /// for a threshold above `MAX_THRESHOLD`.
    pub fn random(elder_count: usize) -> (r: Option<SecretKeySet>)
        ensures
            r.is_some() <==> elder_count / 2 <= MAX_THRESHOLD,
            r.is_some() ==> r.unwrap().matching(),
            r.is_some() ==> threshold_of(r.unwrap().set_bytes()) + 1 == quorum_of(
                elder_count as nat,
            ),
    {
        let t = threshold(elder_count);
        if t > MAX_THRESHOLD {
            return None;
        }
        match random_key_set(t) {
            Some((set, key)) => Some(SecretKeySet { set, key }),
            None => None,
        }
    }

    /// The secret key that the shares are shares of.
    pub fn secret_key(&self) -> (key: &[u8; 32])
        ensures
            key@ == self.key_bytes(),
    {
        &self.key
    }

    /// The serialised set of secret key shares.
    pub fn secret_key_set(&self) -> (set: &Vec<u8>)
        ensures
            set@ == self.set_bytes(),
    {
        &self.set
    }
}

/// What `keyed_signed` returns.
pub open spec fn keyed_signature(secret_key: Seq<u8>, bytes: Seq<u8>, r: Option<KeyedSig>) -> bool {
    match (bls_public_key(secret_key), bls_signature(secret_key, bytes)) {
        (Some(key), Some(sig)) => r.is_some() && r.unwrap().public_key@ == key
            && r.unwrap().signature@ == sig,
        _ => r.is_none(),
    }
}

/// Create signature for the given bytes using the given secret key: the
/// signature together with the public key that verifies it.
pub fn keyed_signed(secret_key: &[u8; 32], bytes: &[u8]) -> (r: Option<KeyedSig>)
    ensures
        keyed_signature(secret_key@, bytes@, r),
{
    let public_key = match public_key_of(secret_key) {
        Some(key) => key,
        None => {
            return None;
        },
    };
    match sign_with(secret_key, bytes) {
        Some(signature) => Some(KeyedSig { public_key, signature }),
        None => None,
    }
}

} // verus!
