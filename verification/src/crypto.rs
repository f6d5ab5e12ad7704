//! Digests, signatures and sealed boxes, as the node uses them.

use crate::id::{BoxKey, SignKey};
use crate::xor_name::XorName;
use vstd::prelude::*;

verus! {

/// A detached signature.
#[derive(Clone, Copy, Debug, PartialEq, Eq)]
pub struct Signature(pub [u8; 64]);

/// A nonce for sealing a payload to a peer.
#[derive(Clone, Copy, Debug, PartialEq, Eq)]
pub struct Nonce(pub [u8; 24]);

/// A secret signing key.
#[derive(Clone, Copy)]
pub struct SecretSignKey(pub [u8; 64]);

/// A secret encryption key.
#[derive(Clone, Copy)]
pub struct SecretBoxKey(pub [u8; 32]);

/// The key that two peers share for sealing payloads to each other.
#[derive(Clone, Copy)]
pub struct SharedKey(pub [u8; 32]);

/// The SHA-512 digest of a message, 64 bytes.
pub uninterp spec fn sha512(message: Seq<u8>) -> Seq<u8>;

/// Whether `signature` is a valid detached Ed25519 signature of `message`
/// under the public key `key`.
pub uninterp spec fn signature_valid(signature: Seq<u8>, message: Seq<u8>, key: Seq<u8>) -> bool;

/// The detached Ed25519 signature of `message` under the secret key `key`,
/// as the library that comes with sodiumoxide signs: without added
/// randomness.
pub uninterp spec fn signature_of(message: Seq<u8>, key: Seq<u8>) -> Seq<u8>;

/// Length of the authenticator that sealing puts before the ciphertext.
pub const MAC_LEN: usize = 16;

/// The key that the holder of `our_secret` shares with the holder of the
/// secret key to `their_key`. For a public key from which no shared key can
/// be computed it is the key of 32 zero bytes.
pub uninterp spec fn shared_key(their_key: Seq<u8>, our_secret: Seq<u8>) -> Seq<u8>;

/// The authenticated ciphertext of `message` under the shared key `key` and
/// `nonce`.
pub uninterp spec fn sealed_with(message: Seq<u8>, nonce: Seq<u8>, key: Seq<u8>) -> Seq<u8>;

/// The authenticated ciphertext of `message` for the holder of the secret key
/// to `their_key`, from the holder of `our_secret`, under `nonce`.
pub open spec fn sealed(
    message: Seq<u8>,
    nonce: Seq<u8>,
    their_key: Seq<u8>,
    our_secret: Seq<u8>,
) -> Seq<u8> {
    sealed_with(message, nonce, shared_key(their_key, our_secret))
}

/// The plaintext of `cipher` if it verifies as sealed by the holder of the
/// secret key to `their_key` for the holder of `our_secret` under `nonce`.
pub uninterp spec fn opened(
    cipher: Seq<u8>,
    nonce: Seq<u8>,
    their_key: Seq<u8>,
    our_secret: Seq<u8>,
) -> Option<Seq<u8>>;

/// Calls `sodiumoxide::crypto::hash::sha512::hash`. Trusted: the digest is
/// the function `sha512` of the message's bytes.
#[verifier::external_body]
pub(crate) fn hash_sha512(message: &[u8]) -> (digest: [u8; 64])
    ensures
        digest@ == sha512(message@),
{
    sodiumoxide::crypto::hash::sha512::hash(message).0
}

/// Calls `sodiumoxide::crypto::sign::verify_detached`. Trusted: the answer is
/// the function `signature_valid` of the three byte strings. Signature bytes
/// that the signature type does not accept count as invalid.
#[verifier::external_body]
pub(crate) fn verify_detached(signature: &Signature, message: &[u8], key: &SignKey) -> (ok: bool)
    ensures
        ok == signature_valid(signature.0@, message@, key.0@),
{
    match sodiumoxide::crypto::sign::Signature::from_bytes(&signature.0) {
        Ok(sig) => sodiumoxide::crypto::sign::verify_detached(
            &sig,
            message,
            &sodiumoxide::crypto::sign::PublicKey(key.0),
        ),
        Err(_) => false,
    }
}

/// Calls `sodiumoxide::crypto::sign::sign_detached`. Trusted: the signature
/// is the function `signature_of` of the message and the secret key. The
/// scalar of a signature that comes out of signing is reduced, so the
/// signature type accepts its bytes whatever the key.
#[verifier::external_body]
pub(crate) fn sign_detached(message: &[u8], key: &SecretSignKey) -> (signature: Signature)
    ensures
        signature.0@ == signature_of(message@, key.0@),
{
    Signature(
        sodiumoxide::crypto::sign::sign_detached(
            message,
            &sodiumoxide::crypto::sign::SecretKey(key.0),
        ).to_bytes(),
    )
}

/// Calls `sodiumoxide::crypto::box_::precompute`. Trusted: the key is the
/// function `shared_key` of the two keys. The call starts from a key of
/// zeroes and leaves it so where no shared key can be computed, as for a
/// public key of small order.
#[verifier::external_body]
fn box_precompute(their_key: &BoxKey, our_secret: &SecretBoxKey) -> (key: SharedKey)
    ensures
        key.0@ == shared_key(their_key.0@, our_secret.0@),
{
    SharedKey(
        sodiumoxide::crypto::box_::precompute(
            &sodiumoxide::crypto::box_::PublicKey(their_key.0),
            &sodiumoxide::crypto::box_::SecretKey(our_secret.0),
        ).0,
    )
}

/// Calls `sodiumoxide::crypto::box_::seal_precomputed`. Trusted: the
/// ciphertext is the function `sealed_with` of the three byte strings, and
/// is longer than the message by the authenticator.
#[verifier::external_body]
fn box_seal_precomputed(message: &[u8], nonce: &Nonce, key: &SharedKey) -> (cipher: Vec<u8>)
    ensures
        cipher@ == sealed_with(message@, nonce.0@, key.0@),
        cipher@.len() == message@.len() + MAC_LEN,
{
    sodiumoxide::crypto::box_::seal_precomputed(
        message,
        &sodiumoxide::crypto::box_::Nonce(nonce.0),
        &sodiumoxide::crypto::box_::PrecomputedKey(key.0),
    )
}

/// Seals `message` to the holder of the secret key to `their_key`: the shared
/// key is computed first, and the message sealed under it.
pub(crate) fn box_seal(message: &[u8], nonce: &Nonce, their_key: &BoxKey, our_secret: &SecretBoxKey) -> (cipher:
    Vec<u8>)
    ensures
        cipher@ == sealed(message@, nonce.0@, their_key.0@, our_secret.0@),
        cipher@.len() == message@.len() + MAC_LEN,
{
    let key = box_precompute(their_key, our_secret);
    box_seal_precomputed(message, nonce, &key)
}

/// Calls `sodiumoxide::crypto::box_::open`. Trusted: the result is the
/// function `opened` of the four byte strings, `None` where the ciphertext
/// does not verify.
#[verifier::external_body]
pub(crate) fn box_open(cipher: &[u8], nonce: &Nonce, their_key: &BoxKey, our_secret: &SecretBoxKey) -> (plain:
    Option<Vec<u8>>)
    ensures
        match plain {
            Some(bytes) => opened(cipher@, nonce.0@, their_key.0@, our_secret.0@) == Some(bytes@),
            None => opened(cipher@, nonce.0@, their_key.0@, our_secret.0@).is_none(),
        },
{
    sodiumoxide::crypto::box_::open(
        cipher,
        &sodiumoxide::crypto::box_::Nonce(nonce.0),
        &sodiumoxide::crypto::box_::PublicKey(their_key.0),
        &sodiumoxide::crypto::box_::SecretKey(our_secret.0),
    ).ok()
}

/// Calls `sodiumoxide::crypto::box_::gen_nonce`. The nonce is random:
/// nothing is claimed of it.
#[verifier::external_body]
pub(crate) fn gen_nonce() -> (nonce: Nonce) {
    Nonce(sodiumoxide::crypto::box_::gen_nonce().0)
}

/// The name that `bytes` hashes to.
pub fn hash_to_name(bytes: &[u8]) -> (name: XorName)
    ensures
        name.0@ == sha512(bytes@),
        name == crate::xor_name::name_with(sha512(bytes@)),
{
    let name = XorName(hash_sha512(bytes));
    proof {
        crate::xor_name::lemma_name_with(name);
    }
    name
}

/// Whether `signature` is a valid signature of `message` under `key`.
pub fn check_signature(signature: &Signature, message: &[u8], key: &SignKey) -> (ok: bool)
    ensures
        ok == signature_valid(signature.0@, message@, key.0@),
{
    verify_detached(signature, message, key)
}

} // verus!
