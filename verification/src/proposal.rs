//! Proposals of the elders and the bytes that are signed for them.

use crate::accumulator::{SigShare, PUBLIC_KEY_LEN};
use crate::bytes::copy_bytes;
use crate::error::RoutingError;
use vstd::prelude::*;

verus! {

/// A signature together with the key that verifies it.
#[derive(Clone, Copy, Debug, PartialEq, Eq)]
pub struct KeyedSig {
    pub public_key: [u8; 48],
    pub signature: [u8; 96],
}

/// An encoded value together with a section's signature of it.
#[derive(Clone, Debug, PartialEq, Eq)]
pub struct SectionAuth {
    /// The encoded value.
    pub value: Vec<u8>,
    /// The section's signature.
    pub sig: KeyedSig,
}

/// A change that the elders of a section vote on. Node states and section
/// authority providers are held in their encoded form.
#[derive(Clone, Debug, PartialEq, Eq)]
pub enum Proposal {
    /// A node went offline; holds the node's state.
    Offline(Vec<u8>),
    /// An update of the section's authority provider.
    SectionInfo { sap: Vec<u8>, generation: u64 },
    /// A new set of elders: the new authority provider, signed by its key.
    NewElders(SectionAuth),
    /// Whether the section takes new nodes.
    JoinsAllowed(bool),
}

/// A proposal as it travels in a message.
#[derive(Clone, Debug, PartialEq, Eq)]
pub enum ProposalMsg {
    Offline(Vec<u8>),
    SectionInfo { sap: Vec<u8>, generation: u64 },
    NewElders(SectionAuth),
    JoinsAllowed(bool),
}

/// The encoding of a BLS public key, given by its compressed bytes; nothing
/// if the bytes are no key.
pub uninterp spec fn encoded_public_key(key: Seq<u8>) -> Option<Seq<u8>>;

/// The signature share of `payload` under the secret key share with these
/// bytes; nothing if the bytes are no secret key.
pub uninterp spec fn share_signature(secret_key_share: Seq<u8>, payload: Seq<u8>) -> Option<
    Seq<u8>,
>;

/// The bytes that the members sign for a proposal.
///
/// An offline proposal signs the node state, a section info proposal the
/// authority provider without the generation, a new elders proposal only the
/// new section key, a joins allowed proposal its flag as one byte.
pub open spec fn signable_bytes(p: Proposal) -> Option<Seq<u8>> {
    match p {
        Proposal::Offline(node_state) => Some(node_state@),
        Proposal::SectionInfo { sap, generation } => Some(sap@),
        Proposal::NewElders(info) => encoded_public_key(info.sig.public_key@),
        Proposal::JoinsAllowed(allowed) => Some(seq![flag_byte(allowed)]),
    }
}

/// The byte that stands for a flag: 1 for `true`, 0 for `false`.
pub open spec fn flag_byte(flag: bool) -> u8 {
    if flag {
        1u8
    } else {
        0u8
    }
}

/// Calls `bincode::serialize` on a `bool`. Trusted: the encoding is one
/// byte, 1 for `true` and 0 for `false`, and does not fail.
#[verifier::external_body]
fn encode_bool(value: bool) -> (r: Option<Vec<u8>>)
    ensures
        r.is_some(),
        r.unwrap()@ == seq![flag_byte(value)],
{
    bincode::serialize(&value).ok()
}

/// Calls `bincode::serialize` on the `blsttc::PublicKey` that
/// `blsttc::PublicKey::from_bytes` reads. Trusted: the result is the function
/// `encoded_public_key` of the key's bytes, and an encoding is as long as a
/// key: the key is written as a tuple of its compressed bytes.
#[verifier::external_body]
fn encode_public_key(key: &[u8; 48]) -> (r: Option<Vec<u8>>)
    ensures
        match r {
            Some(bytes) => encoded_public_key(key@) == Some(bytes@) && bytes@.len()
                == PUBLIC_KEY_LEN,
            None => encoded_public_key(key@).is_none(),
        },
{
    bincode::serialize(&blsttc::PublicKey::from_bytes(*key).ok()?).ok()
}

/// Calls `blsttc::SecretKeyShare::sign` with the key share that
/// `blsttc::SecretKeyShare::from_bytes` reads. Trusted: the result is the
/// function `share_signature` of the key share's bytes and the payload.
#[verifier::external_body]
pub(crate) fn sign_share(secret_key_share: &[u8; 32], payload: &[u8]) -> (r: Option<[u8; 96]>)
    ensures
        match r {
            Some(sig) => share_signature(secret_key_share@, payload@) == Some(sig@),
            None => share_signature(secret_key_share@, payload@).is_none(),
        },
{
    blsttc::SecretKeyShare::from_bytes(*secret_key_share).ok()?.sign(payload).ok().map(
        |sig| sig.to_bytes(),
    )
}

/// The share that completes the signing of a proposal: `Ok` where the key
/// share signed, with the key set and the index of the signer.
pub fn signed_share(public_key_set: Vec<u8>, index: u64, signature: Option<[u8; 96]>) -> (r: Result<
    SigShare,
    RoutingError,
>)
    ensures
        match signature {
            Some(signature_share) => r == Ok::<SigShare, RoutingError>(
                SigShare { public_key_set, index, signature_share },
            ),
            None => r == Err::<SigShare, RoutingError>(RoutingError::SignatureInvalid),
        },
{
    match signature {
        Some(signature_share) => Ok(SigShare { public_key_set, index, signature_share }),
        None => Err(RoutingError::SignatureInvalid),
    }
}

/// What `sign_with_key_share` returns: no share without signable bytes or
/// where the key share does not sign; else the signature share of the
/// signable bytes, with the key set and the index that were given.
pub open spec fn share_of_proposal(
    p: Proposal,
    public_key_set: Vec<u8>,
    index: u64,
    secret_key_share: Seq<u8>,
    r: Result<SigShare, RoutingError>,
) -> bool {
    match signable_bytes(p) {
        None => r == Err::<SigShare, RoutingError>(RoutingError::SerializationFailure),
        Some(bytes) => match share_signature(secret_key_share, bytes) {
            None => r == Err::<SigShare, RoutingError>(RoutingError::SignatureInvalid),
            Some(sig) => r.is_ok() && r.unwrap().public_key_set == public_key_set
                && r.unwrap().index == index && r.unwrap().signature_share@ == sig,
        },
    }
}

impl Proposal {
    /// Create SigShare for this proposal: the member with index `index` of
    /// the key set signs the proposal's signable bytes with its secret key
    /// share.
    pub fn sign_with_key_share(
        &self,
        public_key_set: Vec<u8>,
        index: u64,
        secret_key_share: &[u8; 32],
    ) -> (r: Result<SigShare, RoutingError>)
        ensures
            share_of_proposal(*self, public_key_set, index, secret_key_share@, r),
    {
        let bytes = match self.as_signable_bytes() {
            Ok(bytes) => bytes,
            Err(e) => {
                return Err(e);
            },
        };
        signed_share(public_key_set, index, sign_share(secret_key_share, bytes.as_slice()))
    }

    /// The bytes that the members sign for this proposal.
    pub fn as_signable_bytes(&self) -> (r: Result<Vec<u8>, RoutingError>)
        ensures
            match r {
                Ok(bytes) => signable_bytes(*self) == Some(bytes@),
                Err(e) => signable_bytes(*self).is_none() && e
                    == RoutingError::SerializationFailure,
            },
            r.is_ok() && *self is NewElders ==> r.unwrap()@.len() == PUBLIC_KEY_LEN,
    {
        let encoded = match self {
            Proposal::Offline(node_state) => Some(copy_bytes(node_state)),
            Proposal::SectionInfo { sap, generation: _ } => Some(copy_bytes(sap)),
            Proposal::NewElders(info) => encode_public_key(&info.sig.public_key),
            Proposal::JoinsAllowed(joins_allowed) => encode_bool(*joins_allowed),
        };
        match encoded {
            Some(bytes) => Ok(bytes),
            None => Err(RoutingError::SerializationFailure),
        }
    }

    /// The proposal as it travels in a message.
    pub fn into_msg(self) -> (msg: ProposalMsg)
        ensures
            msg == match self {
                Proposal::Offline(node_state) => ProposalMsg::Offline(node_state),
                Proposal::SectionInfo { sap, generation } => ProposalMsg::SectionInfo {
                    sap,
                    generation,
                },
                Proposal::NewElders(sap) => ProposalMsg::NewElders(sap),
                Proposal::JoinsAllowed(allowed) => ProposalMsg::JoinsAllowed(allowed),
            },
    {
        match self {
            Proposal::Offline(node_state) => ProposalMsg::Offline(node_state),
            Proposal::SectionInfo { sap, generation } => ProposalMsg::SectionInfo {
                sap,
                generation,
            },
            Proposal::NewElders(sap) => ProposalMsg::NewElders(sap),
            Proposal::JoinsAllowed(allowed) => ProposalMsg::JoinsAllowed(allowed),
        }
    }
}

} // verus!
