//! The messages of the overlay and the encoding of identities.

use crate::authority::Authority;
use crate::crypto::{
    sha512, sign_detached, signature_of, signature_valid, verify_detached, SecretSignKey,
    Signature,
};
use crate::id::{BoxKey, PublicId, SignKey};
use crate::xor_name::XorName;
use vstd::prelude::*;

verus! {

/// Length of an encoded public identity.
pub const PUBLIC_ID_LEN: usize = 128;

/// The kinds of data that the network stores.
#[derive(Clone, Copy, Debug, PartialEq, Eq, Structural)]
pub enum DataKind {
    Immutable,
    Structured,
    Plain,
}

/// A piece of data with its name.
#[derive(Clone, Debug, PartialEq, Eq)]
pub struct Data {
    pub name: XorName,
    pub kind: DataKind,
    pub content: Vec<u8>,
}

/// A request for the data with a name.
#[derive(Clone, Copy, Debug, PartialEq, Eq)]
pub struct DataRequest {
    pub name: XorName,
    pub kind: DataKind,
}

/// What a request asks for.
#[derive(Clone, Debug, PartialEq, Eq)]
pub enum RequestContent {
    /// A joining node asks for its name in the network.
    GetNetworkName { current_id: PublicId },
    /// A group tells the future close group of a joining node to expect it.
    ExpectCloseNode { expect_id: PublicId },
    /// A joining node asks for the members of its close group.
    GetCloseGroup,
    /// A node asks another to connect.
    Connect,
    /// A node hands over its sealed endpoints.
    Endpoints { encrypted_endpoints: Vec<u8>, nonce_bytes: [u8; 24] },
    /// A node asks for the identity of another.
    GetPublicId,
    /// A node asks for the identity of another and passes endpoints along.
    GetPublicIdWithEndpoints { encrypted_endpoints: Vec<u8>, nonce_bytes: [u8; 24] },
    /// Requests of the users of the network.
    Get(DataRequest),
    Put(Data),
    Post(Data),
    Delete(Data),
}

/// What a response answers.
#[derive(Clone, Debug, PartialEq, Eq)]
pub enum ResponseContent {
    GetNetworkName { relocated_id: PublicId },
    GetPublicId { public_id: PublicId },
    GetPublicIdWithEndpoints {
        public_id: PublicId,
        encrypted_endpoints: Vec<u8>,
        nonce_bytes: [u8; 24],
    },
    GetCloseGroup { close_group_ids: Vec<PublicId> },
    /// The data, or nothing if there is none.
    Get { result: Option<Data> },
    /// Whether the data was stored, changed or removed.
    Put { done: bool },
    Post { done: bool },
    Delete { done: bool },
}

/// A request on its way.
#[derive(Clone, Debug, PartialEq, Eq)]
pub struct RequestMessage {
    pub src: Authority,
    pub dst: Authority,
    pub content: RequestContent,
}

/// A response on its way.
#[derive(Clone, Debug, PartialEq, Eq)]
pub struct ResponseMessage {
    pub src: Authority,
    pub dst: Authority,
    pub content: ResponseContent,
}

/// What the overlay carries from authority to authority.
#[derive(Clone, Debug, PartialEq, Eq)]
pub enum RoutingMessage {
    Request(RequestMessage),
    Response(ResponseMessage),
}

impl RoutingMessage {
    /// The authority that the message comes from.
    pub open spec fn source(self) -> Authority {
        match self {
            RoutingMessage::Request(m) => m.src,
            RoutingMessage::Response(m) => m.src,
        }
    }

    /// The authority that the message goes to.
    pub open spec fn destination(self) -> Authority {
        match self {
            RoutingMessage::Request(m) => m.dst,
            RoutingMessage::Response(m) => m.dst,
        }
    }

    /// The authority that the message comes from.
    pub fn src(&self) -> (r: &Authority)
        ensures
            *r == self.source(),
    {
        match self {
            RoutingMessage::Request(m) => &m.src,
            RoutingMessage::Response(m) => &m.src,
        }
    }

    /// The authority that the message goes to.
    pub fn dst(&self) -> (r: &Authority)
        ensures
            *r == self.destination(),
    {
        match self {
            RoutingMessage::Request(m) => &m.dst,
            RoutingMessage::Response(m) => &m.dst,
        }
    }
}

/// A routing message as its sender signed it: the message, its canonical
/// bytes, the sender's identity and the sender's signature of the bytes.
///
/// The signature covers `encoded` alone. That `content` is the message that
/// `encoded` encodes is the word of whoever read the bytes: nothing here
/// checks it.
#[derive(Clone, Debug, PartialEq, Eq)]
pub struct SignedMessage {
    pub content: RoutingMessage,
    pub encoded: Vec<u8>,
    pub public_id: PublicId,
    pub signature: Signature,
}

impl SignedMessage {
    /// Whether the signature is the sender's signature of the bytes.
    pub open spec fn intact(self) -> bool {
        signature_valid(self.signature.0@, self.encoded@, self.public_id.signing_public_key.0@)
    }

    /// The bytes that identify this signed message: its canonical bytes
    /// followed by its signature.
    pub open spec fn signed_bytes(self) -> Seq<u8> {
        self.encoded@ + self.signature.0@
    }

    /// Whether the signature is the sender's signature of the bytes.
    pub fn check_integrity(&self) -> (r: bool)
        ensures
            r == self.intact(),
    {
        verify_detached(&self.signature, self.encoded.as_slice(), &self.public_id.signing_public_key)
    }

    /// The key under which the message's content is accumulated: the digest
    /// of its canonical bytes, the same for every sender of the content.
    pub open spec fn content_digest(self) -> XorName {
        crate::xor_name::name_with(sha512(self.encoded@))
    }

    /// The key under which this signed message is remembered: the digest of
    /// its canonical bytes and its signature.
    pub open spec fn signed_digest(self) -> XorName {
        crate::xor_name::name_with(sha512(self.signed_bytes()))
    }

    /// The digest of the message's canonical bytes: the same for every
    /// sender of the same content.
    pub fn content_key(&self) -> (key: XorName)
        ensures
            key == self.content_digest(),
    {
        crate::crypto::hash_to_name(self.encoded.as_slice())
    }

    /// The digest of the message's canonical bytes and its signature.
    pub fn fingerprint(&self) -> (key: XorName)
        ensures
            key == self.signed_digest(),
    {
        let mut bytes = crate::bytes::copy_bytes(&self.encoded);
        crate::bytes::append_bytes(&mut bytes, self.signature.0.as_slice());
        crate::crypto::hash_to_name(bytes.as_slice())
    }
}

/// A signed message as one node hands it to the next: the message, the name
/// of the node that hands it on, and that node's signature of the message's
/// canonical bytes.
#[derive(Clone, Debug, PartialEq, Eq)]
pub struct HopMessage {
    pub content: SignedMessage,
    pub name: XorName,
    pub signature: Signature,
}

impl HopMessage {
    /// Whether the hop's signature verifies under `key`.
    pub fn verify(&self, key: &SignKey) -> (r: bool)
        ensures
            r == signature_valid(self.signature.0@, self.content.encoded@, key.0@),
    {
        verify_detached(&self.signature, self.content.encoded.as_slice(), key)
    }
}

/// What two nodes say to each other over a connection they share.
#[derive(Clone, Debug, PartialEq, Eq)]
pub enum DirectMessage {
    /// A node tells a client who it is and which quorum holds in its group.
    BootstrapIdentify { public_id: PublicId, current_quorum_size: usize },
    /// A client tells who it is.
    ClientIdentify { serialised_public_id: Vec<u8>, signature: Signature },
    /// A node tells who it is.
    NodeIdentify { serialised_public_id: Vec<u8>, signature: Signature },
    /// A node tells of a change in its close group.
    Churn { close_group: Vec<XorName> },
}

/// What arrives over a connection.
#[derive(Clone, Debug, PartialEq, Eq)]
pub enum Message {
    Hop(HopMessage),
    Direct(DirectMessage),
}

/// The encoding of an identity: the name, the signing key, the encryption
/// key.
pub open spec fn encoded_id(id: PublicId) -> Seq<u8> {
    id.name.0@ + id.signing_public_key.0@ + id.encrypting_public_key.0@
}

/// The identity that `bytes` encode, if they encode one.
pub open spec fn decoded_id(bytes: Seq<u8>) -> Option<PublicId> {
    if exists|id: PublicId| encoded_id(id) == bytes {
        Some(choose|id: PublicId| encoded_id(id) == bytes)
    } else {
        None
    }
}

/// Encoding loses nothing: different identities have different encodings.
pub proof fn lemma_encoded_id_injective(a: PublicId, b: PublicId)
    requires
        encoded_id(a) == encoded_id(b),
    ensures
        a == b,
{
    let ea = encoded_id(a);
    let eb = encoded_id(b);
    assert forall|i: int| 0 <= i < 64 implies a.name.0@[i] == b.name.0@[i] by {
        assert(ea[i] == a.name.0@[i]);
        assert(eb[i] == b.name.0@[i]);
    }
    assert(a.name.0 =~= b.name.0);
    assert forall|i: int| 0 <= i < 32 implies a.signing_public_key.0@[i]
        == b.signing_public_key.0@[i] by {
        assert(ea[64 + i] == a.signing_public_key.0@[i]);
        assert(eb[64 + i] == b.signing_public_key.0@[i]);
    }
    assert(a.signing_public_key.0 =~= b.signing_public_key.0);
    assert forall|i: int| 0 <= i < 32 implies a.encrypting_public_key.0@[i]
        == b.encrypting_public_key.0@[i] by {
        assert(ea[96 + i] == a.encrypting_public_key.0@[i]);
        assert(eb[96 + i] == b.encrypting_public_key.0@[i]);
    }
    assert(a.encrypting_public_key.0 =~= b.encrypting_public_key.0);
}

/// Decoding gives back what was encoded.
pub proof fn lemma_decode_encode(id: PublicId)
    ensures
        decoded_id(encoded_id(id)) == Some(id),
        encoded_id(id).len() == PUBLIC_ID_LEN,
{
    let other = choose|other: PublicId| encoded_id(other) == encoded_id(id);
    lemma_encoded_id_injective(other, id);
}

/// Encodes an identity.
pub fn encode_public_id(id: &PublicId) -> (bytes: Vec<u8>)
    ensures
        bytes@ == encoded_id(*id),
        bytes@.len() == PUBLIC_ID_LEN,
{
    let mut bytes: Vec<u8> = Vec::new();
    crate::bytes::append_bytes(&mut bytes, id.name.0.as_slice());
    crate::bytes::append_bytes(&mut bytes, id.signing_public_key.0.as_slice());
    crate::bytes::append_bytes(&mut bytes, id.encrypting_public_key.0.as_slice());
    assert(bytes@ =~= encoded_id(*id));
    bytes
}

/// Decodes an identity: `Some` exactly for the byte strings that
/// `encode_public_id` produces, which are those of length `PUBLIC_ID_LEN`.
pub fn decode_public_id(bytes: &[u8]) -> (r: Option<PublicId>)
    ensures
        r == decoded_id(bytes@),
        r.is_some() <==> bytes@.len() == PUBLIC_ID_LEN,
{
    if bytes.len() != PUBLIC_ID_LEN {
        proof {
            if exists|id: PublicId| encoded_id(id) == bytes@ {
                let id = choose|id: PublicId| encoded_id(id) == bytes@;
                assert(encoded_id(id).len() == 128);
            }
        }
        return None;
    }
    let mut name = [0u8; 64];
    let mut sign = [0u8; 32];
    let mut seal = [0u8; 32];
    let mut i: usize = 0;
    while i < 64
        invariant
            0 <= i <= 64,
            bytes@.len() == 128,
            forall|j: int| 0 <= j < i ==> name@[j] == bytes@[j],
        decreases 64 - i,
    {
        name[i] = bytes[i];
        i += 1;
    }
    i = 0;
    while i < 32
        invariant
            0 <= i <= 32,
            bytes@.len() == 128,
            forall|j: int| 0 <= j < i ==> sign@[j] == bytes@[64 + j],
            forall|j: int| 0 <= j < i ==> seal@[j] == bytes@[96 + j],
        decreases 32 - i,
    {
        sign[i] = bytes[64 + i];
        seal[i] = bytes[96 + i];
        i += 1;
    }
    let id = PublicId {
        name: XorName(name),
        signing_public_key: SignKey(sign),
        encrypting_public_key: BoxKey(seal),
    };
    proof {
        assert(encoded_id(id) =~= bytes@);
        lemma_decode_encode(id);
    }
    Some(id)
}

/// An identity announcement: the encoded identity and its owner's signature
/// of the encoding.
pub fn sign_public_id(id: &PublicId, key: &SecretSignKey) -> (r: (Vec<u8>, Signature))
    ensures
        r.0@ == encoded_id(*id),
        r.1.0@ == signature_of(encoded_id(*id), key.0@),
{
    let bytes = encode_public_id(id);
    let signature = sign_detached(bytes.as_slice(), key);
    (bytes, signature)
}

} // verus!
