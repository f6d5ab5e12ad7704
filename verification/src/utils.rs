//! Small helpers on the identities and messages of vaults.

use crate::accumulator::SignatureShare;
use crate::duty_cfg::SrcLocation;
use crate::id::SignKey;
use crate::xor_name::XorName;
use vstd::prelude::*;

verus! {

/// The public identity of a client.
#[derive(Clone, Copy, Debug, PartialEq, Eq)]
pub struct ClientPublicId {
    pub name: XorName,
    pub public_key: SignKey,
}

/// The public identity of an app: its own key, and the client that owns it.
#[derive(Clone, Copy, Debug, PartialEq, Eq)]
pub struct AppPublicId {
    pub owner: ClientPublicId,
    pub public_key: SignKey,
}

/// Who asks a vault for something.
#[derive(Clone, Copy, Debug, PartialEq, Eq)]
pub enum Requester {
    Node(XorName),
    Client(ClientPublicId),
    App(AppPublicId),
}

/// What travels between the vaults of a section.
#[derive(Clone, Copy, Debug, PartialEq, Eq)]
pub enum VaultMessage {
    /// A request, with the address that it goes to if it has one.
    Request { dst_address: Option<XorName>, requester: Requester },
    /// The response to a request.
    Response { requester: Requester },
    /// A chunk is copied to another vault.
    Duplicate,
    /// A chunk was copied.
    DuplicationComplete,
}

/// The address of a requester: a node's own name, a client's name, and for
/// an app the name of its owner.
pub open spec fn address_of(requester: Requester) -> XorName {
    match requester {
        Requester::Node(name) => name,
        Requester::Client(id) => id.name,
        Requester::App(id) => id.owner.name,
    }
}

/// The name of all zeroes.
pub open spec fn zero_name() -> XorName {
    crate::xor_name::name_with(Seq::new(64, |i: int| 0u8))
}

/// The name of all zeroes.
pub fn default_name() -> (name: XorName)
    ensures
        name == zero_name(),
{
    let name = XorName([0u8; 64]);
    proof {
        assert(name.0@ =~= Seq::new(64, |i: int| 0u8));
        crate::xor_name::lemma_name_with(name);
    }
    name
}

/// Returns the client's public ID, the owner's public ID, or None depending
/// on whether `public_id` represents a Client, App or Node respectively.
pub fn owner(public_id: &Requester) -> (r: Option<&ClientPublicId>)
    ensures
        match *public_id {
            Requester::Node(_) => r.is_none(),
            Requester::Client(id) => r == Some(&id),
            Requester::App(id) => r == Some(&id.owner),
        },
{
    match public_id {
        Requester::Node(_) => None,
        Requester::Client(id) => Some(id),
        Requester::App(id) => Some(&id.owner),
    }
}

/// Returns the client's ID if `public_id` represents a Client, or None if it
/// represents an App or Node.
pub fn client(public_id: &Requester) -> (r: Option<&ClientPublicId>)
    ensures
        match *public_id {
            Requester::Client(id) => r == Some(&id),
            _ => r.is_none(),
        },
{
    match public_id {
        Requester::Node(_) => None,
        Requester::App(_) => None,
        Requester::Client(id) => Some(id),
    }
}

/// Returns the client's or app's public key if `public_id` represents a
/// Client or App respectively, or None if it represents a Node.
pub fn own_key(public_id: &Requester) -> (r: Option<&SignKey>)
    ensures
        match *public_id {
            Requester::Node(_) => r.is_none(),
            Requester::Client(id) => r == Some(&id.public_key),
            Requester::App(id) => r == Some(&id.public_key),
        },
{
    match public_id {
        Requester::Node(_) => None,
        Requester::Client(id) => Some(&id.public_key),
        Requester::App(id) => Some(&id.public_key),
    }
}

/// Returns the requester's address. An App's address is the name of its
/// owner. A message without requester has the address of all zeroes.
pub fn requester_address(msg: &VaultMessage) -> (r: XorName)
    ensures
        r == match *msg {
            VaultMessage::Request { dst_address, requester } => address_of(requester),
            VaultMessage::Response { requester } => address_of(requester),
            _ => zero_name(),
        },
{
    match msg {
        VaultMessage::Request { dst_address: _, requester } => name_of_requester(requester),
        VaultMessage::Response { requester } => name_of_requester(requester),
        _ => default_name(),
    }
}

/// The address of a requester.
pub fn name_of_requester(requester: &Requester) -> (r: XorName)
    ensures
        r == address_of(*requester),
{
    match requester {
        Requester::Node(name) => *name,
        Requester::Client(id) => id.name,
        Requester::App(id) => id.owner.name,
    }
}

/// Returns the dst address: that of a request if it has one, the
/// requester's for a response, and the address of all zeroes for the rest.
pub fn dst_address(msg: &VaultMessage) -> (r: Option<XorName>)
    ensures
        r == match *msg {
            VaultMessage::Request { dst_address, requester } => dst_address,
            VaultMessage::Response { requester } => Some(address_of(requester)),
            _ => Some(zero_name()),
        },
{
    match msg {
        VaultMessage::Request { dst_address, requester: _ } => *dst_address,
        VaultMessage::Response { requester } => Some(name_of_requester(requester)),
        _ => Some(default_name()),
    }
}

/// The name of the node that a message came from, and the name of all
/// zeroes if it came from elsewhere.
pub fn get_source_name(src: SrcLocation) -> (r: XorName)
    ensures
        r == match src {
            SrcLocation::Node(name) => name,
            _ => zero_name(),
        },
{
    match src {
        SrcLocation::Node(name) => name,
        _ => default_name(),
    }
}

/// What `sign` returns: nothing without a key share, or where the key share
/// does not sign; else the share of the signature, under the node's index,
/// and under index 0 where the node does not know its index.
pub open spec fn signed_by(
    secret_key_share: Option<[u8; 32]>,
    our_index: Option<u64>,
    data: Seq<u8>,
    r: Option<SignatureShare>,
) -> bool {
    match secret_key_share {
        None => r.is_none(),
        Some(key) => match crate::proposal::share_signature(key@, data) {
            None => r.is_none(),
            Some(sig) => r.is_some() && r.unwrap().share@ == sig && r.unwrap().index == (
            match our_index {
                Some(i) => i,
                None => 0,
            }),
        },
    }
}

/// The share that a node contributes to the section's signature of `data`.
pub fn sign(secret_key_share: Option<[u8; 32]>, our_index: Option<u64>, data: &[u8]) -> (r: Option<
    SignatureShare,
>)
    ensures
        signed_by(secret_key_share, our_index, data@, r),
{
    match secret_key_share {
        None => None,
        Some(key) => match crate::proposal::sign_share(&key, data) {
            None => None,
            Some(share) => Some(
                SignatureShare {
                    index: match our_index {
                        Some(i) => i,
                        None => 0,
                    },
                    share,
                },
            ),
        },
    }
}

} // verus!
