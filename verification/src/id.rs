//! Public keys and public identities.

use crate::xor_name::XorName;
use vstd::prelude::*;

verus! {

/// Handle of one live transport connection.
pub type Connection = u64;

/// A public signing key.
#[derive(Clone, Copy, Debug, PartialEq, Eq, Hash)]
pub struct SignKey(pub [u8; 32]);

/// A public encryption key.
#[derive(Clone, Copy, Debug, PartialEq, Eq, Hash)]
pub struct BoxKey(pub [u8; 32]);

/// Whether two 32-byte arrays hold the same bytes.
pub fn same_bytes(a: &[u8; 32], b: &[u8; 32]) -> (r: bool)
    ensures
        r == (*a == *b),
{
    let mut i: usize = 0;
    while i < 32
        invariant
            0 <= i <= 32,
            forall|j: int| 0 <= j < i ==> a@[j] == b@[j],
        decreases 32 - i,
    {
        if a[i] != b[i] {
            return false;
        }
        i += 1;
    }
    assert(*a =~= *b);
    true
}

impl SignKey {
    /// Whether two keys are the same key.
    pub fn same(&self, other: &SignKey) -> (r: bool)
        ensures
            r == (*self == *other),
    {
        same_bytes(&self.0, &other.0)
    }
}

impl BoxKey {
    /// Whether two keys are the same key.
    pub fn same(&self, other: &BoxKey) -> (r: bool)
        ensures
            r == (*self == *other),
    {
        same_bytes(&self.0, &other.0)
    }
}

/// What a node shows of itself: its name and its two public keys.
#[derive(Clone, Copy, Debug, PartialEq, Eq)]
pub struct PublicId {
    pub name: XorName,
    pub signing_public_key: SignKey,
    pub encrypting_public_key: BoxKey,
}

impl PublicId {
    /// Builds an identity from its parts.
    pub fn new(name: XorName, signing_public_key: SignKey, encrypting_public_key: BoxKey) -> (id:
        PublicId)
        ensures
            id == (PublicId { name, signing_public_key, encrypting_public_key }),
    {
        PublicId { name, signing_public_key, encrypting_public_key }
    }

    /// The name under which the node is addressed.
    pub fn name(&self) -> (n: &XorName)
        ensures
            *n == self.name,
    {
        &self.name
    }

    /// The key that verifies the node's signatures.
    pub fn signing_public_key(&self) -> (k: &SignKey)
        ensures
            *k == self.signing_public_key,
    {
        &self.signing_public_key
    }

    /// The key to which payloads for the node are encrypted.
    pub fn encrypting_public_key(&self) -> (k: &BoxKey)
        ensures
            *k == self.encrypting_public_key,
    {
        &self.encrypting_public_key
    }

    /// Gives the identity a new name and keeps its keys.
    pub fn set_name(&mut self, name: XorName)
        ensures
            *final(self) == (PublicId { name, ..*old(self) }),
    {
        self.name = name;
    }

    /// Whether two identities agree in name and keys.
    pub fn same(&self, other: &PublicId) -> (r: bool)
        ensures
            r == (*self == *other),
    {
        self.name.same(&other.name) && self.signing_public_key.same(&other.signing_public_key)
            && self.encrypting_public_key.same(&other.encrypting_public_key)
    }
}

} // verus!
