//! The reasons for which a node turns something down.

use vstd::prelude::*;

verus! {

/// Why a message or a step of a protocol was turned down.
#[derive(Clone, Copy, Debug, PartialEq, Eq, Structural)]
pub enum RoutingError {
    /// A signature does not verify.
    SignatureInvalid,
    /// Bytes could not be read as the value they should hold.
    SerializationFailure,
    /// The message came over a connection with no established identity.
    UnknownConnection,
    /// The message is not legal in the node's current state.
    InvalidStateForOperation,
    /// Forwarding would move the message away from its destination.
    DirectionCheckFailed,
    /// The message was seen before.
    FilterCheckFailed,
    /// The routing table declines the candidate.
    RefusedFromRoutingTable,
    /// The identity does not match, or the joiner was not expected.
    RejectedPublicId,
    /// The quorum is not reached yet.
    NotEnoughSignatures,
    /// A sealed payload did not open.
    AsymmetricDecryptionFailure,
    /// The node has no proxy yet.
    NotBootstrapped,
    /// The message's source and destination do not fit its content.
    BadAuthority,
    /// The request reached a group that is not responsible for it.
    InvalidDestination,
    /// The routing table holds no contact.
    RoutingTableEmpty,
}

} // verus!
