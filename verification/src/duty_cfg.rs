//! The duties of a node on its way from infant to elder, and after errors.

use crate::id::SignKey;
use crate::xor_name::XorName;
use vstd::prelude::*;

verus! {

/// The ranks of a node in its section.
#[derive(Clone, Copy, Debug, PartialEq, Eq, Structural)]
pub enum AgeGroup {
    Infant,
    Adult,
    Elder,
}

/// What a node does for itself.
#[derive(Clone, Copy, Debug, PartialEq, Eq)]
pub enum NodeDuty {
    /// Start to work as an adult.
    BecomeAdult,
    /// Start to work as an elder.
    BecomeElder,
    /// Tell the elders which wallet the node's rewards go to.
    RegisterWallet(SignKey),
    /// Send an error to where a message came from.
    SendError(OutgoingLazyError),
    /// Do nothing.
    NoOp,
}

/// What an elder does for the rewards of its section.
#[derive(Clone, Copy, Debug, PartialEq, Eq)]
pub enum RewardDuty {
    /// Start to count rewards for a node.
    AddNewNode(XorName),
    /// Set the wallet that a node's rewards go to.
    SetNodeWallet { node_id: XorName, wallet_id: SignKey },
}

/// One duty, of either kind.
#[derive(Clone, Copy, Debug, PartialEq, Eq)]
pub enum NetworkDuty {
    RunAsNode(NodeDuty),
    RunAsRewards(RewardDuty),
}

/// Duties to carry out, in order.
#[derive(Clone, Debug, PartialEq, Eq)]
pub struct NodeOperation {
    pub duties: Vec<NetworkDuty>,
}

/// Where a message came from.
#[derive(Clone, Copy, Debug, PartialEq, Eq)]
pub enum SrcLocation {
    EndUser(XorName),
    Node(XorName),
    Section(XorName),
}

/// Where a message goes to.
#[derive(Clone, Copy, Debug, PartialEq, Eq)]
pub enum DstLocation {
    EndUser(XorName),
    Node(XorName),
    Section(XorName),
}

/// Why a message could not be processed.
#[derive(Clone, Copy, Debug, PartialEq, Eq, Structural)]
pub enum ErrorMessage {
    /// The message could not be read from its bytes.
    Serialization,
    /// The data was not found.
    NoSuchData,
    /// The sender may not do this.
    AccessDenied,
    /// The node could not store the data.
    FailedToWrite,
    /// Any other reason.
    InvalidOperation,
}

/// An error on its way back to the sender of a message.
#[derive(Clone, Copy, Debug, PartialEq, Eq)]
pub struct ProcessingError {
    pub reason: Option<ErrorMessage>,
    /// The message that could not be processed, if it could be read.
    pub source_message: Option<XorName>,
    /// The identifier of this error message.
    pub id: XorName,
}

/// An error together with the place to send it to.
#[derive(Clone, Copy, Debug, PartialEq, Eq)]
pub struct OutgoingLazyError {
    pub msg: ProcessingError,
    pub dst: DstLocation,
}

/// The kinds of message that a node receives.
#[derive(Clone, Copy, Debug, PartialEq, Eq)]
pub enum Msg {
    /// A client asks for something to be processed; holds the message's
    /// identifier.
    ClientProcess(XorName),
    /// Any other message of a client.
    ClientOther,
    /// A message of a node.
    Node,
}

/// What is known of the message during whose processing an error came up.
#[derive(Clone, Debug, PartialEq, Eq)]
pub enum MsgContext {
    /// The message was read.
    Msg { msg: Msg, src: SrcLocation },
    /// The message could not be read from these bytes.
    Bytes { bytes: Vec<u8>, src: SrcLocation },
}

impl SrcLocation {
    /// The place to answer to.
    pub fn to_dst(&self) -> (dst: DstLocation)
        ensures
            dst == match *self {
                SrcLocation::EndUser(name) => DstLocation::EndUser(name),
                SrcLocation::Node(name) => DstLocation::Node(name),
                SrcLocation::Section(name) => DstLocation::Section(name),
            },
    {
        match self {
            SrcLocation::EndUser(name) => DstLocation::EndUser(*name),
            SrcLocation::Node(name) => DstLocation::Node(*name),
            SrcLocation::Section(name) => DstLocation::Section(*name),
        }
    }
}

/// Configuration made after connected to network, or promoted to elder.
///
/// These are calls made as part of a node initialising into a certain duty.
/// Becoming an Adult:
/// -> 1. Become Adult.
/// -> 2. Register wallet at Elders.
/// Becoming an Elder:
/// -> 1. Become Elder.
/// -> 2. Add own node id to rewards.
/// -> 3. Add own wallet to rewards.
pub struct DutyConfig {
    reward_key: SignKey,
    status: AgeGroup,
}

impl DutyConfig {
    /// The key that the node's rewards go to.
    pub closed spec fn reward_key(&self) -> SignKey {
        self.reward_key
    }

    /// The node's rank.
    pub closed spec fn rank(&self) -> AgeGroup {
        self.status
    }

    /// The configuration of a node with this reward key and this rank.
    pub fn new(reward_key: SignKey, status: AgeGroup) -> (cfg: DutyConfig)
        ensures
            cfg.reward_key() == reward_key,
            cfg.rank() == status,
    {
        DutyConfig { reward_key, status }
    }

    /// When first node in network: nothing to do.
    pub fn setup_as_first(&self) -> (r: Option<NodeOperation>)
        ensures
            r.is_none(),
    {
        None
    }

    /// When becoming Adult.
    pub fn setup_as_adult(&mut self) -> (r: Option<NodeOperation>)
        ensures
            final(self).rank() == AgeGroup::Adult,
            final(self).reward_key() == old(self).reward_key(),
            r.is_some(),
            r.unwrap().duties@ == seq![
                NetworkDuty::RunAsNode(NodeDuty::BecomeAdult),
                NetworkDuty::RunAsNode(NodeDuty::RegisterWallet(old(self).reward_key())),
            ],
    {
        self.status = AgeGroup::Adult;
        let mut duties: Vec<NetworkDuty> = Vec::new();
        duties.push(NetworkDuty::RunAsNode(NodeDuty::BecomeAdult));
        duties.push(NetworkDuty::RunAsNode(NodeDuty::RegisterWallet(self.reward_key)));
        Some(NodeOperation { duties })
    }

    /// When becoming Elder; `node_id` is the node's name in the network.
    pub fn setup_as_elder(&mut self, node_id: XorName) -> (r: Option<NodeOperation>)
        ensures
            final(self).rank() == AgeGroup::Elder,
            final(self).reward_key() == old(self).reward_key(),
            r.is_some(),
            r.unwrap().duties@ == seq![
                NetworkDuty::RunAsNode(NodeDuty::BecomeElder),
                NetworkDuty::RunAsRewards(RewardDuty::AddNewNode(node_id)),
                NetworkDuty::RunAsRewards(
                    RewardDuty::SetNodeWallet { node_id, wallet_id: old(self).reward_key() },
                ),
            ],
    {
        self.status = AgeGroup::Elder;
        let mut duties: Vec<NetworkDuty> = Vec::new();
        duties.push(NetworkDuty::RunAsNode(NodeDuty::BecomeElder));
        duties.push(NetworkDuty::RunAsRewards(RewardDuty::AddNewNode(node_id)));
        duties.push(
            NetworkDuty::RunAsRewards(
                RewardDuty::SetNodeWallet { node_id, wallet_id: self.reward_key },
            ),
        );
        Some(NodeOperation { duties })
    }

    /// The node's rank.
    pub fn status(&self) -> (s: AgeGroup)
        ensures
            s == self.rank(),
    {
        self.status
    }
}

/// The duties that follow from an error, as `try_handle_error` returns them.
///
/// Without a context the error cannot be reported to anybody. An error in
/// processing a client's request goes back to the client with its reason;
/// for any other message that was read nothing is done. A message that could
/// not be read is answered with a serialisation error under the identifier
/// `fallback_id`.
pub open spec fn error_duties(reason: ErrorMessage, ctx: Option<MsgContext>, fallback_id: XorName) -> Seq<
    NodeDuty,
> {
    match ctx {
        None => Seq::empty(),
        Some(MsgContext::Msg { msg: Msg::ClientProcess(id), src }) => seq![
            NodeDuty::SendError(
                OutgoingLazyError {
                    msg: ProcessingError {
                        reason: Some(reason),
                        source_message: Some(id),
                        id: fallback_id,
                    },
                    dst: match src {
                        SrcLocation::EndUser(name) => DstLocation::EndUser(name),
                        SrcLocation::Node(name) => DstLocation::Node(name),
                        SrcLocation::Section(name) => DstLocation::Section(name),
                    },
                },
            ),
        ],
        Some(MsgContext::Msg { msg, src }) => seq![NodeDuty::NoOp],
        Some(MsgContext::Bytes { bytes, src }) => seq![
            NodeDuty::SendError(
                OutgoingLazyError {
                    msg: ProcessingError {
                        reason: Some(ErrorMessage::Serialization),
                        source_message: None,
                        id: fallback_id,
                    },
                    dst: match src {
                        SrcLocation::EndUser(name) => DstLocation::EndUser(name),
                        SrcLocation::Node(name) => DstLocation::Node(name),
                        SrcLocation::Section(name) => DstLocation::Section(name),
                    },
                },
            ),
        ],
    }
}

/// Decides what to do about an error that came up while a message was
/// processed. `reason` is what the sender is to be told, `fallback_id` the
/// identifier for the error message.
pub fn try_handle_error(reason: ErrorMessage, ctx: Option<MsgContext>, fallback_id: XorName) -> (duties:
    Vec<NodeDuty>)
    ensures
        duties@ == error_duties(reason, ctx, fallback_id),
{
    let mut duties: Vec<NodeDuty> = Vec::new();
    match ctx {
        None => {},
        Some(MsgContext::Msg { msg, src }) => {
            match msg {
                Msg::ClientProcess(id) => {
                    duties.push(
                        NodeDuty::SendError(
                            OutgoingLazyError {
                                msg: ProcessingError {
                                    reason: Some(reason),
                                    source_message: Some(id),
                                    id: fallback_id,
                                },
                                dst: src.to_dst(),
                            },
                        ),
                    );
                },
                _ => {
                    duties.push(NodeDuty::NoOp);
                },
            }
        },
        Some(MsgContext::Bytes { bytes: _, src }) => {
            duties.push(
                NodeDuty::SendError(
                    OutgoingLazyError {
                        msg: ProcessingError {
                            reason: Some(ErrorMessage::Serialization),
                            source_message: None,
                            id: fallback_id,
                        },
                        dst: src.to_dst(),
                    },
                ),
            );
        },
    }
    duties
}

} // verus!
