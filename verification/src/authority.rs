//! The sources and destinations of messages.

use crate::id::SignKey;
use crate::xor_name::XorName;
use vstd::prelude::*;

verus! {

/// Where a message comes from or goes to.
#[derive(Clone, Copy, Debug, PartialEq, Eq)]
pub enum Authority {
    /// The group of nodes responsible for a part of the name space.
    NaeManager(XorName),
    /// The group of nodes closest to a node.
    NodeManager(XorName),
    /// A single node.
    ManagedNode(XorName),
    /// A client, reached through its proxy.
    Client { client_key: SignKey, proxy_node_name: XorName },
    /// The whole section around a name.
    Section(XorName),
}

impl Authority {
    /// Whether the authority is a group, whose messages count only once a
    /// quorum of its members has sent them.
    pub open spec fn group(self) -> bool {
        match self {
            Authority::NaeManager(_) => true,
            Authority::NodeManager(_) => true,
            Authority::Section(_) => true,
            Authority::ManagedNode(_) => false,
            Authority::Client { .. } => false,
        }
    }

    /// The name by which the authority is reached: its own, or for a client
    /// that of its proxy.
    pub open spec fn name(self) -> XorName {
        match self {
            Authority::NaeManager(name) => name,
            Authority::NodeManager(name) => name,
            Authority::Section(name) => name,
            Authority::ManagedNode(name) => name,
            Authority::Client { client_key, proxy_node_name } => proxy_node_name,
        }
    }

    /// Whether the authority is a group.
    pub fn is_group(&self) -> (r: bool)
        ensures
            r == self.group(),
    {
        match self {
            Authority::NaeManager(_) => true,
            Authority::NodeManager(_) => true,
            Authority::Section(_) => true,
            Authority::ManagedNode(_) => false,
            Authority::Client { .. } => false,
        }
    }

    /// The name by which the authority is reached.
    pub fn get_name(&self) -> (r: &XorName)
        ensures
            *r == self.name(),
    {
        match self {
            Authority::NaeManager(name) => name,
            Authority::NodeManager(name) => name,
            Authority::Section(name) => name,
            Authority::ManagedNode(name) => name,
            Authority::Client { client_key: _, proxy_node_name } => proxy_node_name,
        }
    }
}

} // verus!
