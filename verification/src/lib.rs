//! The core of a node in a self-organising overlay network.
//!
//! Nodes are addressed by names in an XOR metric space. A node keeps a
//! routing table of the peers it knows, filters what it has seen before,
//! collects the endorsements of its section until a quorum stands behind a
//! decision, gives joining nodes their names, and tells its peers how many
//! messages it tolerates. Every function here decides from plain values: the
//! clock, the transport and the disk are the caller's business, who hands in
//! the time and what arrived and carries out the actions that come back.
//!
//! The functions are verified with Verus against the contracts they carry.
//! What rests on outside crates is named in the contracts and marked as
//! trusted where it is called.

pub mod accumulator;
pub mod authority;
pub mod back_pressure;
pub mod bytes;
pub mod config;
pub mod crypto;
pub mod duty_cfg;
pub mod error;
pub mod id;
pub mod keys;
pub mod message_filter;
pub mod messages;
pub mod node;
pub mod proposal;
pub mod relocation;
pub mod routing_table;
pub mod timed_map;
pub mod utils;
pub mod xor_name;
