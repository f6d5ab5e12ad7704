//! The node itself: its state, and what it does with every event.

use crate::accumulator::Accumulator;
use crate::authority::Authority;
use crate::crypto::{
    Nonce, SecretBoxKey, SecretSignKey, Signature, box_open, box_seal, gen_nonce, opened, sealed,
    sha512, signature_of, signature_valid,
};
use crate::error::RoutingError;
use crate::id::{BoxKey, Connection, PublicId, SignKey};
use crate::message_filter::MessageFilter;
use crate::messages::{
    DirectMessage, RequestContent, RequestMessage, ResponseContent, ResponseMessage,
    RoutingMessage, decode_public_id, decoded_id, encoded_id, sign_public_id,
};
use crate::routing_table::{NodeInfo, RoutingTable, quorum_of};
use crate::timed_map::{TimedMap, is_live};
use crate::xor_name::XorName;
use vstd::prelude::*;

pub mod direct;
pub mod dispatch;
pub mod events;
pub mod joining;
pub mod laws;

pub use self::direct::{
    after_bootstrap_identify, after_client_identify, after_handle_direct_message,
    after_handle_new_message, after_node_identify, bootstrap_message, drop_connections, dropped,
    joined,
};
pub use self::dispatch::{
    accumulated, after_cache_and_handle, after_dispatch, after_handle_hop_message,
    after_handle_request_message, after_handle_response_message, after_handle_routing_message,
    after_handle_signed_message, after_routing_check, cache_lookup, cached, carried_data, drops,
    hop_check, is_cached_answer, noted, quorum_in_force, security_check, to_user, turned_down,
};
pub use self::events::{
    TransportEvent, UserAction, after_handle_transport_event, after_handle_user_action,
    proxy_connections, targets_of, to_close_group,
};
pub use self::joining::{
    after_handle_churn, after_handle_connect_request, after_handle_endpoints_from_client,
    after_handle_endpoints_from_node, after_handle_expect_close_node_request,
    after_handle_get_close_group_request, after_handle_get_close_group_response,
    after_handle_get_network_name_request, after_handle_get_network_name_response,
    after_handle_get_public_id, after_handle_get_public_id_response,
    after_handle_get_public_id_with_endpoints, after_handle_get_public_id_with_endpoints_response,
    churn_from, connect_requests, find_by_name, index_of_key, index_of_name,
    is_close_group_response, own_close_group, relocates_to, remembered,
};
pub use self::laws::{lemma_dispatch_keeps_filter, lemma_handling_keeps_filter, lemma_replay_is_dropped};

verus! {

/// How long a signed message is remembered, in milliseconds.
pub const SIGNED_MESSAGE_TTL: u64 = 1_200_000;

/// How long an attempt to connect to a node is remembered.
pub const CONNECTION_TTL: u64 = 20_000;

/// How long the cause of a churn is remembered.
pub const REFRESH_CAUSE_TTL: u64 = 300_000;

/// How long an identity that the node was told to expect is kept.
pub const NODE_ID_TTL: u64 = 600_000;

/// How long votes for a group message are kept while the quorum is out.
pub const ACCUMULATION_TTL: u64 = 300_000;

/// How long a group message that was acted on is remembered.
pub const GROUP_MESSAGE_TTL: u64 = 1_200_000;

/// How long a piece of data stays in the cache.
pub const DATA_CACHE_TTL: u64 = 600_000;

/// The stages of a node's life in the network.
#[derive(Clone, Copy, Debug, PartialEq, Eq, Structural)]
pub enum State {
    /// No connection yet.
    Disconnected,
    /// A first connection is there; the proxy is being validated.
    Bootstrapping,
    /// The node talks to the network through its proxy.
    Client,
    /// The node has its name from the network and routes for others.
    Node,
}

/// A node's identity together with its secret keys.
#[derive(Clone, Copy)]
pub struct FullId {
    pub public_id: PublicId,
    pub signing_private_key: SecretSignKey,
    pub encrypting_private_key: SecretBoxKey,
}

/// What the node tells its user.
#[derive(Clone, Debug, PartialEq, Eq)]
pub enum Event {
    /// The node is connected as a client.
    Connected,
    /// The node was told to stop.
    Terminated,
    /// A request for the user.
    Request(RequestMessage),
    /// A response for the user.
    Response(ResponseMessage),
}

/// What the node asks its surroundings to do.
#[derive(Clone, Debug, PartialEq, Eq)]
pub enum Action {
    /// Sign this message as the node and send it towards its destination.
    Send(RoutingMessage),
    /// Send the signed message in hand on towards its destination.
    Resend,
    /// Hand the signed message in hand to the client it is addressed to.
    RelayToClient,
    /// Send this message over this connection.
    SendDirect(Connection, DirectMessage),
    /// Close this connection.
    DropConnection(Connection),
    /// Connect to the endpoints that these bytes encode.
    Connect(Vec<u8>),
    /// Start to accept connections.
    StartListening,
    /// Seal the node's own endpoints to this peer and send them.
    SendEndpoints { their_id: PublicId, src: Authority, dst: Authority },
    /// Tell the user.
    Notify(Event),
    /// Stop the transport and end.
    Stop,
}

/// No connection has two proxies.
pub open spec fn distinct_proxies(map: Seq<(Connection, PublicId)>) -> bool {
    forall|i: int, j: int| 0 <= i < j < map.len() ==> (#[trigger] map[i]).0 != (#[trigger] map[j]).0
}

/// No key has two connections.
pub open spec fn distinct_clients(map: Seq<(SignKey, Connection)>) -> bool {
    forall|i: int, j: int| 0 <= i < j < map.len() ==> (#[trigger] map[i]).0 != (#[trigger] map[j]).0
}

/// Whether `map` holds a proxy for the connection.
pub open spec fn has_proxy(map: Seq<(Connection, PublicId)>, connection: Connection) -> bool {
    exists|i: int| 0 <= i < map.len() && (#[trigger] map[i]).0 == connection
}

/// Whether `map` holds a client on the connection.
pub open spec fn has_client_on(map: Seq<(SignKey, Connection)>, connection: Connection) -> bool {
    exists|i: int| 0 <= i < map.len() && (#[trigger] map[i]).1 == connection
}

/// Whether `after` is `before` with `n` more actions behind it.
pub open spec fn grown_by(before: Seq<Action>, after: Seq<Action>, n: nat) -> bool {
    after.len() == before.len() + n && after.take(before.len() as int) == before
}

/// Whether `post` is `pre` under the name `new_name`: the identity carries
/// the name, the routing table is an empty table of default sizes around
/// it, and nothing else differs.
pub open spec fn renamed(pre: RoutingNode, post: RoutingNode, new_name: XorName) -> bool {
    &&& post == (RoutingNode {
        routing_table: post.routing_table,
        full_id: FullId {
            public_id: PublicId { name: new_name, ..pre.full_id.public_id },
            ..pre.full_id
        },
        ..pre
    })
    &&& post.routing_table.name() == new_name
    &&& post.routing_table.nodes() == Seq::<NodeInfo>::empty()
    &&& post.routing_table.group_size() == crate::routing_table::GROUP_SIZE
    &&& post.routing_table.bucket_capacity() == crate::routing_table::BUCKET_CAPACITY
}

/// The node of an overlay network: what it knows and how it decides. The
/// node is handed what arrives, together with the time, and answers with the
/// actions to take.
pub struct RoutingNode {
    pub client_restriction: bool,
    pub signed_message_filter: MessageFilter,
    pub connection_filter: MessageFilter,
    pub refresh_causes: MessageFilter,
    pub node_id_cache: TimedMap<PublicId>,
    pub message_accumulator: Accumulator,
    pub full_id: FullId,
    pub state: State,
    pub routing_table: RoutingTable,
    pub proxy_map: Vec<(Connection, PublicId)>,
    pub client_map: Vec<(SignKey, Connection)>,
    pub data_cache: TimedMap<Vec<u8>>,
}

impl RoutingNode {
    /// The invariant: every part is sound, the routing table is the table of
    /// the node's own name, and the filters and the accumulator forget after
    /// the times that this module names.
    pub open spec fn wf(&self) -> bool {
        &&& self.signed_message_filter.wf()
        &&& self.connection_filter.wf()
        &&& self.refresh_causes.wf()
        &&& self.node_id_cache.wf()
        &&& self.message_accumulator.wf()
        &&& self.routing_table.wf()
        &&& self.data_cache.wf()
        &&& self.routing_table.name() == self.full_id.public_id.name
        &&& self.signed_message_filter.time_to_live() == SIGNED_MESSAGE_TTL
        &&& self.connection_filter.time_to_live() == CONNECTION_TTL
        &&& self.refresh_causes.time_to_live() == REFRESH_CAUSE_TTL
        &&& self.message_accumulator@.ttl == ACCUMULATION_TTL
        &&& self.message_accumulator@.done_ttl == GROUP_MESSAGE_TTL
        &&& distinct_proxies(self.proxy_map@)
        &&& distinct_clients(self.client_map@)
    }

    /// The node's own name.
    pub open spec fn name(&self) -> XorName {
        self.full_id.public_id.name
    }

    /// A node that is not connected yet: it knows no peer, has seen and
    /// cached nothing, holds no vote, and takes one vote for a quorum until it
    /// is told or computes another.
    pub fn new(client_restriction: bool, full_id: FullId) -> (node: RoutingNode)
        ensures
            node.wf(),
            node.state == State::Disconnected,
            node.client_restriction == client_restriction,
            node.full_id == full_id,
            node.routing_table.name() == full_id.public_id.name,
            node.routing_table.nodes() == Seq::<NodeInfo>::empty(),
            node.routing_table.group_size() == crate::routing_table::GROUP_SIZE,
            node.routing_table.bucket_capacity() == crate::routing_table::BUCKET_CAPACITY,
            node.proxy_map@ == Seq::<(Connection, PublicId)>::empty(),
            node.client_map@ == Seq::<(SignKey, Connection)>::empty(),
            node.signed_message_filter.times() == Map::<XorName, u64>::empty(),
            node.signed_message_filter.time_to_live() == SIGNED_MESSAGE_TTL,
            node.connection_filter.times() == Map::<XorName, u64>::empty(),
            node.connection_filter.time_to_live() == CONNECTION_TTL,
            node.refresh_causes.times() == Map::<XorName, u64>::empty(),
            node.refresh_causes.time_to_live() == REFRESH_CAUSE_TTL,
            node.node_id_cache@ == Map::<XorName, (u64, PublicId)>::empty(),
            node.data_cache@ == Map::<XorName, (u64, Vec<u8>)>::empty(),
            node.message_accumulator@ == (crate::accumulator::Tally {
                pending: Map::empty(),
                done: Map::empty(),
                quorum: 1,
                ttl: ACCUMULATION_TTL,
                done_ttl: GROUP_MESSAGE_TTL,
            }),
    {
        RoutingNode {
            client_restriction,
            signed_message_filter: MessageFilter::with_expiry_duration(SIGNED_MESSAGE_TTL),
            connection_filter: MessageFilter::with_expiry_duration(CONNECTION_TTL),
            refresh_causes: MessageFilter::with_expiry_duration(REFRESH_CAUSE_TTL),
            node_id_cache: TimedMap::new(),
            message_accumulator: Accumulator::with_duration(1, ACCUMULATION_TTL, GROUP_MESSAGE_TTL),
            full_id,
            state: State::Disconnected,
            routing_table: RoutingTable::new(&full_id.public_id.name),
            proxy_map: Vec::new(),
            client_map: Vec::new(),
            data_cache: TimedMap::new(),
        }
    }

    /// The authority under which the node speaks as a client: its key, and
    /// the name of its first proxy.
    pub fn get_client_authority(&self) -> (r: Result<Authority, RoutingError>)
        ensures
            r == if self.proxy_map@.len() == 0 {
                Err::<Authority, RoutingError>(RoutingError::NotBootstrapped)
            } else {
                Ok::<Authority, RoutingError>(
                    Authority::Client {
                        client_key: self.full_id.public_id.signing_public_key,
                        proxy_node_name: self.proxy_map@[0].1.name,
                    },
                )
            },
    {
        if self.proxy_map.len() == 0 {
            Err(RoutingError::NotBootstrapped)
        } else {
            Ok(
                Authority::Client {
                    client_key: self.full_id.public_id.signing_public_key,
                    proxy_node_name: self.proxy_map[0].1.name,
                },
            )
        }
    }

    /// Gives the node a new name: the routing table starts afresh around the
    /// name, and the node's identity carries it.
    pub fn set_self_node_name(&mut self, new_name: XorName)
        requires
            old(self).wf(),
        ensures
            final(self).wf(),
            renamed(*old(self), *final(self), new_name),
    {
        self.routing_table = RoutingTable::new(&new_name);
        self.full_id.public_id.set_name(new_name);
    }

    /// Position of the proxy on `connection`.
    pub fn find_proxy(&self, connection: Connection) -> (r: Option<usize>)
        ensures
            match r {
                Some(i) => i < self.proxy_map@.len() && self.proxy_map@[i as int].0 == connection
                    && i == proxy_index(self.proxy_map@, connection, 0),
                None => !has_proxy(self.proxy_map@, connection) && proxy_index(
                    self.proxy_map@,
                    connection,
                    0,
                ) == -1,
            },
    {
        let mut i: usize = 0;
        while i < self.proxy_map.len()
            invariant
                0 <= i <= self.proxy_map.len(),
                forall|j: int| 0 <= j < i ==> (#[trigger] self.proxy_map@[j]).0 != connection,
                proxy_index(self.proxy_map@, connection, 0) == proxy_index(
                    self.proxy_map@,
                    connection,
                    i as int,
                ),
            decreases self.proxy_map.len() - i,
        {
            if self.proxy_map[i].0 == connection {
                return Some(i);
            }
            i += 1;
        }
        None
    }

    /// Position of the client on `connection`.
    pub fn find_client_on(&self, connection: Connection) -> (r: Option<usize>)
        ensures
            match r {
                Some(i) => i < self.client_map@.len() && self.client_map@[i as int].1 == connection
                    && i == client_on_index(self.client_map@, connection, 0) && forall|j: int|
                    0 <= j < i ==> (#[trigger] self.client_map@[j]).1 != connection,
                None => !has_client_on(self.client_map@, connection) && client_on_index(
                    self.client_map@,
                    connection,
                    0,
                ) == -1,
            },
    {
        let mut i: usize = 0;
        while i < self.client_map.len()
            invariant
                0 <= i <= self.client_map.len(),
                forall|j: int| 0 <= j < i ==> (#[trigger] self.client_map@[j]).1 != connection,
                client_on_index(self.client_map@, connection, 0) == client_on_index(
                    self.client_map@,
                    connection,
                    i as int,
                ),
            decreases self.client_map.len() - i,
        {
            if self.client_map[i].1 == connection {
                return Some(i);
            }
            i += 1;
        }
        None
    }

    /// Position of the client with the key `key`.
    pub fn find_client(&self, key: &SignKey) -> (r: Option<usize>)
        ensures
            match r {
                Some(i) => i < self.client_map@.len() && self.client_map@[i as int].0 == *key && i
                    == client_index(self.client_map@, *key, 0),
                None => client_index(self.client_map@, *key, 0) == -1 && forall|j: int|
                    0 <= j < self.client_map@.len() ==> (#[trigger] self.client_map@[j]).0 != *key,
            },
    {
        let mut i: usize = 0;
        while i < self.client_map.len()
            invariant
                0 <= i <= self.client_map.len(),
                forall|j: int| 0 <= j < i ==> (#[trigger] self.client_map@[j]).0 != *key,
                client_index(self.client_map@, *key, 0) == client_index(
                    self.client_map@,
                    *key,
                    i as int,
                ),
            decreases self.client_map.len() - i,
        {
            if self.client_map[i].0.same(key) {
                return Some(i);
            }
            i += 1;
        }
        None
    }

    /// Forgets the first client that is connected over `connection`.
    pub fn dropped_client_connection(&mut self, connection: Connection)
        requires
            old(self).wf(),
        ensures
            final(self).wf(),
            *final(self) == (RoutingNode { client_map: final(self).client_map, ..*old(self) }),
            final(self).client_map@ == without_client_on(old(self).client_map@, connection),
    {
        match self.find_client_on(connection) {
            Some(i) => {
                let _ = self.client_map.remove(i);
            },
            None => {},
        }
    }

    /// Forgets the proxy on `connection`.
    pub fn dropped_bootstrap_connection(&mut self, connection: Connection)
        requires
            old(self).wf(),
        ensures
            final(self).wf(),
            *final(self) == (RoutingNode { proxy_map: final(self).proxy_map, ..*old(self) }),
            final(self).proxy_map@ == without_proxy(old(self).proxy_map@, connection),
            !has_proxy(final(self).proxy_map@, connection),
    {
        match self.find_proxy(connection) {
            Some(i) => {
                let ghost before = self.proxy_map@;
                let _ = self.proxy_map.remove(i);
                proof {
                    if has_proxy(self.proxy_map@, connection) {
                        let k = choose|k: int|
                            0 <= k < self.proxy_map@.len() && (#[trigger] self.proxy_map@[k]).0
                                == connection;
                        let k0 = if k < i {
                            k
                        } else {
                            k + 1
                        };
                        assert(before[k0].0 == connection);
                        assert(before[i as int].0 == connection);
                    }
                }
            },
            None => {},
        }
    }

    /// Forgets a connection to a contact, and the contact with it if that was
    /// its last connection; the name of a contact that left is returned.
    pub fn dropped_routing_node_connection(&mut self, connection: Connection) -> (gone: Option<
        XorName,
    >)
        requires
            old(self).wf(),
        ensures
            final(self).wf(),
            *final(self) == (RoutingNode { routing_table: final(self).routing_table, ..*old(self) }),
            crate::routing_table::after_drop_connection(
                old(self).routing_table,
                final(self).routing_table,
                connection,
                gone,
            ),
    {
        let gone = self.routing_table.drop_connection(connection);
        let ghost dropped = self.routing_table;
        match gone {
            Some(name) => {
                let _ = self.routing_table.drop_node(&name);
                assert(self.routing_table.nodes() == dropped.nodes());
            },
            None => {},
        }
        gone
    }

    /// The transport lost a connection: whatever hung on it is forgotten.
    pub fn handle_lost_connection(&mut self, connection: Connection)
        requires
            old(self).wf(),
        ensures
            after_handle_lost_connection(*old(self), *final(self), connection),
    {
        let _ = self.dropped_routing_node_connection(connection);
        self.dropped_client_connection(connection);
        self.dropped_bootstrap_connection(connection);
    }
}

/// The clients without the first one on `connection`.
pub open spec fn without_client_on(map: Seq<(SignKey, Connection)>, connection: Connection) -> Seq<
    (SignKey, Connection),
> {
    if client_on_index(map, connection, 0) == -1 {
        map
    } else {
        map.remove(client_on_index(map, connection, 0))
    }
}

/// The proxies without the one on `connection`.
pub open spec fn without_proxy(map: Seq<(Connection, PublicId)>, connection: Connection) -> Seq<
    (Connection, PublicId),
> {
    if proxy_index(map, connection, 0) == -1 {
        map
    } else {
        map.remove(proxy_index(map, connection, 0))
    }
}

/// What `handle_lost_connection` does: the routing table forgets the
/// connection, and the contact whose last connection it was; the client and
/// the proxy on the connection are forgotten; nothing else changes.
pub open spec fn after_handle_lost_connection(
    pre: RoutingNode,
    post: RoutingNode,
    connection: Connection,
) -> bool {
    &&& post.wf()
    &&& post == (RoutingNode {
        routing_table: post.routing_table,
        client_map: post.client_map,
        proxy_map: post.proxy_map,
        ..pre
    })
    &&& exists|gone: Option<XorName>| #[trigger]
        crate::routing_table::after_drop_connection(
            pre.routing_table,
            post.routing_table,
            connection,
            gone,
        )
    &&& post.client_map@ == without_client_on(pre.client_map@, connection)
    &&& post.proxy_map@ == without_proxy(pre.proxy_map@, connection)
}

/// The action of sending a request as the node.
pub open spec fn request(src: Authority, dst: Authority, content: RequestContent) -> Action {
    Action::Send(RoutingMessage::Request(RequestMessage { src, dst, content }))
}

/// The action of sending a response as the node.
pub open spec fn response(src: Authority, dst: Authority, content: ResponseContent) -> Action {
    Action::Send(RoutingMessage::Response(ResponseMessage { src, dst, content }))
}

/// Whether `action` sends the announcement of `id`, signed with `key`, over
/// `connection`: as a node if `as_node`, as a client if not.
pub open spec fn is_identify(
    action: Action,
    connection: Connection,
    id: PublicId,
    key: SecretSignKey,
    as_node: bool,
) -> bool {
    match action {
        Action::SendDirect(c, DirectMessage::NodeIdentify { serialised_public_id, signature }) => {
            as_node && c == connection && serialised_public_id@ == encoded_id(id) && signature.0@
                == signature_of(encoded_id(id), key.0@)
        },
        Action::SendDirect(c, DirectMessage::ClientIdentify { serialised_public_id, signature }) => {
            !as_node && c == connection && serialised_public_id@ == encoded_id(id) && signature.0@
                == signature_of(encoded_id(id), key.0@)
        },
        _ => false,
    }
}

/// Whether `action` asks for a connection to the endpoints that `plain`
/// encodes.
pub open spec fn is_connect(action: Action, plain: Seq<u8>) -> bool {
    match action {
        Action::Connect(bytes) => bytes@ == plain,
        _ => false,
    }
}

/// Whether `msg` is a request from `src` to `dst` that carries `encoded`
/// sealed to `their_key` with `our_secret`, under the nonce that it names.
pub open spec fn carries_endpoints(
    msg: RoutingMessage,
    src: Authority,
    dst: Authority,
    their_key: BoxKey,
    our_secret: SecretBoxKey,
    encoded: Seq<u8>,
) -> bool {
    match msg {
        RoutingMessage::Request(m) => m.src == src && m.dst == dst && match m.content {
            RequestContent::Endpoints { encrypted_endpoints, nonce_bytes } => encrypted_endpoints@
                == sealed(encoded, nonce_bytes@, their_key.0@, our_secret.0@),
            _ => false,
        },
        _ => false,
    }
}

/// The nonce that a request with endpoints names.
pub open spec fn nonce_of(msg: RoutingMessage) -> Option<[u8; 24]> {
    match msg {
        RoutingMessage::Request(m) => match m.content {
            RequestContent::Endpoints { encrypted_endpoints, nonce_bytes } => Some(nonce_bytes),
            _ => None,
        },
        _ => None,
    }
}

/// The identity that a signed announcement holds, or why it holds none: the
/// bytes must encode an identity, and the signature must be that identity's
/// signature of the bytes.
pub open spec fn announced_id(serialised: Seq<u8>, signature: Signature) -> Result<
    PublicId,
    RoutingError,
> {
    match decoded_id(serialised) {
        None => Err(RoutingError::SerializationFailure),
        Some(id) => if signature_valid(signature.0@, serialised, id.signing_public_key.0@) {
            Ok(id)
        } else {
            Err(RoutingError::SignatureInvalid)
        },
    }
}

/// The names of some identities.
pub open spec fn names_of(ids: Seq<PublicId>) -> Seq<XorName> {
    Seq::new(ids.len(), |i: int| ids[i].name)
}

/// The records of `m` that are live at `now`, with `key` stamped `now` and
/// holding `value`.
pub open spec fn cache_insert<V>(
    m: Map<XorName, (u64, V)>,
    ttl: u64,
    key: XorName,
    now: u64,
    value: V,
) -> Map<XorName, (u64, V)> {
    crate::accumulator::live_part(m, now, ttl).insert(key, (now, value))
}

/// Whether `m` holds a record for `key` that is live at `now`.
pub open spec fn cache_holds<V>(m: Map<XorName, (u64, V)>, ttl: u64, key: XorName, now: u64) -> bool {
    m.contains_key(key) && is_live(m[key].0, now, ttl)
}

/// Reads a signed announcement of an identity.
pub fn verify_signed_public_id(serialised_public_id: &[u8], signature: &Signature) -> (r: Result<
    PublicId,
    RoutingError,
>)
    ensures
        r == announced_id(serialised_public_id@, *signature),
{
    match decode_public_id(serialised_public_id) {
        None => Err(RoutingError::SerializationFailure),
        Some(id) => {
            if crate::crypto::check_signature(signature, serialised_public_id, &id.signing_public_key) {
                Ok(id)
            } else {
                Err(RoutingError::SignatureInvalid)
            }
        },
    }
}

/// The names of `ids`.
pub fn collect_names(ids: &Vec<PublicId>) -> (names: Vec<XorName>)
    ensures
        names@ == names_of(ids@),
{
    let mut names: Vec<XorName> = Vec::new();
    let mut i: usize = 0;
    while i < ids.len()
        invariant
            0 <= i <= ids.len(),
            names@ == names_of(ids@.take(i as int)),
        decreases ids.len() - i,
    {
        names.push(ids[i].name);
        assert(names@ =~= names_of(ids@.take(i + 1)));
        i += 1;
    }
    assert(ids@.take(i as int) =~= ids@);
    names
}

impl RoutingNode {
    /// Announces the node as a client over `connection`.
    pub fn client_identify(&self, connection: Connection, actions: &mut Vec<Action>)
        ensures
            grown_by(old(actions)@, final(actions)@, 1),
            is_identify(
                final(actions)@.last(),
                connection,
                self.full_id.public_id,
                self.full_id.signing_private_key,
                false,
            ),
    {
        let (serialised_public_id, signature) = sign_public_id(
            &self.full_id.public_id,
            &self.full_id.signing_private_key,
        );
        actions.push(
            Action::SendDirect(
                connection,
                DirectMessage::ClientIdentify { serialised_public_id, signature },
            ),
        );
        assert(final(actions)@.take(old(actions)@.len() as int) =~= old(actions)@);
    }

    /// Announces the node as a node over `connection`.
    pub fn node_identify(&self, connection: Connection, actions: &mut Vec<Action>)
        ensures
            grown_by(old(actions)@, final(actions)@, 1),
            is_identify(
                final(actions)@.last(),
                connection,
                self.full_id.public_id,
                self.full_id.signing_private_key,
                true,
            ),
    {
        let (serialised_public_id, signature) = sign_public_id(
            &self.full_id.public_id,
            &self.full_id.signing_private_key,
        );
        actions.push(
            Action::SendDirect(
                connection,
                DirectMessage::NodeIdentify { serialised_public_id, signature },
            ),
        );
        assert(final(actions)@.take(old(actions)@.len() as int) =~= old(actions)@);
    }

    /// Tells a client who the node is and which quorum holds in its group,
    /// the node itself counted in.
    pub fn bootstrap_identify(&self, connection: Connection, actions: &mut Vec<Action>)
        ensures
            final(actions)@ == old(actions)@.push(
                Action::SendDirect(
                    connection,
                    DirectMessage::BootstrapIdentify {
                        public_id: self.full_id.public_id,
                        current_quorum_size: (quorum_of(self.routing_table.close_group_len())
                            + 1) as usize,
                    },
                ),
            ),
    {
        let quorum = self.routing_table.dynamic_quorum_size();
        actions.push(
            Action::SendDirect(
                connection,
                DirectMessage::BootstrapIdentify {
                    public_id: self.full_id.public_id,
                    current_quorum_size: quorum + 1,
                },
            ),
        );
    }

    /// Bootstrapping is over: a node without any connection starts to
    /// listen.
    pub fn handle_bootstrap_finished(&self, actions: &mut Vec<Action>)
        ensures
            after_handle_bootstrap_finished(
                *self,
                *self,
                old(actions)@,
                final(actions)@,
            ),
    {
        if self.state == State::Disconnected {
            actions.push(Action::StartListening);
        }
    }

    /// A connection that the node asked for came about, or did not. On its
    /// first connection a node starts to bootstrap and announces itself as a
    /// client; on a later one it announces itself as a node.
    pub fn handle_on_connect(&mut self, connection: Option<Connection>, actions: &mut Vec<Action>)
        requires
            old(self).wf(),
        ensures
            after_handle_on_connect(
                *old(self),
                *final(self),
                connection,
                old(actions)@,
                final(actions)@,
            ),
    {
        match connection {
            None => {},
            Some(c) => {
                if self.state == State::Disconnected {
                    self.state = State::Bootstrapping;
                    self.client_identify(c, actions);
                } else {
                    self.node_identify(c, actions);
                }
            },
        }
    }

    /// A peer connected to the node. A node that had no connection is the
    /// first of its network: it takes the digest of its name as its name and
    /// becomes a node.
    pub fn handle_on_accept(&mut self, connection: Connection)
        requires
            old(self).wf(),
        ensures
            after_handle_on_accept(
                *old(self),
                *final(self),
                connection,
            ),
    {
        if self.state == State::Disconnected {
            let new_name = crate::crypto::hash_to_name(self.full_id.public_id.name.0.as_slice());
            self.state = State::Node;
            self.set_self_node_name(new_name);
        }
    }

    /// Asks the group around the node's own name for a name in the network.
    pub fn relocate(&self, actions: &mut Vec<Action>) -> (r: Result<(), RoutingError>)
        ensures
            match self.get_client_authority_spec() {
                Err(e) => r == Err::<(), RoutingError>(e) && final(actions)@ == old(actions)@,
                Ok(src) => r.is_ok() && final(actions)@ == old(actions)@.push(
                    request(
                        src,
                        Authority::NaeManager(self.name()),
                        RequestContent::GetNetworkName { current_id: self.full_id.public_id },
                    ),
                ),
            },
    {
        match self.get_client_authority() {
            Err(e) => Err(e),
            Ok(src) => {
                actions.push(
                    Action::Send(
                        RoutingMessage::Request(
                            RequestMessage {
                                src,
                                dst: Authority::NaeManager(self.full_id.public_id.name),
                                content: RequestContent::GetNetworkName {
                                    current_id: self.full_id.public_id,
                                },
                            },
                        ),
                    ),
                );
                Ok(())
            },
        }
    }

    /// What `get_client_authority` returns.
    pub open spec fn get_client_authority_spec(&self) -> Result<Authority, RoutingError> {
        if self.proxy_map@.len() == 0 {
            Err(RoutingError::NotBootstrapped)
        } else {
            Ok(
                Authority::Client {
                    client_key: self.full_id.public_id.signing_public_key,
                    proxy_node_name: self.proxy_map@[0].1.name,
                },
            )
        }
    }

    /// Sends a request of the user as a client.
    pub fn client_send_content(
        &self,
        dst: Authority,
        content: RequestContent,
        actions: &mut Vec<Action>,
    ) -> (r: Result<(), RoutingError>)
        ensures
            after_client_send_content(
                *self,
                *self,
                dst,
                content,
                r,
                old(actions)@,
                final(actions)@,
            ),
    {
        match self.get_client_authority() {
            Err(e) => Err(e),
            Ok(src) => {
                actions.push(
                    Action::Send(RoutingMessage::Request(RequestMessage { src, dst, content })),
                );
                Ok(())
            },
        }
    }

    /// Asks the node called `dst_name` to connect.
    pub fn send_connect_request(&self, dst_name: &XorName, actions: &mut Vec<Action>)
        ensures
            final(actions)@ == old(actions)@.push(
                request(
                    Authority::ManagedNode(self.name()),
                    Authority::ManagedNode(*dst_name),
                    RequestContent::Connect,
                ),
            ),
    {
        actions.push(
            Action::Send(
                RoutingMessage::Request(
                    RequestMessage {
                        src: Authority::ManagedNode(self.full_id.public_id.name),
                        dst: Authority::ManagedNode(*dst_name),
                        content: RequestContent::Connect,
                    },
                ),
            ),
        );
    }

    /// Opens the endpoints that a peer sealed to the node and asks for a
    /// connection to them.
    pub fn connect(
        &self,
        encrypted_endpoints: &Vec<u8>,
        nonce_bytes: [u8; 24],
        their_public_key: &BoxKey,
        actions: &mut Vec<Action>,
    ) -> (r: Result<(), RoutingError>)
        ensures
            match opened(
                encrypted_endpoints@,
                nonce_bytes@,
                their_public_key.0@,
                self.full_id.encrypting_private_key.0@,
            ) {
                None => r == Err::<(), RoutingError>(RoutingError::AsymmetricDecryptionFailure)
                    && final(actions)@ == old(actions)@,
                Some(plain) => r.is_ok() && grown_by(old(actions)@, final(actions)@, 1)
                    && is_connect(final(actions)@.last(), plain),
            },
    {
        match box_open(
            encrypted_endpoints.as_slice(),
            &Nonce(nonce_bytes),
            their_public_key,
            &self.full_id.encrypting_private_key,
        ) {
            None => Err(RoutingError::AsymmetricDecryptionFailure),
            Some(bytes) => {
                actions.push(Action::Connect(bytes));
                assert(final(actions)@.take(old(actions)@.len() as int) =~= old(actions)@);
                Ok(())
            },
        }
    }

    /// Asks for the node's endpoints to be sealed to a peer and sent.
    pub fn send_endpoints(
        &self,
        their_public_id: &PublicId,
        src: Authority,
        dst: Authority,
        actions: &mut Vec<Action>,
    )
        ensures
            final(actions)@ == old(actions)@.push(
                Action::SendEndpoints { their_id: *their_public_id, src, dst },
            ),
    {
        actions.push(Action::SendEndpoints { their_id: *their_public_id, src, dst });
    }

    /// The request that carries the node's encoded endpoints to a peer,
    /// sealed to the peer's key under `nonce`.
    pub fn sealed_endpoints_request(
        &self,
        their_public_id: &PublicId,
        src: Authority,
        dst: Authority,
        encoded_endpoints: &[u8],
        nonce: Nonce,
    ) -> (msg: RoutingMessage)
        ensures
            carries_endpoints(
                msg,
                src,
                dst,
                their_public_id.encrypting_public_key,
                self.full_id.encrypting_private_key,
                encoded_endpoints@,
            ),
            nonce_of(msg) == Some(nonce.0),
    {
        let encrypted_endpoints = box_seal(
            encoded_endpoints,
            &nonce,
            &their_public_id.encrypting_public_key,
            &self.full_id.encrypting_private_key,
        );
        RoutingMessage::Request(
            RequestMessage {
                src,
                dst,
                content: RequestContent::Endpoints { encrypted_endpoints, nonce_bytes: nonce.0 },
            },
        )
    }

    /// The request that carries the node's encoded endpoints to a peer,
    /// sealed to the peer's key under a fresh nonce.
    pub fn endpoints_request(
        &self,
        their_public_id: &PublicId,
        src: Authority,
        dst: Authority,
        encoded_endpoints: &[u8],
    ) -> (msg: RoutingMessage)
        ensures
            carries_endpoints(
                msg,
                src,
                dst,
                their_public_id.encrypting_public_key,
                self.full_id.encrypting_private_key,
                encoded_endpoints@,
            ),
    {
        let nonce = gen_nonce();
        self.sealed_endpoints_request(their_public_id, src, dst, encoded_endpoints, nonce)
    }
}

/// What `handle_bootstrap_finished` does: how the node and the list of actions after the
/// call relate to those before it, and what is returned.
pub open spec fn after_handle_bootstrap_finished(
    pre: RoutingNode,
    post: RoutingNode,
    before: Seq<Action>,
    after: Seq<Action>,
) -> bool {
    &&& post == pre
    &&& after == if pre.state == State::Disconnected {
        before.push(Action::StartListening)
    } else {
        before
    }
}

/// What `handle_on_connect` does: how the node and the list of actions after the
/// call relate to those before it, and what is returned.
pub open spec fn after_handle_on_connect(
    pre: RoutingNode,
    post: RoutingNode,
    connection: Option<Connection>,
    before: Seq<Action>,
    after: Seq<Action>,
) -> bool {
    &&& post.wf()
    &&& post == (RoutingNode { state: post.state, ..pre })
    &&& match connection {
        None => post.state == pre.state && after == before,
        Some(c) => grown_by(before, after, 1) && if pre.state
            == State::Disconnected {
            post.state == State::Bootstrapping && is_identify(
                after.last(),
                c,
                pre.full_id.public_id,
                pre.full_id.signing_private_key,
                false,
            )
        } else {
            post.state == pre.state && is_identify(
                after.last(),
                c,
                pre.full_id.public_id,
                pre.full_id.signing_private_key,
                true,
            )
        },
    }
}

/// What `handle_on_accept` does: how the node and the list of actions after the
/// call relate to those before it, and what is returned.
pub open spec fn after_handle_on_accept(
    pre: RoutingNode,
    post: RoutingNode,
    connection: Connection,
) -> bool {
    &&& post.wf()
    &&& pre.state != State::Disconnected ==> post == pre
    &&& pre.state == State::Disconnected ==> post.state == State::Node && post.name()
        == crate::xor_name::name_with(sha512(pre.name().0@)) && renamed(
        RoutingNode { state: State::Node, ..pre },
        post,
        post.name(),
    )
}

/// What `client_send_content` does: how the node and the list of actions after the
/// call relate to those before it, and what is returned.
pub open spec fn after_client_send_content(
    pre: RoutingNode,
    post: RoutingNode,
    dst: Authority,
    content: RequestContent,
    r: Result<(), RoutingError>,
    before: Seq<Action>,
    after: Seq<Action>,
) -> bool {
    &&& post == pre
    &&& match pre.get_client_authority_spec() {
        Err(e) => r == Err::<(), RoutingError>(e) && after == before,
        Ok(src) => r.is_ok() && after == before.push(
            request(src, dst, content),
        ),
    }
}

/// Position of the first proxy on `connection` at or after `from`, or `-1`.
pub open spec fn proxy_index(map: Seq<(Connection, PublicId)>, connection: Connection, from: int) -> int
    decreases map.len() - from,
{
    if from < 0 || from >= map.len() {
        -1
    } else if map[from].0 == connection {
        from
    } else {
        proxy_index(map, connection, from + 1)
    }
}

/// Position of the first client on `connection` at or after `from`, or `-1`.
pub open spec fn client_on_index(map: Seq<(SignKey, Connection)>, connection: Connection, from: int) -> int
    decreases map.len() - from,
{
    if from < 0 || from >= map.len() {
        -1
    } else if map[from].1 == connection {
        from
    } else {
        client_on_index(map, connection, from + 1)
    }
}

/// Position of the first client with the key `key` at or after `from`, or
/// `-1`.
pub open spec fn client_index(map: Seq<(SignKey, Connection)>, key: SignKey, from: int) -> int
    decreases map.len() - from,
{
    if from < 0 || from >= map.len() {
        -1
    } else if map[from].0 == key {
        from
    } else {
        client_index(map, key, from + 1)
    }
}

} // verus!
