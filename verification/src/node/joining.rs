//! How a node gets its name from the network and comes to know its close
//! group: names, identities, sealed endpoints and requests to connect.

use crate::authority::Authority;
use crate::crypto::{hash_sha512, opened, sealed, sha512};
use crate::error::RoutingError;
use crate::id::{PublicId, SignKey};
use crate::messages::{
    RequestContent, RequestMessage, ResponseContent, ResponseMessage, RoutingMessage,
};
use crate::node::{
    Action, CONNECTION_TTL, NODE_ID_TTL, RoutingNode, State, cache_holds, cache_insert,
    collect_names, grown_by, is_connect, joined, names_of, renamed, request, response,
};
use crate::relocation::{calculate_relocated_name, is_relocated_name};
use crate::routing_table::{RoutingTable, is_close_group};
use crate::timed_map::is_live;
use crate::xor_name::XorName;
use vstd::prelude::*;

verus! {

/// Whether `group` is the close group of the node's own name as the node's
/// routing table has it.
pub open spec fn own_close_group(node: RoutingNode, group: Seq<PublicId>) -> bool {
    is_close_group(
        node.routing_table.nodes(),
        node.name(),
        node.routing_table.group_size(),
        group,
    )
}

/// Whether `relocated` is the name that the node's close group, the node
/// itself included, gives to a node that joined as `joining`.
pub open spec fn relocates_to(node: RoutingNode, joining: XorName, relocated: XorName) -> bool {
    exists|group: Seq<PublicId>| #[trigger]
        own_close_group(node, group) && is_relocated_name(
            names_of(group).push(node.name()),
            joining,
            relocated,
        )
}

/// Whether `action` answers a request for the close group: a response from
/// `src` to `dst` that lists the node's close group and then the node.
pub open spec fn is_close_group_response(
    action: Action,
    src: Authority,
    dst: Authority,
    node: RoutingNode,
) -> bool {
    match action {
        Action::Send(RoutingMessage::Response(m)) => m.src == src && m.dst == dst
            && match m.content {
            ResponseContent::GetCloseGroup { close_group_ids } => exists|group: Seq<PublicId>| #[trigger]
                own_close_group(node, group) && close_group_ids@ == group.push(
                    node.full_id.public_id,
                ),
            _ => false,
        },
        _ => false,
    }
}

/// Position of the first identity of `group` with the name `name`, or `-1`.
pub open spec fn index_of_name(group: Seq<PublicId>, name: XorName, from: int) -> int
    decreases group.len() - from,
{
    if from < 0 || from >= group.len() {
        -1
    } else if group[from].name == name {
        from
    } else {
        index_of_name(group, name, from + 1)
    }
}

/// Position of the first identity of `group` with the name `name`.
pub fn find_by_name(group: &Vec<PublicId>, name: &XorName) -> (r: Option<usize>)
    ensures
        match r {
            Some(i) => i < group@.len() && i == index_of_name(group@, *name, 0),
            None => index_of_name(group@, *name, 0) == -1,
        },
{
    let mut i: usize = 0;
    while i < group.len()
        invariant
            0 <= i <= group.len(),
            index_of_name(group@, *name, 0) == index_of_name(group@, *name, i as int),
        decreases group.len() - i,
    {
        if group[i].name.same(name) {
            return Some(i);
        }
        i += 1;
    }
    None
}

/// Position of the first record that is live at `now` and holds an identity
/// with the signing key `key`, or `-1`.
pub open spec fn index_of_key(
    records: Seq<crate::timed_map::Entry<PublicId>>,
    key: SignKey,
    now: u64,
    from: int,
) -> int
    decreases records.len() - from,
{
    if from < 0 || from >= records.len() {
        -1
    } else if is_live(records[from].time, now, NODE_ID_TTL) && records[from].value.signing_public_key
        == key {
        from
    } else {
        index_of_key(records, key, now, from + 1)
    }
}

/// What becomes of a churn notice from position `from` on: the insertion
/// times of the connection filter afterwards, the result, and the nodes that
/// are asked to connect.
///
/// Each name in turn is looked up in the filter. A name that the filter
/// holds ends the notice as a duplicate. Otherwise the name is inserted; a
/// name that the table does not want ends the notice in peace, one that it
/// wants is asked to connect.
pub open spec fn churn_from(
    times: Map<XorName, u64>,
    table: RoutingTable,
    names: Seq<XorName>,
    from: int,
    now: u64,
) -> (Map<XorName, u64>, Result<(), RoutingError>, Seq<XorName>)
    decreases names.len() - from,
{
    if from < 0 || from >= names.len() {
        (times, Ok(()), Seq::empty())
    } else if crate::message_filter::filter_holds(times, CONNECTION_TTL, names[from], now) {
        (times, Err(RoutingError::FilterCheckFailed), Seq::empty())
    } else {
        let inserted = crate::message_filter::filter_insert(times, CONNECTION_TTL, names[from], now);
        if !table.wants(names[from]) {
            (inserted, Ok(()), Seq::empty())
        } else {
            let rest = churn_from(inserted, table, names, from + 1, now);
            (rest.0, rest.1, seq![names[from]] + rest.2)
        }
    }
}

/// The requests to connect that go to `targets`, from the node called `our`.
pub open spec fn connect_requests(our: XorName, targets: Seq<XorName>) -> Seq<Action> {
    Seq::new(
        targets.len(),
        |i: int|
            request(
                Authority::ManagedNode(our),
                Authority::ManagedNode(targets[i]),
                RequestContent::Connect,
            ),
    )
}

/// What `handle_get_network_name_request` does: how the node and the list of actions after the
/// call relate to those before it, and what is returned.
pub open spec fn after_handle_get_network_name_request(
    pre: RoutingNode,
    post: RoutingNode,
    their_public_id: PublicId,
    client_key: SignKey,
    proxy_name: XorName,
    dst_name: XorName,
    r: Result<(), RoutingError>,
    before: Seq<Action>,
    after: Seq<Action>,
) -> bool {
    &&& post == pre
    &&& dst_name.0@ != sha512(client_key.0@) ==> r == Err::<(), RoutingError>(
        RoutingError::InvalidDestination,
    ) && after == before
    &&& dst_name.0@ == sha512(client_key.0@) ==> r.is_ok() && exists|relocated: XorName| #[trigger]
        relocates_to(pre, their_public_id.name, relocated) && after == before.push(
            response(
                Authority::NaeManager(dst_name),
                Authority::Client { client_key, proxy_node_name: proxy_name },
                ResponseContent::GetNetworkName {
                    relocated_id: PublicId { name: relocated, ..their_public_id },
                },
            ),
        ).push(
            request(
                Authority::NaeManager(dst_name),
                Authority::NodeManager(relocated),
                RequestContent::ExpectCloseNode {
                    expect_id: PublicId { name: relocated, ..their_public_id },
                },
            ),
        )
}

/// What `handle_expect_close_node_request` does: how the node and the list of actions after the
/// call relate to those before it, and what is returned.
pub open spec fn after_handle_expect_close_node_request(
    pre: RoutingNode,
    post: RoutingNode,
    expect_id: PublicId,
    now: u64,
    r: Result<(), RoutingError>,
) -> bool {
    &&& post.wf()
    &&& post == (RoutingNode { node_id_cache: post.node_id_cache, ..pre })
    &&& post.node_id_cache@ == cache_insert(
        pre.node_id_cache@,
        NODE_ID_TTL,
        expect_id.name,
        now,
        expect_id,
    )
    &&& r == if cache_holds(pre.node_id_cache@, NODE_ID_TTL, expect_id.name, now) {
        Err::<(), RoutingError>(RoutingError::RejectedPublicId)
    } else {
        Ok::<(), RoutingError>(())
    }
}

/// What `handle_get_close_group_request` does: how the node and the list of actions after the
/// call relate to those before it, and what is returned.
pub open spec fn after_handle_get_close_group_request(
    pre: RoutingNode,
    post: RoutingNode,
    client_key: SignKey,
    proxy_name: XorName,
    dst_name: XorName,
    r: Result<(), RoutingError>,
    before: Seq<Action>,
    after: Seq<Action>,
) -> bool {
    &&& post == pre
    &&& r.is_ok()
    &&& grown_by(before, after, 1)
    &&& is_close_group_response(
        after.last(),
        Authority::NodeManager(dst_name),
        Authority::Client { client_key, proxy_node_name: proxy_name },
        pre,
    )
}

/// What `handle_endpoints_from_client` does: how the node and the list of actions after the
/// call relate to those before it, and what is returned.
pub open spec fn after_handle_endpoints_from_client(
    pre: RoutingNode,
    post: RoutingNode,
    encrypted_endpoints: Vec<u8>,
    nonce_bytes: [u8; 24],
    client_key: SignKey,
    proxy_name: XorName,
    dst_name: XorName,
    now: u64,
    r: Result<(), RoutingError>,
    before: Seq<Action>,
    after: Seq<Action>,
) -> bool {
    &&& post == pre
    &&& ({
        let i = index_of_key(pre.node_id_cache.records(), client_key, now, 0);
        let found = pre.node_id_cache.records()[i];
        if i == -1 {
            r == Err::<(), RoutingError>(RoutingError::RejectedPublicId) && after
                == before
        } else if !pre.routing_table.wants(found.key) {
            r == Err::<(), RoutingError>(RoutingError::RefusedFromRoutingTable) && after == before
        } else {
            match opened(
                encrypted_endpoints@,
                nonce_bytes@,
                found.value.encrypting_public_key.0@,
                pre.full_id.encrypting_private_key.0@,
            ) {
                None => r == Err::<(), RoutingError>(
                    RoutingError::AsymmetricDecryptionFailure,
                ) && after == before,
                Some(plain) => r.is_ok() && grown_by(before, after, 2)
                    && is_connect(after[before.len() as int], plain)
                    && after.last() == (Action::SendEndpoints {
                    their_id: found.value,
                    src: Authority::ManagedNode(dst_name),
                    dst: Authority::Client { client_key, proxy_node_name: proxy_name },
                }),
            }
        }
    })
}

/// What `handle_endpoints_from_node` does: how the node and the list of actions after the
/// call relate to those before it, and what is returned.
pub open spec fn after_handle_endpoints_from_node(
    pre: RoutingNode,
    post: RoutingNode,
    encrypted_endpoints: Vec<u8>,
    nonce_bytes: [u8; 24],
    src_name: XorName,
    dst: Authority,
    now: u64,
    r: Result<(), RoutingError>,
    before: Seq<Action>,
    after: Seq<Action>,
) -> bool {
    &&& post.wf()
    &&& post == (RoutingNode { node_id_cache: post.node_id_cache, ..pre })
    &&& if !pre.routing_table.wants(src_name) {
        r == Err::<(), RoutingError>(RoutingError::RefusedFromRoutingTable) && after == before && post.node_id_cache@ == pre.node_id_cache@.remove(src_name)
    } else if !cache_holds(pre.node_id_cache@, NODE_ID_TTL, src_name, now) {
        r.is_ok() && post.node_id_cache == pre.node_id_cache && after == before.push(
            request(
                dst,
                Authority::ManagedNode(src_name),
                RequestContent::GetPublicIdWithEndpoints {
                    encrypted_endpoints,
                    nonce_bytes,
                },
            ),
        )
    } else {
        post.node_id_cache == pre.node_id_cache && match opened(
            encrypted_endpoints@,
            nonce_bytes@,
            pre.node_id_cache@[src_name].1.encrypting_public_key.0@,
            pre.full_id.encrypting_private_key.0@,
        ) {
            None => r == Err::<(), RoutingError>(
                RoutingError::AsymmetricDecryptionFailure,
            ) && after == before,
            Some(plain) => r.is_ok() && grown_by(before, after, 1)
                && is_connect(after.last(), plain),
        }
    }
}

/// What `handle_connect_request` does: how the node and the list of actions after the
/// call relate to those before it, and what is returned.
pub open spec fn after_handle_connect_request(
    pre: RoutingNode,
    post: RoutingNode,
    src_name: XorName,
    dst_name: XorName,
    now: u64,
    r: Result<(), RoutingError>,
    before: Seq<Action>,
    after: Seq<Action>,
) -> bool {
    &&& post == pre
    &&& r == if pre.routing_table.wants(src_name) {
        Ok::<(), RoutingError>(())
    } else {
        Err::<(), RoutingError>(RoutingError::RefusedFromRoutingTable)
    }
    &&& after == if !pre.routing_table.wants(src_name) {
        before
    } else if cache_holds(pre.node_id_cache@, NODE_ID_TTL, src_name, now) {
        before.push(
            Action::SendEndpoints {
                their_id: pre.node_id_cache@[src_name].1,
                src: Authority::ManagedNode(pre.name()),
                dst: Authority::ManagedNode(src_name),
            },
        )
    } else {
        before.push(
            request(
                Authority::ManagedNode(dst_name),
                Authority::NodeManager(src_name),
                RequestContent::GetPublicId,
            ),
        )
    }
}

/// What `handle_get_public_id` does: how the node and the list of actions after the
/// call relate to those before it, and what is returned.
pub open spec fn after_handle_get_public_id(
    pre: RoutingNode,
    post: RoutingNode,
    src_name: XorName,
    dst_name: XorName,
    r: Result<(), RoutingError>,
    before: Seq<Action>,
    after: Seq<Action>,
) -> bool {
    &&& post == pre
    &&& exists|group: Seq<PublicId>| #[trigger]
        own_close_group(pre, group) && if index_of_name(group, dst_name, 0) == -1 {
            r == Err::<(), RoutingError>(RoutingError::RejectedPublicId) && after
                == before
        } else {
            r.is_ok() && after == before.push(
                response(
                    Authority::NodeManager(dst_name),
                    Authority::ManagedNode(src_name),
                    ResponseContent::GetPublicId {
                        public_id: group[index_of_name(group, dst_name, 0)],
                    },
                ),
            )
        }
}

/// What `handle_get_public_id_with_endpoints` does: how the node and the list of actions after the
/// call relate to those before it, and what is returned.
pub open spec fn after_handle_get_public_id_with_endpoints(
    pre: RoutingNode,
    post: RoutingNode,
    encrypted_endpoints: Vec<u8>,
    nonce_bytes: [u8; 24],
    src_name: XorName,
    dst_name: XorName,
    r: Result<(), RoutingError>,
    before: Seq<Action>,
    after: Seq<Action>,
) -> bool {
    &&& post == pre
    &&& exists|group: Seq<PublicId>| #[trigger]
        own_close_group(pre, group) && if index_of_name(group, dst_name, 0) == -1 {
            r == Err::<(), RoutingError>(RoutingError::RejectedPublicId) && after
                == before
        } else {
            r.is_ok() && after == before.push(
                response(
                    Authority::NodeManager(dst_name),
                    Authority::ManagedNode(src_name),
                    ResponseContent::GetPublicIdWithEndpoints {
                        public_id: group[index_of_name(group, dst_name, 0)],
                        encrypted_endpoints,
                        nonce_bytes,
                    },
                ),
            )
        }
}

/// What `handle_get_network_name_response` does: how the node and the list of actions after the
/// call relate to those before it, and what is returned.
pub open spec fn after_handle_get_network_name_response(
    pre: RoutingNode,
    post: RoutingNode,
    relocated_id: PublicId,
    client_key: SignKey,
    proxy_name: XorName,
    r: Result<(), RoutingError>,
    before: Seq<Action>,
    after: Seq<Action>,
) -> bool {
    &&& post.wf()
    &&& r.is_ok()
    &&& post.state == State::Node
    &&& renamed(RoutingNode { state: State::Node, ..pre }, post, relocated_id.name)
    &&& after == before.push(
        request(
            Authority::Client { client_key, proxy_node_name: proxy_name },
            Authority::NodeManager(relocated_id.name),
            RequestContent::GetCloseGroup,
        ),
    )
}

/// What `handle_get_public_id_response` does: how the node and the list of actions after the
/// call relate to those before it, and what is returned.
pub open spec fn after_handle_get_public_id_response(
    pre: RoutingNode,
    post: RoutingNode,
    public_id: PublicId,
    dst_name: XorName,
    now: u64,
    r: Result<(), RoutingError>,
    before: Seq<Action>,
    after: Seq<Action>,
) -> bool {
    &&& post.wf()
    &&& post == (RoutingNode { node_id_cache: post.node_id_cache, ..pre })
    &&& if pre.routing_table.wants(public_id.name) {
        r.is_ok() && after == before.push(
            Action::SendEndpoints {
                their_id: public_id,
                src: Authority::ManagedNode(dst_name),
                dst: Authority::ManagedNode(public_id.name),
            },
        ) && post.node_id_cache@ == cache_insert(
            pre.node_id_cache@,
            NODE_ID_TTL,
            public_id.name,
            now,
            public_id,
        )
    } else {
        r == Err::<(), RoutingError>(RoutingError::RefusedFromRoutingTable) && after == before && post.node_id_cache == pre.node_id_cache
    }
}

/// What `handle_get_public_id_with_endpoints_response` does: how the node and the list of actions after the
/// call relate to those before it, and what is returned.
pub open spec fn after_handle_get_public_id_with_endpoints_response(
    pre: RoutingNode,
    post: RoutingNode,
    public_id: PublicId,
    encrypted_endpoints: Vec<u8>,
    nonce_bytes: [u8; 24],
    dst_name: XorName,
    now: u64,
    r: Result<(), RoutingError>,
    before: Seq<Action>,
    after: Seq<Action>,
) -> bool {
    &&& post.wf()
    &&& post == (RoutingNode { node_id_cache: post.node_id_cache, ..pre })
    &&& if !pre.routing_table.wants(public_id.name) {
        r == Err::<(), RoutingError>(RoutingError::RefusedFromRoutingTable) && after == before && post.node_id_cache == pre.node_id_cache
    } else {
        post.node_id_cache@ == cache_insert(
            pre.node_id_cache@,
            NODE_ID_TTL,
            public_id.name,
            now,
            public_id,
        ) && match opened(
            encrypted_endpoints@,
            nonce_bytes@,
            public_id.encrypting_public_key.0@,
            pre.full_id.encrypting_private_key.0@,
        ) {
            None => r == Err::<(), RoutingError>(
                RoutingError::AsymmetricDecryptionFailure,
            ) && after == before.push(
                Action::SendEndpoints {
                    their_id: public_id,
                    src: Authority::ManagedNode(dst_name),
                    dst: Authority::ManagedNode(public_id.name),
                },
            ),
            Some(plain) => r.is_ok() && grown_by(before, after, 2)
                && after[before.len() as int] == (Action::SendEndpoints {
                their_id: public_id,
                src: Authority::ManagedNode(dst_name),
                dst: Authority::ManagedNode(public_id.name),
            }) && is_connect(after.last(), plain),
        }
    }
}

/// What `handle_get_close_group_response` does: how the node and the list of actions after the
/// call relate to those before it, and what is returned.
pub open spec fn after_handle_get_close_group_response(
    pre: RoutingNode,
    post: RoutingNode,
    close_group_ids: Vec<PublicId>,
    client_key: SignKey,
    proxy_name: XorName,
    now: u64,
    r: Result<(), RoutingError>,
    before: Seq<Action>,
    after: Seq<Action>,
) -> bool {
    &&& post.wf()
    &&& r.is_ok()
    &&& post == (RoutingNode { node_id_cache: post.node_id_cache, ..pre })
    &&& post.node_id_cache@ == remembered(pre.node_id_cache@, close_group_ids@, now)
    &&& grown_by(before, after, close_group_ids@.len() + 1)
    &&& after[before.len() as int] == Action::StartListening
    &&& forall|i: int|
        0 <= i < close_group_ids@.len() ==> #[trigger] after[before.len() + 1 + i] == (
        Action::SendEndpoints {
            their_id: close_group_ids@[i],
            src: Authority::Client { client_key, proxy_node_name: proxy_name },
            dst: Authority::ManagedNode(close_group_ids@[i].name),
        })
}

/// The cache after the identities `ids` were remembered at `now`, one after
/// the other.
pub open spec fn remembered(m: Map<XorName, (u64, PublicId)>, ids: Seq<PublicId>, now: u64) -> Map<
    XorName,
    (u64, PublicId),
>
    decreases ids.len(),
{
    if ids.len() == 0 {
        m
    } else {
        cache_insert(remembered(m, ids.drop_last(), now), NODE_ID_TTL, ids.last().name, now, ids.last())
    }
}

/// What `handle_churn` does: how the node and the list of actions after the
/// call relate to those before it, and what is returned.
pub open spec fn after_handle_churn(
    pre: RoutingNode,
    post: RoutingNode,
    close_group: Vec<XorName>,
    now: u64,
    r: Result<(), RoutingError>,
    before: Seq<Action>,
    after: Seq<Action>,
) -> bool {
    let outcome = churn_from(pre.connection_filter.times(), pre.routing_table, close_group@, 0, now);
    &&& post.wf()
    &&& post == (RoutingNode { connection_filter: post.connection_filter, ..pre })
    &&& post.connection_filter.times() == outcome.0
    &&& r == outcome.1
    &&& after == before + connect_requests(pre.name(), outcome.2)
}

impl RoutingNode {
    /// A joining node asks the group around the digest of its key for a name
    /// in the network. The group answers with the node's identity under the
    /// name that it computes from its own membership, and tells the group
    /// around that name to expect the node. A request that reached another
    /// group is turned down.
    pub fn handle_get_network_name_request(
        &self,
        their_public_id: PublicId,
        client_key: SignKey,
        proxy_name: XorName,
        dst_name: XorName,
        actions: &mut Vec<Action>,
    ) -> (r: Result<(), RoutingError>)
        requires
            self.wf(),
        ensures
            after_handle_get_network_name_request(
                *self,
                *self,
                their_public_id,
                client_key,
                proxy_name,
                dst_name,
                r,
                old(actions)@,
                final(actions)@,
            ),
    {
        let close_group_to_client = XorName(hash_sha512(client_key.0.as_slice()));
        if !close_group_to_client.same(&dst_name) {
            assert(dst_name.0@ != sha512(client_key.0@)) by {
                if dst_name.0@ == sha512(client_key.0@) {
                    assert(dst_name.0 =~= close_group_to_client.0);
                }
            }
            return Err(RoutingError::InvalidDestination);
        }
        let group = self.routing_table.our_close_group();
        let mut close_group = collect_names(&group);
        close_group.push(self.full_id.public_id.name);
        let relocated = match calculate_relocated_name(close_group, &their_public_id.name) {
            Ok(name) => name,
            Err(e) => {
                return Err(e);
            },
        };
        assert(own_close_group(*self, group@));
        assert(relocates_to(*self, their_public_id.name, relocated));
        let mut relocated_id = their_public_id;
        relocated_id.set_name(relocated);
        actions.push(
            Action::Send(
                RoutingMessage::Response(
                    ResponseMessage {
                        src: Authority::NaeManager(dst_name),
                        dst: Authority::Client { client_key, proxy_node_name: proxy_name },
                        content: ResponseContent::GetNetworkName { relocated_id },
                    },
                ),
            ),
        );
        actions.push(
            Action::Send(
                RoutingMessage::Request(
                    RequestMessage {
                        src: Authority::NaeManager(dst_name),
                        dst: Authority::NodeManager(relocated),
                        content: RequestContent::ExpectCloseNode { expect_id: relocated_id },
                    },
                ),
            ),
        );
        Ok(())
    }

    /// Remembers an identity under its name, for `NODE_ID_TTL` from `now`,
    /// and says whether a live identity was remembered under that name.
    pub fn remember_id(&mut self, id: PublicId, now: u64) -> (known: bool)
        requires
            old(self).wf(),
        ensures
            final(self).wf(),
            *final(self) == (RoutingNode { node_id_cache: final(self).node_id_cache, ..*old(self) }),
            final(self).node_id_cache@ == cache_insert(
                old(self).node_id_cache@,
                NODE_ID_TTL,
                id.name,
                now,
                id,
            ),
            known == cache_holds(old(self).node_id_cache@, NODE_ID_TTL, id.name, now),
    {
        self.node_id_cache.remove_expired(now, NODE_ID_TTL);
        assert(self.node_id_cache@ =~= crate::accumulator::live_part(
            old(self).node_id_cache@,
            now,
            NODE_ID_TTL,
        ));
        let prev = self.node_id_cache.insert(id.name, now, id);
        prev.is_some()
    }

    /// The identity that is remembered under `name` and live at `now`.
    pub fn expected_id(&self, name: &XorName, now: u64) -> (r: Option<PublicId>)
        requires
            self.wf(),
        ensures
            r == if cache_holds(self.node_id_cache@, NODE_ID_TTL, *name, now) {
                Some(self.node_id_cache@[*name].1)
            } else {
                None
            },
    {
        match self.node_id_cache.get(name) {
            Some(e) => {
                if crate::timed_map::live(e.time, now, NODE_ID_TTL) {
                    Some(e.value)
                } else {
                    None
                }
            },
            None => None,
        }
    }

    /// A group tells the node to expect a joining node. The identity is
    /// remembered; if another one was remembered under the same name, the
    /// new one takes its place and the request is turned down.
    pub fn handle_expect_close_node_request(&mut self, expect_id: PublicId, now: u64) -> (r: Result<
        (),
        RoutingError,
    >)
        requires
            old(self).wf(),
        ensures
            after_handle_expect_close_node_request(
                *old(self),
                *final(self),
                expect_id,
                now,
                r,
            ),
    {
        if self.remember_id(expect_id, now) {
            Err(RoutingError::RejectedPublicId)
        } else {
            Ok(())
        }
    }

    /// The network gave the node its name. The node takes the name, starts a
    /// routing table around it, becomes a node, and asks the group around
    /// the name for its members.
    pub fn handle_get_network_name_response(
        &mut self,
        relocated_id: PublicId,
        client_key: SignKey,
        proxy_name: XorName,
        actions: &mut Vec<Action>,
    ) -> (r: Result<(), RoutingError>)
        requires
            old(self).wf(),
        ensures
            after_handle_get_network_name_response(
                *old(self),
                *final(self),
                relocated_id,
                client_key,
                proxy_name,
                r,
                old(actions)@,
                final(actions)@,
            ),
    {
        self.state = State::Node;
        self.set_self_node_name(relocated_id.name);
        actions.push(
            Action::Send(
                RoutingMessage::Request(
                    RequestMessage {
                        src: Authority::Client { client_key, proxy_node_name: proxy_name },
                        dst: Authority::NodeManager(relocated_id.name),
                        content: RequestContent::GetCloseGroup,
                    },
                ),
            ),
        );
        Ok(())
    }

    /// A joining node asks for the members of its close group: the node
    /// answers with its own close group and itself.
    pub fn handle_get_close_group_request(
        &self,
        client_key: SignKey,
        proxy_name: XorName,
        dst_name: XorName,
        actions: &mut Vec<Action>,
    ) -> (r: Result<(), RoutingError>)
        requires
            self.wf(),
        ensures
            after_handle_get_close_group_request(
                *self,
                *self,
                client_key,
                proxy_name,
                dst_name,
                r,
                old(actions)@,
                final(actions)@,
            ),
    {
        let mut public_ids = self.routing_table.our_close_group();
        assert(own_close_group(*self, public_ids@));
        public_ids.push(self.full_id.public_id);
        actions.push(
            Action::Send(
                RoutingMessage::Response(
                    ResponseMessage {
                        src: Authority::NodeManager(dst_name),
                        dst: Authority::Client { client_key, proxy_node_name: proxy_name },
                        content: ResponseContent::GetCloseGroup { close_group_ids: public_ids },
                    },
                ),
            ),
        );
        assert(final(actions)@.take(old(actions)@.len() as int) =~= old(actions)@);
        Ok(())
    }

    /// The node learns the members of its close group. It starts to listen,
    /// has its endpoints sent to each member, and remembers each member's
    /// identity.
    pub fn handle_get_close_group_response(
        &mut self,
        close_group_ids: Vec<PublicId>,
        client_key: SignKey,
        proxy_name: XorName,
        now: u64,
        actions: &mut Vec<Action>,
    ) -> (r: Result<(), RoutingError>)
        requires
            old(self).wf(),
        ensures
            after_handle_get_close_group_response(
                *old(self),
                *final(self),
                close_group_ids,
                client_key,
                proxy_name,
                now,
                r,
                old(actions)@,
                final(actions)@,
            ),
    {
        actions.push(Action::StartListening);
        let ghost base = old(actions)@.len() as int;
        let mut i: usize = 0;
        while i < close_group_ids.len()
            invariant
                0 <= i <= close_group_ids.len(),
                self.wf(),
                base == old(actions)@.len(),
                *self == (RoutingNode { node_id_cache: self.node_id_cache, ..*old(self) }),
                actions@.len() == base + 1 + i,
                actions@.take(base) == old(actions)@,
                actions@[base] == Action::StartListening,
                forall|j: int|
                    0 <= j < i ==> #[trigger] actions@[base + 1 + j] == (Action::SendEndpoints {
                        their_id: close_group_ids@[j],
                        src: Authority::Client { client_key, proxy_node_name: proxy_name },
                        dst: Authority::ManagedNode(close_group_ids@[j].name),
                    }),
                self.node_id_cache@ == remembered(
                    old(self).node_id_cache@,
                    close_group_ids@.take(i as int),
                    now,
                ),
            decreases close_group_ids.len() - i,
        {
            let peer = close_group_ids[i];
            let ghost before = actions@;
            self.send_endpoints(
                &peer,
                Authority::Client { client_key, proxy_node_name: proxy_name },
                Authority::ManagedNode(peer.name),
                actions,
            );
            let _ = self.remember_id(peer, now);
            proof {
                assert(actions@.take(base) =~= before.take(base));
                assert(close_group_ids@.take(i + 1).drop_last() =~= close_group_ids@.take(i as int));
                assert forall|j: int| 0 <= j < i + 1 implies #[trigger] actions@[base + 1 + j] == (
                Action::SendEndpoints {
                    their_id: close_group_ids@[j],
                    src: Authority::Client { client_key, proxy_node_name: proxy_name },
                    dst: Authority::ManagedNode(close_group_ids@[j].name),
                }) by {
                    if j < i {
                        assert(actions@[base + 1 + j] == before[base + 1 + j]);
                    }
                }
            }
            i += 1;
        }
        assert(close_group_ids@.take(i as int) =~= close_group_ids@);
        Ok(())
    }

    /// A node asks the node to connect. If the table wants the asking node,
    /// the node has its endpoints sent to it, provided it knows the asking
    /// node's identity, and asks the asking node's group for the identity
    /// otherwise.
    pub fn handle_connect_request(
        &self,
        src_name: XorName,
        dst_name: XorName,
        now: u64,
        actions: &mut Vec<Action>,
    ) -> (r: Result<(), RoutingError>)
        requires
            self.wf(),
        ensures
            after_handle_connect_request(
                *self,
                *self,
                src_name,
                dst_name,
                now,
                r,
                old(actions)@,
                final(actions)@,
            ),
    {
        if !self.routing_table.want_to_add(&src_name) {
            return Err(RoutingError::RefusedFromRoutingTable);
        }
        match self.expected_id(&src_name, now) {
            Some(public_id) => {
                self.send_endpoints(
                    &public_id,
                    Authority::ManagedNode(self.full_id.public_id.name),
                    Authority::ManagedNode(src_name),
                    actions,
                );
            },
            None => {
                actions.push(
                    Action::Send(
                        RoutingMessage::Request(
                            RequestMessage {
                                src: Authority::ManagedNode(dst_name),
                                dst: Authority::NodeManager(src_name),
                                content: RequestContent::GetPublicId,
                            },
                        ),
                    ),
                );
            },
        }
        Ok(())
    }

    /// A node asks for the identity of a member of the node's close group.
    pub fn handle_get_public_id(
        &self,
        src_name: XorName,
        dst_name: XorName,
        actions: &mut Vec<Action>,
    ) -> (r: Result<(), RoutingError>)
        requires
            self.wf(),
        ensures
            after_handle_get_public_id(
                *self,
                *self,
                src_name,
                dst_name,
                r,
                old(actions)@,
                final(actions)@,
            ),
    {
        let group = self.routing_table.our_close_group();
        assert(own_close_group(*self, group@));
        match find_by_name(&group, &dst_name) {
            Some(i) => {
                actions.push(
                    Action::Send(
                        RoutingMessage::Response(
                            ResponseMessage {
                                src: Authority::NodeManager(dst_name),
                                dst: Authority::ManagedNode(src_name),
                                content: ResponseContent::GetPublicId { public_id: group[i] },
                            },
                        ),
                    ),
                );
                Ok(())
            },
            None => Err(RoutingError::RejectedPublicId),
        }
    }

    /// The node learns the identity of a node that asked it to connect. If
    /// the table wants that node, the node has its endpoints sent to it and
    /// remembers the identity.
    pub fn handle_get_public_id_response(
        &mut self,
        public_id: PublicId,
        dst_name: XorName,
        now: u64,
        actions: &mut Vec<Action>,
    ) -> (r: Result<(), RoutingError>)
        requires
            old(self).wf(),
        ensures
            after_handle_get_public_id_response(
                *old(self),
                *final(self),
                public_id,
                dst_name,
                now,
                r,
                old(actions)@,
                final(actions)@,
            ),
    {
        if !self.routing_table.want_to_add(&public_id.name) {
            return Err(RoutingError::RefusedFromRoutingTable);
        }
        self.send_endpoints(
            &public_id,
            Authority::ManagedNode(dst_name),
            Authority::ManagedNode(public_id.name),
            actions,
        );
        let _ = self.remember_id(public_id, now);
        Ok(())
    }

    /// A node asks for the identity of a member of the node's close group
    /// and passes endpoints along, which travel back with the answer.
    pub fn handle_get_public_id_with_endpoints(
        &self,
        encrypted_endpoints: Vec<u8>,
        nonce_bytes: [u8; 24],
        src_name: XorName,
        dst_name: XorName,
        actions: &mut Vec<Action>,
    ) -> (r: Result<(), RoutingError>)
        requires
            self.wf(),
        ensures
            after_handle_get_public_id_with_endpoints(
                *self,
                *self,
                encrypted_endpoints,
                nonce_bytes,
                src_name,
                dst_name,
                r,
                old(actions)@,
                final(actions)@,
            ),
    {
        let group = self.routing_table.our_close_group();
        assert(own_close_group(*self, group@));
        match find_by_name(&group, &dst_name) {
            Some(i) => {
                actions.push(
                    Action::Send(
                        RoutingMessage::Response(
                            ResponseMessage {
                                src: Authority::NodeManager(dst_name),
                                dst: Authority::ManagedNode(src_name),
                                content: ResponseContent::GetPublicIdWithEndpoints {
                                    public_id: group[i],
                                    encrypted_endpoints,
                                    nonce_bytes,
                                },
                            },
                        ),
                    ),
                );
                Ok(())
            },
            None => Err(RoutingError::RejectedPublicId),
        }
    }

    /// The node learns the identity of a node whose endpoints it holds. If
    /// the table wants that node, the node has its own endpoints sent to it,
    /// remembers the identity, and connects to the endpoints it holds.
    pub fn handle_get_public_id_with_endpoints_response(
        &mut self,
        public_id: PublicId,
        encrypted_endpoints: Vec<u8>,
        nonce_bytes: [u8; 24],
        dst_name: XorName,
        now: u64,
        actions: &mut Vec<Action>,
    ) -> (r: Result<(), RoutingError>)
        requires
            old(self).wf(),
        ensures
            after_handle_get_public_id_with_endpoints_response(
                *old(self),
                *final(self),
                public_id,
                encrypted_endpoints,
                nonce_bytes,
                dst_name,
                now,
                r,
                old(actions)@,
                final(actions)@,
            ),
    {
        if !self.routing_table.want_to_add(&public_id.name) {
            return Err(RoutingError::RefusedFromRoutingTable);
        }
        self.send_endpoints(
            &public_id,
            Authority::ManagedNode(dst_name),
            Authority::ManagedNode(public_id.name),
            actions,
        );
        let _ = self.remember_id(public_id, now);
        let ghost mid = actions@;
        let r = self.connect(
            &encrypted_endpoints,
            nonce_bytes,
            &public_id.encrypting_public_key,
            actions,
        );
        proof {
            if r.is_ok() {
                assert(mid.take(old(actions)@.len() as int) =~= old(actions)@);
                assert(actions@.take(mid.len() as int) == mid);
                assert(actions@.take(old(actions)@.len() as int) =~= mid.take(
                    old(actions)@.len() as int,
                ));
                assert(actions@[old(actions)@.len() as int] == actions@.take(mid.len() as int)[old(actions)@.len() as int]);
            }
        }
        r
    }

    /// A node hands over its sealed endpoints. If the table wants the node,
    /// the node connects to the endpoints, provided it knows the sender's
    /// identity, and asks the sender for its identity otherwise, passing the
    /// endpoints along. If the table does not want the node, its identity is
    /// forgotten.
    pub fn handle_endpoints_from_node(
        &mut self,
        encrypted_endpoints: Vec<u8>,
        nonce_bytes: [u8; 24],
        src_name: XorName,
        dst: Authority,
        now: u64,
        actions: &mut Vec<Action>,
    ) -> (r: Result<(), RoutingError>)
        requires
            old(self).wf(),
        ensures
            after_handle_endpoints_from_node(
                *old(self),
                *final(self),
                encrypted_endpoints,
                nonce_bytes,
                src_name,
                dst,
                now,
                r,
                old(actions)@,
                final(actions)@,
            ),
    {
        if self.routing_table.want_to_add(&src_name) {
            match self.expected_id(&src_name, now) {
                Some(their_public_id) => self.connect(
                    &encrypted_endpoints,
                    nonce_bytes,
                    &their_public_id.encrypting_public_key,
                    actions,
                ),
                None => {
                    actions.push(
                        Action::Send(
                            RoutingMessage::Request(
                                RequestMessage {
                                    src: dst,
                                    dst: Authority::ManagedNode(src_name),
                                    content: RequestContent::GetPublicIdWithEndpoints {
                                        encrypted_endpoints,
                                        nonce_bytes,
                                    },
                                },
                            ),
                        ),
                    );
                    Ok(())
                },
            }
        } else {
            let _ = self.node_id_cache.remove(&src_name);
            Err(RoutingError::RefusedFromRoutingTable)
        }
    }

    /// Position of the first identity in the cache that is live at `now` and
    /// has the signing key `key`.
    pub fn find_id_by_key(&self, key: &SignKey, now: u64) -> (r: Option<usize>)
        requires
            self.wf(),
        ensures
            match r {
                Some(i) => i < self.node_id_cache.records().len() && i == index_of_key(
                    self.node_id_cache.records(),
                    *key,
                    now,
                    0,
                ),
                None => index_of_key(self.node_id_cache.records(), *key, now, 0) == -1,
            },
    {
        let n = self.node_id_cache.len();
        let mut i: usize = 0;
        while i < n
            invariant
                0 <= i <= n,
                n == self.node_id_cache.records().len(),
                index_of_key(self.node_id_cache.records(), *key, now, 0) == index_of_key(
                    self.node_id_cache.records(),
                    *key,
                    now,
                    i as int,
                ),
            decreases n - i,
        {
            let e = self.node_id_cache.record(i);
            if crate::timed_map::live(e.time, now, NODE_ID_TTL) && e.value.signing_public_key.same(
                key,
            ) {
                return Some(i);
            }
            i += 1;
        }
        None
    }

    /// A joining node hands over its sealed endpoints. The node must have
    /// been told to expect a node with this key, and the table must want it;
    /// then the node connects to the endpoints and has its own sent back.
    pub fn handle_endpoints_from_client(
        &self,
        encrypted_endpoints: Vec<u8>,
        nonce_bytes: [u8; 24],
        client_key: SignKey,
        proxy_name: XorName,
        dst_name: XorName,
        now: u64,
        actions: &mut Vec<Action>,
    ) -> (r: Result<(), RoutingError>)
        requires
            self.wf(),
        ensures
            after_handle_endpoints_from_client(
                *self,
                *self,
                encrypted_endpoints,
                nonce_bytes,
                client_key,
                proxy_name,
                dst_name,
                now,
                r,
                old(actions)@,
                final(actions)@,
            ),
    {
        match self.find_id_by_key(&client_key, now) {
            None => Err(RoutingError::RejectedPublicId),
            Some(i) => {
                let e = self.node_id_cache.record(i);
                let their_public_id = e.value;
                if self.routing_table.want_to_add(&e.key) {
                    match self.connect(
                        &encrypted_endpoints,
                        nonce_bytes,
                        &their_public_id.encrypting_public_key,
                        actions,
                    ) {
                        Err(e) => {
                            return Err(e);
                        },
                        Ok(()) => {},
                    }
                    let ghost mid = actions@;
                    self.send_endpoints(
                        &their_public_id,
                        Authority::ManagedNode(dst_name),
                        Authority::Client { client_key, proxy_node_name: proxy_name },
                        actions,
                    );
                    assert(actions@.take(old(actions)@.len() as int) =~= mid.take(
                        old(actions)@.len() as int,
                    ));
                    Ok(())
                } else {
                    Err(RoutingError::RefusedFromRoutingTable)
                }
            },
        }
    }

    /// A peer tells of a change in its close group. Each name in turn is
    /// checked against the connection filter and the routing table; see
    /// `churn_from`.
    pub fn handle_churn(&mut self, close_group: &Vec<XorName>, now: u64, actions: &mut Vec<Action>) -> (r:
        Result<(), RoutingError>)
        requires
            old(self).wf(),
        ensures
            after_handle_churn(
                *old(self),
                *final(self),
                *close_group,
                now,
                r,
                old(actions)@,
                final(actions)@,
            ),
    {
        self.churn(close_group, 0, now, actions)
    }

    /// `handle_churn` from position `from` on.
    fn churn(&mut self, close_group: &Vec<XorName>, from: usize, now: u64, actions: &mut Vec<Action>) -> (r:
        Result<(), RoutingError>)
        requires
            old(self).wf(),
        ensures
            final(self).wf(),
            *final(self) == (RoutingNode {
                connection_filter: final(self).connection_filter,
                ..*old(self)
            }),
            ({
                let outcome = churn_from(
                    old(self).connection_filter.times(),
                    old(self).routing_table,
                    close_group@,
                    from as int,
                    now,
                );
                final(self).connection_filter.times() == outcome.0 && r == outcome.1 && final(actions)@ == old(actions)@ + connect_requests(old(self).name(), outcome.2)
            }),
        decreases close_group@.len() - from,
    {
        if from >= close_group.len() {
            assert(old(actions)@ + connect_requests(self.name(), Seq::empty()) =~= old(actions)@);
            return Ok(());
        }
        let name = close_group[from];
        if self.connection_filter.contains(&name, now) {
            assert(old(actions)@ + connect_requests(self.name(), Seq::empty()) =~= old(actions)@);
            return Err(RoutingError::FilterCheckFailed);
        }
        let _ = self.connection_filter.insert(name, now);
        if !self.routing_table.want_to_add(&name) {
            assert(old(actions)@ + connect_requests(self.name(), Seq::empty()) =~= old(actions)@);
            return Ok(());
        }
        self.send_connect_request(&name, actions);
        let ghost mid = actions@;
        let ghost mid_times = self.connection_filter.times();
        let r = self.churn(close_group, from + 1, now, actions);
        proof {
            let rest = churn_from(mid_times, old(self).routing_table, close_group@, from + 1, now);
            assert(actions@ == mid + connect_requests(self.name(), rest.2));
            assert(mid + connect_requests(self.name(), rest.2) =~= old(actions)@
                + connect_requests(self.name(), seq![name] + rest.2));
        }
        r
    }
}

} // verus!
