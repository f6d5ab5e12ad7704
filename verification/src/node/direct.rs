//! What peers say to each other over a connection they share.

use crate::authority::Authority;
use crate::crypto::{Signature, sha512};
use crate::error::RoutingError;
use crate::id::{Connection, PublicId};
use crate::messages::{DirectMessage, Message, RequestContent};
use crate::node::{
    Action, Event, NODE_ID_TTL, REFRESH_CAUSE_TTL, RoutingNode, State, after_handle_churn,
    after_handle_hop_message, announced_id, cache_holds, client_index, drops, grown_by,
    is_identify, noted, proxy_index, request, verify_signed_public_id,
};
use crate::routing_table::{AddResult, NodeInfo, has_name, quorum_of};
use crate::xor_name::XorName;
use vstd::prelude::*;

verus! {

/// The node closes `connection` and changes nothing else.
pub open spec fn dropped(
    pre: RoutingNode,
    post: RoutingNode,
    connection: Connection,
    before: Seq<Action>,
    after: Seq<Action>,
) -> bool {
    post == pre && after == before.push(Action::DropConnection(connection))
}

/// The message by which the node tells a client who it is.
pub open spec fn bootstrap_message(node: RoutingNode, connection: Connection) -> Action {
    Action::SendDirect(
        connection,
        DirectMessage::BootstrapIdentify {
            public_id: node.full_id.public_id,
            current_quorum_size: (quorum_of(node.routing_table.close_group_len()) + 1) as usize,
        },
    )
}

/// What a node's announcement to a client does.
///
/// An identity whose name is the digest of its key is no node's: the
/// connection is closed. So is a connection that has a proxy already, and
/// that proxy is forgotten. Otherwise the sender becomes a proxy, the node
/// becomes a client and takes the quorum that it was told; a node that is to
/// stay a client tells its user that it is connected, any other asks for its
/// name in the network.
pub open spec fn after_bootstrap_identify(
    pre: RoutingNode,
    post: RoutingNode,
    public_id: PublicId,
    quorum: usize,
    connection: Connection,
    before: Seq<Action>,
    after: Seq<Action>,
) -> bool {
    if public_id.name.0@ == sha512(public_id.signing_public_key.0@) {
        dropped(pre, post, connection, before, after)
    } else if proxy_index(pre.proxy_map@, connection, 0) != -1 {
        &&& post == (RoutingNode { proxy_map: post.proxy_map, ..pre })
        &&& post.proxy_map@ == pre.proxy_map@.remove(proxy_index(pre.proxy_map@, connection, 0))
        &&& after == before.push(Action::DropConnection(connection))
    } else {
        &&& post == (RoutingNode {
    proxy_map: post.proxy_map,
    state: State::Client,
    message_accumulator: post.message_accumulator,
    ..pre
        })
        &&& post.proxy_map@ == pre.proxy_map@.push((connection, public_id))
        &&& post.message_accumulator.wf()
        &&& post.message_accumulator@ == (crate::accumulator::Tally {
    quorum: quorum as nat,
    ..pre.message_accumulator@
        })
        &&& after == before.push(
    if pre.client_restriction {
        Action::Notify(Event::Connected)
    } else {
        request(
            Authority::Client {
                client_key: pre.full_id.public_id.signing_public_key,
                proxy_node_name: post.proxy_map@[0].1.name,
            },
            Authority::NaeManager(pre.name()),
            RequestContent::GetNetworkName { current_id: pre.full_id.public_id },
        )
    },
        )
    }
}

/// What a client's announcement does.
///
/// The announcement must be signed by its own key, and the client's name
/// must be the digest of that key; else the connection is closed. The client
/// is then known on this connection; an older connection of the same client
/// is closed. The node answers by telling who it is.
pub open spec fn after_client_identify(
    pre: RoutingNode,
    post: RoutingNode,
    serialised: Seq<u8>,
    signature: Signature,
    connection: Connection,
    before: Seq<Action>,
    after: Seq<Action>,
) -> bool {
    match announced_id(serialised, signature) {
        Err(_) => dropped(pre, post, connection, before, after),
        Ok(id) => if id.name.0@ != sha512(id.signing_public_key.0@) {
    dropped(pre, post, connection, before, after)
        } else {
    let i = client_index(pre.client_map@, id.signing_public_key, 0);
    &&& post == (RoutingNode { client_map: post.client_map, ..pre })
    &&& if i == -1 {
        post.client_map@ == pre.client_map@.push((id.signing_public_key, connection))
            && after == before.push(bootstrap_message(pre, connection))
    } else {
        post.client_map@ == pre.client_map@.update(i, (id.signing_public_key, connection))
            && after == before.push(Action::DropConnection(pre.client_map@[i].1)).push(
            bootstrap_message(pre, connection),
        )
    }
        },
    }
}

/// What becomes of a node that announced itself and is no contact yet, by
/// what the routing table said of it.
pub open spec fn joined(
    pre: RoutingNode,
    post: RoutingNode,
    node: NodeInfo,
    result: AddResult,
    connection: Connection,
    before: Seq<Action>,
    after: Seq<Action>,
) -> bool {
    &&& crate::routing_table::after_add_node(pre.routing_table, post.routing_table, node, result)
    &&& match result {
        AddResult::Rejected => {
            &&& post == (RoutingNode {
                routing_table: post.routing_table,
                node_id_cache: post.node_id_cache,
                ..pre
            })
            &&& post.node_id_cache.wf()
            &&& post.node_id_cache@ == pre.node_id_cache@.remove(node.public_id.name)
            &&& after == before.push(Action::DropConnection(connection))
        },
        AddResult::Added => {
            &&& post == (RoutingNode { routing_table: post.routing_table, ..pre })
            &&& grown_by(before, after, 1)
            &&& is_identify(
                after.last(),
                connection,
                pre.full_id.public_id,
                pre.full_id.signing_private_key,
                true,
            )
        },
        AddResult::AddedAndEvicted(gone) => {
            &&& post == (RoutingNode { routing_table: post.routing_table, ..pre })
            &&& grown_by(before + drops(gone.connections@), after, 1)
            &&& is_identify(
                after.last(),
                connection,
                pre.full_id.public_id,
                pre.full_id.signing_private_key,
                true,
            )
        },
    }
}

/// What a node's announcement does.
///
/// The announcement must be signed by its own key, and the node must have
/// been told to expect exactly this identity; else the connection is closed.
/// A contact gains the connection, and the node announces itself in turn
/// unless the contact had the connection already. A node that is no contact
/// is offered to the routing table: if the table takes it, the connections of
/// a contact that had to leave are closed and the node announces itself; if
/// not, the connection is closed and the identity forgotten.
pub open spec fn after_node_identify(
    pre: RoutingNode,
    post: RoutingNode,
    serialised: Seq<u8>,
    signature: Signature,
    connection: Connection,
    now: u64,
    before: Seq<Action>,
    after: Seq<Action>,
) -> bool {
    match announced_id(serialised, signature) {
        Err(_) => dropped(pre, post, connection, before, after),
        Ok(id) => if !cache_holds(pre.node_id_cache@, NODE_ID_TTL, id.name, now)
    || pre.node_id_cache@[id.name].1 != id {
    dropped(pre, post, connection, before, after)
        } else if has_name(pre.routing_table.nodes(), id.name) {
    exists|added: bool| #[trigger]
        crate::routing_table::after_add_connection(
            pre.routing_table,
            post.routing_table,
            id.name,
            connection,
            added,
        ) && post == (RoutingNode { routing_table: post.routing_table, ..pre }) && if added {
            grown_by(before, after, 1) && is_identify(
                after.last(),
                connection,
                pre.full_id.public_id,
                pre.full_id.signing_private_key,
                true,
            )
        } else {
            after == before
        }
        } else {
    exists|node: NodeInfo, result: AddResult|
        node.public_id == id && node.connections@ == seq![connection] && #[trigger] joined(
            pre,
            post,
            node,
            result,
            connection,
            before,
            after,
        )
        },
    }
}

/// What `handle_direct_message` does, by the kind of the message. The
/// result of a churn notice is dropped.
pub open spec fn after_handle_direct_message(
    pre: RoutingNode,
    post: RoutingNode,
    msg: DirectMessage,
    connection: Connection,
    now: u64,
    before: Seq<Action>,
    after: Seq<Action>,
) -> bool {
    match msg {
        DirectMessage::BootstrapIdentify { public_id, current_quorum_size } => {
    after_bootstrap_identify(
        pre,
        post,
        public_id,
        current_quorum_size,
        connection,
        before,
        after,
    )
        },
        DirectMessage::ClientIdentify { serialised_public_id, signature } => {
    after_client_identify(
        pre,
        post,
        serialised_public_id@,
        signature,
        connection,
        before,
        after,
    )
        },
        DirectMessage::NodeIdentify { serialised_public_id, signature } => after_node_identify(
    pre,
    post,
    serialised_public_id@,
    signature,
    connection,
    now,
    before,
    after,
        ),
        DirectMessage::Churn { close_group } => exists|e: Result<(), RoutingError>| #[trigger]
    after_handle_churn(pre, post, close_group, now, e, before, after),
    }
}

/// What `handle_new_message` does.
pub open spec fn after_handle_new_message(
    pre: RoutingNode,
    post: RoutingNode,
    connection: Connection,
    msg: Message,
    now: u64,
    r: Result<(), RoutingError>,
    before: Seq<Action>,
    after: Seq<Action>,
) -> bool {
    match msg {
        Message::Hop(hop) => after_handle_hop_message(
    pre,
    post,
    hop,
    connection,
    now,
    r,
    before,
    after,
        ),
        Message::Direct(direct) => r.is_ok() && after_handle_direct_message(
    pre,
    post,
    direct,
    connection,
    now,
    before,
    after,
        ),
    }
}

/// Asks for each of `connections` to be closed.
pub fn drop_connections(connections: &Vec<Connection>, actions: &mut Vec<Action>)
    ensures
        final(actions)@ == old(actions)@ + drops(connections@),
{
    let mut i: usize = 0;
    while i < connections.len()
        invariant
            0 <= i <= connections.len(),
            actions@ == old(actions)@ + drops(connections@.take(i as int)),
        decreases connections.len() - i,
    {
        actions.push(Action::DropConnection(connections[i]));
        assert(actions@ =~= old(actions)@ + drops(connections@.take(i + 1)));
        i += 1;
    }
    assert(connections@.take(i as int) =~= connections@);
}

impl RoutingNode {
    /// Closes `connection`.
    fn drop_connection(&self, connection: Connection, actions: &mut Vec<Action>)
        ensures
            dropped(*self, *self, connection, old(actions)@, final(actions)@),
    {
        actions.push(Action::DropConnection(connection));
    }

    /// A node told the node, over `connection`, who it is and which quorum
    /// holds in its group.
    pub fn handle_bootstrap_identify(
        &mut self,
        public_id: PublicId,
        current_quorum_size: usize,
        connection: Connection,
        actions: &mut Vec<Action>,
    )
        requires
            old(self).wf(),
        ensures
            final(self).wf(),
            after_bootstrap_identify(
                *old(self),
                *final(self),
                public_id,
                current_quorum_size,
                connection,
                old(actions)@,
                final(actions)@,
            ),
    {
        let hashed = crate::crypto::hash_to_name(public_id.signing_public_key.0.as_slice());
        if public_id.name.same(&hashed) {
            self.drop_connection(connection, actions);
            return ;
        }
        assert(public_id.name.0@ != sha512(public_id.signing_public_key.0@)) by {
            if public_id.name.0@ == sha512(public_id.signing_public_key.0@) {
                assert(public_id.name.0 =~= hashed.0);
            }
        }
        match self.find_proxy(connection) {
            Some(i) => {
                actions.push(Action::DropConnection(connection));
                let _ = self.proxy_map.remove(i);
                return ;
            },
            None => {
                self.proxy_map.push((connection, public_id));
            },
        }
        self.state = State::Client;
        self.message_accumulator.set_quorum_size(current_quorum_size);
        if self.client_restriction {
            actions.push(Action::Notify(Event::Connected));
        } else {
            let _ = self.relocate(actions);
        }
    }

    /// A client told the node, over `connection`, who it is.
    pub fn handle_client_identify(
        &mut self,
        serialised_public_id: &Vec<u8>,
        signature: &Signature,
        connection: Connection,
        actions: &mut Vec<Action>,
    )
        requires
            old(self).wf(),
        ensures
            final(self).wf(),
            after_client_identify(
                *old(self),
                *final(self),
                serialised_public_id@,
                *signature,
                connection,
                old(actions)@,
                final(actions)@,
            ),
    {
        let public_id = match verify_signed_public_id(serialised_public_id.as_slice(), signature) {
            Ok(id) => id,
            Err(_) => {
                self.drop_connection(connection, actions);
                return ;
            },
        };
        let hashed = crate::crypto::hash_to_name(public_id.signing_public_key.0.as_slice());
        if !public_id.name.same(&hashed) {
            assert(public_id.name.0@ != sha512(public_id.signing_public_key.0@)) by {
                if public_id.name.0@ == sha512(public_id.signing_public_key.0@) {
                    assert(public_id.name.0 =~= hashed.0);
                }
            }
            self.drop_connection(connection, actions);
            return ;
        }
        let key = public_id.signing_public_key;
        match self.find_client(&key) {
            Some(i) => {
                let previous = self.client_map[i].1;
                self.client_map.set(i, (key, connection));
                actions.push(Action::DropConnection(previous));
            },
            None => {
                self.client_map.push((key, connection));
            },
        }
        self.bootstrap_identify(connection, actions);
    }

    /// A node told the node, over `connection`, who it is.
    pub fn handle_node_identify(
        &mut self,
        serialised_public_id: &Vec<u8>,
        signature: &Signature,
        connection: Connection,
        now: u64,
        actions: &mut Vec<Action>,
    )
        requires
            old(self).wf(),
        ensures
            final(self).wf(),
            after_node_identify(
                *old(self),
                *final(self),
                serialised_public_id@,
                *signature,
                connection,
                now,
                old(actions)@,
                final(actions)@,
            ),
    {
        let public_id = match verify_signed_public_id(serialised_public_id.as_slice(), signature) {
            Ok(id) => id,
            Err(_) => {
                self.drop_connection(connection, actions);
                return ;
            },
        };
        let expected = match self.expected_id(&public_id.name, now) {
            Some(id) => id,
            None => {
                self.drop_connection(connection, actions);
                return ;
            },
        };
        if !expected.same(&public_id) {
            self.drop_connection(connection, actions);
            return ;
        }
        if self.routing_table.get(&public_id.name).is_some() {
            let added = self.routing_table.add_connection(&public_id.name, connection);
            if !added {
                return ;
            }
        } else {
            let mut connections: Vec<Connection> = Vec::new();
            connections.push(connection);
            let node_info = NodeInfo::new(public_id, connections);
            let ghost offered = node_info;
            match self.routing_table.add_node(node_info) {
                AddResult::Rejected => {
                    actions.push(Action::DropConnection(connection));
                    let _ = self.node_id_cache.remove(&public_id.name);
                    assert(joined(
                        *old(self),
                        *self,
                        offered,
                        AddResult::Rejected,
                        connection,
                        old(actions)@,
                        actions@,
                    ));
                    return ;
                },
                AddResult::Added => {
                    self.node_identify(connection, actions);
                    assert(joined(
                        *old(self),
                        *self,
                        offered,
                        AddResult::Added,
                        connection,
                        old(actions)@,
                        actions@,
                    ));
                    return ;
                },
                AddResult::AddedAndEvicted(gone) => {
                    drop_connections(&gone.connections, actions);
                    self.node_identify(connection, actions);
                    assert(joined(
                        *old(self),
                        *self,
                        offered,
                        AddResult::AddedAndEvicted(gone),
                        connection,
                        old(actions)@,
                        actions@,
                    ));
                    return ;
                },
            }
        }
        self.node_identify(connection, actions);
    }

    /// Handles what a peer said over `connection`.
    pub fn handle_direct_message(
        &mut self,
        direct_message: DirectMessage,
        connection: Connection,
        now: u64,
        actions: &mut Vec<Action>,
    ) -> (r: Result<(), RoutingError>)
        requires
            old(self).wf(),
        ensures
            final(self).wf(),
            r.is_ok(),
            after_handle_direct_message(
                *old(self),
                *final(self),
                direct_message,
                connection,
                now,
                old(actions)@,
                final(actions)@,
            ),
    {
        match direct_message {
            DirectMessage::BootstrapIdentify { public_id, current_quorum_size } => {
                self.handle_bootstrap_identify(public_id, current_quorum_size, connection, actions);
            },
            DirectMessage::ClientIdentify { serialised_public_id, signature } => {
                self.handle_client_identify(&serialised_public_id, &signature, connection, actions);
            },
            DirectMessage::NodeIdentify { serialised_public_id, signature } => {
                self.handle_node_identify(
                    &serialised_public_id,
                    &signature,
                    connection,
                    now,
                    actions,
                );
            },
            DirectMessage::Churn { close_group } => {
                let e = self.handle_churn(&close_group, now, actions);
                assert(after_handle_churn(
                    *old(self),
                    *self,
                    close_group,
                    now,
                    e,
                    old(actions)@,
                    actions@,
                ));
            },
        }
        Ok(())
    }

    /// Handles a message that arrived over `connection` at `now`.
    pub fn handle_new_message(
        &mut self,
        connection: Connection,
        message: Message,
        now: u64,
        actions: &mut Vec<Action>,
    ) -> (r: Result<(), RoutingError>)
        requires
            old(self).wf(),
        ensures
            final(self).wf(),
            after_handle_new_message(
                *old(self),
                *final(self),
                connection,
                message,
                now,
                r,
                old(actions)@,
                final(actions)@,
            ),
    {
        match message {
            Message::Hop(hop_msg) => self.handle_hop_message(hop_msg, connection, now, actions),
            Message::Direct(direct_msg) => self.handle_direct_message(
                direct_msg,
                connection,
                now,
                actions,
            ),
        }
    }

    /// Notes the cause of a churn at `now`. A cause that was noted less than
    /// `REFRESH_CAUSE_TTL` ago is a duplicate.
    pub fn handle_refresh(&mut self, cause: XorName, now: u64) -> (r: Result<(), RoutingError>)
        requires
            old(self).wf(),
        ensures
            final(self).wf(),
            *final(self) == (RoutingNode { refresh_causes: final(self).refresh_causes, ..*old(self) }),
            if old(self).refresh_causes.holds(cause, now) {
                r == Err::<(), RoutingError>(RoutingError::FilterCheckFailed) && final(self).refresh_causes.times() == old(self).refresh_causes.times()
            } else {
                r.is_ok() && final(self).refresh_causes.times()
                    == crate::message_filter::filter_insert(
                    old(self).refresh_causes.times(),
                    REFRESH_CAUSE_TTL,
                    cause,
                    now,
                )
            },
    {
        if self.refresh_causes.contains(&cause, now) {
            return Err(RoutingError::FilterCheckFailed);
        }
        let _ = self.refresh_causes.insert(cause, now);
        Ok(())
    }
}

} // verus!
