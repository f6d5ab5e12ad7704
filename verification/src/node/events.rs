//! The events of the transport and the wishes of the user, and where a
//! message leaves the node.

use crate::authority::Authority;
use crate::error::RoutingError;
use crate::id::{Connection, PublicId};
use crate::messages::{Message, RequestContent};
use crate::node::{
    Action, Event, RoutingNode, State, after_client_send_content, after_handle_bootstrap_finished,
    after_handle_lost_connection, after_handle_new_message, after_handle_on_accept,
    after_handle_on_connect, client_index, dropped,
};
use crate::routing_table::is_close_group;
use crate::xor_name::XorName;
use vstd::prelude::*;

verus! {

/// What the transport reports.
#[derive(Clone, Debug, PartialEq, Eq)]
pub enum TransportEvent {
    /// The search for first contacts is over.
    BootstrapFinished,
    /// A peer connected to the node.
    OnAccept(Connection),
    /// A connection broke.
    LostConnection(Connection),
    /// A message arrived over a connection.
    NewMessage(Connection, Message),
    /// A connection that the node asked for came about, or did not.
    OnConnect(Option<Connection>, u32),
}

/// What the user asks of the node.
#[derive(Clone, Debug, PartialEq, Eq)]
pub enum UserAction {
    /// Send content from one authority to another.
    SendContent(Authority, Authority, RequestContent),
    /// Send content as a client.
    ClientSendContent(Authority, RequestContent),
    /// Stop.
    Terminate,
}

/// What `handle_transport_event` does, by the kind of the event. The result
/// of handling a message is dropped.
pub open spec fn after_handle_transport_event(
    pre: RoutingNode,
    post: RoutingNode,
    event: TransportEvent,
    now: u64,
    before: Seq<Action>,
    after: Seq<Action>,
) -> bool {
    match event {
        TransportEvent::BootstrapFinished => after_handle_bootstrap_finished(
    pre,
    post,
    before,
    after,
        ),
        TransportEvent::OnAccept(connection) => after_handle_on_accept(pre, post, connection)
    && after == before,
        TransportEvent::LostConnection(connection) => after_handle_lost_connection(
    pre,
    post,
    connection,
        ) && after == before,
        TransportEvent::NewMessage(connection, message) => exists|r: Result<(), RoutingError>| #[trigger]
    after_handle_new_message(pre, post, connection, message, now, r, before, after),
        TransportEvent::OnConnect(connection, token) => after_handle_on_connect(
    pre,
    post,
    connection,
    before,
    after,
        ),
    }
}

/// What `handle_user_action` does, and whether the node is to go on.
pub open spec fn after_handle_user_action(
    pre: RoutingNode,
    post: RoutingNode,
    action: UserAction,
    go_on: bool,
    before: Seq<Action>,
    after: Seq<Action>,
) -> bool {
    match action {
        UserAction::SendContent(src, dst, content) => post == pre && go_on && after == before,
        UserAction::ClientSendContent(dst, content) => go_on && exists|r: Result<(), RoutingError>| #[trigger]
    after_client_send_content(pre, post, dst, content, r, before, after),
        UserAction::Terminate => post == pre && !go_on && after == before.push(
    Action::Notify(Event::Terminated),
        ).push(Action::Stop),
    }
}

impl RoutingNode {
    /// Handles what the transport reports at `now`.
    pub fn handle_transport_event(
        &mut self,
        event: TransportEvent,
        now: u64,
        actions: &mut Vec<Action>,
    )
        requires
            old(self).wf(),
        ensures
            final(self).wf(),
            after_handle_transport_event(
                *old(self),
                *final(self),
                event,
                now,
                old(actions)@,
                final(actions)@,
            ),
    {
        match event {
            TransportEvent::BootstrapFinished => {
                self.handle_bootstrap_finished(actions);
            },
            TransportEvent::OnAccept(connection) => {
                self.handle_on_accept(connection);
            },
            TransportEvent::LostConnection(connection) => {
                self.handle_lost_connection(connection);
            },
            TransportEvent::NewMessage(connection, message) => {
                let r = self.handle_new_message(connection, message, now, actions);
                assert(after_handle_new_message(
                    *old(self),
                    *self,
                    connection,
                    message,
                    now,
                    r,
                    old(actions)@,
                    actions@,
                ));
            },
            TransportEvent::OnConnect(connection, _token) => {
                self.handle_on_connect(connection, actions);
            },
        }
    }

    /// Handles what the user asks, and says whether the node is to go on.
    pub fn handle_user_action(&mut self, action: UserAction, actions: &mut Vec<Action>) -> (go_on:
        bool)
        requires
            old(self).wf(),
        ensures
            final(self).wf(),
            after_handle_user_action(
                *old(self),
                *final(self),
                action,
                go_on,
                old(actions)@,
                final(actions)@,
            ),
    {
        match action {
            UserAction::SendContent(_src, _dst, _content) => true,
            UserAction::ClientSendContent(dst, content) => {
                let r = self.client_send_content(dst, content, actions);
                assert(after_client_send_content(
                    *old(self),
                    *self,
                    dst,
                    content,
                    r,
                    old(actions)@,
                    actions@,
                ));
                true
            },
            UserAction::Terminate => {
                actions.push(Action::Notify(Event::Terminated));
                actions.push(Action::Stop);
                false
            },
        }
    }
}

/// The connections of all proxies, in their order.
pub open spec fn proxy_connections(map: Seq<(Connection, PublicId)>) -> Seq<Connection> {
    Seq::new(map.len(), |i: int| map[i].0)
}

/// What `send_targets` returns: the connections over which a message for
/// `dst` leaves the node.
///
/// A client sends over its proxies. A node hands a message for one of its
/// clients to that client, and any other message to the contacts in the close
/// group of the destination's name. In any other state nothing can be sent.
pub open spec fn targets_of(node: RoutingNode, dst: Authority, targets: Seq<Connection>) -> bool {
    match node.state {
        State::Client => targets == proxy_connections(node.proxy_map@),
        State::Node => match dst {
            Authority::Client { client_key, proxy_node_name } => if client_index(
                node.client_map@,
                client_key,
                0,
            ) != -1 {
                targets == seq![node.client_map@[client_index(node.client_map@, client_key, 0)].1]
            } else {
                to_close_group(node, dst.name(), targets)
            },
            _ => to_close_group(node, dst.name(), targets),
        },
        _ => targets == Seq::<Connection>::empty(),
    }
}

/// Whether `targets` are the connections of the contacts in the close group
/// of `name`.
pub open spec fn to_close_group(node: RoutingNode, name: XorName, targets: Seq<Connection>) -> bool {
    exists|group: Seq<PublicId>| #[trigger]
        is_close_group(node.routing_table.nodes(), name, node.routing_table.group_size(), group)
            && targets == crate::routing_table::connections_of(node.routing_table.nodes(), group)
}

impl RoutingNode {
    /// The connections over which a message for `dst` leaves the node.
    pub fn send_targets(&self, dst: &Authority) -> (targets: Vec<Connection>)
        requires
            self.wf(),
        ensures
            targets_of(*self, *dst, targets@),
    {
        match self.state {
            State::Client => {
                let mut targets: Vec<Connection> = Vec::new();
                let mut i: usize = 0;
                while i < self.proxy_map.len()
                    invariant
                        0 <= i <= self.proxy_map.len(),
                        targets@ == proxy_connections(self.proxy_map@.take(i as int)),
                    decreases self.proxy_map.len() - i,
                {
                    targets.push(self.proxy_map[i].0);
                    assert(targets@ =~= proxy_connections(self.proxy_map@.take(i + 1)));
                    i += 1;
                }
                assert(self.proxy_map@.take(i as int) =~= self.proxy_map@);
                targets
            },
            State::Node => {
                match dst {
                    Authority::Client { client_key, proxy_node_name: _ } => {
                        match self.find_client(client_key) {
                            Some(i) => {
                                let mut targets: Vec<Connection> = Vec::new();
                                targets.push(self.client_map[i].1);
                                return targets;
                            },
                            None => {},
                        }
                    },
                    _ => {},
                }
                self.routing_table.target_connections(dst.get_name())
            },
            _ => Vec::new(),
        }
    }
}

} // verus!
