//! The way of a message through the node: the hop, the signature, the
//! filter, the direction, the quorum, and the handler of its content.

use crate::accumulator::{Outcome, Verdict, Vote};
use crate::authority::Authority;
use crate::crypto::signature_valid;
use crate::error::RoutingError;
use crate::id::{Connection, PublicId, SignKey};
use crate::messages::{
    Data, DataKind, DataRequest, HopMessage, RequestContent, RequestMessage, ResponseContent,
    ResponseMessage, RoutingMessage, SignedMessage,
};
use crate::node::{
    Action, DATA_CACHE_TTL, Event, RoutingNode, SIGNED_MESSAGE_TTL, State,
    after_handle_connect_request, after_handle_endpoints_from_client,
    after_handle_endpoints_from_node, after_handle_expect_close_node_request,
    after_handle_get_close_group_request, after_handle_get_close_group_response,
    after_handle_get_network_name_request, after_handle_get_network_name_response,
    after_handle_get_public_id, after_handle_get_public_id_response,
    after_handle_get_public_id_with_endpoints, after_handle_get_public_id_with_endpoints_response,
    cache_holds, client_on_index, grown_by, proxy_index, request, response,
};
use crate::routing_table::{count_closer, has_name, quorum_of};
use crate::xor_name::{XorName, closer_to_target, distance};
use vstd::prelude::*;

verus! {

/// The actions that close the connections `connections`, in their order.
pub open spec fn drops(connections: Seq<Connection>) -> Seq<Action> {
    Seq::new(connections.len(), |i: int| Action::DropConnection(connections[i]))
}

/// Whether the hop that handed a message on is known and signed it: as a
/// node, the hop must be a contact or a client on the connection; as a
/// client, a proxy on the connection must have signed, and a connection
/// without proxy passes.
pub open spec fn hop_check(node: RoutingNode, hop: HopMessage, connection: Connection) -> Result<
    (),
    RoutingError,
> {
    let signed = |key: SignKey|
        if signature_valid(hop.signature.0@, hop.content.encoded@, key.0@) {
            Ok::<(), RoutingError>(())
        } else {
            Err::<(), RoutingError>(RoutingError::SignatureInvalid)
        };
    match node.state {
        State::Node => if has_name(node.routing_table.nodes(), hop.name) {
            signed(node.routing_table.contact(hop.name).public_id.signing_public_key)
        } else if client_on_index(node.client_map@, connection, 0) != -1 {
            signed(node.client_map@[client_on_index(node.client_map@, connection, 0)].0)
        } else {
            Err(RoutingError::UnknownConnection)
        },
        State::Client => if proxy_index(node.proxy_map@, connection, 0) != -1 {
            signed(
                node.proxy_map@[proxy_index(node.proxy_map@, connection, 0)].1.signing_public_key,
            )
        } else {
            Ok(())
        },
        _ => Err(RoutingError::InvalidStateForOperation),
    }
}

/// Whether the sender of a signed message may speak for the source it
/// names: a member of a group must be close to the group's name as far as
/// the table knows, and a client must have signed with the key it names.
pub open spec fn security_check(node: RoutingNode, msg: SignedMessage) -> Result<(), RoutingError> {
    let src = msg.content.source();
    if src.group() {
        if count_closer(node.routing_table.nodes(), src.name(), msg.public_id.name)
            < node.routing_table.group_size() {
            Ok(())
        } else {
            Err(RoutingError::RejectedPublicId)
        }
    } else {
        match src {
            Authority::Client { client_key, proxy_node_name } => if client_key
                == msg.public_id.signing_public_key {
                Ok(())
            } else {
                Err(RoutingError::SignatureInvalid)
            },
            _ => Ok(()),
        }
    }
}

/// The cached data that answers a message, if the message asks for immutable
/// data that the cache holds live at `now`.
pub open spec fn cache_lookup(node: RoutingNode, msg: RoutingMessage, now: u64) -> Option<
    (XorName, Seq<u8>),
> {
    match msg {
        RoutingMessage::Request(
            RequestMessage { content: RequestContent::Get(DataRequest { name, kind }), src, dst },
        ) => if kind == DataKind::Immutable && cache_holds(
            node.data_cache@,
            DATA_CACHE_TTL,
            name,
            now,
        ) {
            Some((name, node.data_cache@[name].1@))
        } else {
            None
        },
        _ => None,
    }
}

/// The immutable data that a message brings, if it brings any.
pub open spec fn carried_data(msg: RoutingMessage) -> Option<(XorName, Seq<u8>)> {
    match msg {
        RoutingMessage::Response(
            ResponseMessage {
                content: ResponseContent::Get { result: Some(Data { name, kind, content }) },
                src,
                dst,
            },
        ) => if kind == DataKind::Immutable {
            Some((name, content@))
        } else {
            None
        },
        _ => None,
    }
}

/// Whether `kept` is `seen` after the data that `msg` brings was put into
/// the cache at `now`: nothing else changed, and without such data nothing
/// changed at all.
pub open spec fn cached(seen: RoutingNode, kept: RoutingNode, msg: RoutingMessage, now: u64) -> bool {
    match carried_data(msg) {
        None => kept == seen,
        Some((name, content)) => {
            &&& kept == (RoutingNode { data_cache: kept.data_cache, ..seen })
            &&& kept.data_cache.wf()
            &&& kept.data_cache@.dom() == crate::accumulator::live_part(
                seen.data_cache@,
                now,
                DATA_CACHE_TTL,
            ).dom().insert(name)
            &&& kept.data_cache@[name].0 == now
            &&& kept.data_cache@[name].1@ == content
            &&& forall|k: XorName|
                k != name && kept.data_cache@.contains_key(k) ==> #[trigger] kept.data_cache@[k]
                    == seen.data_cache@[k]
        },
    }
}

/// Whether `action` answers a request from the cache: a response from the
/// node called `our` to `dst` that brings the immutable data `content` under
/// the name `name`.
pub open spec fn is_cached_answer(
    action: Action,
    our: XorName,
    dst: Authority,
    name: XorName,
    content: Seq<u8>,
) -> bool {
    match action {
        Action::Send(
            RoutingMessage::Response(
                ResponseMessage {
                    src,
                    dst: to,
                    content: ResponseContent::Get { result: Some(data) },
                },
            ),
        ) => src == Authority::ManagedNode(our) && to == dst && data.name == name && data.kind
            == DataKind::Immutable && data.content@ == content,
        _ => false,
    }
}

/// What `handle_request_message` does: the table that sends each request,
/// by its content, its source and its destination, to the function that
/// handles it. Requests of users go to the user; a request that fits no row
/// is turned down.
pub open spec fn after_handle_request_message(
    pre: RoutingNode,
    post: RoutingNode,
    m: RequestMessage,
    now: u64,
    r: Result<(), RoutingError>,
    before: Seq<Action>,
    after: Seq<Action>,
) -> bool {
    match m {
        RequestMessage {
    content: RequestContent::GetNetworkName { current_id },
    src: Authority::Client { client_key, proxy_node_name },
    dst: Authority::NaeManager(dst_name),
        } => after_handle_get_network_name_request(
    pre,
    post,
    current_id,
    client_key,
    proxy_node_name,
    dst_name,
    r,
    before,
    after,
        ),
        RequestMessage {
    content: RequestContent::ExpectCloseNode { expect_id },
    src: Authority::NaeManager(_),
    dst: Authority::NodeManager(_),
        } => after_handle_expect_close_node_request(pre, post, expect_id, now, r) && after
    == before,
        RequestMessage {
    content: RequestContent::GetCloseGroup,
    src: Authority::Client { client_key, proxy_node_name },
    dst: Authority::NodeManager(dst_name),
        } => after_handle_get_close_group_request(
    pre,
    post,
    client_key,
    proxy_node_name,
    dst_name,
    r,
    before,
    after,
        ),
        RequestMessage {
    content: RequestContent::Endpoints { encrypted_endpoints, nonce_bytes },
    src: Authority::Client { client_key, proxy_node_name },
    dst: Authority::ManagedNode(dst_name),
        } => after_handle_endpoints_from_client(
    pre,
    post,
    encrypted_endpoints,
    nonce_bytes,
    client_key,
    proxy_node_name,
    dst_name,
    now,
    r,
    before,
    after,
        ),
        RequestMessage {
    content: RequestContent::Endpoints { encrypted_endpoints, nonce_bytes },
    src: Authority::ManagedNode(src_name),
    dst: Authority::Client { client_key, proxy_node_name },
        } => after_handle_endpoints_from_node(
    pre,
    post,
    encrypted_endpoints,
    nonce_bytes,
    src_name,
    m.dst,
    now,
    r,
    before,
    after,
        ),
        RequestMessage {
    content: RequestContent::Endpoints { encrypted_endpoints, nonce_bytes },
    src: Authority::ManagedNode(src_name),
    dst: Authority::ManagedNode(_),
        } => after_handle_endpoints_from_node(
    pre,
    post,
    encrypted_endpoints,
    nonce_bytes,
    src_name,
    m.dst,
    now,
    r,
    before,
    after,
        ),
        RequestMessage {
    content: RequestContent::Connect,
    src: Authority::ManagedNode(src_name),
    dst: Authority::ManagedNode(dst_name),
        } => after_handle_connect_request(pre, post, src_name, dst_name, now, r, before, after),
        RequestMessage {
    content: RequestContent::GetPublicId,
    src: Authority::ManagedNode(src_name),
    dst: Authority::NodeManager(dst_name),
        } => after_handle_get_public_id(pre, post, src_name, dst_name, r, before, after),
        RequestMessage {
    content: RequestContent::GetPublicIdWithEndpoints { encrypted_endpoints, nonce_bytes },
    src: Authority::ManagedNode(src_name),
    dst: Authority::NodeManager(dst_name),
        } => after_handle_get_public_id_with_endpoints(
    pre,
    post,
    encrypted_endpoints,
    nonce_bytes,
    src_name,
    dst_name,
    r,
    before,
    after,
        ),
        RequestMessage { content: RequestContent::Get(_), src, dst } => to_user(
    pre,
    post,
    Event::Request(m),
    r,
    before,
    after,
        ),
        RequestMessage { content: RequestContent::Put(_), src, dst } => to_user(
    pre,
    post,
    Event::Request(m),
    r,
    before,
    after,
        ),
        RequestMessage { content: RequestContent::Post(_), src, dst } => to_user(
    pre,
    post,
    Event::Request(m),
    r,
    before,
    after,
        ),
        RequestMessage { content: RequestContent::Delete(_), src, dst } => to_user(
    pre,
    post,
    Event::Request(m),
    r,
    before,
    after,
        ),
        _ => turned_down(pre, post, RoutingError::BadAuthority, r, before, after),
    }
}

/// The node hands `event` to its user and changes nothing else.
pub open spec fn to_user(
    pre: RoutingNode,
    post: RoutingNode,
    event: Event,
    r: Result<(), RoutingError>,
    before: Seq<Action>,
    after: Seq<Action>,
) -> bool {
    post == pre && r.is_ok() && after == before.push(Action::Notify(event))
}

/// The node turns something down with `error` and changes nothing.
pub open spec fn turned_down(
    pre: RoutingNode,
    post: RoutingNode,
    error: RoutingError,
    r: Result<(), RoutingError>,
    before: Seq<Action>,
    after: Seq<Action>,
) -> bool {
    post == pre && r == Err::<(), RoutingError>(error) && after == before
}

/// What `handle_response_message` does: the table that sends each response,
/// by its content, its source and its destination, to the function that
/// handles it.
pub open spec fn after_handle_response_message(
    pre: RoutingNode,
    post: RoutingNode,
    m: ResponseMessage,
    now: u64,
    r: Result<(), RoutingError>,
    before: Seq<Action>,
    after: Seq<Action>,
) -> bool {
    match m {
        ResponseMessage {
    content: ResponseContent::GetNetworkName { relocated_id },
    src: Authority::NaeManager(_),
    dst: Authority::Client { client_key, proxy_node_name },
        } => after_handle_get_network_name_response(
    pre,
    post,
    relocated_id,
    client_key,
    proxy_node_name,
    r,
    before,
    after,
        ),
        ResponseMessage {
    content: ResponseContent::GetPublicId { public_id },
    src: Authority::NodeManager(_),
    dst: Authority::ManagedNode(dst_name),
        } => after_handle_get_public_id_response(
    pre,
    post,
    public_id,
    dst_name,
    now,
    r,
    before,
    after,
        ),
        ResponseMessage {
    content: ResponseContent::GetPublicIdWithEndpoints {
        public_id,
        encrypted_endpoints,
        nonce_bytes,
    },
    src: Authority::NodeManager(_),
    dst: Authority::ManagedNode(dst_name),
        } => after_handle_get_public_id_with_endpoints_response(
    pre,
    post,
    public_id,
    encrypted_endpoints,
    nonce_bytes,
    dst_name,
    now,
    r,
    before,
    after,
        ),
        ResponseMessage {
    content: ResponseContent::GetCloseGroup { close_group_ids },
    src: Authority::NodeManager(_),
    dst: Authority::Client { client_key, proxy_node_name },
        } => after_handle_get_close_group_response(
    pre,
    post,
    close_group_ids,
    client_key,
    proxy_node_name,
    now,
    r,
    before,
    after,
        ),
        ResponseMessage { content: ResponseContent::Get { result }, src, dst } => to_user(
    pre,
    post,
    Event::Response(m),
    r,
    before,
    after,
        ),
        ResponseMessage { content: ResponseContent::Put { done }, src, dst } => to_user(
    pre,
    post,
    Event::Response(m),
    r,
    before,
    after,
        ),
        ResponseMessage { content: ResponseContent::Post { done }, src, dst } => to_user(
    pre,
    post,
    Event::Response(m),
    r,
    before,
    after,
        ),
        ResponseMessage { content: ResponseContent::Delete { done }, src, dst } => to_user(
    pre,
    post,
    Event::Response(m),
    r,
    before,
    after,
        ),
        _ => turned_down(pre, post, RoutingError::BadAuthority, r, before, after),
    }
}

/// What handling a message that is meant for the node does.
pub open spec fn after_dispatch(
    pre: RoutingNode,
    post: RoutingNode,
    msg: RoutingMessage,
    now: u64,
    r: Result<(), RoutingError>,
    before: Seq<Action>,
    after: Seq<Action>,
) -> bool {
    match msg {
        RoutingMessage::Request(m) => after_handle_request_message(
    pre,
    post,
    m,
    now,
    r,
    before,
    after,
        ),
        RoutingMessage::Response(m) => after_handle_response_message(
    pre,
    post,
    m,
    now,
    r,
    before,
    after,
        ),
    }
}

/// The tally with the quorum that is in force for the node: a node takes the
/// quorum from its routing table each time, a client keeps the quorum that
/// its proxy told it.
pub open spec fn quorum_in_force(node: RoutingNode) -> crate::accumulator::Tally {
    if node.state == State::Node {
        crate::accumulator::Tally {
            quorum: quorum_of(node.routing_table.close_group_len()),
            ..node.message_accumulator@
        }
    } else {
        node.message_accumulator@
    }
}

/// Whether `mid` is `pre` with the accumulator holding `tally` and nothing
/// else changed.
pub open spec fn accumulated(pre: RoutingNode, mid: RoutingNode, tally: crate::accumulator::Tally) -> bool {
    &&& mid == (RoutingNode { message_accumulator: mid.message_accumulator, ..pre })
    &&& mid.message_accumulator@ == tally
    &&& mid.message_accumulator.wf()
}

/// What `handle_routing_message` does with a message under the key `key`
/// that `signer` signed.
///
/// A message that was acted on before is a duplicate. A message from a
/// group counts as one vote of its signer; it is acted on when the vote
/// completes the quorum, and not enough until then. A message from a single
/// source is acted on at once.
pub open spec fn after_handle_routing_message(
    pre: RoutingNode,
    post: RoutingNode,
    msg: RoutingMessage,
    signer: PublicId,
    key: XorName,
    now: u64,
    r: Result<(), RoutingError>,
    before: Seq<Action>,
    after: Seq<Action>,
) -> bool {
    if crate::accumulator::decided(pre.message_accumulator@, key, now) {
        turned_down(pre, post, RoutingError::FilterCheckFailed, r, before, after)
    } else if msg.source().group() {
        let counted = crate::accumulator::tally_add(
    quorum_in_force(pre),
    key,
    Vote::Signed(signer.signing_public_key),
    now,
        );
        match counted.1 {
    Verdict::Pending => accumulated(pre, post, counted.0) && r == Err::<(), RoutingError>(
        RoutingError::NotEnoughSignatures,
    ) && after == before,
    Verdict::Late => accumulated(pre, post, counted.0) && r == Err::<(), RoutingError>(
        RoutingError::FilterCheckFailed,
    ) && after == before,
    Verdict::Complete(_) => exists|mid: RoutingNode| #[trigger]
        accumulated(pre, mid, counted.0) && after_dispatch(
            mid,
            post,
            msg,
            now,
            r,
            before,
            after,
        ),
        }
    } else {
        after_dispatch(pre, post, msg, now, r, before, after)
    }
}

/// What becomes of a signed message after it passed the checks of its way:
/// a request that the cache can answer is answered from it; otherwise data
/// that the message brings is cached, and the message is sent on if the node
/// is not close to its destination, and handled if it is.
pub open spec fn after_cache_and_handle(
    seen: RoutingNode,
    post: RoutingNode,
    msg: SignedMessage,
    now: u64,
    r: Result<(), RoutingError>,
    before: Seq<Action>,
    after: Seq<Action>,
) -> bool {
    match cache_lookup(seen, msg.content, now) {
        Some((name, content)) => post == seen && r.is_ok() && grown_by(before, after, 1)
    && is_cached_answer(after.last(), seen.name(), msg.content.source(), name, content),
        None => exists|kept: RoutingNode| #[trigger]
    cached(seen, kept, msg.content, now) && if !kept.routing_table.is_close_to(
        msg.content.destination().name(),
    ) {
        post == kept && r.is_ok() && after == before.push(Action::Resend)
    } else {
        after_handle_routing_message(
            kept,
            post,
            msg.content,
            msg.public_id,
            msg.content_digest(),
            now,
            r,
            before,
            after,
        )
    },
    }
}

/// What becomes of a signed message that is intact and new, by the node's
/// state.
///
/// A node that is close to the destination checks the sender, sends a
/// message for a group on to the group and goes on, sends a message for
/// another node on to it, and relays a message for one of its clients. A
/// node that is not close lets the message pass only if it is closer to the
/// destination than the hop before it. A client takes what is addressed to
/// its own key. A node in another state takes nothing.
pub open spec fn after_routing_check(
    seen: RoutingNode,
    post: RoutingNode,
    msg: SignedMessage,
    hop_name: XorName,
    now: u64,
    r: Result<(), RoutingError>,
    before: Seq<Action>,
    after: Seq<Action>,
) -> bool {
    let dst = msg.content.destination();
    match seen.state {
        State::Node => if seen.routing_table.is_close_to(dst.name()) {
    match security_check(seen, msg) {
        Err(e) => turned_down(seen, post, e, r, before, after),
        Ok(_) => if dst.group() {
            after_cache_and_handle(
                seen,
                post,
                msg,
                now,
                r,
                before.push(Action::Resend),
                after,
            )
        } else if seen.name() != dst.name() {
            post == seen && r.is_ok() && after == before.push(Action::Resend)
        } else if dst is Client {
            post == seen && r.is_ok() && after == before.push(Action::RelayToClient)
        } else {
            after_cache_and_handle(seen, post, msg, now, r, before, after)
        },
    }
        } else if !(distance(seen.name(), dst.name()) < distance(hop_name, dst.name())) {
    turned_down(seen, post, RoutingError::DirectionCheckFailed, r, before, after)
        } else {
    after_cache_and_handle(seen, post, msg, now, r, before, after)
        },
        State::Client => match dst {
    Authority::Client { client_key, proxy_node_name } => if client_key
        != seen.full_id.public_id.signing_public_key {
        turned_down(seen, post, RoutingError::BadAuthority, r, before, after)
    } else {
        after_handle_routing_message(
            seen,
            post,
            msg.content,
            msg.public_id,
            msg.content_digest(),
            now,
            r,
            before,
            after,
        )
    },
    _ => turned_down(seen, post, RoutingError::BadAuthority, r, before, after),
        },
        _ => turned_down(seen, post, RoutingError::InvalidStateForOperation, r, before, after),
    }
}

/// Whether `seen` is `pre` after the signed message with the digest `digest`
/// was noted in the filter at `now`, and nothing else changed.
pub open spec fn noted(pre: RoutingNode, seen: RoutingNode, digest: XorName, now: u64) -> bool {
    &&& seen == (RoutingNode { signed_message_filter: seen.signed_message_filter, ..pre })
    &&& seen.wf()
    &&& seen.signed_message_filter.times() == crate::message_filter::filter_insert(
        pre.signed_message_filter.times(),
        SIGNED_MESSAGE_TTL,
        digest,
        now,
    )
}

/// What `handle_signed_message` does: a message whose signature does not
/// verify is turned down, one that the filter holds is a duplicate; any other
/// is noted in the filter and goes on as `after_routing_check` says.
pub open spec fn after_handle_signed_message(
    pre: RoutingNode,
    post: RoutingNode,
    msg: SignedMessage,
    hop_name: XorName,
    now: u64,
    r: Result<(), RoutingError>,
    before: Seq<Action>,
    after: Seq<Action>,
) -> bool {
    if !msg.intact() {
        turned_down(pre, post, RoutingError::SignatureInvalid, r, before, after)
    } else if pre.signed_message_filter.holds(msg.signed_digest(), now) {
        turned_down(pre, post, RoutingError::FilterCheckFailed, r, before, after)
    } else {
        exists|seen: RoutingNode| #[trigger]
    noted(pre, seen, msg.signed_digest(), now) && after_routing_check(
        seen,
        post,
        msg,
        hop_name,
        now,
        r,
        before,
        after,
    )
    }
}

/// What `handle_hop_message` does: a message from a hop that fails
/// `hop_check` is turned down; any other is handled as a signed message.
pub open spec fn after_handle_hop_message(
    pre: RoutingNode,
    post: RoutingNode,
    hop: HopMessage,
    connection: Connection,
    now: u64,
    r: Result<(), RoutingError>,
    before: Seq<Action>,
    after: Seq<Action>,
) -> bool {
    match hop_check(pre, hop, connection) {
        Err(e) => turned_down(pre, post, e, r, before, after),
        Ok(_) => after_handle_signed_message(
    pre,
    post,
    hop.content,
    hop.name,
    now,
    r,
    before,
    after,
        ),
    }
}

impl RoutingNode {
    /// Hands `event` to the user.
    fn notify(&self, event: Event, actions: &mut Vec<Action>) -> (r: Result<(), RoutingError>)
        ensures
            to_user(*self, *self, event, r, old(actions)@, final(actions)@),
    {
        actions.push(Action::Notify(event));
        Ok(())
    }

    /// Handles a request that is meant for the node.
    pub fn handle_request_message(
        &mut self,
        request_msg: RequestMessage,
        now: u64,
        actions: &mut Vec<Action>,
    ) -> (r: Result<(), RoutingError>)
        requires
            old(self).wf(),
        ensures
            final(self).wf(),
            after_handle_request_message(
                *old(self),
                *final(self),
                request_msg,
                now,
                r,
                old(actions)@,
                final(actions)@,
            ),
    {
        match request_msg {
            RequestMessage {
                content: RequestContent::GetNetworkName { current_id },
                src: Authority::Client { client_key, proxy_node_name },
                dst: Authority::NaeManager(dst_name),
            } => self.handle_get_network_name_request(
                current_id,
                client_key,
                proxy_node_name,
                dst_name,
                actions,
            ),
            RequestMessage {
                content: RequestContent::ExpectCloseNode { expect_id },
                src: Authority::NaeManager(_),
                dst: Authority::NodeManager(_),
            } => self.handle_expect_close_node_request(expect_id, now),
            RequestMessage {
                content: RequestContent::GetCloseGroup,
                src: Authority::Client { client_key, proxy_node_name },
                dst: Authority::NodeManager(dst_name),
            } => self.handle_get_close_group_request(client_key, proxy_node_name, dst_name, actions),
            RequestMessage {
                content: RequestContent::Endpoints { encrypted_endpoints, nonce_bytes },
                src: Authority::Client { client_key, proxy_node_name },
                dst: Authority::ManagedNode(dst_name),
            } => self.handle_endpoints_from_client(
                encrypted_endpoints,
                nonce_bytes,
                client_key,
                proxy_node_name,
                dst_name,
                now,
                actions,
            ),
            RequestMessage {
                content: RequestContent::Endpoints { encrypted_endpoints, nonce_bytes },
                src: Authority::ManagedNode(src_name),
                dst: Authority::Client { client_key, proxy_node_name },
            } => self.handle_endpoints_from_node(
                encrypted_endpoints,
                nonce_bytes,
                src_name,
                Authority::Client { client_key, proxy_node_name },
                now,
                actions,
            ),
            RequestMessage {
                content: RequestContent::Endpoints { encrypted_endpoints, nonce_bytes },
                src: Authority::ManagedNode(src_name),
                dst: Authority::ManagedNode(dst_name),
            } => self.handle_endpoints_from_node(
                encrypted_endpoints,
                nonce_bytes,
                src_name,
                Authority::ManagedNode(dst_name),
                now,
                actions,
            ),
            RequestMessage {
                content: RequestContent::Connect,
                src: Authority::ManagedNode(src_name),
                dst: Authority::ManagedNode(dst_name),
            } => self.handle_connect_request(src_name, dst_name, now, actions),
            RequestMessage {
                content: RequestContent::GetPublicId,
                src: Authority::ManagedNode(src_name),
                dst: Authority::NodeManager(dst_name),
            } => self.handle_get_public_id(src_name, dst_name, actions),
            RequestMessage {
                content: RequestContent::GetPublicIdWithEndpoints {
                    encrypted_endpoints,
                    nonce_bytes,
                },
                src: Authority::ManagedNode(src_name),
                dst: Authority::NodeManager(dst_name),
            } => self.handle_get_public_id_with_endpoints(
                encrypted_endpoints,
                nonce_bytes,
                src_name,
                dst_name,
                actions,
            ),
            RequestMessage { content: RequestContent::Get(request), src, dst } => self.notify(
                Event::Request(RequestMessage { content: RequestContent::Get(request), src, dst }),
                actions,
            ),
            RequestMessage { content: RequestContent::Put(data), src, dst } => self.notify(
                Event::Request(RequestMessage { content: RequestContent::Put(data), src, dst }),
                actions,
            ),
            RequestMessage { content: RequestContent::Post(data), src, dst } => self.notify(
                Event::Request(RequestMessage { content: RequestContent::Post(data), src, dst }),
                actions,
            ),
            RequestMessage { content: RequestContent::Delete(data), src, dst } => self.notify(
                Event::Request(RequestMessage { content: RequestContent::Delete(data), src, dst }),
                actions,
            ),
            _ => Err(RoutingError::BadAuthority),
        }
    }

    /// Handles a response that is meant for the node.
    pub fn handle_response_message(
        &mut self,
        response_msg: ResponseMessage,
        now: u64,
        actions: &mut Vec<Action>,
    ) -> (r: Result<(), RoutingError>)
        requires
            old(self).wf(),
        ensures
            final(self).wf(),
            after_handle_response_message(
                *old(self),
                *final(self),
                response_msg,
                now,
                r,
                old(actions)@,
                final(actions)@,
            ),
    {
        match response_msg {
            ResponseMessage {
                content: ResponseContent::GetNetworkName { relocated_id },
                src: Authority::NaeManager(_),
                dst: Authority::Client { client_key, proxy_node_name },
            } => self.handle_get_network_name_response(
                relocated_id,
                client_key,
                proxy_node_name,
                actions,
            ),
            ResponseMessage {
                content: ResponseContent::GetPublicId { public_id },
                src: Authority::NodeManager(_),
                dst: Authority::ManagedNode(dst_name),
            } => self.handle_get_public_id_response(public_id, dst_name, now, actions),
            ResponseMessage {
                content: ResponseContent::GetPublicIdWithEndpoints {
                    public_id,
                    encrypted_endpoints,
                    nonce_bytes,
                },
                src: Authority::NodeManager(_),
                dst: Authority::ManagedNode(dst_name),
            } => self.handle_get_public_id_with_endpoints_response(
                public_id,
                encrypted_endpoints,
                nonce_bytes,
                dst_name,
                now,
                actions,
            ),
            ResponseMessage {
                content: ResponseContent::GetCloseGroup { close_group_ids },
                src: Authority::NodeManager(_),
                dst: Authority::Client { client_key, proxy_node_name },
            } => self.handle_get_close_group_response(
                close_group_ids,
                client_key,
                proxy_node_name,
                now,
                actions,
            ),
            ResponseMessage { content: ResponseContent::Get { result }, src, dst } => self.notify(
                Event::Response(ResponseMessage { content: ResponseContent::Get { result }, src, dst }),
                actions,
            ),
            ResponseMessage { content: ResponseContent::Put { done }, src, dst } => self.notify(
                Event::Response(ResponseMessage { content: ResponseContent::Put { done }, src, dst }),
                actions,
            ),
            ResponseMessage { content: ResponseContent::Post { done }, src, dst } => self.notify(
                Event::Response(ResponseMessage { content: ResponseContent::Post { done }, src, dst }),
                actions,
            ),
            ResponseMessage { content: ResponseContent::Delete { done }, src, dst } => self.notify(
                Event::Response(
                    ResponseMessage { content: ResponseContent::Delete { done }, src, dst },
                ),
                actions,
            ),
            _ => Err(RoutingError::BadAuthority),
        }
    }

    /// Counts the vote of `signer` for the content under `key`, with the
    /// quorum that is in force.
    pub fn accumulate(&mut self, key: XorName, signer: &PublicId, now: u64) -> (r: Outcome)
        requires
            old(self).wf(),
        ensures
            final(self).wf(),
            accumulated(
                *old(self),
                *final(self),
                crate::accumulator::tally_add(
                    quorum_in_force(*old(self)),
                    key,
                    Vote::Signed(signer.signing_public_key),
                    now,
                ).0,
            ),
            r.verdict() == crate::accumulator::tally_add(
                quorum_in_force(*old(self)),
                key,
                Vote::Signed(signer.signing_public_key),
                now,
            ).1,
    {
        if self.state == State::Node {
            let quorum = self.routing_table.dynamic_quorum_size();
            self.message_accumulator.set_quorum_size(quorum);
        }
        self.message_accumulator.add(key, Vote::Signed(signer.signing_public_key), now)
    }

    /// Handles a message that reached the node, signed by `public_id`, whose
    /// content has the key `key`.
    pub fn handle_routing_message(
        &mut self,
        routing_msg: RoutingMessage,
        public_id: PublicId,
        key: XorName,
        now: u64,
        actions: &mut Vec<Action>,
    ) -> (r: Result<(), RoutingError>)
        requires
            old(self).wf(),
        ensures
            final(self).wf(),
            after_handle_routing_message(
                *old(self),
                *final(self),
                routing_msg,
                public_id,
                key,
                now,
                r,
                old(actions)@,
                final(actions)@,
            ),
    {
        if self.message_accumulator.is_decided(&key, now) {
            return Err(RoutingError::FilterCheckFailed);
        }
        if routing_msg.src().is_group() {
            match self.accumulate(key, &public_id, now) {
                Outcome::Pending => {
                    return Err(RoutingError::NotEnoughSignatures);
                },
                Outcome::Late => {
                    return Err(RoutingError::FilterCheckFailed);
                },
                Outcome::Complete(_) => {},
            }
        }
        match routing_msg {
            RoutingMessage::Request(msg) => self.handle_request_message(msg, now, actions),
            RoutingMessage::Response(msg) => self.handle_response_message(msg, now, actions),
        }
    }

    /// Whether the sender of a signed message may speak for the source that
    /// the message names.
    pub fn signed_msg_security_check(&self, signed_msg: &SignedMessage) -> (r: Result<
        (),
        RoutingError,
    >)
        ensures
            r == security_check(*self, *signed_msg),
    {
        let src = signed_msg.content.src();
        if src.is_group() {
            if self.routing_table.try_confirm_safe_group_distance(
                src.get_name(),
                &signed_msg.public_id.name,
            ) {
                Ok(())
            } else {
                Err(RoutingError::RejectedPublicId)
            }
        } else {
            match src {
                Authority::Client { client_key, proxy_node_name: _ } => {
                    if client_key.same(&signed_msg.public_id.signing_public_key) {
                        Ok(())
                    } else {
                        Err(RoutingError::SignatureInvalid)
                    }
                },
                _ => Ok(()),
            }
        }
    }

    /// The cached data that answers `routing_msg`, if the cache holds it.
    pub fn get_from_cache(&self, routing_msg: &RoutingMessage, now: u64) -> (r: Option<
        (XorName, Vec<u8>),
    >)
        requires
            self.wf(),
        ensures
            match r {
                Some((name, content)) => cache_lookup(*self, *routing_msg, now) == Some(
                    (name, content@),
                ),
                None => cache_lookup(*self, *routing_msg, now).is_none(),
            },
    {
        match routing_msg {
            RoutingMessage::Request(
                RequestMessage {
                    content: RequestContent::Get(DataRequest { name, kind: DataKind::Immutable }),
                    src: _,
                    dst: _,
                },
            ) => match self.data_cache.get(name) {
                Some(e) => {
                    if crate::timed_map::live(e.time, now, DATA_CACHE_TTL) {
                        Some((*name, crate::bytes::copy_bytes(&e.value)))
                    } else {
                        None
                    }
                },
                None => None,
            },
            _ => None,
        }
    }

    /// Puts the immutable data that `routing_msg` brings into the cache.
    pub fn add_to_cache(&mut self, routing_msg: &RoutingMessage, now: u64)
        requires
            old(self).wf(),
        ensures
            final(self).wf(),
            cached(*old(self), *final(self), *routing_msg, now),
    {
        match routing_msg {
            RoutingMessage::Response(
                ResponseMessage {
                    content: ResponseContent::Get {
                        result: Some(Data { name, kind: DataKind::Immutable, content }),
                    },
                    src: _,
                    dst: _,
                },
            ) => {
                self.data_cache.remove_expired(now, DATA_CACHE_TTL);
                let _ = self.data_cache.insert(*name, now, crate::bytes::copy_bytes(content));
                assert(self.data_cache@.dom() =~= crate::accumulator::live_part(
                    old(self).data_cache@,
                    now,
                    DATA_CACHE_TTL,
                ).dom().insert(*name));
            },
            _ => {},
        }
    }

    /// Answers a request from the cache, or caches what the message brings
    /// and sends it on or handles it.
    fn cache_and_handle(&mut self, signed_msg: SignedMessage, now: u64, actions: &mut Vec<Action>) -> (r:
        Result<(), RoutingError>)
        requires
            old(self).wf(),
        ensures
            final(self).wf(),
            after_cache_and_handle(
                *old(self),
                *final(self),
                signed_msg,
                now,
                r,
                old(actions)@,
                final(actions)@,
            ),
    {
        match self.get_from_cache(&signed_msg.content, now) {
            Some((name, content)) => {
                actions.push(
                    Action::Send(
                        RoutingMessage::Response(
                            ResponseMessage {
                                src: Authority::ManagedNode(self.full_id.public_id.name),
                                dst: *signed_msg.content.src(),
                                content: ResponseContent::Get {
                                    result: Some(Data { name, kind: DataKind::Immutable, content }),
                                },
                            },
                        ),
                    ),
                );
                assert(final(actions)@.take(old(actions)@.len() as int) =~= old(actions)@);
                return Ok(());
            },
            None => {},
        }
        self.add_to_cache(&signed_msg.content, now);
        if !self.routing_table.is_close(signed_msg.content.dst().get_name()) {
            actions.push(Action::Resend);
            return Ok(());
        }
        let key = signed_msg.content_key();
        self.handle_routing_message(signed_msg.content, signed_msg.public_id, key, now, actions)
    }

    /// Handles a signed message that the node called `hop_name` handed on.
    pub fn handle_signed_message(
        &mut self,
        signed_msg: SignedMessage,
        hop_name: XorName,
        now: u64,
        actions: &mut Vec<Action>,
    ) -> (r: Result<(), RoutingError>)
        requires
            old(self).wf(),
        ensures
            final(self).wf(),
            after_handle_signed_message(
                *old(self),
                *final(self),
                signed_msg,
                hop_name,
                now,
                r,
                old(actions)@,
                final(actions)@,
            ),
    {
        if !signed_msg.check_integrity() {
            return Err(RoutingError::SignatureInvalid);
        }
        let digest = signed_msg.fingerprint();
        if self.signed_message_filter.contains(&digest, now) {
            return Err(RoutingError::FilterCheckFailed);
        }
        let _ = self.signed_message_filter.insert(digest, now);
        let ghost seen = *self;
        assert(noted(*old(self), seen, digest, now));
        match self.state {
            State::Node => {
                let dst = *signed_msg.content.dst();
                if self.routing_table.is_close(dst.get_name()) {
                    match self.signed_msg_security_check(&signed_msg) {
                        Err(e) => {
                            return Err(e);
                        },
                        Ok(()) => {},
                    }
                    if dst.is_group() {
                        actions.push(Action::Resend);
                    } else if !self.full_id.public_id.name.same(dst.get_name()) {
                        actions.push(Action::Resend);
                        return Ok(());
                    } else {
                        match dst {
                            Authority::Client { .. } => {
                                actions.push(Action::RelayToClient);
                                return Ok(());
                            },
                            _ => {},
                        }
                    }
                } else if !closer_to_target(&self.full_id.public_id.name, &hop_name, dst.get_name()) {
                    return Err(RoutingError::DirectionCheckFailed);
                }
                self.cache_and_handle(signed_msg, now, actions)
            },
            State::Client => {
                match signed_msg.content.dst() {
                    Authority::Client { client_key, proxy_node_name: _ } => {
                        if !self.full_id.public_id.signing_public_key.same(client_key) {
                            return Err(RoutingError::BadAuthority);
                        }
                    },
                    _ => {
                        return Err(RoutingError::BadAuthority);
                    },
                }
                let key = signed_msg.content_key();
                self.handle_routing_message(
                    signed_msg.content,
                    signed_msg.public_id,
                    key,
                    now,
                    actions,
                )
            },
            _ => Err(RoutingError::InvalidStateForOperation),
        }
    }

    /// Whether the hop that handed `hop_msg` on over `connection` is known
    /// and signed it.
    pub fn check_hop(&self, hop_msg: &HopMessage, connection: Connection) -> (r: Result<
        (),
        RoutingError,
    >)
        requires
            self.wf(),
        ensures
            r == hop_check(*self, *hop_msg, connection),
    {
        let key = match self.state {
            State::Node => {
                match self.routing_table.get(&hop_msg.name) {
                    Some(node) => node.public_id.signing_public_key,
                    None => {
                        match self.find_client_on(connection) {
                            Some(i) => self.client_map[i].0,
                            None => {
                                return Err(RoutingError::UnknownConnection);
                            },
                        }
                    },
                }
            },
            State::Client => {
                match self.find_proxy(connection) {
                    Some(i) => self.proxy_map[i].1.signing_public_key,
                    None => {
                        return Ok(());
                    },
                }
            },
            _ => {
                return Err(RoutingError::InvalidStateForOperation);
            },
        };
        if hop_msg.verify(&key) {
            Ok(())
        } else {
            Err(RoutingError::SignatureInvalid)
        }
    }

    /// Handles a message that a hop handed on over `connection`.
    pub fn handle_hop_message(
        &mut self,
        hop_msg: HopMessage,
        connection: Connection,
        now: u64,
        actions: &mut Vec<Action>,
    ) -> (r: Result<(), RoutingError>)
        requires
            old(self).wf(),
        ensures
            final(self).wf(),
            after_handle_hop_message(
                *old(self),
                *final(self),
                hop_msg,
                connection,
                now,
                r,
                old(actions)@,
                final(actions)@,
            ),
    {
        match self.check_hop(&hop_msg, connection) {
            Err(e) => Err(e),
            Ok(()) => self.handle_signed_message(hop_msg.content, hop_msg.name, now, actions),
        }
    }
}

} // verus!
