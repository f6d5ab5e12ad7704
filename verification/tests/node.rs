use overlay_core::authority::Authority;
use overlay_core::crypto::{hash_to_name, Nonce, SecretBoxKey, SecretSignKey, Signature};
use overlay_core::error::RoutingError;
use overlay_core::id::{BoxKey, PublicId, SignKey};
use overlay_core::messages::{
    encode_public_id, Data, DataKind, DataRequest, DirectMessage, HopMessage, Message,
    RequestContent, RequestMessage, ResponseContent, ResponseMessage, RoutingMessage,
    SignedMessage,
};
use overlay_core::node::{
    drop_connections, verify_signed_public_id, Action, Event, FullId, RoutingNode, State,
    TransportEvent, UserAction,
};
use overlay_core::routing_table::{AddResult, NodeInfo, RoutingTable};
use overlay_core::xor_name::XorName;
use sodiumoxide::crypto::{box_, hash::sha512, secretbox, sign};

fn full_id() -> FullId {
    let _ = sodiumoxide::init();
    let (sign_pk, sign_sk) = sign::gen_keypair();
    let (box_pk, box_sk) = box_::gen_keypair();
    FullId {
        public_id: PublicId::new(hash_to_name(&sign_pk.0), SignKey(sign_pk.0), BoxKey(box_pk.0)),
        signing_private_key: SecretSignKey(sign_sk.0),
        encrypting_private_key: SecretBoxKey(box_sk.0),
    }
}

fn full_id_named(name: XorName) -> FullId {
    let mut id = full_id();
    id.public_id.set_name(name);
    id
}

fn flipped(name: &XorName, byte: usize, mask: u8) -> XorName {
    let mut bytes = name.0;
    bytes[byte] ^= mask;
    XorName(bytes)
}

fn sign_bytes(bytes: &[u8], id: &FullId) -> Signature {
    Signature(sign::sign_detached(bytes, &sign::SecretKey(id.signing_private_key.0)).to_bytes())
}

fn signed(content: RoutingMessage, sender: &FullId) -> SignedMessage {
    let encoded = format!("{:?}", content).into_bytes();
    let signature = sign_bytes(&encoded, sender);
    SignedMessage { content, encoded, public_id: sender.public_id, signature }
}

fn hop(content: SignedMessage, by: &FullId) -> HopMessage {
    let signature = sign_bytes(&content.encoded, by);
    HopMessage { content, name: by.public_id.name, signature }
}

fn request(src: Authority, dst: Authority, content: RequestContent) -> RoutingMessage {
    RoutingMessage::Request(RequestMessage { src, dst, content })
}

fn response(src: Authority, dst: Authority, content: ResponseContent) -> RoutingMessage {
    RoutingMessage::Response(ResponseMessage { src, dst, content })
}

// A node that is the first of its network, and its identity.
fn first_node() -> (RoutingNode, FullId) {
    let id = full_id();
    let mut node = RoutingNode::new(false, id);
    assert_eq!(node.state, State::Disconnected);
    node.handle_on_accept(1);
    assert_eq!(node.state, State::Node);
    let id = node.full_id;
    (node, id)
}

fn contact(node: &mut RoutingNode, id: &FullId, connection: u64) {
    let result = node.routing_table.add_node(NodeInfo::new(id.public_id, vec![connection]));
    assert_eq!(result, AddResult::Added);
}

#[test]
fn the_first_node_takes_the_digest_of_its_name() {
    let id = full_id();
    let mut node = RoutingNode::new(false, id);
    let mut actions = Vec::new();
    node.handle_bootstrap_finished(&mut actions);
    assert_eq!(actions, vec![Action::StartListening]);
    node.handle_on_accept(7);
    assert_eq!(node.state, State::Node);
    assert_eq!(node.full_id.public_id.name, XorName(sha512::hash(&id.public_id.name.0).0));
    assert!(node.routing_table.our_name().same(&node.full_id.public_id.name));
    // a second accept changes nothing
    let name = node.full_id.public_id.name;
    node.handle_on_accept(8);
    assert_eq!(node.full_id.public_id.name, name);
    // and a node that is connected does not start to listen again
    let mut actions = Vec::new();
    node.handle_bootstrap_finished(&mut actions);
    assert!(actions.is_empty());
}

#[test]
fn a_message_that_comes_twice_is_dropped_the_second_time() {
    let (mut node, _) = first_node();
    let peer = full_id();
    contact(&mut node, &peer, 1);
    assert!(node.routing_table.add_connection(&peer.public_id.name, 2));
    let far = flipped(&node.full_id.public_id.name, 0, 0x80);
    let m = signed(
        request(
            Authority::ManagedNode(peer.public_id.name),
            Authority::ManagedNode(far),
            RequestContent::Connect,
        ),
        &peer,
    );
    let mut actions = Vec::new();
    let first = node.handle_new_message(1, Message::Hop(hop(m.clone(), &peer)), 1_000, &mut actions);
    assert_eq!(first, Ok(()));
    assert_eq!(actions, vec![Action::Resend]);
    // the same message over the other connection
    let mut actions = Vec::new();
    let second =
        node.handle_new_message(2, Message::Hop(hop(m.clone(), &peer)), 2_000, &mut actions);
    assert_eq!(second, Err(RoutingError::FilterCheckFailed));
    assert!(actions.is_empty());
    assert_eq!(node.routing_table.len(), 1);
    // after twenty minutes the message is new again
    let mut actions = Vec::new();
    let late = node.handle_new_message(1, Message::Hop(hop(m, &peer)), 1_000 + 1_200_000, &mut actions);
    assert_eq!(late, Ok(()));
    assert_eq!(actions, vec![Action::Resend]);
}

#[test]
fn a_tampered_message_is_turned_down() {
    let (mut node, _) = first_node();
    let peer = full_id();
    contact(&mut node, &peer, 1);
    let content = request(
        Authority::ManagedNode(peer.public_id.name),
        Authority::ManagedNode(node.full_id.public_id.name),
        RequestContent::Connect,
    );
    let mut m = signed(content, &peer);
    let good_hop = hop(m.clone(), &peer);
    m.encoded[0] ^= 1;
    let mut actions = Vec::new();
    // the hop signed the bytes as they are, the sender did not
    let r = node.handle_new_message(1, Message::Hop(hop(m.clone(), &peer)), 0, &mut actions);
    assert_eq!(r, Err(RoutingError::SignatureInvalid));
    // the hop's signature does not fit the bytes
    let mut bad_hop = good_hop.clone();
    bad_hop.signature.0[3] ^= 1;
    let r = node.handle_new_message(1, Message::Hop(bad_hop), 0, &mut actions);
    assert_eq!(r, Err(RoutingError::SignatureInvalid));
    assert!(!m.check_integrity());
    assert!(good_hop.content.check_integrity());
    assert!(good_hop.verify(&peer.public_id.signing_public_key));
    assert!(!good_hop.verify(&node.full_id.public_id.signing_public_key));
    assert!(actions.is_empty());
    // nothing was noted in the filter: the good message is still new
    let r = node.handle_new_message(1, Message::Hop(good_hop), 0, &mut actions);
    assert_eq!(r, Err(RoutingError::RefusedFromRoutingTable));
}

#[test]
fn a_hop_must_be_known() {
    let (mut node, _) = first_node();
    let stranger = full_id();
    let m = signed(
        request(
            Authority::ManagedNode(stranger.public_id.name),
            Authority::ManagedNode(node.full_id.public_id.name),
            RequestContent::Connect,
        ),
        &stranger,
    );
    let mut actions = Vec::new();
    let r = node.handle_hop_message(hop(m.clone(), &stranger), 4, 0, &mut actions);
    assert_eq!(r, Err(RoutingError::UnknownConnection));
    assert_eq!(node.check_hop(&hop(m.clone(), &stranger), 4), Err(RoutingError::UnknownConnection));
    // a client on the connection is known by its key
    node.client_map.push((stranger.public_id.signing_public_key, 4));
    assert_eq!(node.check_hop(&hop(m.clone(), &stranger), 4), Ok(()));
    assert_eq!(node.check_hop(&hop(m.clone(), &stranger), 5), Err(RoutingError::UnknownConnection));
    // a node that is not connected takes no message
    let mut idle = RoutingNode::new(false, full_id());
    let r = idle.handle_hop_message(hop(m, &stranger), 4, 0, &mut actions);
    assert_eq!(r, Err(RoutingError::InvalidStateForOperation));
    assert!(actions.is_empty());
}

#[test]
fn a_message_must_come_closer_to_its_destination() {
    let (mut node, our) = first_node();
    node.routing_table = RoutingTable::with_sizes(&our.public_id.name, 1, 8);
    let near = full_id_named(flipped(&our.public_id.name, 63, 1));
    let far = full_id_named(flipped(&our.public_id.name, 0, 0x80));
    contact(&mut node, &near, 1);
    contact(&mut node, &far, 2);
    let target = near.public_id.name;
    assert!(!node.routing_table.is_close(&target));
    let content = request(
        Authority::ManagedNode(far.public_id.name),
        Authority::ManagedNode(target),
        RequestContent::Connect,
    );
    // handed on by the node next to the target: we would carry it away
    let mut actions = Vec::new();
    let r = node.handle_hop_message(hop(signed(content.clone(), &far), &near), 1, 0, &mut actions);
    assert_eq!(r, Err(RoutingError::DirectionCheckFailed));
    assert!(actions.is_empty());
    // handed on by a node farther from the target than we are: sent on
    let other = request(
        Authority::ManagedNode(far.public_id.name),
        Authority::ManagedNode(target),
        RequestContent::GetPublicId,
    );
    let r = node.handle_hop_message(hop(signed(other, &far), &far), 2, 0, &mut actions);
    assert_eq!(r, Ok(()));
    assert_eq!(actions, vec![Action::Resend]);
}

#[test]
fn a_group_message_is_acted_on_when_its_quorum_is_complete() {
    let (mut node, our) = first_node();
    let members = [full_id(), full_id(), full_id()];
    for (i, m) in members.iter().enumerate() {
        contact(&mut node, m, i as u64);
    }
    assert_eq!(node.routing_table.dynamic_quorum_size(), 2);
    let joiner = full_id();
    let content = request(
        Authority::NaeManager(joiner.public_id.name),
        Authority::NodeManager(our.public_id.name),
        RequestContent::ExpectCloseNode { expect_id: joiner.public_id },
    );
    let deliver = |node: &mut RoutingNode, from: &FullId, now: u64| {
        let mut actions = Vec::new();
        let r = node.handle_hop_message(hop(signed(content.clone(), from), from), 0, now, &mut actions);
        // a message for a group is passed on to the group in any case
        assert_eq!(actions, vec![Action::Resend]);
        r
    };
    assert_eq!(deliver(&mut node, &members[0], 10), Err(RoutingError::NotEnoughSignatures));
    assert_eq!(node.expected_id(&joiner.public_id.name, 10), None);
    // the same signed message again is a replay
    let mut actions = Vec::new();
    let replay = node.handle_hop_message(
        hop(signed(content.clone(), &members[0]), &members[0]),
        0,
        11,
        &mut actions,
    );
    assert_eq!(replay, Err(RoutingError::FilterCheckFailed));
    assert!(actions.is_empty());
    // the second member completes the quorum
    assert_eq!(deliver(&mut node, &members[1], 12), Ok(()));
    assert_eq!(node.expected_id(&joiner.public_id.name, 12), Some(joiner.public_id));
    // the third is late
    assert_eq!(deliver(&mut node, &members[2], 13), Err(RoutingError::FilterCheckFailed));
    assert!(node.message_accumulator.is_decided(&signed(content.clone(), &our).content_key(), 13));
    assert_eq!(node.message_accumulator.quorum_size(), 2);
}

#[test]
fn a_client_sender_must_sign_with_the_key_it_names() {
    let (mut node, our) = first_node();
    let peer = full_id();
    let other = full_id();
    contact(&mut node, &peer, 1);
    let content = request(
        Authority::Client {
            client_key: other.public_id.signing_public_key,
            proxy_node_name: peer.public_id.name,
        },
        Authority::ManagedNode(our.public_id.name),
        RequestContent::Connect,
    );
    let m = signed(content, &peer);
    assert_eq!(node.signed_msg_security_check(&m), Err(RoutingError::SignatureInvalid));
    let mut actions = Vec::new();
    let r = node.handle_signed_message(m, peer.public_id.name, 0, &mut actions);
    assert_eq!(r, Err(RoutingError::SignatureInvalid));
    assert!(actions.is_empty());
}

#[test]
fn a_message_for_a_client_of_ours_is_relayed() {
    let (mut node, our) = first_node();
    let peer = full_id();
    contact(&mut node, &peer, 1);
    let client = full_id();
    let content = response(
        Authority::ManagedNode(peer.public_id.name),
        Authority::Client {
            client_key: client.public_id.signing_public_key,
            proxy_node_name: our.public_id.name,
        },
        ResponseContent::Put { done: true },
    );
    let mut actions = Vec::new();
    let r = node.handle_signed_message(signed(content, &peer), peer.public_id.name, 0, &mut actions);
    assert_eq!(r, Ok(()));
    assert_eq!(actions, vec![Action::RelayToClient]);
}

#[test]
fn requests_of_users_reach_the_user_and_others_are_turned_down() {
    let (mut node, our) = first_node();
    let src = Authority::ManagedNode(XorName([3; 64]));
    let dst = Authority::ManagedNode(our.public_id.name);
    let data = Data { name: XorName([9; 64]), kind: DataKind::Plain, content: vec![1, 2, 3] };
    let mut actions = Vec::new();
    let put = RequestMessage { src, dst, content: RequestContent::Put(data.clone()) };
    assert_eq!(node.handle_request_message(put.clone(), 0, &mut actions), Ok(()));
    assert_eq!(actions, vec![Action::Notify(Event::Request(put))]);
    let answer =
        ResponseMessage { src, dst, content: ResponseContent::Get { result: Some(data) } };
    let mut actions = Vec::new();
    assert_eq!(node.handle_response_message(answer.clone(), 0, &mut actions), Ok(()));
    assert_eq!(actions, vec![Action::Notify(Event::Response(answer))]);
    // a row that the table does not have
    let mut actions = Vec::new();
    let odd = RequestMessage { src, dst, content: RequestContent::GetCloseGroup };
    assert_eq!(node.handle_request_message(odd, 0, &mut actions), Err(RoutingError::BadAuthority));
    let odd = ResponseMessage {
        src,
        dst,
        content: ResponseContent::GetPublicId { public_id: our.public_id },
    };
    assert_eq!(node.handle_response_message(odd, 0, &mut actions), Err(RoutingError::BadAuthority));
    assert!(actions.is_empty());
}

#[test]
fn immutable_data_is_answered_from_the_cache() {
    let (mut node, our) = first_node();
    node.routing_table = RoutingTable::with_sizes(&our.public_id.name, 1, 8);
    let near = full_id_named(flipped(&our.public_id.name, 63, 1));
    let far = full_id_named(flipped(&our.public_id.name, 0, 0x80));
    contact(&mut node, &near, 1);
    contact(&mut node, &far, 2);
    let target = near.public_id.name;
    let name = XorName([0x11; 64]);
    let data = Data { name, kind: DataKind::Immutable, content: vec![4, 5, 6] };
    // a response with immutable data passes through: it is cached and sent on
    let passing = response(
        Authority::ManagedNode(far.public_id.name),
        Authority::ManagedNode(target),
        ResponseContent::Get { result: Some(data.clone()) },
    );
    let mut actions = Vec::new();
    let r = node.handle_hop_message(hop(signed(passing, &far), &far), 2, 100, &mut actions);
    assert_eq!(r, Ok(()));
    assert_eq!(actions, vec![Action::Resend]);
    // a request for it is answered on the spot
    let asker = Authority::ManagedNode(far.public_id.name);
    let asking = request(
        asker,
        Authority::ManagedNode(target),
        RequestContent::Get(DataRequest { name, kind: DataKind::Immutable }),
    );
    assert_eq!(node.get_from_cache(&asking, 200), Some((name, vec![4, 5, 6])));
    let mut actions = Vec::new();
    let r = node.handle_hop_message(hop(signed(asking.clone(), &far), &far), 2, 200, &mut actions);
    assert_eq!(r, Ok(()));
    let answer = response(
        Authority::ManagedNode(our.public_id.name),
        asker,
        ResponseContent::Get { result: Some(data) },
    );
    assert_eq!(actions, vec![Action::Send(answer)]);
    // ten minutes after it was cached the data is gone
    assert_eq!(node.get_from_cache(&asking, 100 + 600_000), None);
    // other kinds of data are not cached
    let plain = response(
        asker,
        Authority::ManagedNode(target),
        ResponseContent::Get {
            result: Some(Data { name: XorName([0x12; 64]), kind: DataKind::Plain, content: vec![1] }),
        },
    );
    node.add_to_cache(&plain, 300);
    let asking = request(
        asker,
        Authority::ManagedNode(target),
        RequestContent::Get(DataRequest { name: XorName([0x12; 64]), kind: DataKind::Immutable }),
    );
    assert_eq!(node.get_from_cache(&asking, 300), None);
}

#[test]
fn a_node_joins_through_relocation() {
    let (mut server, server_id) = first_node();
    let client_id = full_id();
    let mut client = RoutingNode::new(false, client_id);
    let now = 50_000;

    // the client connects and announces itself
    let mut actions = Vec::new();
    client.handle_on_connect(Some(5), &mut actions);
    assert_eq!(client.state, State::Bootstrapping);
    let announcement = match actions.pop() {
        Some(Action::SendDirect(5, m @ DirectMessage::ClientIdentify { .. })) => m,
        other => panic!("unexpected {:?}", other),
    };
    assert!(actions.is_empty());

    // the server takes it as a client and tells who it is
    let mut actions = Vec::new();
    assert_eq!(server.handle_direct_message(announcement, 9, now, &mut actions), Ok(()));
    assert_eq!(server.client_map, vec![(client_id.public_id.signing_public_key, 9)]);
    let told = DirectMessage::BootstrapIdentify {
        public_id: server_id.public_id,
        current_quorum_size: 2,
    };
    assert_eq!(actions, vec![Action::SendDirect(9, told.clone())]);

    // the client has its proxy and asks for a name
    let mut actions = Vec::new();
    assert_eq!(client.handle_direct_message(told, 5, now, &mut actions), Ok(()));
    assert_eq!(client.state, State::Client);
    assert_eq!(client.proxy_map, vec![(5, server_id.public_id)]);
    assert_eq!(client.message_accumulator.quorum_size(), 2);
    let as_client = Authority::Client {
        client_key: client_id.public_id.signing_public_key,
        proxy_node_name: server_id.public_id.name,
    };
    assert_eq!(client.get_client_authority(), Ok(as_client));
    let ask = RequestMessage {
        src: as_client,
        dst: Authority::NaeManager(client_id.public_id.name),
        content: RequestContent::GetNetworkName { current_id: client_id.public_id },
    };
    assert_eq!(actions, vec![Action::Send(RoutingMessage::Request(ask.clone()))]);

    // the group computes the name from its membership and says to expect it
    let mut actions = Vec::new();
    assert_eq!(server.handle_request_message(ask, now, &mut actions), Ok(()));
    let mut seed = client_id.public_id.name.0.to_vec();
    seed.extend_from_slice(&server_id.public_id.name.0);
    let relocated = XorName(sha512::hash(&seed).0);
    let mut relocated_id = client_id.public_id;
    relocated_id.set_name(relocated);
    let answer = ResponseMessage {
        src: Authority::NaeManager(client_id.public_id.name),
        dst: as_client,
        content: ResponseContent::GetNetworkName { relocated_id },
    };
    let expect = RequestMessage {
        src: Authority::NaeManager(client_id.public_id.name),
        dst: Authority::NodeManager(relocated),
        content: RequestContent::ExpectCloseNode { expect_id: relocated_id },
    };
    assert_eq!(
        actions,
        vec![
            Action::Send(RoutingMessage::Response(answer.clone())),
            Action::Send(RoutingMessage::Request(expect.clone())),
        ]
    );
    let mut actions = Vec::new();
    assert_eq!(server.handle_request_message(expect.clone(), now, &mut actions), Ok(()));
    assert!(actions.is_empty());
    // told twice, the group member turns the second notice down
    assert_eq!(
        server.handle_request_message(expect, now, &mut actions),
        Err(RoutingError::RejectedPublicId)
    );

    // the client takes the name, becomes a node and asks for its group
    let mut actions = Vec::new();
    assert_eq!(client.handle_response_message(answer, now, &mut actions), Ok(()));
    assert_eq!(client.state, State::Node);
    assert_eq!(client.full_id.public_id, relocated_id);
    assert!(client.routing_table.our_name().same(&relocated));
    let ask = RequestMessage {
        src: as_client,
        dst: Authority::NodeManager(relocated),
        content: RequestContent::GetCloseGroup,
    };
    assert_eq!(actions, vec![Action::Send(RoutingMessage::Request(ask.clone()))]);
    let mut actions = Vec::new();
    assert_eq!(server.handle_request_message(ask, now, &mut actions), Ok(()));
    let group = ResponseMessage {
        src: Authority::NodeManager(relocated),
        dst: as_client,
        content: ResponseContent::GetCloseGroup { close_group_ids: vec![server_id.public_id] },
    };
    assert_eq!(actions, vec![Action::Send(RoutingMessage::Response(group.clone()))]);

    // the client listens and has its endpoints sent to the member
    let mut actions = Vec::new();
    assert_eq!(client.handle_response_message(group, now, &mut actions), Ok(()));
    let to_server = Authority::ManagedNode(server_id.public_id.name);
    assert_eq!(
        actions,
        vec![
            Action::StartListening,
            Action::SendEndpoints { their_id: server_id.public_id, src: as_client, dst: to_server },
        ]
    );
    assert_eq!(client.expected_id(&server_id.public_id.name, now), Some(server_id.public_id));
    let sealed = client.endpoints_request(&server_id.public_id, as_client, to_server, b"tcp://client");
    let sealed = match sealed {
        RoutingMessage::Request(m) => m,
        other => panic!("unexpected {:?}", other),
    };
    match &sealed.content {
        RequestContent::Endpoints { encrypted_endpoints, .. } => {
            assert_ne!(encrypted_endpoints.as_slice(), b"tcp://client");
            assert_eq!(encrypted_endpoints.len(), b"tcp://client".len() + box_::MACBYTES);
        }
        other => panic!("unexpected {:?}", other),
    }

    // the member opens them, connects and has its own endpoints sent back
    let mut actions = Vec::new();
    assert_eq!(server.handle_request_message(sealed, now, &mut actions), Ok(()));
    assert_eq!(
        actions,
        vec![
            Action::Connect(b"tcp://client".to_vec()),
            Action::SendEndpoints { their_id: relocated_id, src: to_server, dst: as_client },
        ]
    );

    // the connection comes about and both announce themselves as nodes
    let mut actions = Vec::new();
    client.handle_on_connect(Some(6), &mut actions);
    let announcement = match actions.pop() {
        Some(Action::SendDirect(6, m @ DirectMessage::NodeIdentify { .. })) => m,
        other => panic!("unexpected {:?}", other),
    };
    let mut actions = Vec::new();
    assert_eq!(server.handle_direct_message(announcement.clone(), 10, now, &mut actions), Ok(()));
    assert_eq!(server.routing_table.len(), 1);
    let entry = server.routing_table.get(&relocated).expect("the joiner is a contact");
    assert_eq!(entry.public_id, relocated_id);
    assert_eq!(entry.connections, vec![10]);
    let back = match actions.pop() {
        Some(Action::SendDirect(10, m @ DirectMessage::NodeIdentify { .. })) => m,
        other => panic!("unexpected {:?}", other),
    };
    assert!(actions.is_empty());
    // the same announcement over the same connection changes nothing
    assert_eq!(server.handle_direct_message(announcement.clone(), 10, now, &mut actions), Ok(()));
    assert!(actions.is_empty());
    // over another connection the contact gains the connection
    assert_eq!(server.handle_direct_message(announcement, 11, now, &mut actions), Ok(()));
    assert_eq!(server.routing_table.get(&relocated).map(|n| n.connections.clone()), Some(vec![10, 11]));
    assert_eq!(actions.len(), 1);

    let mut actions = Vec::new();
    assert_eq!(client.handle_direct_message(back, 6, now, &mut actions), Ok(()));
    assert_eq!(client.routing_table.len(), 1);
    assert!(client.routing_table.get(&server_id.public_id.name).is_some());
    assert!(matches!(
        actions.as_slice(),
        [Action::SendDirect(6, DirectMessage::NodeIdentify { .. })]
    ));

    // when the connections break the contact leaves
    server.handle_lost_connection(10);
    assert_eq!(server.routing_table.len(), 1);
    server.handle_lost_connection(11);
    assert_eq!(server.routing_table.len(), 0);
    server.handle_lost_connection(9);
    assert!(server.client_map.is_empty());
    client.handle_lost_connection(5);
    assert!(client.proxy_map.is_empty());
    assert_eq!(client.get_client_authority(), Err(RoutingError::NotBootstrapped));
}

#[test]
fn a_request_for_a_name_must_reach_the_right_group() {
    let (node, _) = first_node();
    let joiner = full_id();
    let mut actions = Vec::new();
    let r = node.handle_get_network_name_request(
        joiner.public_id,
        joiner.public_id.signing_public_key,
        XorName([1; 64]),
        XorName([2; 64]),
        &mut actions,
    );
    assert_eq!(r, Err(RoutingError::InvalidDestination));
    assert!(actions.is_empty());
}

#[test]
fn an_unexpected_node_is_turned_away() {
    let (mut server, _) = first_node();
    let stranger = RoutingNode::new(false, full_id());
    let mut actions = Vec::new();
    stranger.node_identify(3, &mut actions);
    let announcement = match actions.pop() {
        Some(Action::SendDirect(3, m)) => m,
        other => panic!("unexpected {:?}", other),
    };
    let mut actions = Vec::new();
    assert_eq!(server.handle_direct_message(announcement.clone(), 8, 0, &mut actions), Ok(()));
    assert_eq!(actions, vec![Action::DropConnection(8)]);
    assert_eq!(server.routing_table.len(), 0);
    // expected under the name, but with another key
    let mut other = full_id().public_id;
    other.set_name(stranger.full_id.public_id.name);
    assert_eq!(server.handle_expect_close_node_request(other, 0), Ok(()));
    let mut actions = Vec::new();
    assert_eq!(server.handle_direct_message(announcement.clone(), 8, 1, &mut actions), Ok(()));
    assert_eq!(actions, vec![Action::DropConnection(8)]);
    // expected, but too long ago
    assert!(server.remember_id(stranger.full_id.public_id, 2));
    let mut actions = Vec::new();
    assert_eq!(server.handle_direct_message(announcement, 8, 2 + 600_000, &mut actions), Ok(()));
    assert_eq!(actions, vec![Action::DropConnection(8)]);
}

#[test]
fn announcements_must_be_signed_by_their_own_key() {
    let id = full_id();
    let bytes = encode_public_id(&id.public_id);
    assert_eq!(bytes.len(), 128);
    let good = sign_bytes(&bytes, &id);
    assert_eq!(verify_signed_public_id(&bytes, &good), Ok(id.public_id));
    let forged = sign_bytes(&bytes, &full_id());
    assert_eq!(verify_signed_public_id(&bytes, &forged), Err(RoutingError::SignatureInvalid));
    assert_eq!(verify_signed_public_id(&bytes[1..], &good), Err(RoutingError::SerializationFailure));
    // a client whose name is not the digest of its key, and a forged one
    let (mut server, _) = first_node();
    let odd = RoutingNode::new(false, full_id_named(XorName([1; 64])));
    let mut actions = Vec::new();
    odd.client_identify(3, &mut actions);
    let announcement = match actions.pop() {
        Some(Action::SendDirect(3, m)) => m,
        other => panic!("unexpected {:?}", other),
    };
    assert_eq!(server.handle_direct_message(announcement, 8, 0, &mut actions), Ok(()));
    let forged = DirectMessage::ClientIdentify { serialised_public_id: bytes, signature: forged };
    assert_eq!(server.handle_direct_message(forged, 9, 0, &mut actions), Ok(()));
    assert_eq!(actions, vec![Action::DropConnection(8), Action::DropConnection(9)]);
    assert!(server.client_map.is_empty());
}

#[test]
fn a_client_that_connects_again_loses_its_old_connection() {
    let (mut server, server_id) = first_node();
    let client = RoutingNode::new(true, full_id());
    let mut actions = Vec::new();
    client.client_identify(3, &mut actions);
    let announcement = match actions.pop() {
        Some(Action::SendDirect(3, m)) => m,
        other => panic!("unexpected {:?}", other),
    };
    let mut actions = Vec::new();
    assert_eq!(server.handle_direct_message(announcement.clone(), 8, 0, &mut actions), Ok(()));
    assert_eq!(server.handle_direct_message(announcement, 9, 0, &mut actions), Ok(()));
    let told = |c| {
        Action::SendDirect(
            c,
            DirectMessage::BootstrapIdentify { public_id: server_id.public_id, current_quorum_size: 2 },
        )
    };
    assert_eq!(actions, vec![told(8), Action::DropConnection(8), told(9)]);
    assert_eq!(server.client_map, vec![(client.full_id.public_id.signing_public_key, 9)]);
}

#[test]
fn a_restricted_client_stays_a_client() {
    let (_, server_id) = first_node();
    let mut client = RoutingNode::new(true, full_id());
    let mut actions = Vec::new();
    client.handle_on_connect(None, &mut actions);
    assert_eq!(client.state, State::Disconnected);
    client.handle_on_connect(Some(5), &mut actions);
    actions.clear();
    let told =
        DirectMessage::BootstrapIdentify { public_id: server_id.public_id, current_quorum_size: 3 };
    assert_eq!(client.handle_direct_message(told.clone(), 5, 0, &mut actions), Ok(()));
    assert_eq!(actions, vec![Action::Notify(Event::Connected)]);
    assert_eq!(client.state, State::Client);
    // a second proxy on the same connection is not taken; the first one goes
    let mut actions = Vec::new();
    assert_eq!(client.handle_direct_message(told, 5, 0, &mut actions), Ok(()));
    assert_eq!(actions, vec![Action::DropConnection(5)]);
    assert!(client.proxy_map.is_empty());
    // one that shows a name that no network gave it is no node
    let plain = full_id();
    let told = DirectMessage::BootstrapIdentify { public_id: plain.public_id, current_quorum_size: 3 };
    let mut actions = Vec::new();
    assert_eq!(client.handle_direct_message(told, 6, 0, &mut actions), Ok(()));
    assert_eq!(actions, vec![Action::DropConnection(6)]);
    // a client takes only what is addressed to its key
    let stranger = full_id();
    let content = response(
        Authority::ManagedNode(stranger.public_id.name),
        Authority::ManagedNode(client.full_id.public_id.name),
        ResponseContent::Put { done: true },
    );
    let mut actions = Vec::new();
    let r = client.handle_signed_message(signed(content, &stranger), XorName([0; 64]), 0, &mut actions);
    assert_eq!(r, Err(RoutingError::BadAuthority));
    let to_us = Authority::Client {
        client_key: client.full_id.public_id.signing_public_key,
        proxy_node_name: server_id.public_id.name,
    };
    let content = response(
        Authority::ManagedNode(stranger.public_id.name),
        to_us,
        ResponseContent::Put { done: true },
    );
    let r = client.handle_signed_message(signed(content.clone(), &stranger), XorName([0; 64]), 0, &mut actions);
    assert_eq!(r, Ok(()));
    assert_eq!(actions, vec![Action::Notify(Event::Response(match content {
        RoutingMessage::Response(m) => m,
        RoutingMessage::Request(_) => unreachable!(),
    }))]);
}

#[test]
fn sealed_endpoints_open_only_for_the_peer_they_were_sealed_to() {
    let a = RoutingNode::new(false, full_id());
    let b = RoutingNode::new(false, full_id());
    let c = RoutingNode::new(false, full_id());
    let src = Authority::ManagedNode(a.full_id.public_id.name);
    let dst = Authority::ManagedNode(b.full_id.public_id.name);
    let msg = a.sealed_endpoints_request(&b.full_id.public_id, src, dst, b"endpoints", Nonce([7; 24]));
    let (cipher, nonce) = match msg {
        RoutingMessage::Request(RequestMessage {
            content: RequestContent::Endpoints { encrypted_endpoints, nonce_bytes },
            src: s,
            dst: d,
        }) => {
            assert_eq!((s, d), (src, dst));
            (encrypted_endpoints, nonce_bytes)
        }
        other => panic!("unexpected {:?}", other),
    };
    assert_eq!(nonce, [7; 24]);
    let mut actions = Vec::new();
    let key = a.full_id.public_id.encrypting_public_key;
    assert_eq!(b.connect(&cipher, nonce, &key, &mut actions), Ok(()));
    assert_eq!(actions, vec![Action::Connect(b"endpoints".to_vec())]);
    let mut actions = Vec::new();
    assert_eq!(
        c.connect(&cipher, nonce, &key, &mut actions),
        Err(RoutingError::AsymmetricDecryptionFailure)
    );
    assert_eq!(
        b.connect(&cipher, [8; 24], &key, &mut actions),
        Err(RoutingError::AsymmetricDecryptionFailure)
    );
    assert_eq!(
        b.connect(&vec![1, 2, 3], nonce, &key, &mut actions),
        Err(RoutingError::AsymmetricDecryptionFailure)
    );
    assert!(actions.is_empty());
    // two requests for the same endpoints differ in their nonces
    let one = a.endpoints_request(&b.full_id.public_id, src, dst, b"endpoints");
    let two = a.endpoints_request(&b.full_id.public_id, src, dst, b"endpoints");
    assert_ne!(one, two);
}

#[test]
fn churn_asks_the_wanted_nodes_to_connect() {
    let (mut node, our) = first_node();
    let known = full_id();
    contact(&mut node, &known, 1);
    let a = XorName([1; 64]);
    let b = XorName([2; 64]);
    let c = XorName([3; 64]);
    let connect = |to: XorName| {
        Action::Send(request(
            Authority::ManagedNode(our.public_id.name),
            Authority::ManagedNode(to),
            RequestContent::Connect,
        ))
    };
    // the notice ends in peace at the first name that the table does not want
    let mut actions = Vec::new();
    let r = node.handle_churn(&vec![a, b, known.public_id.name, c], 0, &mut actions);
    assert_eq!(r, Ok(()));
    assert_eq!(actions, vec![connect(a), connect(b)]);
    // within twenty seconds a name that was seen ends the notice as a duplicate
    let mut actions = Vec::new();
    let r = node.handle_churn(&vec![c, a, XorName([4; 64])], 19_999, &mut actions);
    assert_eq!(r, Err(RoutingError::FilterCheckFailed));
    assert_eq!(actions, vec![connect(c)]);
    // after that the names are new again
    let mut actions = Vec::new();
    let r = node.handle_churn(&vec![a], 20_000, &mut actions);
    assert_eq!(r, Ok(()));
    assert_eq!(actions, vec![connect(a)]);
    // the result of a notice that arrives as a message is dropped
    let mut actions = Vec::new();
    let notice = DirectMessage::Churn { close_group: vec![a, a] };
    assert_eq!(node.handle_direct_message(notice, 1, 20_001, &mut actions), Ok(()));
    assert!(actions.is_empty());
    // the cause of a churn is noted for five minutes
    assert_eq!(node.handle_refresh(a, 0), Ok(()));
    assert_eq!(node.handle_refresh(a, 299_999), Err(RoutingError::FilterCheckFailed));
    assert_eq!(node.handle_refresh(a, 300_000), Ok(()));
}

#[test]
fn connect_requests_are_answered_by_what_the_node_knows() {
    let (mut node, our) = first_node();
    let known = full_id();
    contact(&mut node, &known, 1);
    let asking = full_id();
    let name = asking.public_id.name;
    let mut actions = Vec::new();
    // a contact, and the node itself, are refused
    assert_eq!(
        node.handle_connect_request(known.public_id.name, our.public_id.name, 0, &mut actions),
        Err(RoutingError::RefusedFromRoutingTable)
    );
    assert_eq!(
        node.handle_connect_request(our.public_id.name, our.public_id.name, 0, &mut actions),
        Err(RoutingError::RefusedFromRoutingTable)
    );
    assert!(actions.is_empty());
    // an unknown node: ask its group for its identity
    assert_eq!(node.handle_connect_request(name, our.public_id.name, 0, &mut actions), Ok(()));
    assert_eq!(
        actions,
        vec![Action::Send(request(
            Authority::ManagedNode(our.public_id.name),
            Authority::NodeManager(name),
            RequestContent::GetPublicId,
        ))]
    );
    // the group member that knows the node answers, others do not
    let mut actions = Vec::new();
    assert_eq!(
        node.handle_get_public_id(XorName([1; 64]), known.public_id.name, &mut actions),
        Ok(())
    );
    assert_eq!(
        actions,
        vec![Action::Send(response(
            Authority::NodeManager(known.public_id.name),
            Authority::ManagedNode(XorName([1; 64])),
            ResponseContent::GetPublicId { public_id: known.public_id },
        ))]
    );
    let mut actions = Vec::new();
    assert_eq!(
        node.handle_get_public_id(XorName([1; 64]), name, &mut actions),
        Err(RoutingError::RejectedPublicId)
    );
    assert_eq!(
        node.handle_get_public_id_with_endpoints(vec![1], [0; 24], XorName([1; 64]), name, &mut actions),
        Err(RoutingError::RejectedPublicId)
    );
    // with the identity in hand the node has its endpoints sent
    assert_eq!(
        node.handle_get_public_id_response(asking.public_id, our.public_id.name, 5, &mut actions),
        Ok(())
    );
    let send = Action::SendEndpoints {
        their_id: asking.public_id,
        src: Authority::ManagedNode(our.public_id.name),
        dst: Authority::ManagedNode(name),
    };
    assert_eq!(actions, vec![send.clone()]);
    let mut actions = Vec::new();
    assert_eq!(node.handle_connect_request(name, our.public_id.name, 6, &mut actions), Ok(()));
    assert_eq!(actions, vec![send]);
    assert_eq!(
        node.handle_get_public_id_response(known.public_id, our.public_id.name, 5, &mut actions),
        Err(RoutingError::RefusedFromRoutingTable)
    );
}

#[test]
fn endpoints_from_a_node_are_opened_or_passed_back_for_its_identity() {
    let (mut node, our) = first_node();
    let peer = RoutingNode::new(false, full_id());
    let name = peer.full_id.public_id.name;
    let us = Authority::ManagedNode(our.public_id.name);
    let them = Authority::ManagedNode(name);
    let sealed = peer.sealed_endpoints_request(&our.public_id, them, us, b"udp://peer", Nonce([1; 24]));
    let (cipher, nonce) = match sealed {
        RoutingMessage::Request(RequestMessage {
            content: RequestContent::Endpoints { encrypted_endpoints, nonce_bytes },
            ..
        }) => (encrypted_endpoints, nonce_bytes),
        other => panic!("unexpected {:?}", other),
    };
    // unknown sender: the endpoints travel back with the question for its identity
    let mut actions = Vec::new();
    let r = node.handle_endpoints_from_node(cipher.clone(), nonce, name, us, 0, &mut actions);
    assert_eq!(r, Ok(()));
    assert_eq!(
        actions,
        vec![Action::Send(request(
            us,
            them,
            RequestContent::GetPublicIdWithEndpoints {
                encrypted_endpoints: cipher.clone(),
                nonce_bytes: nonce,
            },
        ))]
    );
    // the answer brings the identity: send our endpoints, open theirs
    let mut actions = Vec::new();
    let r = node.handle_get_public_id_with_endpoints_response(
        peer.full_id.public_id,
        cipher.clone(),
        nonce,
        our.public_id.name,
        1,
        &mut actions,
    );
    assert_eq!(r, Ok(()));
    assert_eq!(
        actions,
        vec![
            Action::SendEndpoints { their_id: peer.full_id.public_id, src: us, dst: them },
            Action::Connect(b"udp://peer".to_vec()),
        ]
    );
    // now the sender is known
    let mut actions = Vec::new();
    let r = node.handle_endpoints_from_node(cipher.clone(), nonce, name, us, 2, &mut actions);
    assert_eq!(r, Ok(()));
    assert_eq!(actions, vec![Action::Connect(b"udp://peer".to_vec())]);
    // once the sender is a contact the table refuses, and the identity is forgotten
    contact(&mut node, &peer.full_id, 4);
    let mut actions = Vec::new();
    let r = node.handle_endpoints_from_node(cipher.clone(), nonce, name, us, 3, &mut actions);
    assert_eq!(r, Err(RoutingError::RefusedFromRoutingTable));
    assert_eq!(node.expected_id(&name, 3), None);
    // a joining node that nobody announced
    let r = node.handle_endpoints_from_client(
        cipher,
        nonce,
        peer.full_id.public_id.signing_public_key,
        our.public_id.name,
        our.public_id.name,
        3,
        &mut actions,
    );
    assert_eq!(r, Err(RoutingError::RejectedPublicId));
    assert!(actions.is_empty());
}

#[test]
fn an_evicted_contact_has_its_connections_closed() {
    let (mut node, our) = first_node();
    node.routing_table = RoutingTable::with_sizes(&our.public_id.name, 8, 1);
    // both names differ from ours in the first bit; the second is closer
    let far = full_id_named(flipped(&flipped(&our.public_id.name, 0, 0x80), 0, 0x40));
    let near = RoutingNode::new(false, full_id_named(flipped(&our.public_id.name, 0, 0x80)));
    contact(&mut node, &far, 1);
    assert!(node.routing_table.add_connection(&far.public_id.name, 2));
    assert!(!node.remember_id(near.full_id.public_id, 0));
    let mut actions = Vec::new();
    near.node_identify(3, &mut actions);
    let announcement = match actions.pop() {
        Some(Action::SendDirect(3, m)) => m,
        other => panic!("unexpected {:?}", other),
    };
    let mut actions = Vec::new();
    assert_eq!(node.handle_direct_message(announcement, 7, 1, &mut actions), Ok(()));
    assert_eq!(actions.len(), 3);
    assert_eq!(actions[0], Action::DropConnection(1));
    assert_eq!(actions[1], Action::DropConnection(2));
    assert!(matches!(actions[2], Action::SendDirect(7, DirectMessage::NodeIdentify { .. })));
    assert!(node.routing_table.get(&far.public_id.name).is_none());
    assert!(node.routing_table.get(&near.full_id.public_id.name).is_some());
    // a candidate that the table turns away is dropped and forgotten
    let farther = RoutingNode::new(false, full_id_named(flipped(&far.public_id.name, 0, 0x20)));
    assert!(!node.remember_id(farther.full_id.public_id, 2));
    let mut actions = Vec::new();
    farther.node_identify(3, &mut actions);
    let announcement = match actions.pop() {
        Some(Action::SendDirect(3, m)) => m,
        other => panic!("unexpected {:?}", other),
    };
    assert_eq!(node.handle_direct_message(announcement, 8, 3, &mut actions), Ok(()));
    assert_eq!(actions, vec![Action::DropConnection(8)]);
    assert_eq!(node.expected_id(&farther.full_id.public_id.name, 3), None);
    let mut more = Vec::new();
    drop_connections(&vec![4, 5], &mut more);
    assert_eq!(more, vec![Action::DropConnection(4), Action::DropConnection(5)]);
}

#[test]
fn events_and_actions_reach_their_handlers() {
    let mut node = RoutingNode::new(false, full_id());
    let mut actions = Vec::new();
    node.handle_transport_event(TransportEvent::BootstrapFinished, 0, &mut actions);
    assert_eq!(actions, vec![Action::StartListening]);
    // without a proxy nothing can be sent as a client
    let mut actions = Vec::new();
    let dst = Authority::NaeManager(XorName([1; 64]));
    let get = RequestContent::Get(DataRequest { name: XorName([1; 64]), kind: DataKind::Plain });
    assert_eq!(
        node.client_send_content(dst, get.clone(), &mut actions),
        Err(RoutingError::NotBootstrapped)
    );
    assert_eq!(node.relocate(&mut actions), Err(RoutingError::NotBootstrapped));
    assert!(node.handle_user_action(UserAction::ClientSendContent(dst, get.clone()), &mut actions));
    assert!(node.handle_user_action(UserAction::SendContent(dst, dst, get.clone()), &mut actions));
    assert!(actions.is_empty());
    node.handle_transport_event(TransportEvent::OnConnect(Some(4), 0), 0, &mut actions);
    assert_eq!(node.state, State::Bootstrapping);
    assert!(matches!(
        actions.as_slice(),
        [Action::SendDirect(4, DirectMessage::ClientIdentify { .. })]
    ));
    let (_, proxy) = first_node();
    let told =
        DirectMessage::BootstrapIdentify { public_id: proxy.public_id, current_quorum_size: 2 };
    let mut actions = Vec::new();
    node.handle_transport_event(TransportEvent::NewMessage(4, Message::Direct(told)), 0, &mut actions);
    assert_eq!(node.state, State::Client);
    let mut actions = Vec::new();
    assert!(node.handle_user_action(UserAction::ClientSendContent(dst, get.clone()), &mut actions));
    let src = Authority::Client {
        client_key: node.full_id.public_id.signing_public_key,
        proxy_node_name: proxy.public_id.name,
    };
    assert_eq!(actions, vec![Action::Send(request(src, dst, get))]);
    node.handle_transport_event(TransportEvent::LostConnection(4), 0, &mut actions);
    assert!(node.proxy_map.is_empty());
    let mut fresh = RoutingNode::new(false, full_id());
    fresh.handle_transport_event(TransportEvent::OnAccept(1), 0, &mut actions);
    assert_eq!(fresh.state, State::Node);
    let mut actions = Vec::new();
    assert!(!node.handle_user_action(UserAction::Terminate, &mut actions));
    assert_eq!(actions, vec![Action::Notify(Event::Terminated), Action::Stop]);
}

#[test]
fn messages_leave_over_the_connections_that_lead_to_their_destination() {
    let (mut node, our) = first_node();
    node.routing_table = RoutingTable::with_sizes(&our.public_id.name, 1, 8);
    let near = full_id_named(flipped(&our.public_id.name, 63, 1));
    let far = full_id_named(flipped(&our.public_id.name, 0, 0x80));
    contact(&mut node, &far, 2);
    contact(&mut node, &near, 1);
    assert!(node.routing_table.add_connection(&near.public_id.name, 3));
    // the close group has one member: the contact nearest to the name
    assert_eq!(node.send_targets(&Authority::ManagedNode(near.public_id.name)), vec![1, 3]);
    assert_eq!(node.send_targets(&Authority::NodeManager(our.public_id.name)), vec![1, 3]);
    assert_eq!(node.send_targets(&Authority::NaeManager(far.public_id.name)), vec![2]);
    assert_eq!(node.routing_table.target_connections(&far.public_id.name), vec![2]);
    // a client of ours is reached directly, an unknown one through its proxy
    let key = SignKey([9; 32]);
    let client = Authority::Client { client_key: key, proxy_node_name: far.public_id.name };
    assert_eq!(node.send_targets(&client), vec![2]);
    node.client_map.push((key, 77));
    assert_eq!(node.send_targets(&client), vec![77]);
    // a client sends everything to its proxies, a lone node nothing
    let mut lone = RoutingNode::new(true, full_id());
    assert!(lone.send_targets(&client).is_empty());
    lone.proxy_map.push((5, far.public_id));
    lone.proxy_map.push((6, near.public_id));
    assert!(lone.send_targets(&client).is_empty());
    lone.state = State::Client;
    assert_eq!(lone.send_targets(&client), vec![5, 6]);
}

#[test]
fn sealing_to_a_key_without_shared_key_is_sealing_under_the_zero_key() {
    let a = RoutingNode::new(false, full_id());
    let mut weak = full_id().public_id;
    weak.encrypting_public_key = BoxKey([0; 32]);
    let src = Authority::ManagedNode(a.full_id.public_id.name);
    let dst = Authority::ManagedNode(weak.name);
    let one = a.sealed_endpoints_request(&weak, src, dst, b"endpoints", Nonce([7; 24]));
    let two = a.sealed_endpoints_request(&weak, src, dst, b"endpoints", Nonce([7; 24]));
    assert_eq!(one, two);
    let expected = secretbox::seal(b"endpoints", &secretbox::Nonce([7; 24]), &secretbox::Key([0; 32]));
    match one {
        RoutingMessage::Request(RequestMessage {
            content: RequestContent::Endpoints { encrypted_endpoints, .. },
            ..
        }) => assert_eq!(encrypted_endpoints, expected),
        other => panic!("unexpected {:?}", other),
    }
    // what was sealed so does not open as a box
    let mut actions = Vec::new();
    assert_eq!(
        a.connect(&expected, [7; 24], &weak.encrypting_public_key, &mut actions),
        Err(RoutingError::AsymmetricDecryptionFailure)
    );
}

#[test]
fn a_new_node_knows_nothing() {
    let id = full_id();
    let mut node = RoutingNode::new(true, id);
    assert_eq!(node.state, State::Disconnected);
    assert!(node.client_restriction);
    assert_eq!(node.full_id.public_id, id.public_id);
    assert_eq!(node.routing_table.len(), 0);
    assert!(node.routing_table.our_name().same(&id.public_id.name));
    assert_eq!(node.routing_table.dynamic_quorum_size(), 1);
    assert!(node.proxy_map.is_empty() && node.client_map.is_empty());
    assert_eq!(node.signed_message_filter.len(), 0);
    assert_eq!(node.connection_filter.len(), 0);
    assert_eq!(node.refresh_causes.len(), 0);
    assert_eq!(node.node_id_cache.len(), 0);
    assert_eq!(node.data_cache.len(), 0);
    assert_eq!(node.message_accumulator.quorum_size(), 1);
    assert!(!node.message_accumulator.is_decided(&XorName([1; 64]), 0));
    // with a quorum of one the first vote decides
    let vote = overlay_core::accumulator::Vote::Signed(id.public_id.signing_public_key);
    assert_eq!(
        node.message_accumulator.add(XorName([1; 64]), vote, 0),
        overlay_core::accumulator::Outcome::Complete(vec![vote])
    );
}
