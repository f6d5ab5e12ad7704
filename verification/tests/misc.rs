use overlay_core::accumulator::SignatureShare;
use overlay_core::config::{
    config_commander, ConfigAction, ConfigSubCommands, NetworkInfo, SettingAddCmd,
    SettingRemoveCmd,
};
use overlay_core::duty_cfg::{
    try_handle_error, AgeGroup, DstLocation, DutyConfig, ErrorMessage, Msg, MsgContext,
    NetworkDuty, NodeDuty, OutgoingLazyError, ProcessingError, RewardDuty, SrcLocation,
};
use overlay_core::id::SignKey;
use overlay_core::utils::{
    client, default_name, dst_address, get_source_name, name_of_requester, own_key, owner,
    requester_address, sign, AppPublicId, ClientPublicId, Requester, VaultMessage,
};
use overlay_core::xor_name::XorName;

#[test]
fn config_commands_become_actions() {
    let add = ConfigSubCommands::Add(SettingAddCmd::Network {
        network_name: "main".to_string(),
        config_location: Some("/tmp/conn".to_string()),
    });
    assert_eq!(
        config_commander(Some(add)),
        ConfigAction::AddNetwork {
            network_name: "main".to_string(),
            info: Some(NetworkInfo::ConnInfoLocation("/tmp/conn".to_string())),
        }
    );
    let add = ConfigSubCommands::Add(SettingAddCmd::Network {
        network_name: "main".to_string(),
        config_location: None,
    });
    assert_eq!(
        config_commander(Some(add)),
        ConfigAction::AddNetwork { network_name: "main".to_string(), info: None }
    );
    let remove =
        ConfigSubCommands::Remove(SettingRemoveCmd::Network { network_name: "old".to_string() });
    assert_eq!(
        config_commander(Some(remove)),
        ConfigAction::RemoveNetwork { network_name: "old".to_string() }
    );
    assert_eq!(config_commander(Some(ConfigSubCommands::Clear)), ConfigAction::Clear);
    assert_eq!(config_commander(None), ConfigAction::PrintNetworks);
}

#[test]
fn duties_of_an_adult_and_of_an_elder() {
    let key = SignKey([7; 32]);
    let mut cfg = DutyConfig::new(key, AgeGroup::Infant);
    assert_eq!(cfg.status(), AgeGroup::Infant);
    assert_eq!(cfg.setup_as_first(), None);
    let op = cfg.setup_as_adult().expect("duties");
    assert_eq!(
        op.duties,
        vec![
            NetworkDuty::RunAsNode(NodeDuty::BecomeAdult),
            NetworkDuty::RunAsNode(NodeDuty::RegisterWallet(key)),
        ]
    );
    assert_eq!(cfg.status(), AgeGroup::Adult);
    let node_id = XorName([3; 64]);
    let op = cfg.setup_as_elder(node_id).expect("duties");
    assert_eq!(
        op.duties,
        vec![
            NetworkDuty::RunAsNode(NodeDuty::BecomeElder),
            NetworkDuty::RunAsRewards(RewardDuty::AddNewNode(node_id)),
            NetworkDuty::RunAsRewards(RewardDuty::SetNodeWallet { node_id, wallet_id: key }),
        ]
    );
    assert_eq!(cfg.status(), AgeGroup::Elder);
}

#[test]
fn errors_go_back_to_where_the_message_came_from() {
    let id = XorName([1; 64]);
    let fallback = XorName([2; 64]);
    let user = XorName([3; 64]);
    assert_eq!(try_handle_error(ErrorMessage::NoSuchData, None, fallback), vec![]);
    let ctx = MsgContext::Msg { msg: Msg::ClientProcess(id), src: SrcLocation::EndUser(user) };
    assert_eq!(
        try_handle_error(ErrorMessage::NoSuchData, Some(ctx), fallback),
        vec![NodeDuty::SendError(OutgoingLazyError {
            msg: ProcessingError {
                reason: Some(ErrorMessage::NoSuchData),
                source_message: Some(id),
                id: fallback,
            },
            dst: DstLocation::EndUser(user),
        })]
    );
    for msg in [Msg::ClientOther, Msg::Node] {
        let ctx = MsgContext::Msg { msg, src: SrcLocation::Node(user) };
        assert_eq!(
            try_handle_error(ErrorMessage::AccessDenied, Some(ctx), fallback),
            vec![NodeDuty::NoOp]
        );
    }
    let ctx = MsgContext::Bytes { bytes: vec![1, 2], src: SrcLocation::Section(user) };
    assert_eq!(
        try_handle_error(ErrorMessage::AccessDenied, Some(ctx), fallback),
        vec![NodeDuty::SendError(OutgoingLazyError {
            msg: ProcessingError {
                reason: Some(ErrorMessage::Serialization),
                source_message: None,
                id: fallback,
            },
            dst: DstLocation::Section(user),
        })]
    );
    assert_eq!(SrcLocation::Node(user).to_dst(), DstLocation::Node(user));
}

#[test]
fn requesters_are_told_apart() {
    let a = ClientPublicId { name: XorName([1; 64]), public_key: SignKey([1; 32]) };
    let app = AppPublicId { owner: a, public_key: SignKey([2; 32]) };
    let node = Requester::Node(XorName([9; 64]));
    assert_eq!(owner(&node), None);
    assert_eq!(owner(&Requester::Client(a)), Some(&a));
    assert_eq!(owner(&Requester::App(app)), Some(&a));
    assert_eq!(client(&node), None);
    assert_eq!(client(&Requester::Client(a)), Some(&a));
    assert_eq!(client(&Requester::App(app)), None);
    assert_eq!(own_key(&node), None);
    assert_eq!(own_key(&Requester::Client(a)), Some(&SignKey([1; 32])));
    assert_eq!(own_key(&Requester::App(app)), Some(&SignKey([2; 32])));
    assert_eq!(name_of_requester(&Requester::App(app)), XorName([1; 64]));
    assert_eq!(name_of_requester(&node), XorName([9; 64]));
}

#[test]
fn addresses_of_vault_messages() {
    let a = ClientPublicId { name: XorName([1; 64]), public_key: SignKey([1; 32]) };
    let app = AppPublicId { owner: a, public_key: SignKey([2; 32]) };
    let zero = XorName([0; 64]);
    assert_eq!(default_name(), zero);
    let request = VaultMessage::Request {
        dst_address: Some(XorName([5; 64])),
        requester: Requester::App(app),
    };
    let blind = VaultMessage::Request { dst_address: None, requester: Requester::Client(a) };
    let response = VaultMessage::Response { requester: Requester::Client(a) };
    assert_eq!(requester_address(&request), XorName([1; 64]));
    assert_eq!(requester_address(&response), XorName([1; 64]));
    assert_eq!(requester_address(&VaultMessage::Duplicate), zero);
    assert_eq!(requester_address(&VaultMessage::DuplicationComplete), zero);
    assert_eq!(dst_address(&request), Some(XorName([5; 64])));
    assert_eq!(dst_address(&blind), None);
    assert_eq!(dst_address(&response), Some(XorName([1; 64])));
    assert_eq!(dst_address(&VaultMessage::Duplicate), Some(zero));
    assert_eq!(get_source_name(SrcLocation::Node(XorName([4; 64]))), XorName([4; 64]));
    assert_eq!(get_source_name(SrcLocation::Section(XorName([4; 64]))), zero);
    assert_eq!(get_source_name(SrcLocation::EndUser(XorName([4; 64]))), zero);
}

#[test]
fn a_share_carries_the_index_of_its_signer() {
    let secret = blsttc::SecretKey::random().to_bytes();
    let expected = blsttc::SecretKeyShare::from_bytes(secret)
        .expect("a key share")
        .sign(b"data")
        .expect("signs")
        .to_bytes();
    assert_eq!(sign(None, Some(3), b"data"), None);
    assert_eq!(sign(Some([0xff; 32]), Some(3), b"data"), None);
    assert_eq!(sign(Some(secret), Some(3), b"data"), Some(SignatureShare { index: 3, share: expected }));
    assert_eq!(sign(Some(secret), None, b"data"), Some(SignatureShare { index: 0, share: expected }));
    assert_ne!(sign(Some(secret), None, b"other"), Some(SignatureShare { index: 0, share: expected }));
}
