use protun::events::{ErrorEvent, Event};
use protun::local_agent::{NetshieldLevel, Restriction, WaitJailReason};
use protun::local_agent_handler::{
    HandledJail, Jail, JailEntry, LocalAgentHandler, LocalAgentMessage, LocalAgentValue, ToHandleJail,
};
use protun::net::{IpAddress, Ipv4Address};
use protun::state::{AgentConnectionWaitReason, ConnectionState, PeerConnectionInfo, Protocol};

fn peer(a: u8, b: u8, c: u8, d: u8) -> PeerConnectionInfo {
    PeerConnectionInfo {
        peer_id: "p".to_string(),
        entry_ip: IpAddress::V4(Ipv4Address::new(a, b, c, d)),
        protocol: Protocol::WireguardUdp,
        port: 1234,
    }
}

#[test]
fn established_transitions_to_connected() {
    let mut handler = LocalAgentHandler::new();

    assert!(matches!(
        handler.get_state(peer(1, 2, 3, 4)),
        ConnectionState::ConnectingToLocalAgent { wait_reason: None, .. }
    ));

    handler.handle_message(LocalAgentMessage::LocalAgentConnected);
    assert!(matches!(
        handler.get_state(peer(1, 2, 3, 4)),
        ConnectionState::Connected { agent_info: Some(_), .. }
    ));
}

#[test]
fn connecting_when_soft_jailed() {
    let mut handler = LocalAgentHandler::new();
    handler.handle_message(LocalAgentMessage::LocalAgentConnected);
    handler.handle_message(LocalAgentMessage::Value(LocalAgentValue::SettingsSoftjail(Some(true))));
    assert!(matches!(
        handler.get_state(peer(1, 2, 3, 4)),
        ConnectionState::ConnectingToLocalAgent { wait_reason: Some(AgentConnectionWaitReason::SoftJailed), .. }
    ));
}

#[test]
fn connecting_when_hard_jailed() {
    let mut handler = LocalAgentHandler::new();
    handler.handle_message(LocalAgentMessage::LocalAgentConnected);
    handler.handle_message(LocalAgentMessage::Value(LocalAgentValue::Jails(Some(vec![JailEntry {
        code: 86151,
        jail: Jail::ToHandle(ToHandleJail::PolicyViolation1("low plan".to_string())),
    }]))));
    assert!(matches!(
        handler.get_state(peer(1, 2, 3, 4)),
        ConnectionState::ConnectingToLocalAgent {
            wait_reason: Some(AgentConnectionWaitReason::HardJailed { ref jails }), ..
        } if jails.len() == 1 && jails[0].reason == WaitJailReason::LowPlan
    ));

    // Clearing jail -> connected
    handler.handle_message(LocalAgentMessage::Value(LocalAgentValue::Jails(None)));
    assert!(matches!(handler.get_state(peer(1, 2, 3, 4)), ConnectionState::Connected { .. }));
}

#[test]
fn internal_jails_are_mapped_to_internal_variant() {
    let mut handler = LocalAgentHandler::new();
    handler.handle_message(LocalAgentMessage::LocalAgentConnected);
    handler.handle_message(LocalAgentMessage::Value(LocalAgentValue::Jails(Some(vec![JailEntry {
        code: 86202,
        jail: Jail::InternallyHandled(HandledJail::ExpiredCertificate("cert expired".to_string())),
    }]))));
    assert!(matches!(
        handler.get_state(peer(1, 2, 3, 4)),
        ConnectionState::ConnectingToLocalAgent {
            wait_reason: Some(AgentConnectionWaitReason::HardJailed { ref jails }), ..
        } if jails.len() == 1 && jails[0].reason == WaitJailReason::Internal
    ));
}

#[test]
fn peer_change_resets_established_and_settings() {
    let mut handler = LocalAgentHandler::new();
    let peer1 = peer(1, 1, 1, 1);
    handler.on_connected_to_peer(&peer1);
    handler.handle_message(LocalAgentMessage::LocalAgentConnected);
    handler.handle_message(LocalAgentMessage::Value(LocalAgentValue::SettingsNetshieldLevel(Some(
        NetshieldLevel::AdsAndMalwareFilter,
    ))));
    assert!(matches!(
        handler.get_state(peer1),
        ConnectionState::Connected { agent_info: Some(agent_info), .. }
            if agent_info.settings.netshield_level == Some(NetshieldLevel::AdsAndMalwareFilter)
    ));

    let peer2 = peer(2, 2, 2, 2);
    handler.on_connected_to_peer(&peer2);
    assert!(matches!(
        handler.get_state(peer2.clone()),
        ConnectionState::ConnectingToLocalAgent { wait_reason: None, .. }
    ));

    handler.handle_message(LocalAgentMessage::LocalAgentConnected);
    assert!(matches!(
        handler.get_state(peer2),
        ConnectionState::Connected { agent_info: Some(agent_info), .. } if agent_info.settings.netshield_level == None
    ));
}

#[test]
fn same_peer_reconnect_preserves_established() {
    let mut handler = LocalAgentHandler::new();
    let p = peer(1, 1, 1, 1);
    handler.on_connected_to_peer(&p);
    handler.handle_message(LocalAgentMessage::LocalAgentConnected);
    handler.on_connected_to_peer(&p);
    assert!(matches!(handler.get_state(p), ConnectionState::Connected { .. }));
}

#[test]
fn muon_fork_selector_needed_emits_api_session_expired() {
    let mut handler = LocalAgentHandler::new();
    let event = handler.handle_message(LocalAgentMessage::MuonForkSelectorNeeded);
    assert!(matches!(event, Some(Event::Error { error: ErrorEvent::ForkSelectorNeeded })));
}

#[test]
fn restrictions_reach_the_agent_info() {
    let mut handler = LocalAgentHandler::new();
    handler.handle_message(LocalAgentMessage::LocalAgentConnected);
    handler.handle_message(LocalAgentMessage::Value(LocalAgentValue::Restrictions(Some(vec![
        Restriction::Streaming { reason: "region".to_string() },
        Restriction::Other { name: "x".to_string(), reason: "y".to_string() },
    ]))));
    match handler.get_state(peer(1, 2, 3, 4)) {
        ConnectionState::Connected { agent_info: Some(info), .. } => {
            assert_eq!(info.restrictions.len(), 2);
            assert!(matches!(&info.restrictions[0], Restriction::Streaming { reason } if reason == "region"));
            assert!(matches!(&info.restrictions[1], Restriction::Other { name, .. } if name == "x"));
        },
        _ => panic!("connected expected"),
    }
    handler.handle_message(LocalAgentMessage::Value(LocalAgentValue::Restrictions(None)));
    match handler.get_state(peer(1, 2, 3, 4)) {
        ConnectionState::Connected { agent_info: Some(info), .. } => assert!(info.restrictions.is_empty()),
        _ => panic!("connected expected"),
    }
}
