use protun::client_settings::TlsSniStrategy;
use protun::connection::{FileWriteMode, PcapFile, PcapFileInfo, PeerInfo, SniStrategy};
use protun::connection_core::ConnectionCore;
use protun::connection_logic::{
    get_peer_connection_info, poll_deadline, read_reaction, write_reaction, write_target, CaptureStopCause,
    SocketAddress, StreamKind, TunnelInfo, TunnelPeer, WriteTarget,
};
use protun::connection::CacheKey;
use protun::equality::states_equal;
use protun::events::{CaptureStopReason, Event};
use protun::keys::WgPeerPublicKey;
use protun::local_agent::LocalAgentSettings;
use protun::local_agent::NetshieldLevel;
use protun::local_agent_handler::LocalAgentMessage;
use protun::net::{IpAddress, Ipv4Address, Ipv6Address};
use protun::state::{ConnectionState, InterfaceState, PeerConnectionWaitReason, Protocol};
use protun::stream_io::{IoErrorKind, PendingWrite, StreamError, StreamResult, WouldBlock};

fn ip(a: u8, b: u8, c: u8, d: u8) -> IpAddress {
    IpAddress::V4(Ipv4Address::new(a, b, c, d))
}

fn peer_info(id: &str, addr: IpAddress) -> PeerInfo {
    PeerInfo {
        peer_id: id.to_string(),
        server_ip: addr,
        server_public_key: WgPeerPublicKey([7u8; 32]),
        udp_ports: vec![51820],
        tcp_ports: vec![443],
        tls_ports: vec![],
        priority: 0,
        exit_label: None,
    }
}

fn tunnel_peer(tag: Option<&str>) -> TunnelPeer {
    TunnelPeer::new(tag.map(|t| t.to_string()), SocketAddress { ip: ip(9, 9, 9, 9), port: 51820 })
}

fn capture() -> PcapFileInfo {
    PcapFileInfo { file: PcapFile::Path { path: "/tmp/c.pcap".to_string(), mode: FileWriteMode::Append }, max_bytes: Some(10) }
}

#[test]
fn start_without_network_waits_for_it() {
    let (core, plan) = ConnectionCore::new(vec![], false, None, SniStrategy::Random);
    assert!(plan.notify_network_down);
    assert!(plan.report_state);
    assert!(plan.watch.is_empty());
    assert!(matches!(
        core.connection_state(),
        ConnectionState::Connecting { peers, wait_reasons }
            if peers.is_empty() && wait_reasons.len() == 1 && wait_reasons[0] == PeerConnectionWaitReason::WaitingForNetwork
    ));
    let (core, plan) = ConnectionCore::new(vec![], true, Some(LocalAgentSettings::default()), SniStrategy::Random);
    assert!(!plan.notify_network_down);
    assert!(!plan.report_state);
    assert_eq!(plan.watch.len(), 16);
    assert!(plan.apply_settings.is_some());
    let (_, top) = ConnectionCore::new(vec![], true, Some(LocalAgentSettings::default()), SniStrategy::Top);
    match top.apply_settings {
        Some(c) => match c.tls_snis {
            TlsSniStrategy::List(l) => {
                assert_eq!(l.len(), 103);
                assert_eq!(l[0], "accounts.google.com");
                assert_eq!(l[102], "www.recaptcha.net");
            },
            TlsSniStrategy::Random => panic!("list expected"),
        },
        None => panic!("settings expected"),
    }
    assert!(matches!(core.connection_state(), ConnectionState::Disconnected { error: None }));
}

#[test]
fn equal_states_are_not_reported_again() {
    let (mut core, _) = ConnectionCore::new(vec![], true, None, SniStrategy::Random);
    assert!(!core.set_state(ConnectionState::Disconnected { error: None }));
    let info = get_peer_connection_info(&tunnel_peer(Some("p1")), Protocol::WireguardUdp);
    assert_eq!(info.peer_id, "p1");
    assert!(core.set_state(ConnectionState::Connected { peer: info.clone(), agent_info: None }));
    assert!(!core.set_state(ConnectionState::Connected { peer: info.clone(), agent_info: None }));
    let other = get_peer_connection_info(&tunnel_peer(None), Protocol::WireguardUdp);
    assert_eq!(other.peer_id, "9.9.9.9");
    assert!(!states_equal(
        &ConnectionState::Connected { peer: info, agent_info: None },
        &ConnectionState::Connected { peer: other, agent_info: None }
    ));
}

#[test]
fn tunnel_status_becomes_connection_state() {
    let (mut core, _) = ConnectionCore::new(vec![peer_info("a", ip(1, 1, 1, 1))], true, Some(LocalAgentSettings::default()), SniStrategy::Random);
    let connected = Some(TunnelInfo::Connected { protocol: Protocol::Stealth, peer: tunnel_peer(Some("x")) });
    let (changed, up) = core.update_state(true, &connected);
    assert!(changed);
    assert!(!up);
    assert!(matches!(core.connection_state(), ConnectionState::ConnectingToLocalAgent { wait_reason: None, .. }));
    assert!(core.accepts_local_agent_message(&LocalAgentMessage::LocalAgentConnected));
    core.handle_local_agent_message(LocalAgentMessage::LocalAgentConnected);
    let (changed, up) = core.update_state(true, &connected);
    assert!(changed);
    assert!(up);
    let (changed, _) = core.update_state(true, &Some(TunnelInfo::Disconnected));
    assert!(changed);
    assert!(matches!(core.connection_state(), ConnectionState::Connecting { peers, .. } if peers.is_empty()));
    let (changed, _) = core.update_state(false, &connected);
    assert!(changed);
    assert!(matches!(core.connection_state(), ConnectionState::Connecting { peers, wait_reasons } if peers.len() == 1 && wait_reasons.len() == 1));
}

#[test]
fn peer_updates_remove_and_add_the_difference() {
    let a = peer_info("a", ip(1, 1, 1, 1));
    let b = peer_info("b", ip(2, 2, 2, 2));
    let c = peer_info("c", ip(3, 3, 3, 3));
    let (mut core, _) = ConnectionCore::new(vec![a.clone(), b.clone()], true, None, SniStrategy::Random);
    let update = core.update_peers(vec![b.clone(), c.clone()]);
    assert!(update.removed == vec![ip(1, 1, 1, 1)]);
    assert_eq!(update.added.len(), 1);
    assert_eq!(update.added[0].peer_id, "c");
    assert_eq!(core.peers().len(), 2);
    let again = core.update_peers(vec![b, c]);
    assert!(again.removed.is_empty());
    assert!(again.added.is_empty());
}

#[test]
fn settings_are_applied_when_they_change() {
    let (mut core, _) = ConnectionCore::new(vec![], true, Some(LocalAgentSettings::default()), SniStrategy::Random);
    assert!(core.update_local_agent_settings(LocalAgentSettings::default()).is_none());
    let mut s = LocalAgentSettings::default();
    s.netshield_level = Some(NetshieldLevel::MalwareFilter);
    match core.update_local_agent_settings(s) {
        Some(c) => {
            assert!(c.session_settings == s);
            assert!(c.authorized_protocols == vec![Protocol::WireguardUdp, Protocol::WireguardTcp, Protocol::Stealth]);
            assert!(matches!(c.tls_snis, TlsSniStrategy::Random));
        },
        None => panic!("settings expected"),
    }
    assert!(core.update_local_agent_settings(s).is_none());
    let (mut plain, _) = ConnectionCore::new(vec![], true, None, SniStrategy::Random);
    assert!(plain.update_local_agent_settings(s).is_none());
}

#[test]
fn loop_end_stops_capture_and_disconnects() {
    let (mut core, _) = ConnectionCore::new(vec![], true, None, SniStrategy::Random);
    match core.start_capture(capture()) {
        Event::PacketCaptureStarted { info } => assert_eq!(info.max_bytes, Some(10)),
        _ => panic!("start event expected"),
    }
    let info = get_peer_connection_info(&tunnel_peer(Some("p")), Protocol::WireguardTcp);
    assert!(core.set_state(ConnectionState::Connected { peer: info, agent_info: None }));
    let end = core.on_connection_loop_end();
    assert!(matches!(
        end.capture_stopped,
        Some(Event::PacketCaptureStopped { reason: CaptureStopReason::Disconnected { .. } })
    ));
    assert!(end.report_state);
    assert!(matches!(core.connection_state(), ConnectionState::Disconnected { error: None }));
    assert!(matches!(
        core.stop_capture(CaptureStopCause::Request),
        Event::PacketCaptureStopped { reason: CaptureStopReason::AlreadyStopped }
    ));
    let end = core.on_connection_loop_end();
    assert!(end.capture_stopped.is_none());
    assert!(!end.report_state);
}

#[test]
fn tun_errors_show_in_the_interface_state() {
    let (mut core, _) = ConnectionCore::new(vec![], true, None, SniStrategy::Random);
    core.record_tun_result(&StreamResult::StreamClosed);
    match core.vpn_state(true).interface_state {
        InterfaceState::Up { error: Some(protun::state::InterfaceError::IoError { error }) } => assert_eq!(error, "Stream closed"),
        _ => panic!("error expected"),
    }
    core.on_tun_updated();
    assert!(matches!(core.vpn_state(false).interface_state, InterfaceState::Down { last_error: None }));
}

#[test]
fn stream_decisions() {
    assert!(poll_deadline(Some(5), Some(3)) == Some(3));
    assert!(poll_deadline(None, Some(3)) == Some(3));
    assert!(poll_deadline(Some(5), None) == Some(5));
    assert!(write_target(StreamKind::Certificate) == WriteTarget::Cache(CacheKey::Certificate));
    assert!(write_target(StreamKind::Socket) == WriteTarget::Stream);
    let done = StreamResult::Done { bytes_count: 10, start_offset: 4, would_block: WouldBlock::No, pending_write: PendingWrite::No };
    let r = read_reaction(StreamKind::Tun, &done, true);
    assert!(r.forward == Some((4, 14)));
    assert!(r.read_again);
    let r = read_reaction(StreamKind::Tun, &done, false);
    assert!(r.forward.is_none());
    let failed = StreamResult::Failed(StreamError { kind: IoErrorKind::ConnectionReset, text: "reset".to_string() });
    assert!(read_reaction(StreamKind::Tun, &failed, true).push_error.is_none());
    assert!(read_reaction(StreamKind::Socket, &failed, true).push_error == Some(IoErrorKind::ConnectionReset));
    let w = write_reaction(StreamKind::Socket, &done);
    assert!(w.push_done);
    assert!(w.wait_for_write == Some(false));
    assert!(write_reaction(StreamKind::Tun, &StreamResult::StreamClosed).push_close);
}

#[test]
fn untagged_peer_is_named_by_its_address() {
    let v6 = IpAddress::V6(Ipv6Address::new(0x2001, 0xdb8, 0, 0, 0, 0, 0, 1));
    let peer = TunnelPeer::new(None, SocketAddress { ip: v6, port: 443 });
    assert!(peer.is_well_formed());
    let info = get_peer_connection_info(&peer, Protocol::Stealth);
    assert_eq!(info.peer_id, "2001:db8::1");
    let mut forged = TunnelPeer::new(None, SocketAddress { ip: v6, port: 443 });
    forged.ip_text = "1.2.3.4".to_string();
    assert!(!forged.is_well_formed());
}
