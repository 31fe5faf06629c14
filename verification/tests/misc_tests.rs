use protun::cache::{get_profiles_path, get_protun_path, Cache};
use protun::client::{api_environment, ApiEnvironment, ClientSchedule};
use protun::connection::{CacheKey, Cookie, MuonEnv, PeerInfo};
use protun::cookies::{eq_ignore_ascii_case, MuonCookieStore};
use protun::keys::{WgClientPrivateKey, WgPeerPublicKey};
use protun::local_agent_handler::{LocalAgentHandler, LocalAgentMessage, LocalAgentValue, StatsAccumulator, StatsField};
use protun::events::Event;
use protun::net::{IpAddress, Ipv4Address, Ipv6Address};
use protun::wintun::{
    client_ipv4_address, client_ipv6_address, dns_server_lists, get_valid_wintun_buffer_size, server_addresses,
    MAX_RING_CAPACITY, MIN_RING_CAPACITY,
};

#[test]
fn wintun_buffer_sizes() {
    assert_eq!(get_valid_wintun_buffer_size(0), MIN_RING_CAPACITY);
    assert_eq!(get_valid_wintun_buffer_size(0x20001), 0x40000);
    assert_eq!(get_valid_wintun_buffer_size(0x100000), 0x100000);
    assert_eq!(get_valid_wintun_buffer_size(0x4000000), MAX_RING_CAPACITY);
    assert_eq!(get_valid_wintun_buffer_size(u32::MAX), MAX_RING_CAPACITY);
}

#[test]
fn wintun_addresses() {
    let c4 = client_ipv4_address(3);
    assert!(c4 == Ipv4Address::new(10, 3, 0, 2));
    let c6 = client_ipv6_address(3);
    let (s4, s6) = server_addresses(c4, Some(c6));
    assert!(s4 == Ipv4Address::new(10, 3, 0, 1));
    assert!(s6 == Some(Ipv6Address::new(0x2a07, 0xb944, 0, 0, 0, 0, 3, 1)));
    let custom = vec![
        IpAddress::V4(Ipv4Address::new(1, 1, 1, 1)),
        IpAddress::V6(Ipv6Address::new(0x2606, 0x4700, 0, 0, 0, 0, 0, 0x1111)),
    ];
    let (v4, v6) = dns_server_lists(&custom, s4, None);
    assert_eq!(v4.len(), 2);
    assert!(v4[1] == s4);
    assert!(v6.is_none());
    let (_, v6) = dns_server_lists(&custom, s4, s6);
    assert_eq!(v6.expect("IPv6 servers expected").len(), 2);
}

#[test]
fn cache_reads_back_writes() {
    let mut cache = Cache::new("c", "k", "s");
    assert_eq!(cache.path_of(CacheKey::PrivateKey), "k");
    assert!(cache.get_bytes(CacheKey::Certificate).is_none());
    cache.put(CacheKey::Certificate, vec![1, 2]);
    cache.put(CacheKey::ApiSession, vec![3]);
    assert_eq!(cache.get_bytes(CacheKey::Certificate), Some(vec![1, 2]));
    cache.remove(CacheKey::Certificate);
    assert!(cache.get_bytes(CacheKey::Certificate).is_none());
    assert_eq!(cache.get_bytes(CacheKey::ApiSession), Some(vec![3]));
    cache.clear_all();
    assert!(cache.get_bytes(CacheKey::ApiSession).is_none());
    assert_eq!(get_profiles_path().join("\\"), "SOFTWARE\\Microsoft\\Windows NT\\CurrentVersion\\NetworkList\\Profiles");
    assert_eq!(get_protun_path().join("\\"), "SOFTWARE\\Proton AG\\Proton VPN\\ProTUN");
}

#[test]
fn peers_for_the_client() {
    let p = PeerInfo {
        peer_id: "id".to_string(),
        server_ip: IpAddress::V6(Ipv6Address::new(1, 0, 0, 0, 0, 0, 0, 1)),
        server_public_key: WgPeerPublicKey([1u8; 32]),
        udp_ports: vec![0, 51820, 0],
        tcp_ports: vec![],
        tls_ports: vec![443],
        priority: 70000,
        exit_label: Some("label".to_string()),
    };
    let spec = p.as_peer();
    assert_eq!(spec.udp_ports, vec![51820]);
    assert_eq!(spec.tls_ports, vec![443]);
    assert_eq!(spec.priority, 70000i32 as i16);
    assert_eq!(spec.bouncing_labels, vec!["label".to_string()]);
    assert!(spec.addr.v4.is_none());
    assert_eq!(spec.tag, "id");
    match api_environment(&MuonEnv::Prod) {
        ApiEnvironment::Servers { candidate_urls: urls } => assert_eq!(urls, vec!["https://vpn-api.proton.me/".to_string()]),
        _ => panic!("servers expected"),
    }
    let mut s = ClientSchedule::new();
    assert!(s.need_pull);
    s.handle_result(false, Some(10));
    assert!(s == ClientSchedule { need_pull: false, wakeup_deadline: Some(10) });
}

#[test]
fn keys_convert_both_ways() {
    let k = WgClientPrivateKey::try_from_bytes(vec![5u8; 32]).ok().expect("key expected");
    assert_eq!(k.to_bytes(), vec![5u8; 32]);
    match WgClientPrivateKey::try_from_bytes(vec![5u8; 31]) {
        Err(e) => assert_eq!(e.message(), "private key must be 32 bytes"),
        Ok(_) => panic!("error expected"),
    }
    match WgPeerPublicKey::try_from_bytes(vec![]) {
        Err(e) => assert_eq!(e.message(), "peer public key must be 32 bytes"),
        Ok(_) => panic!("error expected"),
    }
}

#[test]
fn stats_events_carry_saved_estimate() {
    let mut acc = StatsAccumulator::new();
    assert!(acc.record(StatsField::BytesReceived, Some(1)).is_none());
    assert!(acc.record(StatsField::BytesSent, Some(2)).is_none());
    assert!(acc.record(StatsField::MaliciousBlocked, Some(1)).is_none());
    assert!(acc.record(StatsField::AdsBlocked, Some(1)).is_none());
    assert!(acc.record(StatsField::TrackersBlocked, None).is_none());
    match acc.record(StatsField::AdultContentBlocked, Some(1)) {
        Some(Event::LocalAgentStats { data_saved, .. }) => assert_eq!(data_saved, Some(768000 + 204800 + 1488896)),
        _ => panic!("stats expected"),
    }
    let handler = LocalAgentHandler::new();
    assert!(handler.accepts(&LocalAgentMessage::Value(LocalAgentValue::StatsBytesSent(Some(1)))));
    let mut full = StatsAccumulator::new();
    full.record(StatsField::BytesReceived, None);
    full.record(StatsField::BytesSent, None);
    full.record(StatsField::MaliciousBlocked, Some(u64::MAX));
    full.record(StatsField::AdsBlocked, None);
    full.record(StatsField::TrackersBlocked, None);
    assert!(!full.with_value(StatsField::AdultContentBlocked, None).estimate_fits_u64());
}

#[test]
fn first_cookie_of_a_name_wins() {
    assert!(eq_ignore_ascii_case("Session-ID", "session-id"));
    assert!(!eq_ignore_ascii_case("Session-ID", "session-ie"));
    assert!(!eq_ignore_ascii_case("É", "é"));
    let mut store = MuonCookieStore::new();
    store.set(Cookie { name: "Session-Id".to_string(), value: "1".to_string() });
    store.set(Cookie { name: "AUTH".to_string(), value: "2".to_string() });
    store.set(Cookie { name: "session-id".to_string(), value: "3".to_string() });
    let cookies = store.get().cookies;
    assert_eq!(cookies.len(), 2);
    assert_eq!(cookies[0].value, "1");
    assert_eq!(cookies[1].name, "AUTH");
}

#[test]
fn wintun_buffer_size_is_idempotent_and_monotone() {
    let proposals = [0u32, 1, 0x20000, 0x20001, 0x30000, 0x40000, 0x40001, 0x3ffffff, 0x4000000, 0x4000001, u32::MAX];
    let mut last = 0u32;
    for p in proposals {
        let r = get_valid_wintun_buffer_size(p);
        assert_eq!(get_valid_wintun_buffer_size(r), r);
        assert!(r >= last);
        assert!(r.is_power_of_two());
        last = r;
    }
    assert_eq!(get_valid_wintun_buffer_size(0x40000), 0x40000);
    assert_eq!(get_valid_wintun_buffer_size(0x30000), 0x40000);
}
