use protun::config::{
    ini_config_error, parse_ini_config, parse_ini_peers, peer_address_texts, ConfigProblem, IniDocument, IniEntry, IniSection,
};
use protun::connection::{ConnectionMode, MuonEnv, SniStrategy};
use protun::net::{IpAddress, Ipv4Address};
use protun::text::{decimal_string, parse_i32, parse_ports, parse_u16, str_eq, try_parse_ports};

fn entry(key: &str, value: Option<&str>) -> IniEntry {
    IniEntry { key: key.to_string(), value: value.map(|v| v.to_string()) }
}

fn section(name: &str, entries: Vec<IniEntry>) -> IniSection {
    IniSection { name: name.to_string(), entries }
}

// "AAAA...AAA=" (44 chars) is the base64 form of 32 zero bytes.
const ZERO_KEY: &str = "AAAAAAAAAAAAAAAAAAAAAAAAAAAAAAAAAAAAAAAAAAA=";

fn peer_section(name: &str) -> IniSection {
    section(
        name,
        vec![
            entry("server_ip", Some("1.2.3.4")),
            entry("server_public_key", Some(ZERO_KEY)),
            entry("udp_ports", Some("51820,443")),
            entry("tcp_ports", Some("443,80")),
            entry("tls_ports", Some("443")),
            entry("priority", Some("0")),
            entry("exit_label", Some("1")),
        ],
    )
}

#[test]
fn parses_ports_like_str_parse() {
    assert_eq!(parse_ports("51820,443"), vec![51820u16, 443]);
    assert_eq!(parse_ports("+7"), vec![7u16]);
    assert_eq!(try_parse_ports(""), None);
    assert_eq!(try_parse_ports("1,,2"), None);
    assert_eq!(try_parse_ports("65536"), None);
    assert_eq!(try_parse_ports("1, 2"), None);
    assert_eq!(try_parse_ports("65535"), Some(vec![65535u16]));
}

#[test]
fn parses_numbers_like_str_parse() {
    assert_eq!(parse_u16("0"), Some(0));
    assert_eq!(parse_u16("-1"), None);
    assert_eq!(parse_u16("+"), None);
    assert_eq!(parse_i32("-2147483648"), Some(i32::MIN));
    assert_eq!(parse_i32("2147483647"), Some(i32::MAX));
    assert_eq!(parse_i32("2147483648"), None);
    assert_eq!(parse_i32("-"), None);
    assert_eq!(parse_i32("+12"), Some(12));
    assert_eq!(parse_i32("1a"), None);
}

#[test]
fn renders_decimal() {
    assert_eq!(decimal_string(0), "0");
    assert_eq!(decimal_string(1234567890), "1234567890");
    assert!(str_eq("abc", "abc"));
    assert!(!str_eq("abc", "abd"));
}

#[test]
fn parses_local_agent_config() {
    let doc = IniDocument {
        sections: vec![
            section(
                "mode",
                vec![
                    entry("with_local_agent", Some("true")),
                    entry("user_agent", Some("ProtonVPN/1.0")),
                    entry("app_version", Some("1.0.0")),
                    entry("tun_interface_name", Some("protun0")),
                    entry("env", Some("Atlas")),
                ],
            ),
            peer_section("peer.server1"),
            section("fork", vec![entry("username", Some("u")), entry("password", Some("p"))]),
        ],
    };
    let texts = match peer_address_texts(&doc) {
        Ok(t) => t,
        Err(_) => panic!("addresses expected"),
    };
    assert_eq!(texts, vec!["1.2.3.4".to_string()]);
    let ips = vec![IpAddress::V4(Ipv4Address::new(1, 2, 3, 4))];
    let (cfg, fork) = {
        assert!(ini_config_error(&doc, &ips).is_none());
        parse_ini_config(&doc, &ips)
    };
    let ic = &cfg.initial_connection_config;
    assert!(ic.network_available);
    assert!(ic.pcap_file.is_none());
    assert!(ic.sni_strategy == SniStrategy::Random);
    assert_eq!(cfg.tun_interface_name, Some("protun0".to_string()));
    assert_eq!(ic.peers.len(), 1);
    let p = &ic.peers[0];
    assert_eq!(p.peer_id, "server1");
    assert!(p.server_ip == ips[0]);
    assert_eq!(p.server_public_key.0, [0u8; 32]);
    assert_eq!(p.udp_ports, vec![51820, 443]);
    assert_eq!(p.tcp_ports, vec![443, 80]);
    assert_eq!(p.tls_ports, vec![443]);
    assert_eq!(p.priority, 0);
    assert_eq!(p.exit_label, Some("1".to_string()));
    match &ic.connection_mode {
        ConnectionMode::LocalAgent { user_agent, app_version, muon_env, .. } => {
            assert_eq!(user_agent, "ProtonVPN/1.0");
            assert_eq!(app_version, "1.0.0");
            assert!(matches!(muon_env, MuonEnv::Atlas { scientist: None }));
        },
        _ => panic!("local agent mode expected"),
    }
    let fork = fork.expect("fork settings expected");
    assert_eq!(fork.username, "u");
    assert_eq!(fork.password, "p");
    assert_eq!(fork.app_version, "1.0.0");
    assert_eq!(fork.child, "1.0.0");
    assert!(matches!(fork.muon_env, MuonEnv::Atlas { scientist: None }));
}

#[test]
fn parses_no_local_agent_config_with_scientist_default() {
    let doc = IniDocument {
        sections: vec![section(
            "mode",
            vec![entry("with_local_agent", Some("false")), entry("client_private_key", Some(ZERO_KEY))],
        )],
    };
    let (cfg, fork) = {
        assert!(ini_config_error(&doc, &vec![]).is_none());
        parse_ini_config(&doc, &vec![])
    };
    assert!(fork.is_none());
    match &cfg.initial_connection_config.connection_mode {
        ConnectionMode::NoLocalAgent { wg_private_key: Some(k) } => assert_eq!(k.0, [0u8; 32]),
        _ => panic!("key expected"),
    }

    let doc = IniDocument {
        sections: vec![section(
            "mode",
            vec![
                entry("with_local_agent", Some("true")),
                entry("user_agent", Some("ua")),
                entry("app_version", Some("2.0")),
                entry("env", Some("Alice")),
            ],
        )],
    };
    let (cfg, fork) = {
        assert!(ini_config_error(&doc, &vec![]).is_none());
        parse_ini_config(&doc, &vec![])
    };
    assert!(fork.is_none());
    match &cfg.initial_connection_config.connection_mode {
        ConnectionMode::LocalAgent { muon_env: MuonEnv::Atlas { scientist: Some(s) }, .. } => assert_eq!(s, "alice"),
        _ => panic!("atlas scientist expected"),
    }
}

#[test]
fn reports_config_errors() {
    let no_mode = IniDocument { sections: vec![] };
    match ini_config_error(&no_mode, &vec![]) {
        Some(e) => {
            assert!(e.problem == ConfigProblem::MissingSection);
            assert_eq!(e.section, "mode");
        },
        None => panic!("error expected"),
    }
    let bad_flag = IniDocument { sections: vec![section("mode", vec![entry("with_local_agent", Some("yes"))])] };
    match ini_config_error(&bad_flag, &vec![]) {
        Some(e) => {
            assert!(e.problem == ConfigProblem::InvalidValue);
            assert_eq!(e.key, "with_local_agent");
        },
        None => panic!("error expected"),
    }
    let no_value = IniDocument { sections: vec![section("mode", vec![entry("with_local_agent", None)])] };
    match ini_config_error(&no_value, &vec![]) {
        Some(e) => assert!(e.problem == ConfigProblem::MissingValue),
        None => panic!("error expected"),
    }
    let no_key = IniDocument { sections: vec![section("mode", vec![entry("with_local_agent", Some("false"))])] };
    match ini_config_error(&no_key, &vec![]) {
        Some(e) => {
            assert!(e.problem == ConfigProblem::MissingKey);
            assert_eq!(e.key, "client_private_key");
        },
        None => panic!("error expected"),
    }
    let mut short_key_peer = peer_section("peer.x");
    short_key_peer.entries[1] = entry("server_public_key", Some("AAAA"));
    let bad_peer = IniDocument { sections: vec![short_key_peer] };
    match ini_config_error(&bad_peer, &vec![IpAddress::V4(Ipv4Address::new(1, 2, 3, 4))]) {
        Some(e) => {
            assert!(e.problem == ConfigProblem::InvalidValue);
            assert_eq!(e.section, "peer.x");
            assert_eq!(e.key, "server_public_key");
        },
        None => panic!("error expected"),
    }
    let no_ip = IniDocument { sections: vec![section("peer.y", vec![])] };
    match peer_address_texts(&no_ip) {
        Err(e) => {
            assert!(e.problem == ConfigProblem::MissingKey);
            assert_eq!(e.key, "server_ip");
        },
        Ok(_) => panic!("error expected"),
    }
}

#[test]
fn fork_section_is_ignored_without_local_agent() {
    let doc = IniDocument {
        sections: vec![
            section("mode", vec![entry("with_local_agent", Some("false")), entry("client_private_key", Some(ZERO_KEY))]),
            section("fork", vec![entry("username", Some("u")), entry("password", Some("p"))]),
            peer_section("peer.a"),
        ],
    };
    let ips = vec![IpAddress::V4(Ipv4Address::new(1, 2, 3, 4))];
    assert!(ini_config_error(&doc, &ips).is_none());
    let peers = parse_ini_peers(&doc, &ips);
    assert_eq!(peers.len(), 1);
    assert_eq!(peers[0].peer_id, "a");
    let (cfg, fork) = parse_ini_config(&doc, &ips);
    assert!(fork.is_none());
    let ic = &cfg.initial_connection_config;
    assert!(ic.network_available);
    assert!(ic.pcap_file.is_none());
    assert!(ic.sni_strategy == SniStrategy::Random);
    match &ic.connection_mode {
        ConnectionMode::NoLocalAgent { wg_private_key: Some(k) } => assert_eq!(k.0, [0u8; 32]),
        _ => panic!("key expected"),
    }
}
