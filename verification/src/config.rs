use vstd::prelude::*;
use vstd::string::StrSliceExecFns;
use crate::connection::{ConnectionMode, InitialConnectionConfig, MuonEnv, PeerInfo, SniStrategy};
use crate::keys::{WgClientPrivateKey, WgPeerPublicKey};
use crate::local_agent::LocalAgentSettings;
use crate::net::IpAddress;
use crate::text::{
    i32_text_value, parse_i32, ports_text_value, str_eq, starts_with, try_parse_ports,
};

verus! {

/// A key of an ini section with its value; a key may have no value.
pub struct IniEntry {
    pub key: String,
    pub value: Option<String>,
}

/// A named ini section and its entries.
pub struct IniSection {
    pub name: String,
    pub entries: Vec<IniEntry>,
}

/// The sections of an ini file, as the ini reader produced them.
pub struct IniDocument {
    pub sections: Vec<IniSection>,
}

/// What is wrong with a configuration.
#[derive(Clone, Copy, PartialEq, Eq, Structural)]
pub enum ConfigProblem {
    /// A section that must be there is not.
    MissingSection,
    /// A key that must be there is not.
    MissingKey,
    /// A key that must have a value has none.
    MissingValue,
    /// A value cannot be read as what it stands for.
    InvalidValue,
}

/// A configuration error: the section and key concerned, and the problem.
pub struct ConfigError {
    pub section: String,
    pub key: String,
    pub problem: ConfigProblem,
}

/// A configuration error as a mathematical value.
pub struct ConfigFault {
    pub section: Seq<char>,
    pub key: Seq<char>,
    pub problem: ConfigProblem,
}

impl ConfigError {
    pub open spec fn fault(self) -> ConfigFault {
        ConfigFault { section: self.section@, key: self.key@, problem: self.problem }
    }
}

/// Settings of an API session fork read from the configuration.
pub struct ParsedForkConfig {
    pub username: String,
    pub password: String,
    pub app_version: String,
    pub child: String,
    pub muon_env: MuonEnv,
}

/// The connection configuration read from an ini file.
pub struct ParsedConfig {
    pub initial_connection_config: InitialConnectionConfig,
    pub tun_interface_name: Option<String>,
}

/// Name for the bytes that `base64::engine::general_purpose::STANDARD`
/// decodes from a text, `None` when the text is not valid padded standard
/// base64.
pub uninterp spec fn standard_base64_decoded(text: Seq<char>) -> Option<Seq<u8>>;

/// Name for the text that `str::to_lowercase` gives (Unicode lower case
/// mapping).
pub uninterp spec fn lowercased(text: Seq<char>) -> Seq<char>;

/// Decodes standard padded base64 with the `base64` crate. The contract
/// claims only that the result is the named decoding of the text.
#[verifier::external_body]
fn decode_base64(text: &str) -> (r: Option<Vec<u8>>)
    ensures
        match r {
            Some(b) => standard_base64_decoded(text@) == Some(b@),
            None => standard_base64_decoded(text@) is None,
        },
{
    match base64::Engine::decode(&base64::engine::general_purpose::STANDARD, text) {
        Ok(bytes) => Some(bytes),
        Err(_) => None,
    }
}

/// Lower cases a text with `str::to_lowercase`. The contract claims only that
/// the result is the named lower case form of the text.
#[verifier::external_body]
fn to_lowercase(text: &str) -> (r: String)
    ensures
        r@ == lowercased(text@),
{
    text.to_lowercase()
}

/// Unicode `White_Space` characters, which `char::is_whitespace` accepts.
pub open spec fn is_white_space(c: char) -> bool {
    ||| ('\u{9}' <= c && c <= '\u{d}')
    ||| c == ' '
    ||| c == '\u{85}'
    ||| c == '\u{a0}'
    ||| c == '\u{1680}'
    ||| ('\u{2000}' <= c && c <= '\u{200a}')
    ||| c == '\u{2028}'
    ||| c == '\u{2029}'
    ||| c == '\u{202f}'
    ||| c == '\u{205f}'
    ||| c == '\u{3000}'
}

/// The text without leading and trailing white space.
pub open spec fn trimmed(s: Seq<char>) -> Seq<char> {
    let start = leading_space(s);
    let end = s.len() - trailing_space(s.skip(start));
    s.subrange(start, end)
}

/// The number of white space characters the text starts with.
pub open spec fn leading_space(s: Seq<char>) -> int
    decreases s.len(),
{
    if s.len() == 0 {
        0
    } else if is_white_space(s[0]) {
        1 + leading_space(s.drop_first())
    } else {
        0
    }
}

/// The number of white space characters the text ends with.
pub open spec fn trailing_space(s: Seq<char>) -> int
    decreases s.len(),
{
    if s.len() == 0 {
        0
    } else if is_white_space(s.last()) {
        1 + trailing_space(s.drop_last())
    } else {
        0
    }
}

fn char_is_white_space(c: char) -> (r: bool)
    ensures
        r == is_white_space(c),
{
    ('\u{9}' <= c && c <= '\u{d}') || c == ' ' || c == '\u{85}' || c == '\u{a0}' || c == '\u{1680}'
        || ('\u{2000}' <= c && c <= '\u{200a}') || c == '\u{2028}' || c == '\u{2029}' || c
        == '\u{202f}' || c == '\u{205f}' || c == '\u{3000}'
}

proof fn lemma_leading_space_bound(s: Seq<char>)
    ensures
        0 <= leading_space(s) <= s.len(),
    decreases s.len(),
{
    if s.len() > 0 && is_white_space(s[0]) {
        lemma_leading_space_bound(s.drop_first());
    }
}

proof fn lemma_trailing_space_bound(s: Seq<char>)
    ensures
        0 <= trailing_space(s) <= s.len(),
    decreases s.len(),
{
    if s.len() > 0 && is_white_space(s.last()) {
        lemma_trailing_space_bound(s.drop_last());
    }
}

/// Removes leading and trailing white space, as `str::trim` does.
pub fn trim(text: &str) -> (r: &str)
    ensures
        r@ == trimmed(text@),
{
    let n = text.unicode_len();
    let ghost s = text@;
    let mut start: usize = 0;
    assert(s.skip(0) =~= s);
    while start < n && char_is_white_space(text.get_char(start))
        invariant
            n == s.len(),
            s == text@,
            0 <= start <= n,
            leading_space(s) == start + leading_space(s.skip(start as int)),
        decreases n - start,
    {
        assert(s.skip(start as int).drop_first() =~= s.skip(start + 1));
        start = start + 1;
    }
    proof {
        if start < n {
            assert(s.skip(start as int)[0] == s[start as int]);
        }
        assert(leading_space(s) == start);
    }
    let mut end: usize = n;
    let ghost t = s.skip(start as int);
    assert(t.take(n - start) =~= t);
    while end > start && char_is_white_space(text.get_char(end - 1))
        invariant
            n == s.len(),
            s == text@,
            t == s.skip(start as int),
            start <= end <= n,
            trailing_space(t) == (n - end) + trailing_space(t.take(end - start)),
        decreases end - start,
    {
        assert(t.take(end - start).drop_last() =~= t.take(end - 1 - start));
        assert(t.take(end - start).last() == s[end - 1]);
        end = end - 1;
    }
    proof {
        if end > start {
            assert(t.take(end - start).last() == s[end - 1]);
        } else {
            assert(t.take(end - start).len() == 0);
        }
        assert(trailing_space(t) == n - end);
    }
    text.substring_char(start, end)
}

pub open spec fn opt_text(o: Option<String>) -> Option<Seq<char>> {
    match o {
        Some(s) => Some(s@),
        None => None,
    }
}

/// The value of the first entry with the key: `None` when no entry has the
/// key, `Some(None)` when it has no value.
pub open spec fn lookup(entries: Seq<IniEntry>, key: Seq<char>) -> Option<Option<Seq<char>>>
    decreases entries.len(),
{
    if entries.len() == 0 {
        None
    } else if entries[0].key@ == key {
        Some(opt_text(entries[0].value))
    } else {
        lookup(entries.drop_first(), key)
    }
}

/// The value of the key when it is there with a value.
pub open spec fn flat_lookup(entries: Seq<IniEntry>, key: Seq<char>) -> Option<Seq<char>> {
    match lookup(entries, key) {
        Some(Some(v)) => Some(v),
        _ => None,
    }
}

/// The value of a key that is known to have one.
pub open spec fn value_of(entries: Seq<IniEntry>, key: Seq<char>) -> Seq<char> {
    flat_lookup(entries, key)->0
}

/// The first section with the name.
pub open spec fn section_named(sections: Seq<IniSection>, name: Seq<char>) -> Option<IniSection>
    decreases sections.len(),
{
    if sections.len() == 0 {
        None
    } else if sections[0].name@ == name {
        Some(sections[0])
    } else {
        section_named(sections.drop_first(), name)
    }
}

proof fn lemma_lookup_skip(entries: Seq<IniEntry>, key: Seq<char>, i: int)
    requires
        0 <= i < entries.len(),
    ensures
        lookup(entries.skip(i), key) == if entries[i].key@ == key {
            Some(opt_text(entries[i].value))
        } else {
            lookup(entries.skip(i + 1), key)
        },
{
    assert(entries.skip(i).drop_first() =~= entries.skip(i + 1));
}

proof fn lemma_section_skip(sections: Seq<IniSection>, name: Seq<char>, i: int)
    requires
        0 <= i < sections.len(),
    ensures
        section_named(sections.skip(i), name) == if sections[i].name@ == name {
            Some(sections[i])
        } else {
            section_named(sections.skip(i + 1), name)
        },
{
    assert(sections.skip(i).drop_first() =~= sections.skip(i + 1));
}

/// The value of the first entry with the key.
fn get_field<'a>(entries: &'a Vec<IniEntry>, key: &str) -> (r: Option<&'a Option<String>>)
    ensures
        match r {
            Some(v) => lookup(entries@, key@) == Some(opt_text(*v)),
            None => lookup(entries@, key@) is None,
        },
{
    let mut i: usize = 0;
    assert(entries@.skip(0) =~= entries@);
    while i < entries.len()
        invariant
            0 <= i <= entries.len(),
            lookup(entries@, key@) == lookup(entries@.skip(i as int), key@),
        decreases entries.len() - i,
    {
        proof {
            lemma_lookup_skip(entries@, key@, i as int);
        }
        if str_eq(entries[i].key.as_str(), key) {
            return Some(&entries[i].value);
        }
        i = i + 1;
    }
    None
}

/// The value of the key when it is there with a value.
fn get_value<'a>(entries: &'a Vec<IniEntry>, key: &str) -> (r: Option<&'a String>)
    ensures
        match r {
            Some(v) => flat_lookup(entries@, key@) == Some(v@),
            None => flat_lookup(entries@, key@) is None,
        },
{
    match get_field(entries, key) {
        Some(Some(v)) => Some(v),
        _ => None,
    }
}

/// The first section with the name.
fn find_section<'a>(sections: &'a Vec<IniSection>, name: &str) -> (r: Option<&'a IniSection>)
    ensures
        match r {
            Some(s) => section_named(sections@, name@) == Some(*s),
            None => section_named(sections@, name@) is None,
        },
{
    let mut i: usize = 0;
    assert(sections@.skip(0) =~= sections@);
    while i < sections.len()
        invariant
            0 <= i <= sections.len(),
            section_named(sections@, name@) == section_named(sections@.skip(i as int), name@),
        decreases sections.len() - i,
    {
        proof {
            lemma_section_skip(sections@, name@, i as int);
        }
        if str_eq(sections[i].name.as_str(), name) {
            return Some(&sections[i]);
        }
        i = i + 1;
    }
    None
}

pub open spec fn fault(section: Seq<char>, key: Seq<char>, problem: ConfigProblem) -> ConfigFault {
    ConfigFault { section, key, problem }
}

/// The fault of a key that must be there with a value.
pub open spec fn required_fault(section: Seq<char>, entries: Seq<IniEntry>, key: Seq<char>) -> Option<
    ConfigFault,
> {
    match lookup(entries, key) {
        None => Some(fault(section, key, ConfigProblem::MissingKey)),
        Some(None) => Some(fault(section, key, ConfigProblem::MissingValue)),
        Some(Some(_)) => None,
    }
}

/// The key bytes a base64 text stands for, white space around it ignored.
pub open spec fn key_bytes(text: Seq<char>) -> Option<Seq<u8>> {
    standard_base64_decoded(trimmed(text))
}

/// The text is the base64 form of a 32 byte key.
pub open spec fn key_text_ok(text: Seq<char>) -> bool {
    key_bytes(text) matches Some(b) && b.len() == 32
}

/// An optional port list is absent or readable.
pub open spec fn ports_ok(entries: Seq<IniEntry>, key: Seq<char>) -> bool {
    flat_lookup(entries, key) matches Some(v) ==> ports_text_value(v) is Some
}

/// An optional port list; empty when absent.
pub open spec fn ports_field(entries: Seq<IniEntry>, key: Seq<char>) -> Seq<u16> {
    match flat_lookup(entries, key) {
        Some(v) => ports_text_value(v)->0,
        None => Seq::empty(),
    }
}

/// A peer priority; zero when the key has no value.
pub open spec fn priority_field(entries: Seq<IniEntry>) -> i32 {
    match flat_lookup(entries, "priority"@) {
        Some(v) => i32_text_value(v)->0,
        None => 0,
    }
}

/// What is wrong with a peer section, checked in the order the fields are read.
pub open spec fn peer_fault(s: IniSection) -> Option<ConfigFault> {
    let n = s.name@;
    let e = s.entries@;
    if required_fault(n, e, "server_ip"@) is Some {
        required_fault(n, e, "server_ip"@)
    } else if required_fault(n, e, "server_public_key"@) is Some {
        required_fault(n, e, "server_public_key"@)
    } else if !key_text_ok(value_of(e, "server_public_key"@)) {
        Some(fault(n, "server_public_key"@, ConfigProblem::InvalidValue))
    } else if !ports_ok(e, "udp_ports"@) {
        Some(fault(n, "udp_ports"@, ConfigProblem::InvalidValue))
    } else if !ports_ok(e, "tcp_ports"@) {
        Some(fault(n, "tcp_ports"@, ConfigProblem::InvalidValue))
    } else if !ports_ok(e, "tls_ports"@) {
        Some(fault(n, "tls_ports"@, ConfigProblem::InvalidValue))
    } else if lookup(e, "priority"@) is None {
        Some(fault(n, "priority"@, ConfigProblem::MissingKey))
    } else if flat_lookup(e, "priority"@) matches Some(v) && i32_text_value(v) is None {
        Some(fault(n, "priority"@, ConfigProblem::InvalidValue))
    } else {
        None
    }
}

/// The peer read from a peer section whose server address is `ip`.
pub open spec fn peer_matches(p: PeerInfo, s: IniSection, ip: IpAddress) -> bool {
    let e = s.entries@;
    &&& p.peer_id@ == s.name@.skip(5)
    &&& p.server_ip == ip
    &&& key_bytes(value_of(e, "server_public_key"@)) == Some(p.server_public_key.0@)
    &&& p.udp_ports@ == ports_field(e, "udp_ports"@)
    &&& p.tcp_ports@ == ports_field(e, "tcp_ports"@)
    &&& p.tls_ports@ == ports_field(e, "tls_ports"@)
    &&& p.priority == priority_field(e)
    &&& opt_text(p.exit_label) == flat_lookup(e, "exit_label"@)
}

/// A section describes a peer when its name starts with "peer.".
pub open spec fn is_peer_section(s: IniSection) -> bool {
    s.name@.len() >= 5 && s.name@.take(5) == "peer."@
}

pub open spec fn peer_pred() -> spec_fn(IniSection) -> bool {
    |s: IniSection| is_peer_section(s)
}

/// The peer sections, in document order.
pub open spec fn peer_sections(sections: Seq<IniSection>) -> Seq<IniSection> {
    sections.filter(peer_pred())
}

/// The first fault among peer sections.
pub open spec fn peers_fault(ps: Seq<IniSection>) -> Option<ConfigFault>
    decreases ps.len(),
{
    if ps.len() == 0 {
        None
    } else {
        match peers_fault(ps.drop_last()) {
            Some(f) => Some(f),
            None => peer_fault(ps.last()),
        }
    }
}

/// The first peer section without a server address.
pub open spec fn address_fault(ps: Seq<IniSection>) -> Option<ConfigFault>
    decreases ps.len(),
{
    if ps.len() == 0 {
        None
    } else {
        match address_fault(ps.drop_last()) {
            Some(f) => Some(f),
            None => required_fault(ps.last().name@, ps.last().entries@, "server_ip"@),
        }
    }
}

pub open spec fn peers_match(peers: Seq<PeerInfo>, ps: Seq<IniSection>, ips: Seq<IpAddress>) -> bool {
    &&& peers.len() == ps.len()
    &&& forall|k: int| 0 <= k < ps.len() ==> peer_matches(#[trigger] peers[k], ps[k], ips[k])
}

/// Whether the local agent is wanted: the value "true" or "false".
pub open spec fn agent_flag(m: Seq<IniEntry>) -> Option<bool> {
    match flat_lookup(m, "with_local_agent"@) {
        Some(v) => if v == "true"@ {
            Some(true)
        } else if v == "false"@ {
            Some(false)
        } else {
            None
        },
        None => None,
    }
}

/// What is wrong with the mode and fork sections, checked in reading order.
pub open spec fn mode_fault(sections: Seq<IniSection>) -> Option<ConfigFault> {
    let sec = "mode"@;
    match section_named(sections, sec) {
        None => Some(fault(sec, Seq::empty(), ConfigProblem::MissingSection)),
        Some(ms) => {
            let m = ms.entries@;
            if required_fault(sec, m, "with_local_agent"@) is Some {
                required_fault(sec, m, "with_local_agent"@)
            } else if agent_flag(m) is None {
                Some(fault(sec, "with_local_agent"@, ConfigProblem::InvalidValue))
            } else if agent_flag(m) == Some(true) {
                if required_fault(sec, m, "user_agent"@) is Some {
                    required_fault(sec, m, "user_agent"@)
                } else if required_fault(sec, m, "app_version"@) is Some {
                    required_fault(sec, m, "app_version"@)
                } else {
                    match section_named(sections, "fork"@) {
                        None => None,
                        Some(f) => if required_fault("fork"@, f.entries@, "username"@) is Some {
                            required_fault("fork"@, f.entries@, "username"@)
                        } else {
                            required_fault("fork"@, f.entries@, "password"@)
                        },
                    }
                }
            } else if lookup(m, "client_private_key"@) is None {
                Some(fault(sec, "client_private_key"@, ConfigProblem::MissingKey))
            } else if flat_lookup(m, "client_private_key"@) matches Some(k) && !key_text_ok(k) {
                Some(fault(sec, "client_private_key"@, ConfigProblem::InvalidValue))
            } else {
                None
            }
        },
    }
}

/// What is wrong with a configuration: peers are read first, then the mode.
pub open spec fn config_fault(doc: IniDocument) -> Option<ConfigFault> {
    match peers_fault(peer_sections(doc.sections@)) {
        Some(f) => Some(f),
        None => mode_fault(doc.sections@),
    }
}

/// The name of the API environment: the lower cased `env` value, "prod" by default.
pub open spec fn env_name(m: Seq<IniEntry>) -> Seq<char> {
    match flat_lookup(m, "env"@) {
        Some(v) => lowercased(v),
        None => "prod"@,
    }
}

/// The API environment a name selects: "prod", "atlas", or atlas with that scientist.
pub open spec fn env_matches(env: MuonEnv, name: Seq<char>) -> bool {
    if name == "prod"@ {
        env is Prod
    } else if name == "atlas"@ {
        env matches MuonEnv::Atlas { scientist } && scientist is None
    } else {
        env matches MuonEnv::Atlas { scientist } && opt_text(scientist) == Some(name)
    }
}

pub open spec fn mode_matches(cm: ConnectionMode, m: Seq<IniEntry>) -> bool {
    if agent_flag(m) == Some(true) {
        &&& cm matches ConnectionMode::LocalAgent { user_agent, app_version, settings, muon_env }
        &&& user_agent@ == value_of(m, "user_agent"@)
        &&& app_version@ == value_of(m, "app_version"@)
        &&& settings == LocalAgentSettings::all_default()
        &&& env_matches(muon_env, env_name(m))
    } else {
        &&& cm matches ConnectionMode::NoLocalAgent { wg_private_key }
        &&& match flat_lookup(m, "client_private_key"@) {
            None => wg_private_key is None,
            Some(k) => wg_private_key matches Some(key) && key_bytes(k) == Some(key.0@),
        }
    }
}

pub open spec fn fork_matches(fork: Option<ParsedForkConfig>, sections: Seq<IniSection>, m: Seq<IniEntry>) -> bool {
    if agent_flag(m) == Some(true) && section_named(sections, "fork"@) is Some {
        let f = section_named(sections, "fork"@)->0.entries@;
        &&& fork matches Some(fc)
        &&& fc.username@ == value_of(f, "username"@)
        &&& fc.password@ == value_of(f, "password"@)
        &&& fc.app_version@ == match flat_lookup(f, "app_version"@) {
            Some(v) => v,
            None => value_of(m, "app_version"@),
        }
        &&& fc.child@ == match flat_lookup(f, "child"@) {
            Some(v) => v,
            None => match flat_lookup(m, "child"@) {
                Some(v) => v,
                None => value_of(m, "app_version"@),
            },
        }
        &&& env_matches(fc.muon_env, env_name(m))
    } else {
        fork is None
    }
}

/// The configuration read from a document whose peer addresses are `ips`.
pub open spec fn config_matches(
    doc: IniDocument,
    ips: Seq<IpAddress>,
    cfg: ParsedConfig,
    fork: Option<ParsedForkConfig>,
) -> bool {
    let m = section_named(doc.sections@, "mode"@)->0.entries@;
    let ic = cfg.initial_connection_config;
    &&& peers_match(ic.peers@, peer_sections(doc.sections@), ips)
    &&& ic.network_available
    &&& ic.pcap_file is None
    &&& ic.sni_strategy == SniStrategy::Random
    &&& opt_text(cfg.tun_interface_name) == flat_lookup(m, "tun_interface_name"@)
    &&& mode_matches(ic.connection_mode, m)
    &&& fork_matches(fork, doc.sections@, m)
}

fn make_error(section: &str, key: &str, problem: ConfigProblem) -> (r: ConfigError)
    ensures
        r.fault() == fault(section@, key@, problem),
{
    ConfigError { section: section.to_string(), key: key.to_string(), problem }
}

/// The value of a key that must be there with a value.
fn required<'a>(section: &str, entries: &'a Vec<IniEntry>, key: &str) -> (r: Result<&'a String, ConfigError>)
    ensures
        r is Ok <==> required_fault(section@, entries@, key@) is None,
        r matches Ok(v) ==> flat_lookup(entries@, key@) == Some(v@),
        r matches Err(e) ==> required_fault(section@, entries@, key@) == Some(e.fault()),
{
    match get_field(entries, key) {
        None => Err(make_error(section, key, ConfigProblem::MissingKey)),
        Some(None) => Err(make_error(section, key, ConfigProblem::MissingValue)),
        Some(Some(v)) => Ok(v),
    }
}

/// The bytes of a base64 key text, white space around it ignored.
fn decode_key_text(text: &str) -> (r: Option<Vec<u8>>)
    ensures
        r is Some <==> key_text_ok(text@),
        r matches Some(b) ==> key_bytes(text@) == Some(b@) && b@.len() == 32,
{
    match decode_base64(trim(text)) {
        Some(bytes) => if bytes.len() == 32 {
            Some(bytes)
        } else {
            None
        },
        None => None,
    }
}

/// An optional port list of a section; empty when absent.
fn optional_ports(section: &str, entries: &Vec<IniEntry>, key: &str) -> (r: Result<Vec<u16>, ConfigError>)
    ensures
        r is Ok <==> ports_ok(entries@, key@),
        r matches Ok(v) ==> v@ == ports_field(entries@, key@),
        r matches Err(e) ==> e.fault() == fault(section@, key@, ConfigProblem::InvalidValue),
{
    match get_value(entries, key) {
        None => Ok(Vec::new()),
        Some(v) => match try_parse_ports(v.as_str()) {
            Some(ports) => Ok(ports),
            None => Err(make_error(section, key, ConfigProblem::InvalidValue)),
        },
    }
}

fn copy_option_string(o: Option<&String>) -> (r: Option<String>)
    ensures
        opt_text(r) == match o {
            Some(s) => Some(s@),
            None => None,
        },
{
    match o {
        Some(s) => Some(s.clone()),
        None => None,
    }
}

/// Reads one peer section whose server address text read as `server_ip`.
pub fn parse_ini_peer(section: &IniSection, server_ip: IpAddress) -> (r: Result<PeerInfo, ConfigError>)
    requires
        is_peer_section(*section),
    ensures
        r is Ok <==> peer_fault(*section) is None,
        r matches Ok(p) ==> peer_matches(p, *section, server_ip),
        r matches Err(e) ==> peer_fault(*section) == Some(e.fault()),
{
    let name = section.name.as_str();
    let entries = &section.entries;
    match required(name, entries, "server_ip") {
        Ok(_) => {},
        Err(e) => return Err(e),
    }
    let key_text = match required(name, entries, "server_public_key") {
        Ok(v) => v,
        Err(e) => return Err(e),
    };
    let server_public_key = match decode_key_text(key_text.as_str()) {
        Some(bytes) => match WgPeerPublicKey::try_from_bytes(bytes) {
            Ok(k) => k,
            Err(_) => return Err(make_error(name, "server_public_key", ConfigProblem::InvalidValue)),
        },
        None => return Err(make_error(name, "server_public_key", ConfigProblem::InvalidValue)),
    };
    let udp_ports = match optional_ports(name, entries, "udp_ports") {
        Ok(v) => v,
        Err(e) => return Err(e),
    };
    let tcp_ports = match optional_ports(name, entries, "tcp_ports") {
        Ok(v) => v,
        Err(e) => return Err(e),
    };
    let tls_ports = match optional_ports(name, entries, "tls_ports") {
        Ok(v) => v,
        Err(e) => return Err(e),
    };
    let priority: i32 = match get_field(entries, "priority") {
        None => return Err(make_error(name, "priority", ConfigProblem::MissingKey)),
        Some(None) => 0,
        Some(Some(v)) => match parse_i32(v.as_str()) {
            Some(p) => p,
            None => return Err(make_error(name, "priority", ConfigProblem::InvalidValue)),
        },
    };
    let exit_label = copy_option_string(get_value(entries, "exit_label"));
    proof {
        reveal_strlit("peer.");
    }
    let peer_id = name.substring_char(5, name.unicode_len()).to_string();
    Ok(
        PeerInfo {
            peer_id,
            server_ip,
            server_public_key,
            udp_ports,
            tcp_ports,
            tls_ports,
            priority,
            exit_label,
        },
    )
}

/// Whether a section describes a peer.
fn section_is_peer(section: &IniSection) -> (r: bool)
    ensures
        r == is_peer_section(*section),
{
    proof {
        reveal_strlit("peer.");
    }
    starts_with(section.name.as_str(), "peer.")
}

proof fn lemma_peer_sections_step(sections: Seq<IniSection>, i: int)
    requires
        0 <= i < sections.len(),
    ensures
        peer_sections(sections.take(i + 1)) == if is_peer_section(sections[i]) {
            peer_sections(sections.take(i)).push(sections[i])
        } else {
            peer_sections(sections.take(i))
        },
{
    let t = sections.take(i + 1);
    assert(t.drop_last() =~= sections.take(i));
    assert(t.last() == sections[i]);
    assert(peer_pred()(sections[i]) == is_peer_section(sections[i]));
    reveal_with_fuel(Seq::filter, 1);
    assert(t.filter(peer_pred()) == if peer_pred()(t.last()) {
        t.drop_last().filter(peer_pred()).push(t.last())
    } else {
        t.drop_last().filter(peer_pred())
    });
}

proof fn lemma_peer_sections_prefix(sections: Seq<IniSection>, i: int)
    requires
        0 <= i <= sections.len(),
    ensures
        peer_sections(sections) == peer_sections(sections.take(i)) + peer_sections(sections.skip(i)),
{
    assert(sections =~= sections.take(i) + sections.skip(i));
    Seq::filter_distributes_over_add(sections.take(i), sections.skip(i), peer_pred());
}

proof fn lemma_peers_fault_prefix(a: Seq<IniSection>, b: Seq<IniSection>)
    requires
        peers_fault(a) is Some,
    ensures
        peers_fault(a + b) == peers_fault(a),
    decreases b.len(),
{
    if b.len() == 0 {
        assert(a + b =~= a);
    } else {
        assert((a + b).drop_last() =~= a + b.drop_last());
        lemma_peers_fault_prefix(a, b.drop_last());
    }
}

proof fn lemma_address_fault_prefix(a: Seq<IniSection>, b: Seq<IniSection>)
    requires
        address_fault(a) is Some,
    ensures
        address_fault(a + b) == address_fault(a),
    decreases b.len(),
{
    if b.len() == 0 {
        assert(a + b =~= a);
    } else {
        assert((a + b).drop_last() =~= a + b.drop_last());
        lemma_address_fault_prefix(a, b.drop_last());
    }
}

/// The server address texts of the peer sections, in document order; fails
/// on the first peer section without one.
pub fn peer_address_texts(doc: &IniDocument) -> (r: Result<Vec<String>, ConfigError>)
    ensures
        r is Ok <==> address_fault(peer_sections(doc.sections@)) is None,
        r matches Ok(v) ==> v@.len() == peer_sections(doc.sections@).len() && forall|k: int|
            0 <= k < v@.len() ==> #[trigger] v@[k]@ == value_of(
                peer_sections(doc.sections@)[k].entries@,
                "server_ip"@,
            ),
        r matches Err(e) ==> address_fault(peer_sections(doc.sections@)) == Some(e.fault()),
{
    let ghost all = doc.sections@;
    let mut out: Vec<String> = Vec::new();
    let mut i: usize = 0;
    assert(all.take(0) =~= Seq::<IniSection>::empty());
    while i < doc.sections.len()
        invariant
            all == doc.sections@,
            0 <= i <= all.len(),
            address_fault(peer_sections(all.take(i as int))) is None,
            out@.len() == peer_sections(all.take(i as int)).len(),
            forall|k: int|
                0 <= k < out@.len() ==> #[trigger] out@[k]@ == value_of(
                    peer_sections(all.take(i as int))[k].entries@,
                    "server_ip"@,
                ),
        decreases all.len() - i,
    {
        let section = &doc.sections[i];
        proof {
            lemma_peer_sections_step(all, i as int);
            assert(peer_sections(all.take(i + 1)).drop_last() =~= peer_sections(all.take(i as int)) || !is_peer_section(all[i as int]));
        }
        if section_is_peer(section) {
            match required(section.name.as_str(), &section.entries, "server_ip") {
                Ok(v) => {
                    out.push(v.clone());
                },
                Err(e) => {
                    proof {
                        let upto = peer_sections(all.take(i + 1));
                        assert(upto.drop_last() =~= peer_sections(all.take(i as int)));
                        assert(address_fault(upto) == Some(e.fault()));
                        lemma_peer_sections_prefix(all, i + 1);
                        lemma_address_fault_prefix(upto, peer_sections(all.skip(i + 1)));
                    }
                    return Err(e);
                },
            }
            proof {
                let upto = peer_sections(all.take(i + 1));
                assert(upto.drop_last() =~= peer_sections(all.take(i as int)));
            }
        }
        i = i + 1;
    }
    assert(all.take(all.len() as int) =~= all);
    Ok(out)
}

/// Reads the peer sections, in document order, each with its server address;
/// fails on the first faulty one.
fn read_ini_peers(doc: &IniDocument, server_ips: &Vec<IpAddress>) -> (r: Result<Vec<PeerInfo>, ConfigError>)
    requires
        server_ips.len() == peer_sections(doc.sections@).len(),
    ensures
        r is Ok <==> peers_fault(peer_sections(doc.sections@)) is None,
        r matches Ok(v) ==> peers_match(v@, peer_sections(doc.sections@), server_ips@),
        r matches Err(e) ==> peers_fault(peer_sections(doc.sections@)) == Some(e.fault()),
{
    let ghost all = doc.sections@;
    let mut out: Vec<PeerInfo> = Vec::new();
    let mut i: usize = 0;
    assert(all.take(0) =~= Seq::<IniSection>::empty());
    while i < doc.sections.len()
        invariant
            all == doc.sections@,
            server_ips.len() == peer_sections(all).len(),
            0 <= i <= all.len(),
            peers_fault(peer_sections(all.take(i as int))) is None,
            peers_match(out@, peer_sections(all.take(i as int)), server_ips@),
        decreases all.len() - i,
    {
        let section = &doc.sections[i];
        proof {
            lemma_peer_sections_step(all, i as int);
            lemma_peer_sections_prefix(all, i + 1);
        }
        if section_is_peer(section) {
            let k = out.len();
            proof {
                assert(peer_sections(all.take(i + 1)).len() == k + 1);
            }
            let ip = server_ips[k];
            match parse_ini_peer(section, ip) {
                Ok(p) => {
                    out.push(p);
                    proof {
                        let upto = peer_sections(all.take(i + 1));
                        assert(upto.drop_last() =~= peer_sections(all.take(i as int)));
                        assert(upto[k as int] == all[i as int]);
                        assert forall|j: int| 0 <= j < upto.len() implies peer_matches(
                            #[trigger] out@[j],
                            upto[j],
                            server_ips@[j],
                        ) by {
                            if j < k {
                                assert(upto[j] == peer_sections(all.take(i as int))[j]);
                            }
                        }
                    }
                },
                Err(e) => {
                    proof {
                        let upto = peer_sections(all.take(i + 1));
                        assert(upto.drop_last() =~= peer_sections(all.take(i as int)));
                        assert(peers_fault(upto) == Some(e.fault()));
                        lemma_peers_fault_prefix(upto, peer_sections(all.skip(i + 1)));
                    }
                    return Err(e);
                },
            }
        }
        i = i + 1;
    }
    assert(all.take(all.len() as int) =~= all);
    Ok(out)
}

/// The API environment for a lower cased environment name.
fn muon_env_for(name: &str) -> (r: MuonEnv)
    ensures
        env_matches(r, name@),
{
    if str_eq(name, "prod") {
        MuonEnv::Prod
    } else if str_eq(name, "atlas") {
        MuonEnv::Atlas { scientist: None }
    } else {
        MuonEnv::Atlas { scientist: Some(name.to_string()) }
    }
}

/// The lower cased environment name of the mode section, "prod" by default.
fn env_name_of(m: &Vec<IniEntry>) -> (r: String)
    ensures
        r@ == env_name(m@),
{
    match get_value(m, "env") {
        Some(v) => to_lowercase(v.as_str()),
        None => "prod".to_string(),
    }
}

/// The connection mode of the mode section whose local agent flag is `with_agent`.
fn read_connection_mode(m: &Vec<IniEntry>, with_agent: bool) -> (r: Result<ConnectionMode, ConfigError>)
    requires
        agent_flag(m@) == Some(with_agent),
    ensures
        r is Ok <==> mode_fault_of_entries(m@) is None,
        r matches Ok(cm) ==> mode_matches(cm, m@),
        r matches Err(e) ==> mode_fault_of_entries(m@) == Some(e.fault()),
{
    if with_agent {
        let user_agent = match required("mode", m, "user_agent") {
            Ok(v) => v.clone(),
            Err(e) => return Err(e),
        };
        let app_version = match required("mode", m, "app_version") {
            Ok(v) => v.clone(),
            Err(e) => return Err(e),
        };
        let env = env_name_of(m);
        Ok(
            ConnectionMode::LocalAgent {
                user_agent,
                app_version,
                settings: LocalAgentSettings::default(),
                muon_env: muon_env_for(env.as_str()),
            },
        )
    } else {
        let wg_private_key = match get_field(m, "client_private_key") {
            None => return Err(make_error("mode", "client_private_key", ConfigProblem::MissingKey)),
            Some(None) => None,
            Some(Some(k)) => match decode_key_text(k.as_str()) {
                Some(bytes) => match WgClientPrivateKey::try_from_bytes(bytes) {
                    Ok(key) => Some(key),
                    Err(_) => return Err(
                        make_error("mode", "client_private_key", ConfigProblem::InvalidValue),
                    ),
                },
                None => return Err(make_error("mode", "client_private_key", ConfigProblem::InvalidValue)),
            },
        };
        Ok(ConnectionMode::NoLocalAgent { wg_private_key })
    }
}

/// What is wrong with the mode section's own keys (the fork section aside).
pub open spec fn mode_fault_of_entries(m: Seq<IniEntry>) -> Option<ConfigFault> {
    let sec = "mode"@;
    if agent_flag(m) == Some(true) {
        if required_fault(sec, m, "user_agent"@) is Some {
            required_fault(sec, m, "user_agent"@)
        } else {
            required_fault(sec, m, "app_version"@)
        }
    } else if lookup(m, "client_private_key"@) is None {
        Some(fault(sec, "client_private_key"@, ConfigProblem::MissingKey))
    } else if flat_lookup(m, "client_private_key"@) matches Some(k) && !key_text_ok(k) {
        Some(fault(sec, "client_private_key"@, ConfigProblem::InvalidValue))
    } else {
        None
    }
}

/// The fork settings, read when the local agent is used and a fork section exists.
fn read_fork_config(sections: &Vec<IniSection>, m: &Vec<IniEntry>) -> (r: Result<Option<ParsedForkConfig>, ConfigError>)
    requires
        agent_flag(m@) == Some(true),
        mode_fault_of_entries(m@) is None,
    ensures
        r is Ok <==> fork_fault(sections@) is None,
        r matches Ok(fork) ==> fork_matches(fork, sections@, m@),
        r matches Err(e) ==> fork_fault(sections@) == Some(e.fault()),
{
    match find_section(sections, "fork") {
        None => Ok(None),
        Some(f) => {
            let username = match required("fork", &f.entries, "username") {
                Ok(v) => v.clone(),
                Err(e) => return Err(e),
            };
            let password = match required("fork", &f.entries, "password") {
                Ok(v) => v.clone(),
                Err(e) => return Err(e),
            };
            let mode_app_version = match get_value(m, "app_version") {
                Some(v) => v,
                None => return Err(make_error("mode", "app_version", ConfigProblem::MissingValue)),
            };
            let app_version = match get_value(&f.entries, "app_version") {
                Some(v) => v.clone(),
                None => mode_app_version.clone(),
            };
            let child = match get_value(&f.entries, "child") {
                Some(v) => v.clone(),
                None => match get_value(m, "child") {
                    Some(v) => v.clone(),
                    None => mode_app_version.clone(),
                },
            };
            let env = env_name_of(m);
            Ok(
                Some(
                    ParsedForkConfig {
                        username,
                        password,
                        app_version,
                        child,
                        muon_env: muon_env_for(env.as_str()),
                    },
                ),
            )
        },
    }
}

/// What is wrong with the fork section, when there is one.
pub open spec fn fork_fault(sections: Seq<IniSection>) -> Option<ConfigFault> {
    match section_named(sections, "fork"@) {
        None => None,
        Some(f) => if required_fault("fork"@, f.entries@, "username"@) is Some {
            required_fault("fork"@, f.entries@, "username"@)
        } else {
            required_fault("fork"@, f.entries@, "password"@)
        },
    }
}

/// Reads a connection configuration, or the first fault in it: peers are
/// read first, then the mode section and, with the local agent, the fork
/// section.
fn read_ini_config(doc: &IniDocument, server_ips: &Vec<IpAddress>) -> (r: Result<(ParsedConfig, Option<ParsedForkConfig>), ConfigError>)
    requires
        server_ips.len() == peer_sections(doc.sections@).len(),
    ensures
        r is Ok <==> config_fault(*doc) is None,
        r matches Ok((cfg, fork)) ==> config_matches(*doc, server_ips@, cfg, fork),
        r matches Err(e) ==> config_fault(*doc) == Some(e.fault()),
{
    let peers = match read_ini_peers(doc, server_ips) {
        Ok(p) => p,
        Err(e) => return Err(e),
    };
    proof {
        reveal_strlit("");
        assert(""@ =~= Seq::<char>::empty());
    }
    let mode = match find_section(&doc.sections, "mode") {
        Some(m) => m,
        None => return Err(make_error("mode", "", ConfigProblem::MissingSection)),
    };
    let m = &mode.entries;
    let flag = match required("mode", m, "with_local_agent") {
        Ok(v) => v,
        Err(e) => return Err(e),
    };
    let with_agent = if str_eq(flag.as_str(), "true") {
        true
    } else if str_eq(flag.as_str(), "false") {
        false
    } else {
        return Err(make_error("mode", "with_local_agent", ConfigProblem::InvalidValue));
    };
    let connection_mode = match read_connection_mode(m, with_agent) {
        Ok(cm) => cm,
        Err(e) => return Err(e),
    };
    let fork = if with_agent {
        match read_fork_config(&doc.sections, m) {
            Ok(f) => f,
            Err(e) => return Err(e),
        }
    } else {
        None
    };
    let tun_interface_name = copy_option_string(get_value(m, "tun_interface_name"));
    Ok(
        (
            ParsedConfig {
                initial_connection_config: InitialConnectionConfig {
                    peers,
                    network_available: true,
                    pcap_file: None,
                    connection_mode,
                    sni_strategy: SniStrategy::Random,
                },
                tun_interface_name,
            },
            fork,
        ),
    )
}


/// The peer sections read, in document order, each with its server address.
/// A faulty peer section is outside what this function takes: test it with
/// [ini_config_error] first.
pub fn parse_ini_peers(doc: &IniDocument, server_ips: &Vec<IpAddress>) -> (r: Vec<PeerInfo>)
    requires
        server_ips.len() == peer_sections(doc.sections@).len(),
        peers_fault(peer_sections(doc.sections@)) is None,
    ensures
        peers_match(r@, peer_sections(doc.sections@), server_ips@),
{
    read_ini_peers(doc, server_ips).ok().unwrap()
}

/// The first fault of a configuration, as [parse_ini_config] would meet it;
/// `None` when the configuration can be read.
pub fn ini_config_error(doc: &IniDocument, server_ips: &Vec<IpAddress>) -> (r: Option<ConfigError>)
    requires
        server_ips.len() == peer_sections(doc.sections@).len(),
    ensures
        r is None <==> config_fault(*doc) is None,
        r matches Some(e) ==> config_fault(*doc) == Some(e.fault()),
{
    match read_ini_config(doc, server_ips) {
        Ok(_) => None,
        Err(e) => Some(e),
    }
}

/// Reads a connection configuration from the sections of an ini file.
/// `server_ips` holds the address of each peer section, in document order,
/// read from the texts that [peer_address_texts] gives. The result always
/// asks for the network to be taken as available, no packet capture and
/// random TLS server names; the fork section is read only with the local
/// agent. A configuration with a fault (a missing section, key or value, or a
/// malformed one) is outside what this function takes: test it with
/// [ini_config_error] first.
pub fn parse_ini_config(doc: &IniDocument, server_ips: &Vec<IpAddress>) -> (r: (ParsedConfig, Option<ParsedForkConfig>))
    requires
        server_ips.len() == peer_sections(doc.sections@).len(),
        config_fault(*doc) is None,
    ensures
        config_matches(*doc, server_ips@, r.0, r.1),
{
    read_ini_config(doc, server_ips).ok().unwrap()
}

} // verus!
