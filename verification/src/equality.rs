use vstd::prelude::*;
use crate::connection::PeerInfo;
use crate::local_agent::{AgentConnectionInfo, AgentConnectionInfoView, Restriction, WaitJail};
use crate::state::{
    AgentConnectionWaitReason, ConnectionState, ConnectionStateView, DisconnectReason,
    PeerConnectionInfo, PeerConnectionWaitReason, WaitReasonView, same_peer,
};

verus! {

/// Two optional texts hold the same characters.
pub open spec fn opt_string_same(a: Option<String>, b: Option<String>) -> bool {
    match (a, b) {
        (Some(x), Some(y)) => x@ == y@,
        (None, None) => true,
        _ => false,
    }
}

pub open spec fn strings_same(a: Seq<String>, b: Seq<String>) -> bool {
    &&& a.len() == b.len()
    &&& forall|i: int| 0 <= i < a.len() ==> (#[trigger] a[i])@ == b[i]@
}

pub open spec fn restriction_same(a: Restriction, b: Restriction) -> bool {
    match (a, b) {
        (Restriction::Streaming { reason: x }, Restriction::Streaming { reason: y }) => x@ == y@,
        (Restriction::Torrent { reason: x }, Restriction::Torrent { reason: y }) => x@ == y@,
        (Restriction::Other { name: n1, reason: r1 }, Restriction::Other { name: n2, reason: r2 }) => n1@
            == n2@ && r1@ == r2@,
        _ => false,
    }
}

pub open spec fn restrictions_same(a: Seq<Restriction>, b: Seq<Restriction>) -> bool {
    &&& a.len() == b.len()
    &&& forall|i: int| 0 <= i < a.len() ==> restriction_same(#[trigger] a[i], b[i])
}

pub open spec fn jail_same(a: WaitJail, b: WaitJail) -> bool {
    a.reason == b.reason && a.code == b.code && a.message@ == b.message@
}

pub open spec fn jails_same(a: Seq<WaitJail>, b: Seq<WaitJail>) -> bool {
    &&& a.len() == b.len()
    &&& forall|i: int| 0 <= i < a.len() ==> jail_same(#[trigger] a[i], b[i])
}

pub open spec fn agent_info_same(a: AgentConnectionInfoView, b: AgentConnectionInfoView) -> bool {
    &&& a.server_exit_v4 == b.server_exit_v4
    &&& a.server_exit_v6 == b.server_exit_v6
    &&& opt_string_same(a.user_isp_ip, b.user_isp_ip)
    &&& opt_string_same(a.user_isp_country_code, b.user_isp_country_code)
    &&& opt_string_same(a.user_isp_name, b.user_isp_name)
    &&& restrictions_same(a.restrictions, b.restrictions)
    &&& strings_same(a.groups, b.groups)
    &&& a.settings == b.settings
}

pub open spec fn wait_reason_same(a: Option<WaitReasonView>, b: Option<WaitReasonView>) -> bool {
    match (a, b) {
        (None, None) => true,
        (Some(WaitReasonView::SoftJailed), Some(WaitReasonView::SoftJailed)) => true,
        (Some(WaitReasonView::HardJailed(x)), Some(WaitReasonView::HardJailed(y))) => jails_same(x, y),
        _ => false,
    }
}

pub open spec fn disconnect_same(a: Option<DisconnectReason>, b: Option<DisconnectReason>) -> bool {
    match (a, b) {
        (None, None) => true,
        (
            Some(DisconnectReason::TunEstablishError { message: x }),
            Some(DisconnectReason::TunEstablishError { message: y }),
        ) => x@ == y@,
        _ => false,
    }
}

pub open spec fn peers_same(a: Seq<PeerConnectionInfo>, b: Seq<PeerConnectionInfo>) -> bool {
    &&& a.len() == b.len()
    &&& forall|i: int| 0 <= i < a.len() ==> same_peer(#[trigger] a[i], b[i])
}

/// Two connection states are equal in content: the comparison that decides
/// whether a state change is reported.
pub open spec fn state_same(a: ConnectionStateView, b: ConnectionStateView) -> bool {
    match (a, b) {
        (ConnectionStateView::Disconnected(x), ConnectionStateView::Disconnected(y)) => disconnect_same(x, y),
        (ConnectionStateView::Connecting(p1, w1), ConnectionStateView::Connecting(p2, w2)) => peers_same(
            p1,
            p2,
        ) && w1 == w2,
        (
            ConnectionStateView::ConnectingToLocalAgent(p1, w1),
            ConnectionStateView::ConnectingToLocalAgent(p2, w2),
        ) => same_peer(p1, p2) && wait_reason_same(w1, w2),
        (ConnectionStateView::Connected(p1, i1), ConnectionStateView::Connected(p2, i2)) => same_peer(p1, p2)
            && match (i1, i2) {
            (None, None) => true,
            (Some(x), Some(y)) => agent_info_same(x, y),
            _ => false,
        },
        _ => false,
    }
}

/// Content equality is reflexive and symmetric.
pub proof fn law_state_same_reflexive_symmetric(a: ConnectionStateView, b: ConnectionStateView)
    ensures
        state_same(a, a),
        state_same(a, b) == state_same(b, a),
{
}

fn opt_string_eq(a: &Option<String>, b: &Option<String>) -> (r: bool)
    ensures
        r == opt_string_same(*a, *b),
{
    match (a, b) {
        (Some(x), Some(y)) => *x == *y,
        (None, None) => true,
        _ => false,
    }
}

fn strings_eq(a: &Vec<String>, b: &Vec<String>) -> (r: bool)
    ensures
        r == strings_same(a@, b@),
{
    if a.len() != b.len() {
        return false;
    }
    let mut i: usize = 0;
    while i < a.len()
        invariant
            a.len() == b.len(),
            0 <= i <= a.len(),
            forall|j: int| 0 <= j < i ==> (#[trigger] a@[j])@ == b@[j]@,
        decreases a.len() - i,
    {
        if a[i] != b[i] {
            return false;
        }
        i = i + 1;
    }
    true
}

fn restriction_eq(a: &Restriction, b: &Restriction) -> (r: bool)
    ensures
        r == restriction_same(*a, *b),
{
    match (a, b) {
        (Restriction::Streaming { reason: x }, Restriction::Streaming { reason: y }) => *x == *y,
        (Restriction::Torrent { reason: x }, Restriction::Torrent { reason: y }) => *x == *y,
        (Restriction::Other { name: n1, reason: r1 }, Restriction::Other { name: n2, reason: r2 }) => *n1
            == *n2 && *r1 == *r2,
        _ => false,
    }
}

fn restrictions_eq(a: &Vec<Restriction>, b: &Vec<Restriction>) -> (r: bool)
    ensures
        r == restrictions_same(a@, b@),
{
    if a.len() != b.len() {
        return false;
    }
    let mut i: usize = 0;
    while i < a.len()
        invariant
            a.len() == b.len(),
            0 <= i <= a.len(),
            forall|j: int| 0 <= j < i ==> restriction_same(#[trigger] a@[j], b@[j]),
        decreases a.len() - i,
    {
        if !restriction_eq(&a[i], &b[i]) {
            return false;
        }
        i = i + 1;
    }
    true
}

fn jails_eq(a: &Vec<WaitJail>, b: &Vec<WaitJail>) -> (r: bool)
    ensures
        r == jails_same(a@, b@),
{
    if a.len() != b.len() {
        return false;
    }
    let mut i: usize = 0;
    while i < a.len()
        invariant
            a.len() == b.len(),
            0 <= i <= a.len(),
            forall|j: int| 0 <= j < i ==> jail_same(#[trigger] a@[j], b@[j]),
        decreases a.len() - i,
    {
        if !(a[i].reason == b[i].reason && a[i].code == b[i].code && a[i].message == b[i].message) {
            return false;
        }
        i = i + 1;
    }
    true
}

fn agent_info_eq(a: &AgentConnectionInfo, b: &AgentConnectionInfo) -> (r: bool)
    ensures
        r == agent_info_same(a@, b@),
{
    a.server_exit_v4 == b.server_exit_v4 && a.server_exit_v6 == b.server_exit_v6 && opt_string_eq(
        &a.user_isp_ip,
        &b.user_isp_ip,
    ) && opt_string_eq(&a.user_isp_country_code, &b.user_isp_country_code) && opt_string_eq(
        &a.user_isp_name,
        &b.user_isp_name,
    ) && restrictions_eq(&a.restrictions, &b.restrictions) && strings_eq(&a.groups, &b.groups)
        && a.settings == b.settings
}

fn peers_eq(a: &Vec<PeerConnectionInfo>, b: &Vec<PeerConnectionInfo>) -> (r: bool)
    ensures
        r == peers_same(a@, b@),
{
    if a.len() != b.len() {
        return false;
    }
    let mut i: usize = 0;
    while i < a.len()
        invariant
            a.len() == b.len(),
            0 <= i <= a.len(),
            forall|j: int| 0 <= j < i ==> same_peer(#[trigger] a@[j], b@[j]),
        decreases a.len() - i,
    {
        if !a[i].same_as(&b[i]) {
            return false;
        }
        i = i + 1;
    }
    true
}

fn wait_reasons_eq(a: &Vec<PeerConnectionWaitReason>, b: &Vec<PeerConnectionWaitReason>) -> (r: bool)
    ensures
        r == (a@ == b@),
{
    if a.len() != b.len() {
        return false;
    }
    let mut i: usize = 0;
    while i < a.len()
        invariant
            a.len() == b.len(),
            0 <= i <= a.len(),
            forall|j: int| 0 <= j < i ==> a@[j] == b@[j],
        decreases a.len() - i,
    {
        if a[i] != b[i] {
            return false;
        }
        i = i + 1;
    }
    assert(a@ =~= b@);
    true
}

/// Compares two connection states by content.
pub fn states_equal(a: &ConnectionState, b: &ConnectionState) -> (r: bool)
    ensures
        r == state_same(a@, b@),
{
    match (a, b) {
        (ConnectionState::Disconnected { error: x }, ConnectionState::Disconnected { error: y }) => {
            match (x, y) {
                (None, None) => true,
                (
                    Some(DisconnectReason::TunEstablishError { message: m1 }),
                    Some(DisconnectReason::TunEstablishError { message: m2 }),
                ) => *m1 == *m2,
                _ => false,
            }
        },
        (
            ConnectionState::Connecting { peers: p1, wait_reasons: w1 },
            ConnectionState::Connecting { peers: p2, wait_reasons: w2 },
        ) => peers_eq(p1, p2) && wait_reasons_eq(w1, w2),
        (
            ConnectionState::ConnectingToLocalAgent { peer: p1, wait_reason: w1 },
            ConnectionState::ConnectingToLocalAgent { peer: p2, wait_reason: w2 },
        ) => p1.same_as(p2) && match (w1, w2) {
            (None, None) => true,
            (Some(AgentConnectionWaitReason::SoftJailed), Some(AgentConnectionWaitReason::SoftJailed)) => true,
            (
                Some(AgentConnectionWaitReason::HardJailed { jails: j1 }),
                Some(AgentConnectionWaitReason::HardJailed { jails: j2 }),
            ) => jails_eq(j1, j2),
            _ => false,
        },
        (
            ConnectionState::Connected { peer: p1, agent_info: i1 },
            ConnectionState::Connected { peer: p2, agent_info: i2 },
        ) => p1.same_as(p2) && match (i1, i2) {
            (None, None) => true,
            (Some(x), Some(y)) => agent_info_eq(x, y),
            _ => false,
        },
        _ => false,
    }
}

/// Two candidate peers are equal in content.
pub open spec fn peer_info_same(a: PeerInfo, b: PeerInfo) -> bool {
    &&& a.peer_id@ == b.peer_id@
    &&& a.server_ip == b.server_ip
    &&& a.server_public_key.0@ == b.server_public_key.0@
    &&& a.udp_ports@ == b.udp_ports@
    &&& a.tcp_ports@ == b.tcp_ports@
    &&& a.tls_ports@ == b.tls_ports@
    &&& a.priority == b.priority
    &&& opt_string_same(a.exit_label, b.exit_label)
}

fn bytes32_eq(a: &[u8; 32], b: &[u8; 32]) -> (r: bool)
    ensures
        r == (a@ == b@),
{
    let mut i: usize = 0;
    while i < 32
        invariant
            0 <= i <= 32,
            a@.len() == 32,
            b@.len() == 32,
            forall|j: int| 0 <= j < i ==> a@[j] == b@[j],
        decreases 32 - i,
    {
        if a[i] != b[i] {
            return false;
        }
        i = i + 1;
    }
    assert(a@ =~= b@);
    true
}

fn ports_eq(a: &Vec<u16>, b: &Vec<u16>) -> (r: bool)
    ensures
        r == (a@ == b@),
{
    if a.len() != b.len() {
        return false;
    }
    let mut i: usize = 0;
    while i < a.len()
        invariant
            a.len() == b.len(),
            0 <= i <= a.len(),
            forall|j: int| 0 <= j < i ==> a@[j] == b@[j],
        decreases a.len() - i,
    {
        if a[i] != b[i] {
            return false;
        }
        i = i + 1;
    }
    assert(a@ =~= b@);
    true
}

/// Compares two candidate peers by content.
pub fn peer_infos_equal(a: &PeerInfo, b: &PeerInfo) -> (r: bool)
    ensures
        r == peer_info_same(*a, *b),
{
    a.peer_id == b.peer_id && a.server_ip == b.server_ip && bytes32_eq(
        &a.server_public_key.0,
        &b.server_public_key.0,
    ) && ports_eq(&a.udp_ports, &b.udp_ports) && ports_eq(&a.tcp_ports, &b.tcp_ports) && ports_eq(
        &a.tls_ports,
        &b.tls_ports,
    ) && a.priority == b.priority && opt_string_eq(&a.exit_label, &b.exit_label)
}

} // verus!
