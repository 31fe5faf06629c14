use vstd::prelude::*;
use crate::net::{IpAddress, Ipv4Address, Ipv6Address};

verus! {

/// Local agent feature switches. `None` leaves the feature at its default.
#[derive(Clone, Copy, PartialEq, Eq, Structural)]
pub struct LocalAgentSettings {
    pub split_tcp: Option<bool>,
    pub netshield_level: Option<NetshieldLevel>,
    pub soft_jail: Option<bool>,
    pub port_forwarding: Option<bool>,
    pub random_nat: Option<bool>,
    pub circumvention_routing: Option<bool>,
}

impl LocalAgentSettings {
    pub open spec fn all_default() -> LocalAgentSettings {
        LocalAgentSettings {
            split_tcp: None,
            netshield_level: None,
            soft_jail: None,
            port_forwarding: None,
            random_nat: None,
            circumvention_routing: None,
        }
    }
}

impl Default for LocalAgentSettings {
    fn default() -> (r: LocalAgentSettings)
        ensures
            r == LocalAgentSettings::all_default(),
    {
        LocalAgentSettings {
            split_tcp: None,
            netshield_level: None,
            soft_jail: None,
            port_forwarding: None,
            random_nat: None,
            circumvention_routing: None,
        }
    }
}

/// Netshield filtering level.
#[derive(Clone, Copy, PartialEq, Eq, Structural)]
pub enum NetshieldLevel {
    /// Netshield is disabled
    Disabled,
    /// Netshield filters Malware
    MalwareFilter,
    /// Netshield filters Malware, Ads and Trackers
    AdsAndMalwareFilter,
    /// Netshield filters Malware, Ads, Trackers and Adult
    AdultAndAdsAndMalwareFilter,
}

/// A restriction reported by the local agent.
pub enum Restriction {
    Streaming { reason: String },
    Torrent { reason: String },
    Other { name: String, reason: String },
}

impl Clone for Restriction {
    fn clone(&self) -> (r: Restriction)
        ensures
            r == *self,
    {
        match self {
            Restriction::Streaming { reason } => Restriction::Streaming { reason: reason.clone() },
            Restriction::Torrent { reason } => Restriction::Torrent { reason: reason.clone() },
            Restriction::Other { name, reason } => Restriction::Other { name: name.clone(), reason: reason.clone() },
        }
    }
}

/// Why the local agent keeps the client waiting. Messages are for logs only.
#[derive(Clone, Copy, PartialEq, Eq, Structural)]
pub enum WaitJailReason {
    BadUserBehavior,
    DisabledUser,
    LowPlan,
    Need2FA,
    PendingInvoice,
    SessionOverLimit,
    WaitingClientChallengeReply,
    /// Handled by the library itself; the app need not act.
    Internal,
    /// A code this version does not know.
    Other,
}

/// A jail as reported to the app.
pub struct WaitJail {
    pub reason: WaitJailReason,
    pub code: u64,
    pub message: String,
}

impl Clone for WaitJail {
    fn clone(&self) -> (r: WaitJail)
        ensures
            r == *self,
    {
        WaitJail { reason: self.reason, code: self.code, message: self.message.clone() }
    }
}

/// Information known once the local agent connection is up.
pub struct AgentConnectionInfo {
    pub server_exit_v4: Option<IpAddress>,
    pub server_exit_v6: Option<IpAddress>,
    pub user_isp_ip: Option<String>,
    pub user_isp_country_code: Option<String>,
    pub user_isp_name: Option<String>,
    pub restrictions: Vec<Restriction>,
    pub groups: Vec<String>,
    /// Settings as applied by the server.
    pub settings: LocalAgentSettings,
}

/// The mathematical content of an [AgentConnectionInfo].
pub struct AgentConnectionInfoView {
    pub server_exit_v4: Option<IpAddress>,
    pub server_exit_v6: Option<IpAddress>,
    pub user_isp_ip: Option<String>,
    pub user_isp_country_code: Option<String>,
    pub user_isp_name: Option<String>,
    pub restrictions: Seq<Restriction>,
    pub groups: Seq<String>,
    pub settings: LocalAgentSettings,
}

impl View for AgentConnectionInfo {
    type V = AgentConnectionInfoView;

    open spec fn view(&self) -> AgentConnectionInfoView {
        AgentConnectionInfoView {
            server_exit_v4: self.server_exit_v4,
            server_exit_v6: self.server_exit_v6,
            user_isp_ip: self.user_isp_ip,
            user_isp_country_code: self.user_isp_country_code,
            user_isp_name: self.user_isp_name,
            restrictions: self.restrictions@,
            groups: self.groups@,
            settings: self.settings,
        }
    }
}

impl AgentConnectionInfoView {
    /// Nothing known yet.
    pub open spec fn empty() -> AgentConnectionInfoView {
        AgentConnectionInfoView {
            server_exit_v4: None,
            server_exit_v6: None,
            user_isp_ip: None,
            user_isp_country_code: None,
            user_isp_name: None,
            restrictions: Seq::empty(),
            groups: Seq::empty(),
            settings: LocalAgentSettings::all_default(),
        }
    }
}

fn clone_option_string(s: &Option<String>) -> (r: Option<String>)
    ensures
        r == *s,
{
    match s {
        Some(v) => Some(v.clone()),
        None => None,
    }
}

pub(crate) fn clone_strings(v: &Vec<String>) -> (r: Vec<String>)
    ensures
        r@ == v@,
{
    let r = v.clone();
    assert(r@ =~= v@);
    r
}

pub(crate) fn clone_restrictions(v: &Vec<Restriction>) -> (r: Vec<Restriction>)
    ensures
        r@ == v@,
{
    let r = v.clone();
    assert(r@ =~= v@);
    r
}

impl Clone for AgentConnectionInfo {
    fn clone(&self) -> (r: AgentConnectionInfo)
        ensures
            r@ == self@,
    {
        AgentConnectionInfo {
            server_exit_v4: self.server_exit_v4,
            server_exit_v6: self.server_exit_v6,
            user_isp_ip: clone_option_string(&self.user_isp_ip),
            user_isp_country_code: clone_option_string(&self.user_isp_country_code),
            user_isp_name: clone_option_string(&self.user_isp_name),
            restrictions: clone_restrictions(&self.restrictions),
            groups: clone_strings(&self.groups),
            settings: self.settings,
        }
    }
}

impl AgentConnectionInfo {
    /// Nothing known yet.
    pub fn empty() -> (r: AgentConnectionInfo)
        ensures
            r@ == AgentConnectionInfoView::empty(),
    {
        AgentConnectionInfo {
            server_exit_v4: None,
            server_exit_v6: None,
            user_isp_ip: None,
            user_isp_country_code: None,
            user_isp_name: None,
            restrictions: Vec::new(),
            groups: Vec::new(),
            settings: LocalAgentSettings::default(),
        }
    }
}

} // verus!
