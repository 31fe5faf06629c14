use vstd::prelude::*;
use crate::events::{ApiEndpoint, ErrorEvent, Event, LocalAgentSettingType};
use crate::local_agent::{
    AgentConnectionInfo, AgentConnectionInfoView, LocalAgentSettings, NetshieldLevel, Restriction,
    WaitJail, WaitJailReason, clone_restrictions, clone_strings,
};
use crate::net::{IpAddress, Ipv4Address, Ipv6Address};
use crate::state::{
    AgentConnectionWaitReason, ConnectionState, ConnectionStateView, PeerConnectionInfo,
    WaitReasonView, same_peer,
};

verus! {

/// A jail that the library resolves by itself.
pub enum HandledJail {
    SystemError(String),
    ExpiredCertificate(String),
    RevokedCertificate(String),
    KeyAlreadyUsed(String),
    InvalidCertificateSignature(String),
}

/// A jail that needs app or user action (most of them).
pub enum ToHandleJail {
    RequireRecent2FA(String),
    Expired2FA(String),
    Require2FA(String),
    WaitingClientChallengeReply(String),
    PolicyViolation1(String),
    PolicyViolation2(String),
    BadUserBehavior(String),
    DisabledUser(String),
    SessionOverLimit(String),
    FreeSessionOverLimit(String),
    BasicSessionOverLimit(String),
    PlusSessionOverLimit(String),
    VisionarySessionOverLimit(String),
    ProSessionOverLimit(String),
    GuestSession(String),
    RestrictedServer(String),
    NoCertificateProvided(String),
    SessionInstallationInProgress(String),
    Unknown(u64, String),
}

/// A jail reported by the local agent.
pub enum Jail {
    InternallyHandled(HandledJail),
    ToHandle(ToHandleJail),
}

/// A jail together with its numeric code.
pub struct JailEntry {
    pub code: u64,
    pub jail: Jail,
}

/// Details of a failed API request, as the API client reports them.
pub struct ApiErrorDetails {
    pub http_code: Option<u16>,
    pub proton_code: Option<i64>,
    pub reason: Option<String>,
}

/// Errors the local agent server reports.
pub enum LocalAgentServerError {
    UnknownFeatureRequest,
    BadMessageSyntax,
    SessionNotFound,
    SessionError,
    NetshieldLevelPolicyRefused,
    BouncingPolicyRefused,
    PortFwPolicyRefused,
    SplitTcpPolicyRefused,
    SafeModePolicyRefused,
    RandomNatPolicyRefused,
    NetshieldLevelSystemErr,
    NetshieldLevelInvalidInput,
    BouncingSystemErr,
    BouncingInvalidInput,
    PortFwSystemErr,
    PortFwInvalidInput,
    PortFwNotAvailable,
    RandomNatSystemErr,
    RandomNatInvalidInput,
    SplitTcpSystemErr,
    SplitTcpInvalidInput,
    SoftJailSystemErr,
    SoftJailInvalidInput,
    SafeModeSystemErr,
    SafeModeInvalidInput,
    ConflictBouncingVsRandomNat,
    ConflictBouncingVsSplitTcp,
    ConflictBouncingVsPortFw,
    Other(String),
    UnknownField,
}

/// Errors of the local agent channel.
pub enum LocalAgentError {
    MuonErrorOnCertRefresh(ApiErrorDetails),
    MuonAuth(ApiErrorDetails),
    TooManyTriesOnCertRefresh,
    ServerError(LocalAgentServerError),
}

/// A value pushed by the local agent.
pub enum LocalAgentValue {
    InfoEstablished(Option<u64>),
    InfoGroups(Option<Vec<String>>),
    InfoPlatform(Option<String>),
    InfoRemote(Option<String>),
    InfoRemoteReal(Option<String>),
    InfoRemoteRealLocationCode(Option<String>),
    InfoExitIpv4(Option<Ipv4Address>),
    InfoExitIpv6(Option<Ipv6Address>),
    Restrictions(Option<Vec<Restriction>>),
    SettingsCircumventionRouting(Option<bool>),
    SettingsLabel(Option<String>),
    SettingsNetshieldLevel(Option<NetshieldLevel>),
    SettingsPortForwarding(Option<bool>),
    SettingsRandomNat(Option<bool>),
    SettingsSoftjail(Option<bool>),
    SettingsSplitTcp(Option<bool>),
    StatsBytesReceived(Option<u64>),
    StatsBytesSent(Option<u64>),
    StatsNetshieldBlockCountMalicious(Option<u64>),
    StatsNetshieldBlockCountAds(Option<u64>),
    StatsNetshieldBlockCountTracking(Option<u64>),
    StatsNetshieldBlockCountAdult(Option<u64>),
    Jails(Option<Vec<JailEntry>>),
}

/// A message of the local agent channel.
pub enum LocalAgentMessage {
    Value(LocalAgentValue),
    Error(LocalAgentError),
    MuonForkSelectorNeeded,
    LocalAgentConnected,
}

/// Average sizes used to estimate the data that blocking saved.
pub const AVG_AD_SIZE_BYTES: u64 = 204800;
pub const AVG_TRACKER_SIZE_BYTES: u64 = 51200;
pub const AVG_MALICIOUS_SIZE_BYTES: u64 = 768000;
pub const AVG_ADULT_CONTENT_SIZE_BYTES: u64 = 1488896;

/// Proton error code of an invalid refresh token.
pub const AUTH_REFRESH_TOKEN_INVALID: i64 = 10013;

/// HTTP status "422 Unprocessable Entity".
pub const HTTP_UNPROCESSABLE_ENTITY: u16 = 422;

/// The statistic a value belongs to.
#[derive(Clone, Copy, PartialEq, Eq, Structural)]
pub enum StatsField {
    BytesReceived,
    BytesSent,
    MaliciousBlocked,
    AdsBlocked,
    TrackersBlocked,
    AdultContentBlocked,
}

/// Collects the six statistics that make up one stats event.
/// A field is `Some(v)` once its value (itself optional) has arrived.
#[derive(Clone, Copy, PartialEq, Eq, Structural)]
pub struct StatsAccumulator {
    pub bytes_received: Option<Option<u64>>,
    pub bytes_sent: Option<Option<u64>>,
    pub malicious_blocked: Option<Option<u64>>,
    pub ads_blocked: Option<Option<u64>>,
    pub trackers_blocked: Option<Option<u64>>,
    pub adult_content_blocked: Option<Option<u64>>,
}

pub open spec fn count_or_zero(v: Option<u64>) -> int {
    match v {
        Some(n) => n as int,
        None => 0,
    }
}

/// Estimated bytes saved by blocking, from the block counts.
pub open spec fn saved_estimate(
    malicious: Option<u64>,
    ads: Option<u64>,
    trackers: Option<u64>,
    adult: Option<u64>,
) -> int {
    count_or_zero(malicious) * AVG_MALICIOUS_SIZE_BYTES + count_or_zero(ads) * AVG_AD_SIZE_BYTES
        + count_or_zero(trackers) * AVG_TRACKER_SIZE_BYTES + count_or_zero(adult)
        * AVG_ADULT_CONTENT_SIZE_BYTES
}

impl StatsAccumulator {
    pub open spec fn empty() -> StatsAccumulator {
        StatsAccumulator {
            bytes_received: None,
            bytes_sent: None,
            malicious_blocked: None,
            ads_blocked: None,
            trackers_blocked: None,
            adult_content_blocked: None,
        }
    }

    pub open spec fn is_full(self) -> bool {
        &&& self.bytes_received is Some
        &&& self.bytes_sent is Some
        &&& self.malicious_blocked is Some
        &&& self.ads_blocked is Some
        &&& self.trackers_blocked is Some
        &&& self.adult_content_blocked is Some
    }

    /// The accumulator with `field` set to `value`.
    pub open spec fn with(self, field: StatsField, value: Option<u64>) -> StatsAccumulator {
        match field {
            StatsField::BytesReceived => StatsAccumulator { bytes_received: Some(value), ..self },
            StatsField::BytesSent => StatsAccumulator { bytes_sent: Some(value), ..self },
            StatsField::MaliciousBlocked => StatsAccumulator { malicious_blocked: Some(value), ..self },
            StatsField::AdsBlocked => StatsAccumulator { ads_blocked: Some(value), ..self },
            StatsField::TrackersBlocked => StatsAccumulator { trackers_blocked: Some(value), ..self },
            StatsField::AdultContentBlocked => StatsAccumulator {
                adult_content_blocked: Some(value),
                ..self
            },
        }
    }

    /// The estimate of a full accumulator.
    pub open spec fn estimate(self) -> int {
        saved_estimate(
            self.malicious_blocked.unwrap(),
            self.ads_blocked.unwrap(),
            self.trackers_blocked.unwrap(),
            self.adult_content_blocked.unwrap(),
        )
    }

    /// The estimate fits in 64 bits whenever the accumulator is full.
    pub open spec fn estimate_fits(self) -> bool {
        self.is_full() ==> self.estimate() <= u64::MAX
    }

    /// The stats event of a full accumulator.
    pub open spec fn event(self) -> Event {
        Event::LocalAgentStats {
            bytes_received: self.bytes_received.unwrap(),
            bytes_sent: self.bytes_sent.unwrap(),
            malicious_blocked: self.malicious_blocked.unwrap(),
            ads_blocked: self.ads_blocked.unwrap(),
            trackers_blocked: self.trackers_blocked.unwrap(),
            adult_content_blocked: self.adult_content_blocked.unwrap(),
            data_saved: Some(self.estimate() as u64),
        }
    }

    /// Recording a value: the new accumulator and the event emitted, if any.
    pub open spec fn record_spec(self, field: StatsField, value: Option<u64>) -> (StatsAccumulator, Option<Event>) {
        let next = self.with(field, value);
        if next.is_full() {
            (StatsAccumulator::empty(), Some(next.event()))
        } else {
            (next, None)
        }
    }

    /// An accumulator with nothing collected.
    pub fn new() -> (r: StatsAccumulator)
        ensures
            r == StatsAccumulator::empty(),
    {
        StatsAccumulator {
            bytes_received: None,
            bytes_sent: None,
            malicious_blocked: None,
            ads_blocked: None,
            trackers_blocked: None,
            adult_content_blocked: None,
        }
    }

    /// Forgets everything collected.
    pub fn reset(&mut self)
        ensures
            *final(self) == StatsAccumulator::empty(),
    {
        *self = StatsAccumulator::new();
    }

    /// Records one statistic; once all six are known, returns the stats event
    /// (with the saved-data estimate) and starts over.
    pub fn record(&mut self, field: StatsField, value: Option<u64>) -> (r: Option<Event>)
        requires
            old(self).with(field, value).estimate_fits(),
        ensures
            (*final(self), r) == old(self).record_spec(field, value),
            r matches Some(Event::LocalAgentStats { malicious_blocked: m, ads_blocked: a, trackers_blocked: t, adult_content_blocked: x, data_saved, .. })
                ==> data_saved == Some((count_or_zero(m) * 768000 + count_or_zero(a) * 204800 + count_or_zero(t) * 51200
                + count_or_zero(x) * 1488896) as u64),
    {
        match field {
            StatsField::BytesReceived => self.bytes_received = Some(value),
            StatsField::BytesSent => self.bytes_sent = Some(value),
            StatsField::MaliciousBlocked => self.malicious_blocked = Some(value),
            StatsField::AdsBlocked => self.ads_blocked = Some(value),
            StatsField::TrackersBlocked => self.trackers_blocked = Some(value),
            StatsField::AdultContentBlocked => self.adult_content_blocked = Some(value),
        }
        match (
            self.bytes_received,
            self.bytes_sent,
            self.malicious_blocked,
            self.ads_blocked,
            self.trackers_blocked,
            self.adult_content_blocked,
        ) {
            (Some(r), Some(s), Some(m), Some(a), Some(t), Some(x)) => {
                let saved = estimate_saved(m, a, t, x);
                self.reset();
                Some(
                    Event::LocalAgentStats {
                        bytes_received: r,
                        bytes_sent: s,
                        malicious_blocked: m,
                        ads_blocked: a,
                        trackers_blocked: t,
                        adult_content_blocked: x,
                        data_saved: Some(saved),
                    },
                )
            },
            _ => None,
        }
    }
}

impl StatsAccumulator {
    /// The accumulator with one more statistic set.
    pub fn with_value(&self, field: StatsField, value: Option<u64>) -> (r: StatsAccumulator)
        ensures
            r == self.with(field, value),
    {
        let mut r = *self;
        match field {
            StatsField::BytesReceived => r.bytes_received = Some(value),
            StatsField::BytesSent => r.bytes_sent = Some(value),
            StatsField::MaliciousBlocked => r.malicious_blocked = Some(value),
            StatsField::AdsBlocked => r.ads_blocked = Some(value),
            StatsField::TrackersBlocked => r.trackers_blocked = Some(value),
            StatsField::AdultContentBlocked => r.adult_content_blocked = Some(value),
        }
        r
    }

    /// Whether the saved-data estimate of a full accumulator fits in 64 bits.
    pub fn estimate_fits_u64(&self) -> (r: bool)
        ensures
            r == self.estimate_fits(),
    {
        match (
            self.bytes_received,
            self.bytes_sent,
            self.malicious_blocked,
            self.ads_blocked,
            self.trackers_blocked,
            self.adult_content_blocked,
        ) {
            (Some(_), Some(_), Some(m), Some(a), Some(t), Some(x)) => {
                let total = wide_estimate(m, a, t, x);
                total <= 0xffff_ffff_ffff_ffffu128
            },
            _ => true,
        }
    }
}

fn wide_count(v: Option<u64>) -> (r: u128)
    ensures
        r == count_or_zero(v),
{
    match v {
        Some(n) => n as u128,
        None => 0,
    }
}

/// The saved-data estimate computed in 128 bits, where it cannot overflow.
fn wide_estimate(malicious: Option<u64>, ads: Option<u64>, trackers: Option<u64>, adult: Option<u64>) -> (r: u128)
    ensures
        r == saved_estimate(malicious, ads, trackers, adult),
{
    let m = wide_count(malicious);
    let a = wide_count(ads);
    let t = wide_count(trackers);
    let x = wide_count(adult);
    assert(m * 768000 <= 0xffff_ffff_ffff_ffff * 768000) by (nonlinear_arith) requires m <= 0xffff_ffff_ffff_ffff;
    assert(a * 204800 <= 0xffff_ffff_ffff_ffff * 204800) by (nonlinear_arith) requires a <= 0xffff_ffff_ffff_ffff;
    assert(t * 51200 <= 0xffff_ffff_ffff_ffff * 51200) by (nonlinear_arith) requires t <= 0xffff_ffff_ffff_ffff;
    assert(x * 1488896 <= 0xffff_ffff_ffff_ffff * 1488896) by (nonlinear_arith) requires x <= 0xffff_ffff_ffff_ffff;
    m * 768000 + a * 204800 + t * 51200 + x * 1488896
}

/// Bytes saved by blocking, estimated from the block counts and average sizes.
pub fn estimate_saved(
    malicious: Option<u64>,
    ads: Option<u64>,
    trackers: Option<u64>,
    adult: Option<u64>,
) -> (r: u64)
    requires
        saved_estimate(malicious, ads, trackers, adult) <= u64::MAX,
    ensures
        r == saved_estimate(malicious, ads, trackers, adult),
        r == count_or_zero(malicious) * 768000 + count_or_zero(ads) * 204800 + count_or_zero(trackers) * 51200
            + count_or_zero(adult) * 1488896,
{
    let ghost m = count_or_zero(malicious);
    let ghost a = count_or_zero(ads);
    let ghost t = count_or_zero(trackers);
    let ghost x = count_or_zero(adult);
    assert(0 <= m * AVG_MALICIOUS_SIZE_BYTES) by (nonlinear_arith) requires m >= 0;
    assert(0 <= a * AVG_AD_SIZE_BYTES) by (nonlinear_arith) requires a >= 0;
    assert(0 <= t * AVG_TRACKER_SIZE_BYTES) by (nonlinear_arith) requires t >= 0;
    assert(0 <= x * AVG_ADULT_CONTENT_SIZE_BYTES) by (nonlinear_arith) requires x >= 0;
    let mut saved: u64 = 0;
    if let Some(v) = malicious {
        saved = saved + v * AVG_MALICIOUS_SIZE_BYTES;
    }
    if let Some(v) = ads {
        saved = saved + v * AVG_AD_SIZE_BYTES;
    }
    if let Some(v) = trackers {
        saved = saved + v * AVG_TRACKER_SIZE_BYTES;
    }
    if let Some(v) = adult {
        saved = saved + v * AVG_ADULT_CONTENT_SIZE_BYTES;
    }
    saved
}


/// Reason reported to the app for a jail.
pub open spec fn jail_reason(j: Jail) -> WaitJailReason {
    match j {
        Jail::InternallyHandled(_) => WaitJailReason::Internal,
        Jail::ToHandle(t) => match t {
            ToHandleJail::RequireRecent2FA(_) => WaitJailReason::Need2FA,
            ToHandleJail::Expired2FA(_) => WaitJailReason::Need2FA,
            ToHandleJail::Require2FA(_) => WaitJailReason::Need2FA,
            ToHandleJail::WaitingClientChallengeReply(_) => WaitJailReason::WaitingClientChallengeReply,
            ToHandleJail::PolicyViolation1(_) => WaitJailReason::LowPlan,
            ToHandleJail::PolicyViolation2(_) => WaitJailReason::PendingInvoice,
            ToHandleJail::BadUserBehavior(_) => WaitJailReason::BadUserBehavior,
            ToHandleJail::DisabledUser(_) => WaitJailReason::DisabledUser,
            ToHandleJail::SessionOverLimit(_) => WaitJailReason::SessionOverLimit,
            ToHandleJail::FreeSessionOverLimit(_) => WaitJailReason::SessionOverLimit,
            ToHandleJail::BasicSessionOverLimit(_) => WaitJailReason::SessionOverLimit,
            ToHandleJail::PlusSessionOverLimit(_) => WaitJailReason::SessionOverLimit,
            ToHandleJail::VisionarySessionOverLimit(_) => WaitJailReason::SessionOverLimit,
            ToHandleJail::ProSessionOverLimit(_) => WaitJailReason::SessionOverLimit,
            ToHandleJail::GuestSession(_) => WaitJailReason::Internal,
            ToHandleJail::RestrictedServer(_) => WaitJailReason::Internal,
            ToHandleJail::NoCertificateProvided(_) => WaitJailReason::Internal,
            ToHandleJail::SessionInstallationInProgress(_) => WaitJailReason::Internal,
            ToHandleJail::Unknown(_, _) => WaitJailReason::Other,
        },
    }
}

/// Message carried by a jail.
pub open spec fn jail_message(j: Jail) -> String {
    match j {
        Jail::InternallyHandled(h) => match h {
            HandledJail::SystemError(m) => m,
            HandledJail::ExpiredCertificate(m) => m,
            HandledJail::RevokedCertificate(m) => m,
            HandledJail::KeyAlreadyUsed(m) => m,
            HandledJail::InvalidCertificateSignature(m) => m,
        },
        Jail::ToHandle(t) => match t {
            ToHandleJail::RequireRecent2FA(m) => m,
            ToHandleJail::Expired2FA(m) => m,
            ToHandleJail::Require2FA(m) => m,
            ToHandleJail::WaitingClientChallengeReply(m) => m,
            ToHandleJail::PolicyViolation1(m) => m,
            ToHandleJail::PolicyViolation2(m) => m,
            ToHandleJail::BadUserBehavior(m) => m,
            ToHandleJail::DisabledUser(m) => m,
            ToHandleJail::SessionOverLimit(m) => m,
            ToHandleJail::FreeSessionOverLimit(m) => m,
            ToHandleJail::BasicSessionOverLimit(m) => m,
            ToHandleJail::PlusSessionOverLimit(m) => m,
            ToHandleJail::VisionarySessionOverLimit(m) => m,
            ToHandleJail::ProSessionOverLimit(m) => m,
            ToHandleJail::GuestSession(m) => m,
            ToHandleJail::RestrictedServer(m) => m,
            ToHandleJail::NoCertificateProvided(m) => m,
            ToHandleJail::SessionInstallationInProgress(m) => m,
            ToHandleJail::Unknown(_, m) => m,
        },
    }
}

/// The app-facing form of a jail.
pub open spec fn wait_jail_of(e: JailEntry) -> WaitJail {
    WaitJail { reason: jail_reason(e.jail), code: e.code, message: jail_message(e.jail) }
}

/// The jails held after a jail report: the reported ones in order, or none.
pub open spec fn wait_jails_of(entries: Option<Vec<JailEntry>>) -> Seq<WaitJail> {
    match entries {
        Some(v) => v@.map_values(|e: JailEntry| wait_jail_of(e)),
        None => Seq::empty(),
    }
}

/// Event reporting a failed API request.
pub open spec fn api_error_event(endpoint: ApiEndpoint, d: ApiErrorDetails) -> Event {
    Event::Error {
        error: ErrorEvent::ApiError {
            endpoint,
            http_code: d.http_code,
            proton_code: d.proton_code,
            message: d.reason,
            refresh_token_invalid: d.http_code == Some(HTTP_UNPROCESSABLE_ENTITY) && d.proton_code
                == Some(AUTH_REFRESH_TOKEN_INVALID),
        },
    }
}

/// Event reporting a setting that the server refused by policy.
pub open spec fn policy_refused_event(setting: LocalAgentSettingType) -> Event {
    Event::Error { error: ErrorEvent::LocalAgentSettingPolicyRefused { setting } }
}

/// The event an error of the local agent channel gives rise to, if any.
pub open spec fn error_event(e: LocalAgentError) -> Option<Event> {
    match e {
        LocalAgentError::MuonErrorOnCertRefresh(d) => Some(api_error_event(ApiEndpoint::CertificateRefresh, d)),
        LocalAgentError::MuonAuth(d) => Some(api_error_event(ApiEndpoint::Auth, d)),
        LocalAgentError::TooManyTriesOnCertRefresh => Some(
            Event::Error { error: ErrorEvent::CertificateRefreshFatalError },
        ),
        LocalAgentError::ServerError(s) => match s {
            LocalAgentServerError::NetshieldLevelPolicyRefused => Some(
                policy_refused_event(LocalAgentSettingType::NetshieldLevel),
            ),
            LocalAgentServerError::BouncingPolicyRefused => Some(
                policy_refused_event(LocalAgentSettingType::Bouncing),
            ),
            LocalAgentServerError::PortFwPolicyRefused => Some(
                policy_refused_event(LocalAgentSettingType::PortForwarding),
            ),
            LocalAgentServerError::SplitTcpPolicyRefused => Some(
                policy_refused_event(LocalAgentSettingType::SplitTcp),
            ),
            LocalAgentServerError::SafeModePolicyRefused => Some(
                policy_refused_event(LocalAgentSettingType::SafeMode),
            ),
            LocalAgentServerError::RandomNatPolicyRefused => Some(
                policy_refused_event(LocalAgentSettingType::RandomNat),
            ),
            _ => None,
        },
    }
}

/// The statistic a value reports, if it is one.
pub open spec fn stats_value(v: LocalAgentValue) -> Option<(StatsField, Option<u64>)> {
    match v {
        LocalAgentValue::StatsBytesReceived(n) => Some((StatsField::BytesReceived, n)),
        LocalAgentValue::StatsBytesSent(n) => Some((StatsField::BytesSent, n)),
        LocalAgentValue::StatsNetshieldBlockCountMalicious(n) => Some((StatsField::MaliciousBlocked, n)),
        LocalAgentValue::StatsNetshieldBlockCountAds(n) => Some((StatsField::AdsBlocked, n)),
        LocalAgentValue::StatsNetshieldBlockCountTracking(n) => Some((StatsField::TrackersBlocked, n)),
        LocalAgentValue::StatsNetshieldBlockCountAdult(n) => Some((StatsField::AdultContentBlocked, n)),
        _ => None,
    }
}

/// Local agent bookkeeping of one VPN connection: what the agent reported,
/// whether it is connected and which jails hold the client.
pub struct LocalAgentHandler {
    is_connected: bool,
    last_peer: Option<PeerConnectionInfo>,
    agent_info: AgentConnectionInfo,
    established_ts: Option<u64>,
    exit_label: Option<String>,
    jails: Vec<WaitJail>,
    restrictions: Vec<Restriction>,
    local_agent_stats: StatsAccumulator,
}

/// The mathematical content of a [LocalAgentHandler].
pub struct LocalAgentHandlerView {
    pub is_connected: bool,
    pub last_peer: Option<PeerConnectionInfo>,
    pub agent_info: AgentConnectionInfoView,
    pub established_ts: Option<u64>,
    pub exit_label: Option<String>,
    pub jails: Seq<WaitJail>,
    pub restrictions: Seq<Restriction>,
    pub stats: StatsAccumulator,
}

impl View for LocalAgentHandler {
    type V = LocalAgentHandlerView;

    closed spec fn view(&self) -> LocalAgentHandlerView {
        LocalAgentHandlerView {
            is_connected: self.is_connected,
            last_peer: self.last_peer,
            agent_info: self.agent_info@,
            established_ts: self.established_ts,
            exit_label: self.exit_label,
            jails: self.jails@,
            restrictions: self.restrictions@,
            stats: self.local_agent_stats,
        }
    }
}

impl LocalAgentHandlerView {
    /// A handler that has heard nothing.
    pub open spec fn initial() -> LocalAgentHandlerView {
        LocalAgentHandlerView {
            is_connected: false,
            last_peer: None,
            agent_info: AgentConnectionInfoView::empty(),
            established_ts: None,
            exit_label: None,
            jails: Seq::empty(),
            restrictions: Seq::empty(),
            stats: StatsAccumulator::empty(),
        }
    }

    /// What keeps the client waiting: a soft jail first, then hard jails.
    pub open spec fn wait_reason(self) -> Option<WaitReasonView> {
        if self.agent_info.settings.soft_jail == Some(true) {
            Some(WaitReasonView::SoftJailed)
        } else if self.jails.len() > 0 {
            Some(WaitReasonView::HardJailed(self.jails))
        } else {
            None
        }
    }

    /// The connection state reported while connected to `peer`.
    pub open spec fn state(self, peer: PeerConnectionInfo) -> ConnectionStateView {
        match self.wait_reason() {
            Some(w) => ConnectionStateView::ConnectingToLocalAgent(peer, Some(w)),
            None => if self.is_connected {
                ConnectionStateView::Connected(peer, Some(self.agent_info))
            } else {
                ConnectionStateView::ConnectingToLocalAgent(peer, None)
            },
        }
    }

    /// The handler after the VPN connected to `peer`: everything learnt from
    /// the agent is dropped when the peer differs from the previous one.
    pub open spec fn after_peer(self, peer: PeerConnectionInfo) -> LocalAgentHandlerView {
        let kept = if self.last_peer matches Some(last) && !same_peer(last, peer) {
            LocalAgentHandlerView {
                is_connected: false,
                established_ts: None,
                exit_label: None,
                agent_info: AgentConnectionInfoView::empty(),
                jails: Seq::empty(),
                stats: StatsAccumulator::empty(),
                ..self
            }
        } else {
            self
        };
        LocalAgentHandlerView { last_peer: Some(peer), ..kept }
    }

    pub open spec fn with_info(self, info: AgentConnectionInfoView) -> LocalAgentHandlerView {
        LocalAgentHandlerView { agent_info: info, ..self }
    }

    pub open spec fn with_settings(self, settings: LocalAgentSettings) -> LocalAgentHandlerView {
        self.with_info(AgentConnectionInfoView { settings, ..self.agent_info })
    }

    /// The handler after a value, and the event it emits.
    pub open spec fn after_value(self, v: LocalAgentValue) -> (LocalAgentHandlerView, Option<Event>) {
        let info = self.agent_info;
        let settings = info.settings;
        match v {
            LocalAgentValue::InfoEstablished(t) => (LocalAgentHandlerView { established_ts: t, ..self }, None),
            LocalAgentValue::InfoGroups(g) => (
                self.with_info(
                    AgentConnectionInfoView {
                        groups: match g {
                            Some(list) => list@,
                            None => Seq::empty(),
                        },
                        ..info
                    },
                ),
                None,
            ),
            LocalAgentValue::InfoPlatform(_) => (self, None),
            LocalAgentValue::InfoRemote(_) => (self, None),
            LocalAgentValue::InfoRemoteReal(a) => (
                self.with_info(AgentConnectionInfoView { user_isp_ip: a, ..info }),
                None,
            ),
            LocalAgentValue::InfoRemoteRealLocationCode(c) => (
                self.with_info(AgentConnectionInfoView { user_isp_country_code: c, ..info }),
                None,
            ),
            LocalAgentValue::InfoExitIpv4(a) => (
                self.with_info(
                    AgentConnectionInfoView {
                        server_exit_v4: match a {
                            Some(x) => Some(IpAddress::V4(x)),
                            None => None,
                        },
                        ..info
                    },
                ),
                None,
            ),
            LocalAgentValue::InfoExitIpv6(a) => (
                self.with_info(
                    AgentConnectionInfoView {
                        server_exit_v6: match a {
                            Some(x) => Some(IpAddress::V6(x)),
                            None => None,
                        },
                        ..info
                    },
                ),
                None,
            ),
            LocalAgentValue::Restrictions(r) => {
                let list = match r {
                    Some(list) => list@,
                    None => Seq::empty(),
                };
                (
                    LocalAgentHandlerView {
                        restrictions: list,
                        agent_info: AgentConnectionInfoView { restrictions: list, ..info },
                        ..self
                    },
                    None,
                )
            },
            LocalAgentValue::SettingsCircumventionRouting(b) => (
                self.with_settings(LocalAgentSettings { circumvention_routing: b, ..settings }),
                None,
            ),
            LocalAgentValue::SettingsLabel(l) => (LocalAgentHandlerView { exit_label: l, ..self }, None),
            LocalAgentValue::SettingsNetshieldLevel(n) => (
                self.with_settings(LocalAgentSettings { netshield_level: n, ..settings }),
                None,
            ),
            LocalAgentValue::SettingsPortForwarding(b) => (
                self.with_settings(LocalAgentSettings { port_forwarding: b, ..settings }),
                None,
            ),
            LocalAgentValue::SettingsRandomNat(b) => (
                self.with_settings(LocalAgentSettings { random_nat: b, ..settings }),
                None,
            ),
            LocalAgentValue::SettingsSoftjail(b) => (
                self.with_settings(LocalAgentSettings { soft_jail: b, ..settings }),
                None,
            ),
            LocalAgentValue::SettingsSplitTcp(b) => (
                self.with_settings(LocalAgentSettings { split_tcp: b, ..settings }),
                None,
            ),
            LocalAgentValue::Jails(j) => (LocalAgentHandlerView { jails: wait_jails_of(j), ..self }, None),
            _ => {
                let (field, n) = stats_value(v).unwrap();
                let (acc, ev) = self.stats.record_spec(field, n);
                (LocalAgentHandlerView { stats: acc, ..self }, ev)
            },
        }
    }

    /// The handler after a message, and the event it emits.
    pub open spec fn after_message(self, m: LocalAgentMessage) -> (LocalAgentHandlerView, Option<Event>) {
        match m {
            LocalAgentMessage::Value(v) => self.after_value(v),
            LocalAgentMessage::Error(e) => (self, error_event(e)),
            LocalAgentMessage::MuonForkSelectorNeeded => (
                self,
                Some(Event::Error { error: ErrorEvent::ForkSelectorNeeded }),
            ),
            LocalAgentMessage::LocalAgentConnected => (
                LocalAgentHandlerView { is_connected: true, ..self },
                None,
            ),
        }
    }

    /// A message is acceptable unless it completes a stats event whose
    /// saved-data estimate overflows 64 bits.
    pub open spec fn accepts(self, m: LocalAgentMessage) -> bool {
        m matches LocalAgentMessage::Value(v) ==> match stats_value(v) {
            Some((field, n)) => self.stats.with(field, n).estimate_fits(),
            None => true,
        }
    }
}


pub open spec fn wait_reason_view(w: Option<AgentConnectionWaitReason>) -> Option<WaitReasonView> {
    match w {
        Some(x) => Some(x@),
        None => None,
    }
}

fn clone_jails(v: &Vec<WaitJail>) -> (r: Vec<WaitJail>)
    ensures
        r@ == v@,
{
    let r = v.clone();
    assert(r@ =~= v@);
    r
}

fn map_jail(jail: &Jail) -> (r: (WaitJailReason, String))
    ensures
        r == (jail_reason(*jail), jail_message(*jail)),
{
    match jail {
        Jail::InternallyHandled(h) => match h {
            HandledJail::SystemError(m) => (WaitJailReason::Internal, m.clone()),
            HandledJail::ExpiredCertificate(m) => (WaitJailReason::Internal, m.clone()),
            HandledJail::RevokedCertificate(m) => (WaitJailReason::Internal, m.clone()),
            HandledJail::KeyAlreadyUsed(m) => (WaitJailReason::Internal, m.clone()),
            HandledJail::InvalidCertificateSignature(m) => (WaitJailReason::Internal, m.clone()),
        },
        Jail::ToHandle(t) => match t {
            ToHandleJail::RequireRecent2FA(m) => (WaitJailReason::Need2FA, m.clone()),
            ToHandleJail::Expired2FA(m) => (WaitJailReason::Need2FA, m.clone()),
            ToHandleJail::Require2FA(m) => (WaitJailReason::Need2FA, m.clone()),
            ToHandleJail::WaitingClientChallengeReply(m) => (
                WaitJailReason::WaitingClientChallengeReply,
                m.clone(),
            ),
            ToHandleJail::PolicyViolation1(m) => (WaitJailReason::LowPlan, m.clone()),
            ToHandleJail::PolicyViolation2(m) => (WaitJailReason::PendingInvoice, m.clone()),
            ToHandleJail::BadUserBehavior(m) => (WaitJailReason::BadUserBehavior, m.clone()),
            ToHandleJail::DisabledUser(m) => (WaitJailReason::DisabledUser, m.clone()),
            ToHandleJail::SessionOverLimit(m) => (WaitJailReason::SessionOverLimit, m.clone()),
            ToHandleJail::FreeSessionOverLimit(m) => (WaitJailReason::SessionOverLimit, m.clone()),
            ToHandleJail::BasicSessionOverLimit(m) => (WaitJailReason::SessionOverLimit, m.clone()),
            ToHandleJail::PlusSessionOverLimit(m) => (WaitJailReason::SessionOverLimit, m.clone()),
            ToHandleJail::VisionarySessionOverLimit(m) => (WaitJailReason::SessionOverLimit, m.clone()),
            ToHandleJail::ProSessionOverLimit(m) => (WaitJailReason::SessionOverLimit, m.clone()),
            ToHandleJail::GuestSession(m) => (WaitJailReason::Internal, m.clone()),
            ToHandleJail::RestrictedServer(m) => (WaitJailReason::Internal, m.clone()),
            ToHandleJail::NoCertificateProvided(m) => (WaitJailReason::Internal, m.clone()),
            ToHandleJail::SessionInstallationInProgress(m) => (WaitJailReason::Internal, m.clone()),
            ToHandleJail::Unknown(_, m) => (WaitJailReason::Other, m.clone()),
        },
    }
}

/// The app-facing jails of a jail report, in the order reported.
pub fn wait_jails(jails: &Option<Vec<JailEntry>>) -> (r: Vec<WaitJail>)
    ensures
        r@ == wait_jails_of(*jails),
{
    let mut out: Vec<WaitJail> = Vec::new();
    match jails {
        Some(list) => {
            let mut i: usize = 0;
            while i < list.len()
                invariant
                    0 <= i <= list.len(),
                    out@ =~= list@.subrange(0, i as int).map_values(|e: JailEntry| wait_jail_of(e)),
                decreases list.len() - i,
            {
                let entry = &list[i];
                let (reason, message) = map_jail(&entry.jail);
                out.push(WaitJail { reason, code: entry.code, message });
                i = i + 1;
            }
            assert(list@.subrange(0, list@.len() as int) =~= list@);
        },
        None => {},
    }
    out
}

/// Event reporting a failed API request.
pub fn api_error_event_of(endpoint: ApiEndpoint, details: ApiErrorDetails) -> (r: Event)
    ensures
        r == api_error_event(endpoint, details),
{
    let refresh_token_invalid = is_refresh_token_invalid(&details);
    Event::Error {
        error: ErrorEvent::ApiError {
            endpoint,
            http_code: details.http_code,
            proton_code: details.proton_code,
            message: details.reason,
            refresh_token_invalid,
        },
    }
}

/// The failure means the refresh token is no longer valid: HTTP 422 with
/// Proton code 10013.
pub fn is_refresh_token_invalid(details: &ApiErrorDetails) -> (r: bool)
    ensures
        r == (details.http_code == Some(HTTP_UNPROCESSABLE_ENTITY) && details.proton_code == Some(
            AUTH_REFRESH_TOKEN_INVALID,
        )),
{
    match (details.http_code, details.proton_code) {
        (Some(HTTP_UNPROCESSABLE_ENTITY), Some(AUTH_REFRESH_TOKEN_INVALID)) => true,
        _ => false,
    }
}

fn policy_refused(setting: LocalAgentSettingType) -> (r: Option<Event>)
    ensures
        r == Some(policy_refused_event(setting)),
{
    Some(Event::Error { error: ErrorEvent::LocalAgentSettingPolicyRefused { setting } })
}

/// What the local agent is asked to report.
#[derive(Clone, Copy, PartialEq, Eq, Structural)]
pub enum LocalAgentSelector {
    InfoEstablished,
    InfoExitIpv4,
    InfoExitIpv6,
    InfoGroups,
    InfoRemote,
    InfoRemoteReal,
    InfoRemoteRealLocationCode,
    Restrictions,
    SettingsCircumventionRouting,
    SettingsLabel,
    SettingsNetshieldLevel,
    SettingsPortForwarding,
    SettingsRandomNat,
    SettingsSoftjail,
    SettingsSplitTcp,
    Jails,
    StatsBytesSent,
    StatsBytesReceived,
    StatsNetshieldBlockCountAds,
    StatsNetshieldBlockCountMalicious,
    StatsNetshieldBlockCountTracking,
    StatsNetshieldBlockCountAdult,
}

/// The selectors that a stats request asks for.
pub open spec fn stats_selectors_spec() -> Seq<LocalAgentSelector> {
    seq![
        LocalAgentSelector::StatsBytesSent,
        LocalAgentSelector::StatsBytesReceived,
        LocalAgentSelector::StatsNetshieldBlockCountAds,
        LocalAgentSelector::StatsNetshieldBlockCountMalicious,
        LocalAgentSelector::StatsNetshieldBlockCountTracking,
        LocalAgentSelector::StatsNetshieldBlockCountAdult,
    ]
}

/// The selectors that a stats request asks for: one per statistic.
pub fn stats_selectors() -> (r: Vec<LocalAgentSelector>)
    ensures
        r@ == stats_selectors_spec(),
{
    let r = vec![
        LocalAgentSelector::StatsBytesSent,
        LocalAgentSelector::StatsBytesReceived,
        LocalAgentSelector::StatsNetshieldBlockCountAds,
        LocalAgentSelector::StatsNetshieldBlockCountMalicious,
        LocalAgentSelector::StatsNetshieldBlockCountTracking,
        LocalAgentSelector::StatsNetshieldBlockCountAdult,
    ];
    assert(r@ =~= stats_selectors_spec());
    r
}

/// The selectors the library watches on the local agent channel: every
/// value that the handler takes in, statistics aside.
pub open spec fn watched_selectors_spec() -> Seq<LocalAgentSelector> {
    seq![
        LocalAgentSelector::InfoEstablished,
        LocalAgentSelector::InfoExitIpv4,
        LocalAgentSelector::InfoExitIpv6,
        LocalAgentSelector::InfoGroups,
        LocalAgentSelector::InfoRemote,
        LocalAgentSelector::InfoRemoteReal,
        LocalAgentSelector::InfoRemoteRealLocationCode,
        LocalAgentSelector::Restrictions,
        LocalAgentSelector::SettingsCircumventionRouting,
        LocalAgentSelector::SettingsLabel,
        LocalAgentSelector::SettingsNetshieldLevel,
        LocalAgentSelector::SettingsPortForwarding,
        LocalAgentSelector::SettingsRandomNat,
        LocalAgentSelector::SettingsSoftjail,
        LocalAgentSelector::SettingsSplitTcp,
        LocalAgentSelector::Jails,
    ]
}

impl LocalAgentHandler {
    /// A handler that has heard nothing.
    pub fn new() -> (r: LocalAgentHandler)
        ensures
            r@ == LocalAgentHandlerView::initial(),
    {
        LocalAgentHandler {
            is_connected: false,
            last_peer: None,
            agent_info: AgentConnectionInfo::empty(),
            exit_label: None,
            established_ts: None,
            jails: Vec::new(),
            restrictions: Vec::new(),
            local_agent_stats: StatsAccumulator::new(),
        }
    }

    /// Whether [LocalAgentHandler::handle_message] takes the message: it does
    /// unless the message completes a stats event whose saved-data estimate
    /// does not fit in 64 bits.
    pub fn accepts(&self, message: &LocalAgentMessage) -> (r: bool)
        ensures
            r == self@.accepts(*message),
    {
        let stat: Option<(StatsField, Option<u64>)> = match message {
            LocalAgentMessage::Value(v) => match v {
                LocalAgentValue::StatsBytesReceived(n) => Some((StatsField::BytesReceived, *n)),
                LocalAgentValue::StatsBytesSent(n) => Some((StatsField::BytesSent, *n)),
                LocalAgentValue::StatsNetshieldBlockCountMalicious(n) => Some((StatsField::MaliciousBlocked, *n)),
                LocalAgentValue::StatsNetshieldBlockCountAds(n) => Some((StatsField::AdsBlocked, *n)),
                LocalAgentValue::StatsNetshieldBlockCountTracking(n) => Some((StatsField::TrackersBlocked, *n)),
                LocalAgentValue::StatsNetshieldBlockCountAdult(n) => Some((StatsField::AdultContentBlocked, *n)),
                _ => None,
            },
            _ => None,
        };
        match stat {
            Some((field, n)) => self.local_agent_stats.with_value(field, n).estimate_fits_u64(),
            None => true,
        }
    }

    /// The selectors to watch once the local agent channel is set up.
    pub fn local_agent_selectors_to_watch() -> (r: Vec<LocalAgentSelector>)
        ensures
            r@ == watched_selectors_spec(),
    {
        let r = vec![
            LocalAgentSelector::InfoEstablished,
            LocalAgentSelector::InfoExitIpv4,
            LocalAgentSelector::InfoExitIpv6,
            LocalAgentSelector::InfoGroups,
            LocalAgentSelector::InfoRemote,
            LocalAgentSelector::InfoRemoteReal,
            LocalAgentSelector::InfoRemoteRealLocationCode,
            LocalAgentSelector::Restrictions,
            LocalAgentSelector::SettingsCircumventionRouting,
            LocalAgentSelector::SettingsLabel,
            LocalAgentSelector::SettingsNetshieldLevel,
            LocalAgentSelector::SettingsPortForwarding,
            LocalAgentSelector::SettingsRandomNat,
            LocalAgentSelector::SettingsSoftjail,
            LocalAgentSelector::SettingsSplitTcp,
            LocalAgentSelector::Jails,
        ];
        assert(r@ =~= watched_selectors_spec());
        r
    }

    /// The connection state to report while the VPN is connected to `peer`.
    pub fn get_state(&self, peer: PeerConnectionInfo) -> (r: ConnectionState)
        ensures
            r@ == self@.state(peer),
    {
        if let Some(wait_reason) = self.get_wait_reason() {
            ConnectionState::ConnectingToLocalAgent { peer, wait_reason: Some(wait_reason) }
        } else if self.is_connected {
            ConnectionState::Connected { peer, agent_info: Some(self.agent_info.clone()) }
        } else {
            ConnectionState::ConnectingToLocalAgent { peer, wait_reason: None }
        }
    }

    /// What keeps the client waiting: a soft jail first, then hard jails.
    pub fn get_wait_reason(&self) -> (r: Option<AgentConnectionWaitReason>)
        ensures
            wait_reason_view(r) == self@.wait_reason(),
    {
        if self.agent_info.settings.soft_jail == Some(true) {
            Some(AgentConnectionWaitReason::SoftJailed)
        } else if self.jails.len() > 0 {
            Some(AgentConnectionWaitReason::HardJailed { jails: clone_jails(&self.jails) })
        } else {
            None
        }
    }

    /// The VPN is connected to `peer`; what the agent reported is forgotten
    /// when the peer changed.
    pub fn on_connected_to_peer(&mut self, peer: &PeerConnectionInfo)
        ensures
            final(self)@ == old(self)@.after_peer(*peer),
    {
        let new_peer = peer.clone();
        let changed = match &self.last_peer {
            Some(last_peer) => !new_peer.same_as(last_peer),
            None => false,
        };
        if changed {
            self.is_connected = false;
            self.established_ts = None;
            self.exit_label = None;
            self.agent_info = AgentConnectionInfo::empty();
            self.jails.clear();
            self.local_agent_stats.reset();
        }
        self.last_peer = Some(new_peer);
        proof {
            if changed {
                assert(self.jails@ =~= Seq::<WaitJail>::empty());
            }
        }
    }

    /// Takes in a message of the local agent channel; returns the event to emit.
    pub fn handle_message(&mut self, message: LocalAgentMessage) -> (r: Option<Event>)
        requires
            old(self)@.accepts(message),
        ensures
            (final(self)@, r) == old(self)@.after_message(message),
    {
        match message {
            LocalAgentMessage::Value(value) => self.handle_value(value),
            LocalAgentMessage::Error(error) => handle_error(error),
            LocalAgentMessage::MuonForkSelectorNeeded => Some(
                Event::Error { error: ErrorEvent::ForkSelectorNeeded },
            ),
            LocalAgentMessage::LocalAgentConnected => {
                self.is_connected = true;
                None
            },
        }
    }

    fn record_stat(&mut self, field: StatsField, value: Option<u64>) -> (r: Option<Event>)
        requires
            old(self).local_agent_stats.with(field, value).estimate_fits(),
        ensures
            final(self)@ == (LocalAgentHandlerView {
                stats: old(self).local_agent_stats.record_spec(field, value).0,
                ..old(self)@
            }),
            r == old(self).local_agent_stats.record_spec(field, value).1,
    {
        self.local_agent_stats.record(field, value)
    }

    #[verifier::rlimit(40)]
    fn handle_value(&mut self, value: LocalAgentValue) -> (r: Option<Event>)
        requires
            old(self)@.accepts(LocalAgentMessage::Value(value)),
        ensures
            (final(self)@, r) == old(self)@.after_value(value),
    {
        match value {
            LocalAgentValue::InfoEstablished(timestamp) => self.established_ts = timestamp,
            LocalAgentValue::InfoGroups(groups) => {
                self.agent_info.groups = match groups {
                    Some(list) => list,
                    None => Vec::new(),
                };
            },
            LocalAgentValue::InfoPlatform(_) => {},
            LocalAgentValue::InfoRemote(_) => {},
            LocalAgentValue::InfoRemoteReal(address) => self.agent_info.user_isp_ip = address,
            LocalAgentValue::InfoRemoteRealLocationCode(code) => self.agent_info.user_isp_country_code = code,
            LocalAgentValue::InfoExitIpv4(address) => {
                self.agent_info.server_exit_v4 = match address {
                    Some(a) => Some(IpAddress::V4(a)),
                    None => None,
                };
            },
            LocalAgentValue::InfoExitIpv6(address) => {
                self.agent_info.server_exit_v6 = match address {
                    Some(a) => Some(IpAddress::V6(a)),
                    None => None,
                };
            },
            LocalAgentValue::Restrictions(restrictions) => {
                let list = match restrictions {
                    Some(list) => list,
                    None => Vec::new(),
                };
                self.agent_info.restrictions = clone_restrictions(&list);
                self.restrictions = list;
            },
            LocalAgentValue::SettingsCircumventionRouting(v) => self.agent_info.settings.circumvention_routing = v,
            LocalAgentValue::SettingsLabel(v) => self.exit_label = v,
            LocalAgentValue::SettingsNetshieldLevel(v) => self.agent_info.settings.netshield_level = v,
            LocalAgentValue::SettingsPortForwarding(v) => self.agent_info.settings.port_forwarding = v,
            LocalAgentValue::SettingsRandomNat(v) => self.agent_info.settings.random_nat = v,
            LocalAgentValue::SettingsSoftjail(v) => self.agent_info.settings.soft_jail = v,
            LocalAgentValue::SettingsSplitTcp(v) => self.agent_info.settings.split_tcp = v,
            LocalAgentValue::StatsBytesReceived(v) => {
                return self.record_stat(StatsField::BytesReceived, v);
            },
            LocalAgentValue::StatsBytesSent(v) => {
                return self.record_stat(StatsField::BytesSent, v);
            },
            LocalAgentValue::StatsNetshieldBlockCountMalicious(v) => {
                return self.record_stat(StatsField::MaliciousBlocked, v);
            },
            LocalAgentValue::StatsNetshieldBlockCountAds(v) => {
                return self.record_stat(StatsField::AdsBlocked, v);
            },
            LocalAgentValue::StatsNetshieldBlockCountTracking(v) => {
                return self.record_stat(StatsField::TrackersBlocked, v);
            },
            LocalAgentValue::StatsNetshieldBlockCountAdult(v) => {
                return self.record_stat(StatsField::AdultContentBlocked, v);
            },
            LocalAgentValue::Jails(jails) => {
                return self.handle_jails(jails);
            },
        }
        None
    }

    fn handle_jails(&mut self, jails: Option<Vec<JailEntry>>) -> (r: Option<Event>)
        ensures
            final(self)@ == (LocalAgentHandlerView { jails: wait_jails_of(jails), ..old(self)@ }),
            r is None,
    {
        self.jails = wait_jails(&jails);
        None
    }
}

/// The event an error of the local agent channel gives rise to, if any.
/// Server errors other than policy refusals are only logged.
pub fn handle_error(error: LocalAgentError) -> (r: Option<Event>)
    ensures
        r == error_event(error),
{
    match error {
        LocalAgentError::MuonErrorOnCertRefresh(details) => Some(
            api_error_event_of(ApiEndpoint::CertificateRefresh, details),
        ),
        LocalAgentError::MuonAuth(details) => Some(api_error_event_of(ApiEndpoint::Auth, details)),
        LocalAgentError::TooManyTriesOnCertRefresh => Some(
            Event::Error { error: ErrorEvent::CertificateRefreshFatalError },
        ),
        LocalAgentError::ServerError(e) => match e {
            LocalAgentServerError::NetshieldLevelPolicyRefused => policy_refused(
                LocalAgentSettingType::NetshieldLevel,
            ),
            LocalAgentServerError::BouncingPolicyRefused => policy_refused(LocalAgentSettingType::Bouncing),
            LocalAgentServerError::PortFwPolicyRefused => policy_refused(
                LocalAgentSettingType::PortForwarding,
            ),
            LocalAgentServerError::SplitTcpPolicyRefused => policy_refused(LocalAgentSettingType::SplitTcp),
            LocalAgentServerError::SafeModePolicyRefused => policy_refused(LocalAgentSettingType::SafeMode),
            LocalAgentServerError::RandomNatPolicyRefused => policy_refused(
                LocalAgentSettingType::RandomNat,
            ),
            _ => None,
        },
    }
}


/// Reconnecting to the peer the handler last saw keeps everything the agent
/// reported: a second report of the same peer changes nothing.
pub proof fn law_same_peer_reconnect_preserves(h: LocalAgentHandlerView, peer: PeerConnectionInfo)
    ensures
        h.after_peer(peer).after_peer(peer) == h.after_peer(peer),
        h.last_peer == Some(peer) ==> h.after_peer(peer) == h,
{
}

/// Connecting to a different peer drops what the previous local agent
/// reported: the state is again "connecting to the local agent", with no
/// wait reason, until the new agent connects.
pub proof fn law_peer_change_resets(h: LocalAgentHandlerView, last: PeerConnectionInfo, peer: PeerConnectionInfo)
    requires
        h.last_peer == Some(last),
        !same_peer(last, peer),
    ensures
        h.after_peer(peer).state(peer) == ConnectionStateView::ConnectingToLocalAgent(peer, None),
        h.after_peer(peer).agent_info == AgentConnectionInfoView::empty(),
        h.after_peer(peer).jails.len() == 0,
        h.after_peer(peer).stats == StatsAccumulator::empty(),
{
}

/// The state is "connected" exactly when the agent connected and nothing
/// keeps the client waiting; a soft jail is reported before hard jails.
pub proof fn law_connected_exactly_when_free(h: LocalAgentHandlerView, peer: PeerConnectionInfo)
    ensures
        (h.state(peer) is Connected) <==> (h.is_connected && h.wait_reason() is None),
        h.agent_info.settings.soft_jail == Some(true) ==> h.state(peer)
            == ConnectionStateView::ConnectingToLocalAgent(peer, Some(WaitReasonView::SoftJailed)),
        h.agent_info.settings.soft_jail != Some(true) && h.jails.len() > 0 ==> h.state(peer)
            == ConnectionStateView::ConnectingToLocalAgent(peer, Some(WaitReasonView::HardJailed(h.jails))),
{
}

/// A jail report replaces all jails held before; an empty report lifts every
/// jail, so a connected agent without a soft jail is reported connected.
pub proof fn law_jail_report_replaces(h: LocalAgentHandlerView, jails: Option<Vec<JailEntry>>, peer: PeerConnectionInfo)
    ensures
        h.after_value(LocalAgentValue::Jails(jails)).0.jails == wait_jails_of(jails),
        h.after_value(LocalAgentValue::Jails(jails)).1 is None,
        jails is None && h.is_connected && h.agent_info.settings.soft_jail != Some(true)
            ==> h.after_value(LocalAgentValue::Jails(jails)).0.state(peer)
            == ConnectionStateView::Connected(peer, Some(h.agent_info)),
{
}

/// Once the agent connected, the state reports the connection with the agent
/// information unless a jail holds the client.
pub proof fn law_agent_connected(h: LocalAgentHandlerView, peer: PeerConnectionInfo)
    ensures
        h.after_message(LocalAgentMessage::LocalAgentConnected).1 is None,
        h.wait_reason() is None ==> h.after_message(LocalAgentMessage::LocalAgentConnected).0.state(peer)
            == ConnectionStateView::Connected(peer, Some(h.agent_info)),
{
}

/// Six statistics received in turn from an empty accumulator give exactly one
/// stats event, on the last of them, carrying every value and the estimate of
/// saved data; the accumulator is then empty again.
pub proof fn law_stats_cycle(
    received: Option<u64>,
    sent: Option<u64>,
    malicious: Option<u64>,
    ads: Option<u64>,
    trackers: Option<u64>,
    adult: Option<u64>,
)
    requires
        saved_estimate(malicious, ads, trackers, adult) <= u64::MAX,
    ensures
        ({
            let a0 = StatsAccumulator::empty();
            let (a1, e1) = a0.record_spec(StatsField::BytesReceived, received);
            let (a2, e2) = a1.record_spec(StatsField::BytesSent, sent);
            let (a3, e3) = a2.record_spec(StatsField::MaliciousBlocked, malicious);
            let (a4, e4) = a3.record_spec(StatsField::AdsBlocked, ads);
            let (a5, e5) = a4.record_spec(StatsField::TrackersBlocked, trackers);
            let (a6, e6) = a5.record_spec(StatsField::AdultContentBlocked, adult);
            &&& e1 is None && e2 is None && e3 is None && e4 is None && e5 is None
            &&& a6 == StatsAccumulator::empty()
            &&& e6 == Some(
                Event::LocalAgentStats {
                    bytes_received: received,
                    bytes_sent: sent,
                    malicious_blocked: malicious,
                    ads_blocked: ads,
                    trackers_blocked: trackers,
                    adult_content_blocked: adult,
                    data_saved: Some(saved_estimate(malicious, ads, trackers, adult) as u64),
                },
            )
        }),
{
}

/// No stats event is emitted while a statistic is still missing.
pub proof fn law_no_stats_before_complete(acc: StatsAccumulator, field: StatsField, value: Option<u64>)
    ensures
        !acc.with(field, value).is_full() ==> acc.record_spec(field, value).1 is None,
        acc.with(field, value).is_full() ==> acc.record_spec(field, value).0 == StatsAccumulator::empty(),
{
}


/// The saved-data estimate weighs each blocked malicious site at 750 KiB,
/// each ad at 200 KiB, each tracker at 50 KiB and each adult site at
/// 1454 KiB; a missing count counts as none.
pub proof fn law_saved_estimate_weights(malicious: Option<u64>, ads: Option<u64>, trackers: Option<u64>, adult: Option<u64>)
    ensures
        saved_estimate(malicious, ads, trackers, adult) == count_or_zero(malicious) * (750 * 1024) + count_or_zero(ads)
            * (200 * 1024) + count_or_zero(trackers) * (50 * 1024) + count_or_zero(adult) * (1454 * 1024),
        saved_estimate(None, None, None, None) == 0,
        forall|n: u64| #[trigger] saved_estimate(None, None, Some(n), None) == n * 51200,
        forall|n: u64| #[trigger] saved_estimate(None, Some(n), None, None) == n * 204800,
        forall|n: u64| #[trigger] saved_estimate(Some(n), None, None, None) == n * 768000,
        forall|n: u64| #[trigger] saved_estimate(None, None, None, Some(n)) == n * 1488896,
{
}

/// Every stats event carries the estimate of its own block counts, with the
/// weights of [law_saved_estimate_weights], and the accumulator starts over.
pub proof fn law_stats_event_estimate(acc: StatsAccumulator, field: StatsField, value: Option<u64>)
    requires
        acc.with(field, value).estimate_fits(),
    ensures
        acc.record_spec(field, value).1 matches Some(Event::LocalAgentStats {
            malicious_blocked: m,
            ads_blocked: a,
            trackers_blocked: t,
            adult_content_blocked: x,
            data_saved,
            ..
        }) ==> data_saved == Some((count_or_zero(m) * (750 * 1024) + count_or_zero(a) * (200 * 1024) + count_or_zero(t)
            * (50 * 1024) + count_or_zero(x) * (1454 * 1024)) as u64),
        acc.record_spec(field, value).1 is Some ==> acc.record_spec(field, value).0 == StatsAccumulator::empty(),
{
}

} // verus!
