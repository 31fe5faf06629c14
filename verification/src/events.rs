use vstd::prelude::*;
use crate::connection::PcapFileInfo;

verus! {

/// Events the library emits. Connection statistics, which carry a float
/// loss estimate, are built outside this crate.
pub enum Event {
    PacketCaptureStarted { info: PcapFileInfo },
    PacketCaptureStopped { reason: CaptureStopReason },
    LocalAgentStats {
        bytes_received: Option<u64>,
        bytes_sent: Option<u64>,
        malicious_blocked: Option<u64>,
        ads_blocked: Option<u64>,
        trackers_blocked: Option<u64>,
        adult_content_blocked: Option<u64>,
        data_saved: Option<u64>,
    },
    Error { error: ErrorEvent },
}

/// Errors reported to the app.
pub enum ErrorEvent {
    /// The client should provide a new fork selector.
    ForkSelectorNeeded,
    /// An API request failed.
    ApiError {
        endpoint: ApiEndpoint,
        http_code: Option<u16>,
        proton_code: Option<i64>,
        message: Option<String>,
        /// A new fork selector is needed when this is true.
        refresh_token_invalid: bool,
    },
    LocalAgentSettingPolicyRefused { setting: LocalAgentSettingType },
    /// The certificate could not be refreshed; the client should disconnect.
    CertificateRefreshFatalError,
}

/// API endpoint of a failed request.
#[derive(Clone, Copy, PartialEq, Eq, Structural)]
pub enum ApiEndpoint {
    Auth,
    CertificateRefresh,
}

/// Local agent setting refused by policy.
#[derive(Clone, Copy, PartialEq, Eq, Structural)]
pub enum LocalAgentSettingType {
    NetshieldLevel,
    Bouncing,
    PortForwarding,
    SplitTcp,
    SafeMode,
    RandomNat,
}

/// Why a packet capture stopped.
pub enum CaptureStopReason {
    Request { file: PcapFileInfo },
    MaxSizeReached { file: PcapFileInfo },
    Disconnected { file: PcapFileInfo },
    AlreadyStopped,
}

} // verus!
