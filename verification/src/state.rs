use vstd::prelude::*;
use crate::net::IpAddress;
use crate::local_agent::{AgentConnectionInfo, AgentConnectionInfoView, WaitJail};

verus! {

/// Combined state of the VPN connection and the TUN interface.
pub struct VpnState {
    pub interface_state: InterfaceState,
    pub connection_state: ConnectionState,
}

/// State of the TUN interface.
pub enum InterfaceState {
    Up { error: Option<InterfaceError> },
    Down { last_error: Option<InterfaceError> },
}

/// Problem of the TUN interface.
pub enum InterfaceError {
    /// There is an I/O problem with the TUN interface.
    IoError { error: String },
}

impl Clone for InterfaceError {
    fn clone(&self) -> (r: InterfaceError)
        ensures
            r == *self,
    {
        match self {
            InterfaceError::IoError { error } => InterfaceError::IoError { error: error.clone() },
        }
    }
}

/// VPN protocol in use.
#[derive(Clone, Copy, PartialEq, Eq, Structural)]
pub enum Protocol {
    WireguardUdp,
    WireguardTcp,
    Stealth,
}

/// The peer that a connection goes to.
pub struct PeerConnectionInfo {
    pub peer_id: String,
    pub entry_ip: IpAddress,
    pub protocol: Protocol,
    pub port: u16,
}

/// Two peer descriptions name the same peer, field by field.
pub open spec fn same_peer(a: PeerConnectionInfo, b: PeerConnectionInfo) -> bool {
    &&& a.peer_id@ == b.peer_id@
    &&& a.entry_ip == b.entry_ip
    &&& a.protocol == b.protocol
    &&& a.port == b.port
}

impl Clone for PeerConnectionInfo {
    fn clone(&self) -> (r: PeerConnectionInfo)
        ensures
            r == *self,
    {
        PeerConnectionInfo {
            peer_id: self.peer_id.clone(),
            entry_ip: self.entry_ip,
            protocol: self.protocol,
            port: self.port,
        }
    }
}

impl PeerConnectionInfo {
    /// Field-by-field comparison.
    pub fn same_as(&self, other: &PeerConnectionInfo) -> (r: bool)
        ensures
            r == same_peer(*self, *other),
    {
        self.peer_id == other.peer_id && self.entry_ip == other.entry_ip
            && self.protocol == other.protocol && self.port == other.port
    }
}

/// Why the library waits before it connects to a peer.
#[derive(Clone, Copy, PartialEq, Eq, Structural)]
pub enum PeerConnectionWaitReason {
    /// The device has no network.
    WaitingForNetwork,
}

/// Why the local agent connection is not complete.
pub enum AgentConnectionWaitReason {
    SoftJailed,
    HardJailed { jails: Vec<WaitJail> },
}

/// The mathematical content of an [AgentConnectionWaitReason].
pub enum WaitReasonView {
    SoftJailed,
    HardJailed(Seq<WaitJail>),
}

impl View for AgentConnectionWaitReason {
    type V = WaitReasonView;

    open spec fn view(&self) -> WaitReasonView {
        match self {
            AgentConnectionWaitReason::SoftJailed => WaitReasonView::SoftJailed,
            AgentConnectionWaitReason::HardJailed { jails } => WaitReasonView::HardJailed(jails@),
        }
    }
}

/// Reason of a disconnection caused by an error.
pub enum DisconnectReason {
    /// The TUN interface could not be established.
    TunEstablishError { message: String },
}

impl Clone for DisconnectReason {
    fn clone(&self) -> (r: DisconnectReason)
        ensures
            r == *self,
    {
        match self {
            DisconnectReason::TunEstablishError { message } => DisconnectReason::TunEstablishError {
                message: message.clone(),
            },
        }
    }
}

/// State of the VPN connection.
pub enum ConnectionState {
    /// Disconnected; `error` tells why when an error caused it.
    Disconnected { error: Option<DisconnectReason> },
    /// Connecting to one or more candidate peers.
    Connecting { peers: Vec<PeerConnectionInfo>, wait_reasons: Vec<PeerConnectionWaitReason> },
    /// VPN is up; connecting to the local agent.
    ConnectingToLocalAgent { peer: PeerConnectionInfo, wait_reason: Option<AgentConnectionWaitReason> },
    /// Connected to `peer`.
    Connected { peer: PeerConnectionInfo, agent_info: Option<AgentConnectionInfo> },
}

/// The mathematical content of a [ConnectionState].
pub enum ConnectionStateView {
    Disconnected(Option<DisconnectReason>),
    Connecting(Seq<PeerConnectionInfo>, Seq<PeerConnectionWaitReason>),
    ConnectingToLocalAgent(PeerConnectionInfo, Option<WaitReasonView>),
    Connected(PeerConnectionInfo, Option<AgentConnectionInfoView>),
}

impl View for ConnectionState {
    type V = ConnectionStateView;

    open spec fn view(&self) -> ConnectionStateView {
        match self {
            ConnectionState::Disconnected { error } => ConnectionStateView::Disconnected(*error),
            ConnectionState::Connecting { peers, wait_reasons } => ConnectionStateView::Connecting(
                peers@,
                wait_reasons@,
            ),
            ConnectionState::ConnectingToLocalAgent { peer, wait_reason } => {
                ConnectionStateView::ConnectingToLocalAgent(
                    *peer,
                    match wait_reason {
                        Some(w) => Some(w@),
                        None => None,
                    },
                )
            },
            ConnectionState::Connected { peer, agent_info } => ConnectionStateView::Connected(
                *peer,
                match agent_info {
                    Some(i) => Some(i@),
                    None => None,
                },
            ),
        }
    }
}

impl ConnectionStateView {
    /// The connection waits for the network to come back.
    pub open spec fn is_waiting_for_network(self) -> bool {
        self matches ConnectionStateView::Connecting(_, reasons)
            && reasons.contains(PeerConnectionWaitReason::WaitingForNetwork)
    }
}

} // verus!
