use vstd::prelude::*;
use crate::connection::{CacheKey, PcapFileInfo};
use crate::events::{CaptureStopReason, Event};
use crate::local_agent_handler::{LocalAgentHandler, LocalAgentHandlerView};
use crate::ip_text::{ip_address_text, ip_address_to_string};
use crate::net::IpAddress;
use crate::text::str_eq;
use crate::state::{
    ConnectionState, ConnectionStateView, PeerConnectionInfo, PeerConnectionWaitReason, Protocol,
};
use crate::stream_io::{IoErrorKind, PendingWrite, StreamResult, WouldBlock};

verus! {

/// An IP address and port.
#[derive(Clone, Copy, PartialEq, Eq, Structural)]
pub struct SocketAddress {
    pub ip: IpAddress,
    pub port: u16,
}

/// The peer a tunnel goes to, as the VPN client reports it: its tag, its
/// address and the text of its IP address.
pub struct TunnelPeer {
    pub tag: Option<String>,
    pub addr: SocketAddress,
    pub ip_text: String,
}

impl TunnelPeer {
    /// The IP text is the text of the address.
    pub open spec fn wf(self) -> bool {
        self.ip_text@ == ip_address_text(self.addr.ip)
    }

    /// The peer with this tag and address.
    pub fn new(tag: Option<String>, addr: SocketAddress) -> (r: TunnelPeer)
        ensures
            r.tag == tag,
            r.addr == addr,
            r.wf(),
    {
        TunnelPeer { tag, addr, ip_text: ip_address_to_string(addr.ip) }
    }

    /// Whether the IP text is the text of the address.
    pub fn is_well_formed(&self) -> (r: bool)
        ensures
            r == self.wf(),
    {
        let t = ip_address_to_string(self.addr.ip);
        str_eq(t.as_str(), self.ip_text.as_str())
    }
}

/// Every peer in the tunnel status is well formed.
pub open spec fn tunnel_info_wf(info: Option<TunnelInfo>) -> bool {
    match info {
        Some(TunnelInfo::Connected { peer, .. }) => peer.wf(),
        Some(TunnelInfo::Connecting { peer, .. }) => peer.wf(),
        _ => true,
    }
}

/// Whether every peer in the tunnel status is well formed.
pub fn tunnel_info_well_formed(info: &Option<TunnelInfo>) -> (r: bool)
    ensures
        r == tunnel_info_wf(*info),
{
    match info {
        Some(TunnelInfo::Connected { peer, .. }) => peer.is_well_formed(),
        Some(TunnelInfo::Connecting { peer, .. }) => peer.is_well_formed(),
        _ => true,
    }
}

/// The text that names a peer: its tag, or the text of its IP address.
pub open spec fn peer_id_text(peer: TunnelPeer) -> Seq<char> {
    match peer.tag {
        Some(t) => t@,
        None => ip_address_text(peer.addr.ip),
    }
}

/// Tunnel status reported by the VPN client.
pub enum TunnelInfo {
    Connected { protocol: Protocol, peer: TunnelPeer },
    Connecting { protocol: Protocol, peer: TunnelPeer },
    Disconnected,
}

/// The peer description reported in connection states: the peer's tag, or
/// the text of its IP address when it has none.
pub open spec fn peer_info_of(peer: TunnelPeer, protocol: Protocol) -> PeerConnectionInfo {
    PeerConnectionInfo {
        peer_id: match peer.tag {
            Some(t) => t,
            None => peer.ip_text,
        },
        entry_ip: peer.addr.ip,
        protocol,
        port: peer.addr.port,
    }
}

/// The peer description reported in connection states.
pub fn get_peer_connection_info(peer: &TunnelPeer, protocol: Protocol) -> (r: PeerConnectionInfo)
    requires
        peer.wf(),
    ensures
        r == peer_info_of(*peer, protocol),
        r.peer_id@ == peer_id_text(*peer),
{
    let peer_id = match &peer.tag {
        Some(t) => t.clone(),
        None => peer.ip_text.clone(),
    };
    PeerConnectionInfo { peer_id, entry_ip: peer.addr.ip, protocol, port: peer.addr.port }
}

/// A well formed peer is named by its tag, or else by the text of its IP
/// address.
pub proof fn law_peer_id_is_tag_or_ip_text(peer: TunnelPeer, protocol: Protocol)
    requires
        peer.wf(),
    ensures
        peer_info_of(peer, protocol).peer_id@ == peer_id_text(peer),
{
}

/// The state reported while the network is unavailable: connecting, waiting
/// for the network, with the peer of the tunnel if there is one.
pub open spec fn network_unavailable_spec(info: Option<TunnelInfo>) -> ConnectionStateView {
    let peers = match info {
        Some(TunnelInfo::Connected { protocol, peer }) => seq![peer_info_of(peer, protocol)],
        Some(TunnelInfo::Connecting { protocol, peer }) => seq![peer_info_of(peer, protocol)],
        _ => Seq::empty(),
    };
    ConnectionStateView::Connecting(peers, seq![PeerConnectionWaitReason::WaitingForNetwork])
}

/// The state reported while the network is unavailable.
pub fn network_unavailable_state(tunnel_info: &Option<TunnelInfo>) -> (r: ConnectionState)
    requires
        tunnel_info_wf(*tunnel_info),
    ensures
        r@ == network_unavailable_spec(*tunnel_info),
{
    let mut peers: Vec<PeerConnectionInfo> = Vec::new();
    match tunnel_info {
        Some(TunnelInfo::Connected { protocol, peer }) => {
            peers.push(get_peer_connection_info(peer, *protocol));
        },
        Some(TunnelInfo::Connecting { protocol, peer }) => {
            peers.push(get_peer_connection_info(peer, *protocol));
        },
        _ => {},
    }
    let mut wait_reasons: Vec<PeerConnectionWaitReason> = Vec::new();
    wait_reasons.push(PeerConnectionWaitReason::WaitingForNetwork);
    let r = ConnectionState::Connecting { peers, wait_reasons };
    proof {
        assert(wait_reasons@ =~= seq![PeerConnectionWaitReason::WaitingForNetwork]);
        match tunnel_info {
            Some(TunnelInfo::Connected { protocol, peer }) => {
                assert(peers@ =~= seq![peer_info_of(*peer, *protocol)]);
            },
            Some(TunnelInfo::Connecting { protocol, peer }) => {
                assert(peers@ =~= seq![peer_info_of(*peer, *protocol)]);
            },
            _ => {
                assert(peers@ =~= Seq::<PeerConnectionInfo>::empty());
            },
        }
    }
    r
}

pub open spec fn handler_view(h: Option<LocalAgentHandler>) -> Option<LocalAgentHandlerView> {
    match h {
        Some(x) => Some(x@),
        None => None,
    }
}

/// The connection state for a tunnel status, and the local agent handler
/// after it learnt of the connected peer.
pub open spec fn peer_state_spec(
    handler: Option<LocalAgentHandlerView>,
    network_available: bool,
    info: Option<TunnelInfo>,
    has_peers: bool,
) -> (Option<LocalAgentHandlerView>, ConnectionStateView) {
    if !network_available {
        (handler, network_unavailable_spec(info))
    } else {
        match info {
            Some(TunnelInfo::Connected { protocol, peer }) => {
                let p = peer_info_of(peer, protocol);
                match handler {
                    Some(h) => (Some(h.after_peer(p)), h.after_peer(p).state(p)),
                    None => (None, ConnectionStateView::Connected(p, None)),
                }
            },
            Some(TunnelInfo::Connecting { protocol, peer }) => (
                handler,
                ConnectionStateView::Connecting(seq![peer_info_of(peer, protocol)], Seq::empty()),
            ),
            Some(TunnelInfo::Disconnected) => if has_peers {
                (handler, ConnectionStateView::Connecting(Seq::empty(), Seq::empty()))
            } else {
                (handler, ConnectionStateView::Disconnected(None))
            },
            None => (handler, ConnectionStateView::Disconnected(None)),
        }
    }
}

/// Without a local agent, a connected tunnel is reported as connected to its
/// peer whenever the network is available; with or without one, the state is
/// reported as connected only while the tunnel is connected and the network
/// is available.
pub proof fn law_connected_tunnel_reported(
    handler: Option<LocalAgentHandlerView>,
    network_available: bool,
    info: Option<TunnelInfo>,
    has_peers: bool,
)
    ensures
        network_available && handler is None ==> (info matches Some(TunnelInfo::Connected { protocol, peer })
            ==> peer_state_spec(handler, network_available, info, has_peers).1 == ConnectionStateView::Connected(
            peer_info_of(peer, protocol),
            None,
        )),
        peer_state_spec(handler, network_available, info, has_peers).1 is Connected ==> network_available
            && info matches Some(TunnelInfo::Connected { .. }),
        !network_available ==> peer_state_spec(handler, network_available, info, has_peers).1 is Connecting
            && peer_state_spec(handler, network_available, info, has_peers).1->Connecting_1 == seq![PeerConnectionWaitReason::WaitingForNetwork],
        network_available ==> (info matches Some(TunnelInfo::Connecting { protocol, peer })
            ==> peer_state_spec(handler, network_available, info, has_peers).1 == ConnectionStateView::Connecting(
            seq![peer_info_of(peer, protocol)],
            Seq::empty(),
        )),
{
}

/// The connection state to report for a tunnel status. With a local agent,
/// a connected tunnel is reported as the handler sees it.
pub fn get_peer_connection_state(
    handler: &mut Option<LocalAgentHandler>,
    network_available: bool,
    tunnel_info: &Option<TunnelInfo>,
    has_peers: bool,
) -> (r: ConnectionState)
    requires
        tunnel_info_wf(*tunnel_info),
    ensures
        (handler_view(*final(handler)), r@) == peer_state_spec(
            handler_view(*old(handler)),
            network_available,
            *tunnel_info,
            has_peers,
        ),
        network_available && *old(handler) is None ==> (*tunnel_info matches Some(TunnelInfo::Connected { protocol, peer })
            ==> r@ == ConnectionStateView::Connected(peer_info_of(peer, protocol), None)),
        r@ is Connected ==> network_available && *tunnel_info matches Some(TunnelInfo::Connected { .. }),
{
    if !network_available {
        return network_unavailable_state(tunnel_info);
    }
    match tunnel_info {
        Some(TunnelInfo::Connected { protocol, peer }) => {
            let info = get_peer_connection_info(peer, *protocol);
            match handler {
                Some(h) => {
                    h.on_connected_to_peer(&info);
                    h.get_state(info)
                },
                None => ConnectionState::Connected { peer: info, agent_info: None },
            }
        },
        Some(TunnelInfo::Connecting { protocol, peer }) => {
            let mut peers: Vec<PeerConnectionInfo> = Vec::new();
            peers.push(get_peer_connection_info(peer, *protocol));
            let wait_reasons: Vec<PeerConnectionWaitReason> = Vec::new();
            proof {
                assert(peers@ =~= seq![peer_info_of(*peer, *protocol)]);
                assert(wait_reasons@ =~= Seq::<PeerConnectionWaitReason>::empty());
            }
            ConnectionState::Connecting { peers, wait_reasons }
        },
        Some(TunnelInfo::Disconnected) => {
            if has_peers {
                let peers: Vec<PeerConnectionInfo> = Vec::new();
                let wait_reasons: Vec<PeerConnectionWaitReason> = Vec::new();
                proof {
                    assert(peers@ =~= Seq::<PeerConnectionInfo>::empty());
                    assert(wait_reasons@ =~= Seq::<PeerConnectionWaitReason>::empty());
                }
                ConnectionState::Connecting { peers, wait_reasons }
            } else {
                ConnectionState::Disconnected { error: None }
            }
        },
        None => ConnectionState::Disconnected { error: None },
    }
}

pub open spec fn earliest(a: Option<u64>, b: Option<u64>) -> Option<u64> {
    match (a, b) {
        (None, x) => x,
        (x, None) => x,
        (Some(x), Some(y)) => Some(if x <= y { x } else { y }),
    }
}

/// How long to wait for stream events: the earlier of the VPN client's wake-up
/// delay and the network recovery delay, none when neither is set.
pub fn poll_deadline(client_delay: Option<u64>, recovery_delay: Option<u64>) -> (r: Option<u64>)
    ensures
        r == earliest(client_delay, recovery_delay),
        r is None <==> (client_delay is None && recovery_delay is None),
        client_delay is Some ==> r is Some && r->0 <= client_delay->0,
        recovery_delay is Some ==> r is Some && r->0 <= recovery_delay->0,
        r is Some ==> (r == client_delay || r == recovery_delay),
{
    match recovery_delay {
        Some(network_handler_delay) => match client_delay {
            None => Some(network_handler_delay),
            Some(pvpn_delay) => Some(
                if pvpn_delay <= network_handler_delay {
                    pvpn_delay
                } else {
                    network_handler_delay
                },
            ),
        },
        None => client_delay,
    }
}

/// The role of a stream, as its identifier tells it.
#[derive(Clone, Copy, PartialEq, Eq, Structural)]
pub enum StreamKind {
    /// The TUN device.
    Tun,
    /// The packet capture file.
    PacketCapture,
    /// Cache entry for the local agent private key.
    PrivateKey,
    /// Cache entry for the local agent certificate.
    Certificate,
    /// Cache entry for the API session.
    ApiSession,
    /// A network socket to a server (an identifier above the TUN one).
    Socket,
}

/// The poll waits no longer than either delay that is set, and waits for one
/// of them; without any, it waits without end.
pub proof fn law_poll_deadline_earliest(client_delay: Option<u64>, recovery_delay: Option<u64>)
    ensures
        earliest(client_delay, recovery_delay) is None <==> (client_delay is None && recovery_delay is None),
        client_delay is Some ==> earliest(client_delay, recovery_delay) is Some && earliest(client_delay, recovery_delay)->0
            <= client_delay->0,
        recovery_delay is Some ==> earliest(client_delay, recovery_delay) is Some && earliest(client_delay, recovery_delay)->0
            <= recovery_delay->0,
        earliest(client_delay, recovery_delay) is Some ==> (earliest(client_delay, recovery_delay) == client_delay
            || earliest(client_delay, recovery_delay) == recovery_delay),
        earliest(client_delay, recovery_delay) == earliest(recovery_delay, client_delay),
{
}

/// Where data that the VPN client writes goes.
#[derive(Clone, Copy, PartialEq, Eq, Structural)]
pub enum WriteTarget {
    PacketCapture,
    Cache(CacheKey),
    Stream,
}

pub open spec fn write_target_of(kind: StreamKind) -> WriteTarget {
    match kind {
        StreamKind::PacketCapture => WriteTarget::PacketCapture,
        StreamKind::PrivateKey => WriteTarget::Cache(CacheKey::PrivateKey),
        StreamKind::Certificate => WriteTarget::Cache(CacheKey::Certificate),
        StreamKind::ApiSession => WriteTarget::Cache(CacheKey::ApiSession),
        _ => WriteTarget::Stream,
    }
}

/// Where data written to a stream goes: the capture file, a cache entry, or
/// the stream itself.
pub fn write_target(kind: StreamKind) -> (r: WriteTarget)
    ensures
        r == write_target_of(kind),
        r == WriteTarget::Stream <==> (kind == StreamKind::Tun || kind == StreamKind::Socket),
        kind == StreamKind::PacketCapture <==> r == WriteTarget::PacketCapture,
        r matches WriteTarget::Cache(key) ==> (key == CacheKey::PrivateKey <==> kind == StreamKind::PrivateKey) && (key
            == CacheKey::Certificate <==> kind == StreamKind::Certificate) && (key == CacheKey::ApiSession <==> kind
            == StreamKind::ApiSession),
{
    match kind {
        StreamKind::PacketCapture => WriteTarget::PacketCapture,
        StreamKind::PrivateKey => WriteTarget::Cache(CacheKey::PrivateKey),
        StreamKind::Certificate => WriteTarget::Cache(CacheKey::Certificate),
        StreamKind::ApiSession => WriteTarget::Cache(CacheKey::ApiSession),
        _ => WriteTarget::Stream,
    }
}

/// Only socket errors are reported to the VPN client and to network recovery.
pub fn reports_stream_errors(kind: StreamKind) -> (r: bool)
    ensures
        r == (kind == StreamKind::Socket),
{
    match kind {
        StreamKind::Socket => true,
        _ => false,
    }
}

/// What to do after a write to a stream.
pub struct WriteReaction {
    /// Poll the stream for writability (or stop doing so).
    pub wait_for_write: Option<bool>,
    /// Tell the VPN client the data was fully written.
    pub push_done: bool,
    /// Report this error kind to the VPN client.
    pub push_error: Option<IoErrorKind>,
    /// Tell the VPN client the stream closed.
    pub push_close: bool,
}

pub open spec fn write_reaction_of(kind: StreamKind, res: StreamResult) -> WriteReaction {
    match res {
        StreamResult::Done { pending_write, .. } => WriteReaction {
            wait_for_write: Some(pending_write == PendingWrite::Yes),
            push_done: pending_write == PendingWrite::No && kind == StreamKind::Socket,
            push_error: None,
            push_close: false,
        },
        StreamResult::Failed(e) => WriteReaction {
            wait_for_write: None,
            push_done: false,
            push_error: if kind == StreamKind::Socket { Some(e.kind) } else { None },
            push_close: false,
        },
        StreamResult::StreamClosed => WriteReaction {
            wait_for_write: None,
            push_done: false,
            push_error: None,
            push_close: true,
        },
    }
}

/// What to do after a write: keep polling for writability while data is
/// pending, confirm fully written socket data, report socket errors, and
/// report closed streams.
pub fn write_reaction(kind: StreamKind, res: &StreamResult) -> (r: WriteReaction)
    ensures
        r == write_reaction_of(kind, *res),
        kind == StreamKind::Socket ==> (*res matches StreamResult::Failed(e) ==> r.push_error == Some(e.kind)),
        kind != StreamKind::Socket ==> r.push_error is None && !r.push_done,
        r.push_close <==> *res is StreamClosed,
        r.push_done <==> (kind == StreamKind::Socket && *res is Done && res->pending_write == PendingWrite::No),
{
    match res {
        StreamResult::Done { pending_write, .. } => WriteReaction {
            wait_for_write: Some(*pending_write == PendingWrite::Yes),
            push_done: *pending_write == PendingWrite::No && reports_stream_errors(kind),
            push_error: None,
            push_close: false,
        },
        StreamResult::Failed(e) => WriteReaction {
            wait_for_write: None,
            push_done: false,
            push_error: if reports_stream_errors(kind) {
                Some(e.kind)
            } else {
                None
            },
            push_close: false,
        },
        StreamResult::StreamClosed => WriteReaction {
            wait_for_write: None,
            push_done: false,
            push_error: None,
            push_close: true,
        },
    }
}

/// What to do after a read from a stream.
pub struct ReadReaction {
    /// Hand the bytes in this range of the buffer to the VPN client.
    pub forward: Option<(usize, usize)>,
    /// Read from the stream again.
    pub read_again: bool,
    /// Report this error kind to the VPN client.
    pub push_error: Option<IoErrorKind>,
    /// Tell the VPN client the stream closed.
    pub push_close: bool,
}

pub open spec fn read_reaction_of(kind: StreamKind, res: StreamResult, network_available: bool) -> ReadReaction {
    match res {
        StreamResult::Done { bytes_count, start_offset, would_block, .. } => ReadReaction {
            forward: if bytes_count > 0 && network_available {
                Some((start_offset, (start_offset + bytes_count) as usize))
            } else {
                None
            },
            read_again: would_block == WouldBlock::No && bytes_count > 0,
            push_error: None,
            push_close: false,
        },
        StreamResult::Failed(e) => ReadReaction {
            forward: None,
            read_again: false,
            push_error: if kind == StreamKind::Socket { Some(e.kind) } else { None },
            push_close: false,
        },
        StreamResult::StreamClosed => ReadReaction {
            forward: None,
            read_again: false,
            push_error: None,
            push_close: true,
        },
    }
}

/// How the loop answers a write: a socket write error is reported to the VPN
/// client with its kind, TUN errors are not, a closed stream is reported as
/// closed and only then, and a socket write is confirmed exactly when nothing
/// of it is left pending.
pub proof fn law_write_reaction(kind: StreamKind, res: StreamResult)
    ensures
        kind == StreamKind::Socket ==> (res matches StreamResult::Failed(e) ==> write_reaction_of(kind, res).push_error
            == Some(e.kind)),
        kind != StreamKind::Socket ==> write_reaction_of(kind, res).push_error is None,
        write_reaction_of(kind, res).push_close <==> res is StreamClosed,
        write_reaction_of(kind, res).push_done <==> (kind == StreamKind::Socket && res is Done && res->pending_write
            == PendingWrite::No),
        res matches StreamResult::Done { pending_write, .. } ==> write_reaction_of(kind, res).wait_for_write == Some(
            pending_write == PendingWrite::Yes,
        ),
{
}

/// How the loop answers a read: a closed stream is reported as closed,
/// whatever the stream and the network, and only then; a socket read error is
/// reported with its kind; data is forwarded, as the range read, exactly when
/// there is some and the network is available; a stream is read again only
/// after a read that got data and did not block.
pub proof fn law_read_reaction(kind: StreamKind, res: StreamResult, network_available: bool)
    requires
        res is Done ==> res->start_offset + res->bytes_count <= usize::MAX,
    ensures
        read_reaction_of(kind, res, network_available).push_close <==> res is StreamClosed,
        kind == StreamKind::Socket ==> (res matches StreamResult::Failed(e) ==> read_reaction_of(
            kind,
            res,
            network_available,
        ).push_error == Some(e.kind)),
        kind != StreamKind::Socket ==> read_reaction_of(kind, res, network_available).push_error is None,
        read_reaction_of(kind, res, network_available).forward is Some ==> network_available && res is Done
            && res->bytes_count > 0,
        read_reaction_of(kind, res, network_available).forward matches Some((a, b)) ==> (a == res->start_offset && b
            == res->start_offset + res->bytes_count),
        read_reaction_of(kind, res, network_available).read_again <==> (res is Done && res->bytes_count > 0
            && res->would_block == WouldBlock::No),
{
}

/// What to do after a read: forward the data unless the network is down
/// (data from the TUN device is then dropped), read again while data keeps
/// coming, report socket errors, and report closed streams.
pub fn read_reaction(kind: StreamKind, res: &StreamResult, network_available: bool) -> (r: ReadReaction)
    requires
        *res matches StreamResult::Done { bytes_count, start_offset, .. } ==> start_offset
            + bytes_count <= usize::MAX,
    ensures
        r == read_reaction_of(kind, *res, network_available),
        r.push_close <==> *res is StreamClosed,
        kind == StreamKind::Socket ==> (*res matches StreamResult::Failed(e) ==> r.push_error == Some(e.kind)),
        kind != StreamKind::Socket ==> r.push_error is None,
        *res matches StreamResult::Done { bytes_count, start_offset, .. } ==> r.forward == if bytes_count > 0
            && network_available {
            Some((start_offset, (start_offset + bytes_count) as usize))
        } else {
            None
        },
        r.read_again <==> (*res is Done && res->bytes_count > 0 && res->would_block == WouldBlock::No),
{
    match res {
        StreamResult::Done { bytes_count, start_offset, would_block, .. } => ReadReaction {
            forward: if *bytes_count > 0 && network_available {
                Some((*start_offset, *start_offset + *bytes_count))
            } else {
                None
            },
            read_again: *would_block == WouldBlock::No && *bytes_count > 0,
            push_error: None,
            push_close: false,
        },
        StreamResult::Failed(e) => ReadReaction {
            forward: None,
            read_again: false,
            push_error: if reports_stream_errors(kind) {
                Some(e.kind)
            } else {
                None
            },
            push_close: false,
        },
        StreamResult::StreamClosed => ReadReaction {
            forward: None,
            read_again: false,
            push_error: None,
            push_close: true,
        },
    }
}

/// Why a packet capture is being stopped.
#[derive(Clone, Copy, PartialEq, Eq, Structural)]
pub enum CaptureStopCause {
    Request,
    MaxSizeReached,
    Disconnected,
}

pub open spec fn stop_reason_of(cause: CaptureStopCause, file: PcapFileInfo) -> CaptureStopReason {
    match cause {
        CaptureStopCause::Request => CaptureStopReason::Request { file },
        CaptureStopCause::MaxSizeReached => CaptureStopReason::MaxSizeReached { file },
        CaptureStopCause::Disconnected => CaptureStopReason::Disconnected { file },
    }
}

/// Stops the packet capture: the event names the file that was being written,
/// or says that no capture was running.
pub fn stop_packet_capture(active: &mut Option<PcapFileInfo>, cause: CaptureStopCause) -> (r: Event)
    ensures
        *final(active) is None,
        r == (match *old(active) {
            Some(file) => Event::PacketCaptureStopped { reason: stop_reason_of(cause, file) },
            None => Event::PacketCaptureStopped { reason: CaptureStopReason::AlreadyStopped },
        }),
{
    match active.take() {
        Some(file) => {
            let reason = match cause {
                CaptureStopCause::Request => CaptureStopReason::Request { file },
                CaptureStopCause::MaxSizeReached => CaptureStopReason::MaxSizeReached { file },
                CaptureStopCause::Disconnected => CaptureStopReason::Disconnected { file },
            };
            Event::PacketCaptureStopped { reason }
        },
        None => Event::PacketCaptureStopped { reason: CaptureStopReason::AlreadyStopped },
    }
}

/// Starts a packet capture once its file is open: the capture becomes the
/// active one and its start is reported.
pub fn start_packet_capture(active: &mut Option<PcapFileInfo>, file_info: PcapFileInfo) -> (r: Event)
    ensures
        *final(active) == Some(file_info),
        r == (Event::PacketCaptureStarted { info: file_info }),
{
    *active = Some(file_info.clone());
    Event::PacketCaptureStarted { info: file_info }
}

} // verus!
