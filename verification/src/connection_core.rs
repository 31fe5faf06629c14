use vstd::prelude::*;
use crate::client_settings::{client_settings_spec, pvpn_settings, ClientSettings};
use crate::connection::{PcapFileInfo, PeerInfo, SniStrategy};
use crate::connection_logic::{
    get_peer_connection_state, handler_view, network_unavailable_spec, network_unavailable_state,
    peer_state_spec, stop_packet_capture, start_packet_capture, stop_reason_of, CaptureStopCause,
    TunnelInfo, tunnel_info_wf,
};
use crate::equality::{peer_info_same, peer_infos_equal, state_same, states_equal};
use crate::events::{CaptureStopReason, Event};
use crate::local_agent::LocalAgentSettings;
use crate::local_agent_handler::{
    LocalAgentHandler, LocalAgentHandlerView, LocalAgentMessage, LocalAgentSelector,
    watched_selectors_spec,
};
use crate::net::IpAddress;
use crate::state::{
    ConnectionState, ConnectionStateView, InterfaceError, InterfaceState, PeerConnectionWaitReason,
    VpnState,
};
use crate::stream_io::{to_tun_error, StreamResult};

verus! {

/// The decision state of one VPN connection: the reported state, the
/// candidate peers, the TUN error last seen, the running packet capture and
/// the local agent bookkeeping. The connection loop feeds it what the VPN
/// client and the streams report and carries out what it decides.
pub struct ConnectionCore {
    connection_state: ConnectionState,
    peers: Vec<PeerInfo>,
    current_tun_error: Option<InterfaceError>,
    capture: Option<PcapFileInfo>,
    local_agent_settings: Option<LocalAgentSettings>,
    handler: Option<LocalAgentHandler>,
    sni_strategy: SniStrategy,
}

/// The mathematical content of a [ConnectionCore].
pub struct ConnectionCoreView {
    pub state: ConnectionStateView,
    pub peers: Seq<PeerInfo>,
    pub tun_error: Option<InterfaceError>,
    pub capture: Option<PcapFileInfo>,
    pub settings: Option<LocalAgentSettings>,
    pub handler: Option<LocalAgentHandlerView>,
    pub sni_strategy: SniStrategy,
}

impl View for ConnectionCore {
    type V = ConnectionCoreView;

    closed spec fn view(&self) -> ConnectionCoreView {
        ConnectionCoreView {
            state: self.connection_state@,
            peers: self.peers@,
            tun_error: self.current_tun_error,
            capture: self.capture,
            settings: self.local_agent_settings,
            handler: handler_view(self.handler),
            sni_strategy: self.sni_strategy,
        }
    }
}

/// What to do when a connection starts.
pub struct StartupPlan {
    /// Tell the VPN client that there is no network.
    pub notify_network_down: bool,
    /// The connection state changed and is to be reported.
    pub report_state: bool,
    /// Local agent selectors to watch.
    pub watch: Vec<LocalAgentSelector>,
    /// Settings to hand to the VPN client.
    pub apply_settings: Option<ClientSettings>,
}

/// The state reported when the connection starts without network.
pub open spec fn waiting_for_network() -> ConnectionStateView {
    ConnectionStateView::Connecting(Seq::empty(), seq![PeerConnectionWaitReason::WaitingForNetwork])
}

/// What a peer list update asks of the VPN client.
pub struct PeersUpdate {
    /// Server addresses of the peers to remove.
    pub removed: Vec<IpAddress>,
    /// Peers to add.
    pub added: Vec<PeerInfo>,
}

/// What a connectivity change asks of the VPN client.
pub struct ConnectivityReaction {
    /// Tell the client that the network changed (`true`) or went down (`false`).
    pub network_available: bool,
    /// The connection state changed and is to be reported.
    pub report_state: bool,
}

/// What ending the connection loop asks for.
pub struct LoopEnd {
    /// The capture stop to report, when a capture was running.
    pub capture_stopped: Option<Event>,
    /// The connection state changed and is to be reported.
    pub report_state: bool,
}

/// The list holds a peer equal in content to `p`.
pub open spec fn has_peer(ps: Seq<PeerInfo>, p: PeerInfo) -> bool {
    exists|i: int| 0 <= i < ps.len() && peer_info_same(#[trigger] ps[i], p)
}

/// Two peer lists are equal in content, element by element.
pub open spec fn peer_lists_same(a: Seq<PeerInfo>, b: Seq<PeerInfo>) -> bool {
    &&& a.len() == b.len()
    &&& forall|i: int| 0 <= i < a.len() ==> peer_info_same(#[trigger] a[i], b[i])
}

/// The peers of `old` that `new` no longer holds, in order.
pub open spec fn removed_peers(old: Seq<PeerInfo>, new: Seq<PeerInfo>) -> Seq<PeerInfo>
    decreases old.len(),
{
    if old.len() == 0 {
        Seq::empty()
    } else if has_peer(new, old.last()) {
        removed_peers(old.drop_last(), new)
    } else {
        removed_peers(old.drop_last(), new).push(old.last())
    }
}

/// The peers of `new` that `old` did not hold, in order.
pub open spec fn added_peers(old: Seq<PeerInfo>, new: Seq<PeerInfo>) -> Seq<PeerInfo> {
    removed_peers(new, old)
}

fn contains_peer(ps: &Vec<PeerInfo>, p: &PeerInfo) -> (r: bool)
    ensures
        r == has_peer(ps@, *p),
{
    let mut i: usize = 0;
    while i < ps.len()
        invariant
            0 <= i <= ps.len(),
            forall|j: int| 0 <= j < i ==> !peer_info_same(#[trigger] ps@[j], *p),
        decreases ps.len() - i,
    {
        if peer_infos_equal(&ps[i], p) {
            return true;
        }
        i = i + 1;
    }
    false
}

fn clone_peer(p: &PeerInfo) -> (r: PeerInfo)
    ensures
        peer_info_same(r, *p),
{
    let udp_ports = p.udp_ports.clone();
    let tcp_ports = p.tcp_ports.clone();
    let tls_ports = p.tls_ports.clone();
    assert(udp_ports@ =~= p.udp_ports@);
    assert(tcp_ports@ =~= p.tcp_ports@);
    assert(tls_ports@ =~= p.tls_ports@);
    PeerInfo {
        peer_id: p.peer_id.clone(),
        server_ip: p.server_ip,
        server_public_key: p.server_public_key,
        udp_ports,
        tcp_ports,
        tls_ports,
        priority: p.priority,
        exit_label: match &p.exit_label {
            Some(l) => Some(l.clone()),
            None => None,
        },
    }
}

impl Clone for PeerInfo {
    fn clone(&self) -> (r: PeerInfo)
        ensures
            peer_info_same(r, *self),
    {
        clone_peer(self)
    }
}

proof fn lemma_removed_step(old: Seq<PeerInfo>, new: Seq<PeerInfo>, i: int)
    requires
        0 <= i < old.len(),
    ensures
        removed_peers(old.take(i + 1), new) == if has_peer(new, old[i]) {
            removed_peers(old.take(i), new)
        } else {
            removed_peers(old.take(i), new).push(old[i])
        },
{
    assert(old.take(i + 1).drop_last() =~= old.take(i));
}

/// The peers of `old` missing from `new`: their server addresses.
fn removed_addresses(old: &Vec<PeerInfo>, new: &Vec<PeerInfo>) -> (r: Vec<IpAddress>)
    ensures
        r@.len() == removed_peers(old@, new@).len(),
        forall|k: int| 0 <= k < r@.len() ==> #[trigger] r@[k] == removed_peers(old@, new@)[k].server_ip,
{
    let mut out: Vec<IpAddress> = Vec::new();
    let mut i: usize = 0;
    assert(old@.take(0) =~= Seq::<PeerInfo>::empty());
    while i < old.len()
        invariant
            0 <= i <= old.len(),
            out@.len() == removed_peers(old@.take(i as int), new@).len(),
            forall|k: int|
                0 <= k < out@.len() ==> #[trigger] out@[k] == removed_peers(old@.take(i as int), new@)[k].server_ip,
        decreases old.len() - i,
    {
        proof {
            lemma_removed_step(old@, new@, i as int);
        }
        if !contains_peer(new, &old[i]) {
            out.push(old[i].server_ip);
        }
        i = i + 1;
    }
    assert(old@.take(old.len() as int) =~= old@);
    out
}

/// The peers of `new` missing from `old`, copied.
fn added_copies(old: &Vec<PeerInfo>, new: &Vec<PeerInfo>) -> (r: Vec<PeerInfo>)
    ensures
        r@.len() == added_peers(old@, new@).len(),
        forall|k: int| 0 <= k < r@.len() ==> peer_info_same(#[trigger] r@[k], added_peers(old@, new@)[k]),
{
    let mut out: Vec<PeerInfo> = Vec::new();
    let mut i: usize = 0;
    assert(new@.take(0) =~= Seq::<PeerInfo>::empty());
    while i < new.len()
        invariant
            0 <= i <= new.len(),
            out@.len() == removed_peers(new@.take(i as int), old@).len(),
            forall|k: int|
                0 <= k < out@.len() ==> peer_info_same(#[trigger] out@[k], removed_peers(new@.take(i as int), old@)[k]),
        decreases new.len() - i,
    {
        proof {
            lemma_removed_step(new@, old@, i as int);
        }
        if !contains_peer(old, &new[i]) {
            out.push(clone_peer(&new[i]));
        }
        i = i + 1;
    }
    assert(new@.take(new.len() as int) =~= new@);
    out
}

fn peer_lists_equal(a: &Vec<PeerInfo>, b: &Vec<PeerInfo>) -> (r: bool)
    ensures
        r == peer_lists_same(a@, b@),
{
    if a.len() != b.len() {
        return false;
    }
    let mut i: usize = 0;
    while i < a.len()
        invariant
            a.len() == b.len(),
            0 <= i <= a.len(),
            forall|j: int| 0 <= j < i ==> peer_info_same(#[trigger] a@[j], b@[j]),
        decreases a.len() - i,
    {
        if !peer_infos_equal(&a[i], &b[i]) {
            return false;
        }
        i = i + 1;
    }
    true
}

/// A copy of a connection state with the same content.
pub fn clone_state(s: &ConnectionState) -> (r: ConnectionState)
    ensures
        r@ == s@,
{
    match s {
        ConnectionState::Disconnected { error } => ConnectionState::Disconnected {
            error: match error {
                Some(e) => Some(e.clone()),
                None => None,
            },
        },
        ConnectionState::Connecting { peers, wait_reasons } => {
            let p = peers.clone();
            let w = wait_reasons.clone();
            assert(p@ =~= peers@);
            assert(w@ =~= wait_reasons@);
            ConnectionState::Connecting { peers: p, wait_reasons: w }
        },
        ConnectionState::ConnectingToLocalAgent { peer, wait_reason } => {
            let w = match wait_reason {
                Some(crate::state::AgentConnectionWaitReason::SoftJailed) => Some(
                    crate::state::AgentConnectionWaitReason::SoftJailed,
                ),
                Some(crate::state::AgentConnectionWaitReason::HardJailed { jails }) => {
                    let j = jails.clone();
                    assert(j@ =~= jails@);
                    Some(crate::state::AgentConnectionWaitReason::HardJailed { jails: j })
                },
                None => None,
            };
            ConnectionState::ConnectingToLocalAgent { peer: peer.clone(), wait_reason: w }
        },
        ConnectionState::Connected { peer, agent_info } => ConnectionState::Connected {
            peer: peer.clone(),
            agent_info: match agent_info {
                Some(i) => Some(i.clone()),
                None => None,
            },
        },
    }
}

impl ConnectionCore {
    /// The state of a new connection: disconnected, with the given peers;
    /// a local agent handler exists exactly when local agent settings are given.
    /// Without network, the connection waits for it, and says so.
    pub fn new(
        peers: Vec<PeerInfo>,
        network_available: bool,
        local_agent_settings: Option<LocalAgentSettings>,
        sni_strategy: SniStrategy,
    ) -> (r: (ConnectionCore, StartupPlan))
        ensures
            r.0@.peers == peers@,
            r.0@.tun_error is None,
            r.0@.capture is None,
            r.0@.settings == local_agent_settings,
            r.0@.handler == match local_agent_settings {
                Some(_) => Some(LocalAgentHandlerView::initial()),
                None => None,
            },
            r.0@.state == if network_available {
                ConnectionStateView::Disconnected(None)
            } else {
                waiting_for_network()
            },
            r.1.notify_network_down == !network_available,
            r.1.report_state == !network_available,
            r.1.watch@ == match local_agent_settings {
                Some(_) => watched_selectors_spec(),
                None => Seq::empty(),
            },
            r.0@.sni_strategy == sni_strategy,
            match local_agent_settings {
                Some(s) => r.1.apply_settings matches Some(c) && c@ == client_settings_spec(s, sni_strategy),
                None => r.1.apply_settings is None,
            },
    {
        let handler = match local_agent_settings {
            Some(_) => Some(LocalAgentHandler::new()),
            None => None,
        };
        let mut core = ConnectionCore {
            connection_state: ConnectionState::Disconnected { error: None },
            peers,
            current_tun_error: None,
            capture: None,
            local_agent_settings,
            handler,
            sni_strategy,
        };
        let mut report_state = false;
        if !network_available {
            let mut wait_reasons: Vec<PeerConnectionWaitReason> = Vec::new();
            wait_reasons.push(PeerConnectionWaitReason::WaitingForNetwork);
            let waiting = ConnectionState::Connecting { peers: Vec::new(), wait_reasons };
            assert(waiting@ =~= waiting_for_network());
            report_state = core.set_state(waiting);
        }
        let watch = match local_agent_settings {
            Some(_) => LocalAgentHandler::local_agent_selectors_to_watch(),
            None => Vec::new(),
        };
        let apply_settings = match local_agent_settings {
            Some(s) => Some(pvpn_settings(s, &sni_strategy)),
            None => None,
        };
        (core, StartupPlan { notify_network_down: !network_available, report_state, watch, apply_settings })
    }

    /// The candidate peers.
    pub fn peers(&self) -> (r: &Vec<PeerInfo>)
        ensures
            r@ == self@.peers,
    {
        &self.peers
    }

    /// The connection state last reported.
    pub fn connection_state(&self) -> (r: &ConnectionState)
        ensures
            r@ == self@.state,
    {
        &self.connection_state
    }

    /// Enters a state; it is to be reported exactly when it differs in content
    /// from the current one. An equal state leaves the current one in place.
    pub fn set_state(&mut self, connection_state: ConnectionState) -> (changed: bool)
        ensures
            final(self)@.sni_strategy == old(self)@.sni_strategy,
            changed == !state_same(connection_state@, old(self)@.state),
            final(self)@.state == if changed {
                connection_state@
            } else {
                old(self)@.state
            },
            final(self)@.peers == old(self)@.peers,
            final(self)@.tun_error == old(self)@.tun_error,
            final(self)@.capture == old(self)@.capture,
            final(self)@.settings == old(self)@.settings,
            final(self)@.handler == old(self)@.handler,
    {
        if !states_equal(&connection_state, &self.connection_state) {
            self.connection_state = connection_state;
            true
        } else {
            false
        }
    }

    /// The state to report: the TUN interface is up or down, with the last TUN
    /// error, and the current connection state.
    pub fn vpn_state(&self, tun_up: bool) -> (r: VpnState)
        ensures
            r.connection_state@ == self@.state,
            r.interface_state == if tun_up {
                InterfaceState::Up { error: self@.tun_error }
            } else {
                InterfaceState::Down { last_error: self@.tun_error }
            },
    {
        let error = match &self.current_tun_error {
            Some(e) => Some(e.clone()),
            None => None,
        };
        let interface_state = if tun_up {
            InterfaceState::Up { error }
        } else {
            InterfaceState::Down { last_error: error }
        };
        VpnState { interface_state, connection_state: clone_state(&self.connection_state) }
    }

    /// Follows the tunnel status reported by the VPN client: computes the
    /// connection state and enters it. Returns whether it changed and whether
    /// the connection is now up.
    pub fn update_state(&mut self, network_available: bool, tunnel_info: &Option<TunnelInfo>) -> (r: (
        bool,
        bool,
    ))
        requires
            tunnel_info_wf(*tunnel_info),
        ensures
            final(self)@.sni_strategy == old(self)@.sni_strategy,
            ({
                let (h, s) = peer_state_spec(
                    old(self)@.handler,
                    network_available,
                    *tunnel_info,
                    old(self)@.peers.len() > 0,
                );
                &&& final(self)@.handler == h
                &&& r.0 == !state_same(s, old(self)@.state)
                &&& final(self)@.state == if r.0 {
                    s
                } else {
                    old(self)@.state
                }
            }),
            r.1 == (final(self)@.state is Connected),
            network_available && old(self)@.handler is None ==> (*tunnel_info matches Some(TunnelInfo::Connected { .. })
                ==> r.1),
            r.1 ==> network_available && *tunnel_info matches Some(TunnelInfo::Connected { .. }),
            final(self)@.peers == old(self)@.peers,
            final(self)@.tun_error == old(self)@.tun_error,
            final(self)@.capture == old(self)@.capture,
            final(self)@.settings == old(self)@.settings,
    {
        let has_peers = self.peers.len() > 0;
        let state = get_peer_connection_state(&mut self.handler, network_available, tunnel_info, has_peers);
        let changed = self.set_state(state);
        let connected = match &self.connection_state {
            ConnectionState::Connected { .. } => true,
            _ => false,
        };
        (changed, connected)
    }

    /// A connectivity change: with network the VPN client is told that the
    /// network changed; without, it is told that the network is down and the
    /// connection waits for the network.
    pub fn on_connectivity_change(&mut self, network_available: bool, tunnel_info: &Option<TunnelInfo>) -> (r:
        ConnectivityReaction)
        requires
            tunnel_info_wf(*tunnel_info),
        ensures
            final(self)@.sni_strategy == old(self)@.sni_strategy,
            r.network_available == network_available,
            network_available ==> !r.report_state && final(self)@ == old(self)@,
            !network_available ==> r.report_state == !state_same(
                network_unavailable_spec(*tunnel_info),
                old(self)@.state,
            ),
            !network_available ==> final(self)@.state == if r.report_state {
                network_unavailable_spec(*tunnel_info)
            } else {
                old(self)@.state
            },
            final(self)@.peers == old(self)@.peers,
            final(self)@.handler == old(self)@.handler,
    {
        if network_available {
            ConnectivityReaction { network_available: true, report_state: false }
        } else {
            let state = network_unavailable_state(tunnel_info);
            let changed = self.set_state(state);
            ConnectivityReaction { network_available: false, report_state: changed }
        }
    }

    /// Replaces the candidate peers. Peers that left are to be removed from
    /// the VPN client and new ones added; an update equal in content to the
    /// current list changes nothing.
    pub fn update_peers(&mut self, new_peers: Vec<PeerInfo>) -> (r: PeersUpdate)
        ensures
            final(self)@.sni_strategy == old(self)@.sni_strategy,
            r.removed@.len() == removed_peers(old(self)@.peers, new_peers@).len(),
            forall|k: int|
                0 <= k < r.removed@.len() ==> #[trigger] r.removed@[k] == removed_peers(
                    old(self)@.peers,
                    new_peers@,
                )[k].server_ip,
            r.added@.len() == added_peers(old(self)@.peers, new_peers@).len(),
            forall|k: int|
                0 <= k < r.added@.len() ==> peer_info_same(
                    #[trigger] r.added@[k],
                    added_peers(old(self)@.peers, new_peers@)[k],
                ),
            final(self)@.peers == if peer_lists_same(old(self)@.peers, new_peers@) {
                old(self)@.peers
            } else {
                new_peers@
            },
            final(self)@.state == old(self)@.state,
            final(self)@.handler == old(self)@.handler,
            final(self)@.settings == old(self)@.settings,
    {
        let removed = removed_addresses(&self.peers, &new_peers);
        let added = added_copies(&self.peers, &new_peers);
        if !peer_lists_equal(&self.peers, &new_peers) {
            self.peers = new_peers;
        }
        PeersUpdate { removed, added }
    }

    /// New local agent settings: they are kept and handed to the VPN client
    /// when they differ from the current ones; outside local agent mode they
    /// are ignored.
    pub fn update_local_agent_settings(&mut self, settings: LocalAgentSettings) -> (r: Option<ClientSettings>)
        ensures
            (r is Some) == (old(self)@.settings matches Some(current) && current != settings),
            r matches Some(c) ==> c@ == client_settings_spec(settings, old(self)@.sni_strategy),
            final(self)@.settings == if r is Some {
                Some(settings)
            } else {
                old(self)@.settings
            },
            final(self)@.state == old(self)@.state,
            final(self)@.peers == old(self)@.peers,
            final(self)@.handler == old(self)@.handler,
            final(self)@.sni_strategy == old(self)@.sni_strategy,
    {
        match self.local_agent_settings {
            Some(current) => {
                if current != settings {
                    self.local_agent_settings = Some(settings);
                    Some(pvpn_settings(settings, &self.sni_strategy))
                } else {
                    None
                }
            },
            None => None,
        }
    }


    /// Records the outcome of a read or write on the TUN stream.
    pub fn record_tun_result(&mut self, res: &StreamResult)
        ensures
            final(self)@.sni_strategy == old(self)@.sni_strategy,
            crate::stream_io::interface_error_text(final(self)@.tun_error)
                == crate::stream_io::tun_error_text(*res),
            final(self)@.state == old(self)@.state,
            final(self)@.peers == old(self)@.peers,
            final(self)@.handler == old(self)@.handler,
    {
        self.current_tun_error = to_tun_error(res);
    }

    /// The TUN device was replaced successfully: its last error is forgotten.
    pub fn on_tun_updated(&mut self)
        ensures
            final(self)@.sni_strategy == old(self)@.sni_strategy,
            final(self)@.tun_error is None,
            final(self)@.state == old(self)@.state,
            final(self)@.peers == old(self)@.peers,
            final(self)@.handler == old(self)@.handler,
    {
        self.current_tun_error = None;
    }

    /// Whether the local agent handler takes the message (see
    /// [LocalAgentHandler::accepts]); outside local agent mode every message is
    /// taken and ignored.
    pub fn accepts_local_agent_message(&self, message: &LocalAgentMessage) -> (r: bool)
        ensures
            r == (old_handler_accepts(self@.handler, *message)),
    {
        match &self.handler {
            Some(h) => h.accepts(message),
            None => true,
        }
    }

    /// Whether the connection runs with a local agent.
    pub fn has_local_agent(&self) -> (r: bool)
        ensures
            r == (self@.handler is Some),
    {
        self.handler.is_some()
    }

    /// Hands a message of the local agent channel to the handler and returns
    /// the event to emit; outside local agent mode nothing happens.
    pub fn handle_local_agent_message(&mut self, message: LocalAgentMessage) -> (r: Option<Event>)
        requires
            old_handler_accepts(old(self)@.handler, message),
        ensures
            final(self)@.sni_strategy == old(self)@.sni_strategy,
            match old(self)@.handler {
                Some(h) => final(self)@.handler == Some(h.after_message(message).0) && r == h.after_message(
                    message,
                ).1,
                None => final(self)@.handler is None && r is None,
            },
            final(self)@.state == old(self)@.state,
            final(self)@.peers == old(self)@.peers,
            final(self)@.settings == old(self)@.settings,
    {
        match &mut self.handler {
            Some(h) => h.handle_message(message),
            None => None,
        }
    }

    /// A packet capture file was opened: the capture becomes the running one.
    pub fn start_capture(&mut self, file_info: PcapFileInfo) -> (r: Event)
        ensures
            final(self)@.sni_strategy == old(self)@.sni_strategy,
            final(self)@.capture == Some(file_info),
            r == (Event::PacketCaptureStarted { info: file_info }),
            final(self)@.state == old(self)@.state,
            final(self)@.peers == old(self)@.peers,
            final(self)@.handler == old(self)@.handler,
    {
        start_packet_capture(&mut self.capture, file_info)
    }

    /// Stops the packet capture for the given cause (the VPN client is told
    /// to stop capturing in any case).
    pub fn stop_capture(&mut self, cause: CaptureStopCause) -> (r: Event)
        ensures
            final(self)@.sni_strategy == old(self)@.sni_strategy,
            final(self)@.capture is None,
            r == (match old(self)@.capture {
                Some(file) => Event::PacketCaptureStopped { reason: stop_reason_of(cause, file) },
                None => Event::PacketCaptureStopped { reason: CaptureStopReason::AlreadyStopped },
            }),
            final(self)@.state == old(self)@.state,
            final(self)@.peers == old(self)@.peers,
            final(self)@.handler == old(self)@.handler,
    {
        stop_packet_capture(&mut self.capture, cause)
    }

    /// Ends the connection loop: a running capture stops with the
    /// disconnection, and the connection ends disconnected.
    pub fn on_connection_loop_end(&mut self) -> (r: LoopEnd)
        ensures
            final(self)@.sni_strategy == old(self)@.sni_strategy,
            r.capture_stopped == match old(self)@.capture {
                Some(file) => Some(
                    Event::PacketCaptureStopped { reason: CaptureStopReason::Disconnected { file } },
                ),
                None => None,
            },
            final(self)@.capture is None,
            r.report_state == !(old(self)@.state is Disconnected),
            final(self)@.state == if old(self)@.state is Disconnected {
                old(self)@.state
            } else {
                ConnectionStateView::Disconnected(None)
            },
    {
        let capture_stopped = if self.capture.is_some() {
            Some(self.stop_capture(CaptureStopCause::Disconnected))
        } else {
            None
        };
        let report_state = match &self.connection_state {
            ConnectionState::Disconnected { .. } => false,
            _ => self.set_state(ConnectionState::Disconnected { error: None }),
        };
        LoopEnd { capture_stopped, report_state }
    }
}

/// The handler, if any, takes the message.
pub open spec fn old_handler_accepts(h: Option<LocalAgentHandlerView>, message: LocalAgentMessage) -> bool {
    h matches Some(v) ==> v.accepts(message)
}

/// A peer list update repeated changes nothing: no peer is removed or added.
pub proof fn law_update_peers_idempotent(ps: Seq<PeerInfo>)
    ensures
        removed_peers(ps, ps).len() == 0,
        added_peers(ps, ps).len() == 0,
    decreases ps.len(),
{
    lemma_none_removed(ps, ps);
}

proof fn lemma_none_removed(old: Seq<PeerInfo>, new: Seq<PeerInfo>)
    requires
        forall|i: int| 0 <= i < old.len() ==> has_peer(new, #[trigger] old[i]),
    ensures
        removed_peers(old, new).len() == 0,
    decreases old.len(),
{
    if old.len() > 0 {
        assert(has_peer(new, old[old.len() - 1]));
        lemma_none_removed(old.drop_last(), new);
    }
}

/// The peers removed by an update are exactly the known peers that the new
/// list no longer holds; the peers added are exactly the new peers that were
/// not known.
pub proof fn law_update_peers_exact(old: Seq<PeerInfo>, new: Seq<PeerInfo>, p: PeerInfo)
    ensures
        removed_peers(old, new).contains(p) <==> (old.contains(p) && !has_peer(new, p)),
        added_peers(old, new).contains(p) <==> (new.contains(p) && !has_peer(old, p)),
{
    lemma_removed_contains(old, new, p);
    lemma_removed_contains(new, old, p);
}

proof fn lemma_removed_contains(old: Seq<PeerInfo>, new: Seq<PeerInfo>, p: PeerInfo)
    ensures
        removed_peers(old, new).contains(p) <==> (old.contains(p) && !has_peer(new, p)),
    decreases old.len(),
{
    if old.len() > 0 {
        lemma_removed_contains(old.drop_last(), new, p);
        let rest = removed_peers(old.drop_last(), new);
        if old.contains(p) {
            let i = choose|i: int| 0 <= i < old.len() && old[i] == p;
            if i < old.len() - 1 {
                assert(old.drop_last()[i] == p);
            }
        }
        if old.drop_last().contains(p) {
            let i = choose|i: int| 0 <= i < old.drop_last().len() && old.drop_last()[i] == p;
            assert(old[i] == p);
        }
        if !has_peer(new, old.last()) {
            let r = rest.push(old.last());
            if rest.contains(p) {
                let i = choose|i: int| 0 <= i < rest.len() && rest[i] == p;
                assert(r[i] == p);
            }
            if r.contains(p) {
                let i = choose|i: int| 0 <= i < r.len() && r[i] == p;
                if i < rest.len() {
                    assert(rest[i] == p);
                }
            }
            assert(r[rest.len() as int] == old.last());
        }
    }
}

} // verus!
