use vstd::prelude::*;
use crate::connection::{MuonEnv, PeerInfo};
use crate::net::{IpAddress, Ipv4Address, Ipv6Address};

verus! {

/// When the VPN client wants to be called again: whether it has actions to
/// pull and by when it wants to be woken (milliseconds, none for no deadline).
#[derive(Clone, Copy, PartialEq, Eq, Structural)]
pub struct ClientSchedule {
    pub need_pull: bool,
    pub wakeup_deadline: Option<u64>,
}

impl ClientSchedule {
    /// A new client is pulled at once and has no deadline.
    pub fn new() -> (r: ClientSchedule)
        ensures
            r == (ClientSchedule { need_pull: true, wakeup_deadline: None }),
    {
        ClientSchedule { need_pull: true, wakeup_deadline: None }
    }

    /// Takes in what a client call returned: whether its next task is to be
    /// pulled, and its wake-up deadline.
    pub fn handle_result(&mut self, task_needs_pull: bool, wakeup_deadline: Option<u64>)
        ensures
            *final(self) == (ClientSchedule { need_pull: task_needs_pull, wakeup_deadline }),
    {
        self.need_pull = task_needs_pull;
        self.wakeup_deadline = wakeup_deadline;
    }
}

/// The API environment the local agent session talks to.
pub enum ApiEnvironment {
    /// Custom servers with the production pins: the URLs to try, in order.
    /// Turning them into servers is the API client's work; it drops the URLs
    /// that its server type refuses.
    Servers { candidate_urls: Vec<String> },
    /// The Atlas test environment, optionally a scientist's one.
    Atlas { scientist: Option<String> },
}

/// The production API server.
pub open spec fn prod_api_url() -> Seq<char> {
    "https://vpn-api.proton.me/"@
}

/// The API environment for a configured one: production is the production
/// server with its pins, custom servers keep the production pins. Custom
/// server URLs are handed on as candidates; which of them the API client
/// accepts is decided there and is not stated here.
pub fn api_environment(env: &MuonEnv) -> (r: ApiEnvironment)
    ensures
        match *env {
            MuonEnv::Prod => r matches ApiEnvironment::Servers { candidate_urls: urls } && urls@.len() == 1 && urls@[0]@ == prod_api_url(),
            MuonEnv::CustomServers { servers } => r matches ApiEnvironment::Servers { candidate_urls: urls } && urls@.len() == servers@.len()
                && forall|i: int| 0 <= i < urls@.len() ==> (#[trigger] urls@[i])@ == servers@[i]@,
            MuonEnv::Atlas { scientist } => r matches ApiEnvironment::Atlas { scientist: s } && match (scientist, s) {
                (Some(a), Some(b)) => a@ == b@,
                (None, None) => true,
                _ => false,
            },
        },
{
    match env {
        MuonEnv::Prod => {
            let mut urls: Vec<String> = Vec::new();
            urls.push("https://vpn-api.proton.me/".to_string());
            ApiEnvironment::Servers { candidate_urls: urls }
        },
        MuonEnv::CustomServers { servers } => {
            let mut urls: Vec<String> = Vec::new();
            let mut i: usize = 0;
            while i < servers.len()
                invariant
                    0 <= i <= servers.len(),
                    urls@.len() == i,
                    forall|j: int| 0 <= j < i ==> (#[trigger] urls@[j])@ == servers@[j]@,
                decreases servers.len() - i,
            {
                urls.push(servers[i].clone());
                i = i + 1;
            }
            ApiEnvironment::Servers { candidate_urls: urls }
        },
        MuonEnv::Atlas { scientist } => ApiEnvironment::Atlas {
            scientist: match scientist {
                Some(s) => Some(s.clone()),
                None => None,
            },
        },
    }
}

/// The address of a peer, with the family it belongs to.
#[derive(Clone, Copy, PartialEq, Eq, Structural)]
pub struct PeerAddress {
    pub v4: Option<Ipv4Address>,
    pub v6: Option<Ipv6Address>,
}

/// A peer as the VPN client takes it.
pub struct PeerSpec {
    pub addr: PeerAddress,
    pub public_key: [u8; 32],
    pub tag: String,
    pub udp_ports: Vec<u16>,
    pub tcp_ports: Vec<u16>,
    pub tls_ports: Vec<u16>,
    pub priority: i16,
    pub bouncing_labels: Vec<String>,
}

/// The ports that are not zero, in order.
pub open spec fn non_zero(ports: Seq<u16>) -> Seq<u16> {
    ports.filter(|p: u16| p != 0)
}

pub open spec fn peer_address_of(ip: IpAddress) -> PeerAddress {
    match ip {
        IpAddress::V4(a) => PeerAddress { v4: Some(a), v6: None },
        IpAddress::V6(a) => PeerAddress { v4: None, v6: Some(a) },
    }
}

impl PeerInfo {
    /// The ports that are not zero, in order.
    pub fn to_non_zero_vec(ports: &Vec<u16>) -> (r: Vec<u16>)
        ensures
            r@ == non_zero(ports@),
    {
        let mut out: Vec<u16> = Vec::new();
        let mut i: usize = 0;
        assert(ports@.take(0) =~= Seq::<u16>::empty());
        while i < ports.len()
            invariant
                0 <= i <= ports.len(),
                out@ == non_zero(ports@.take(i as int)),
            decreases ports.len() - i,
        {
            proof {
                let t = ports@.take(i + 1);
                assert(t.drop_last() =~= ports@.take(i as int));
                assert(t.last() == ports@[i as int]);
                reveal_with_fuel(Seq::filter, 1);
            }
            if ports[i] != 0 {
                out.push(ports[i]);
            }
            i = i + 1;
        }
        assert(ports@.take(ports.len() as int) =~= ports@);
        out
    }

    /// The peer's server address as the VPN client takes it.
    pub fn addr(&self) -> (r: PeerAddress)
        ensures
            r == peer_address_of(self.server_ip),
    {
        match self.server_ip {
            IpAddress::V4(a) => PeerAddress { v4: Some(a), v6: None },
            IpAddress::V6(a) => PeerAddress { v4: None, v6: Some(a) },
        }
    }

    /// The peer as the VPN client takes it: tagged with its identifier,
    /// zero ports left out, the priority cut to 16 bits, and its exit label,
    /// if any, as the only bouncing label.
    pub fn as_peer(&self) -> (r: PeerSpec)
        ensures
            r.addr == peer_address_of(self.server_ip),
            r.public_key@ == self.server_public_key.0@,
            r.tag@ == self.peer_id@,
            r.udp_ports@ == non_zero(self.udp_ports@),
            r.tcp_ports@ == non_zero(self.tcp_ports@),
            r.tls_ports@ == non_zero(self.tls_ports@),
            r.priority == self.priority as i16,
            match self.exit_label {
                Some(l) => r.bouncing_labels@.len() == 1 && r.bouncing_labels@[0]@ == l@,
                None => r.bouncing_labels@.len() == 0,
            },
    {
        let mut bouncing_labels: Vec<String> = Vec::new();
        match &self.exit_label {
            Some(l) => bouncing_labels.push(l.clone()),
            None => {},
        }
        PeerSpec {
            addr: self.addr(),
            public_key: self.server_public_key.0,
            tag: self.peer_id.clone(),
            udp_ports: PeerInfo::to_non_zero_vec(&self.udp_ports),
            tcp_ports: PeerInfo::to_non_zero_vec(&self.tcp_ports),
            tls_ports: PeerInfo::to_non_zero_vec(&self.tls_ports),
            priority: self.priority as i16,
            bouncing_labels,
        }
    }
}

} // verus!
