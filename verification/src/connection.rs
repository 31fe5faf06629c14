use vstd::prelude::*;
use crate::keys::{WgClientPrivateKey, WgPeerPublicKey};
use crate::local_agent::LocalAgentSettings;
use crate::net::IpAddress;

verus! {

/// A fork selector and the cookies that go with it.
pub struct ForkSelectorInfo {
    pub selector: String,
    pub cookies: Cookies,
}

/// Cookies handed between the app and the local agent.
pub struct Cookies {
    pub cookies: Vec<Cookie>,
}

/// A cookie name and value.
pub struct Cookie {
    pub name: String,
    pub value: String,
}

/// How to pick TLS server names for stealth connections.
#[derive(Clone, Copy, PartialEq, Eq, Structural)]
pub enum SniStrategy {
    Random,
    Top,
}

/// Configuration a connection starts with.
pub struct InitialConnectionConfig {
    pub peers: Vec<PeerInfo>,
    pub network_available: bool,
    pub pcap_file: Option<PcapFileInfo>,
    pub connection_mode: ConnectionMode,
    pub sni_strategy: SniStrategy,
}

/// Whether and how the local agent takes part in the connection.
pub enum ConnectionMode {
    /// No local agent: the connection is up as soon as WireGuard is.
    NoLocalAgent { wg_private_key: Option<WgClientPrivateKey> },
    LocalAgent {
        user_agent: String,
        app_version: String,
        settings: LocalAgentSettings,
        muon_env: MuonEnv,
    },
}

/// API environment for the local agent session.
pub enum MuonEnv {
    /// Standard production environment.
    Prod,
    /// Atlas test environment.
    Atlas { scientist: Option<String> },
    /// Custom server URLs.
    CustomServers { servers: Vec<String> },
}

/// Network connectivity change reported by the platform.
#[derive(Clone, Copy, PartialEq, Eq, Structural)]
pub enum ConnectivityEvent {
    Up,
    Down,
    /// The device switched networks; VPN sockets are to be reset.
    NetworkSwitch,
}

/// Keys of the persistent cache.
#[derive(Clone, Copy, PartialEq, Eq, Structural)]
pub enum CacheKey {
    Certificate,
    PrivateKey,
    ApiSession,
}

/// Persistent cache for secrets, implemented by the app.
pub trait PersistentCache {
    fn put(&self, key: CacheKey, bytes: Vec<u8>);

    fn get(&self, key: CacheKey) -> Option<Vec<u8>>;

    fn clear(&self);
}

/// Platform callback told when a server socket's descriptor is available.
pub trait OnSocketFdAvailableCallback {
    fn on_socket_fd_available(&self, socket_fd: i32);
}

/// A candidate peer.
pub struct PeerInfo {
    /// Identifier chosen by the client; reported in connection states.
    pub peer_id: String,
    pub server_ip: IpAddress,
    pub server_public_key: WgPeerPublicKey,
    pub udp_ports: Vec<u16>,
    pub tcp_ports: Vec<u16>,
    pub tls_ports: Vec<u16>,
    pub priority: i32,
    pub exit_label: Option<String>,
}

/// A packet capture destination and its size limit.
pub struct PcapFileInfo {
    pub file: PcapFile,
    /// Size limit in bytes; writing stops when it is reached.
    pub max_bytes: Option<u64>,
}

impl Clone for PcapFileInfo {
    fn clone(&self) -> (r: PcapFileInfo)
        ensures
            r == *self,
    {
        PcapFileInfo { file: self.file.clone(), max_bytes: self.max_bytes }
    }
}

/// Where packets are captured to.
pub enum PcapFile {
    Path { path: String, mode: FileWriteMode },
    Fd(i32),
}

impl Clone for PcapFile {
    fn clone(&self) -> (r: PcapFile)
        ensures
            r == *self,
    {
        match self {
            PcapFile::Path { path, mode } => PcapFile::Path { path: path.clone(), mode: *mode },
            PcapFile::Fd(fd) => PcapFile::Fd(*fd),
        }
    }
}

/// Whether an existing capture file is extended or replaced.
#[derive(Clone, Copy, PartialEq, Eq, Structural)]
pub enum FileWriteMode {
    Append,
    Overwrite,
}

/// The TUN device to use.
#[derive(Clone, Copy, PartialEq, Eq, Structural)]
pub enum TunStreamInfo {
    NoTun,
    TunFd(i32),
}

/// An atomic update of peers, local agent settings and TUN; `None` skips a part.
pub struct ConfigUpdate {
    pub peers: Option<Vec<PeerInfo>>,
    pub settings: Option<LocalAgentSettings>,
    pub tun: Option<TunStreamInfo>,
}

impl ConfigUpdate {
    /// The update changes nothing.
    pub fn is_empty(&self) -> (r: bool)
        ensures
            r == (self.peers is None && self.settings is None && self.tun is None),
    {
        if self.peers.is_some() {
            return false;
        }
        if self.settings.is_some() {
            return false;
        }
        if self.tun.is_some() {
            return false;
        }
        true
    }
}

} // verus!
