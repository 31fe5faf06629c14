use vstd::prelude::*;
use crate::state::InterfaceError;

verus! {

/// Kinds of I/O error that the connection logic tells apart.
#[derive(Clone, Copy, PartialEq, Eq, Structural)]
pub enum IoErrorKind {
    AddrInUse,
    AddrNotAvailable,
    AlreadyExists,
    BrokenPipe,
    ConnectionAborted,
    ConnectionRefused,
    ConnectionReset,
    HostUnreachable,
    Interrupted,
    InvalidData,
    InvalidInput,
    NetworkDown,
    NetworkUnreachable,
    NotConnected,
    NotFound,
    PermissionDenied,
    QuotaExceeded,
    ResourceBusy,
    TimedOut,
    UnexpectedEof,
    WouldBlock,
    WriteZero,
    /// Any other kind.
    Other,
}

/// Socket error as the VPN client library understands it.
#[derive(Clone, Copy, PartialEq, Eq, Structural)]
pub enum SystemError {
    AddressInUse,
    AddrNotAvailable,
    AlreadyExists,
    BrokenPipe,
    ConnectionAborted,
    ConnectionRefused,
    ConnectionReset,
    HostUnreachable,
    Interrupted,
    InvalidData,
    InvalidInput,
    NetworkDown,
    NetworkUnreachable,
    NotConnected,
    NotFound,
    PermissionDenied,
    QuotaExceeded,
    ResourceBusy,
    Timeout,
    UnexpectedEof,
    WouldBlock,
    WriteZero,
    Unknown,
}

pub open spec fn socket_error_of(kind: IoErrorKind) -> SystemError {
    match kind {
        IoErrorKind::AddrInUse => SystemError::AddressInUse,
        IoErrorKind::AddrNotAvailable => SystemError::AddrNotAvailable,
        IoErrorKind::AlreadyExists => SystemError::AlreadyExists,
        IoErrorKind::BrokenPipe => SystemError::BrokenPipe,
        IoErrorKind::ConnectionAborted => SystemError::ConnectionAborted,
        IoErrorKind::ConnectionRefused => SystemError::ConnectionRefused,
        IoErrorKind::ConnectionReset => SystemError::ConnectionReset,
        IoErrorKind::HostUnreachable => SystemError::HostUnreachable,
        IoErrorKind::Interrupted => SystemError::Interrupted,
        IoErrorKind::InvalidData => SystemError::InvalidData,
        IoErrorKind::InvalidInput => SystemError::InvalidInput,
        IoErrorKind::NetworkDown => SystemError::NetworkDown,
        IoErrorKind::NetworkUnreachable => SystemError::NetworkUnreachable,
        IoErrorKind::NotConnected => SystemError::NotConnected,
        IoErrorKind::NotFound => SystemError::NotFound,
        IoErrorKind::PermissionDenied => SystemError::PermissionDenied,
        IoErrorKind::QuotaExceeded => SystemError::QuotaExceeded,
        IoErrorKind::ResourceBusy => SystemError::ResourceBusy,
        IoErrorKind::TimedOut => SystemError::Timeout,
        IoErrorKind::UnexpectedEof => SystemError::UnexpectedEof,
        IoErrorKind::WouldBlock => SystemError::WouldBlock,
        IoErrorKind::WriteZero => SystemError::WriteZero,
        IoErrorKind::Other => SystemError::Unknown,
    }
}

/// The socket error reported to the VPN client for an I/O error kind.
pub fn error_kind_to_socket_err(error_kind: IoErrorKind) -> (r: SystemError)
    ensures
        r == socket_error_of(error_kind),
{
    match error_kind {
        IoErrorKind::AddrInUse => SystemError::AddressInUse,
        IoErrorKind::AddrNotAvailable => SystemError::AddrNotAvailable,
        IoErrorKind::AlreadyExists => SystemError::AlreadyExists,
        IoErrorKind::BrokenPipe => SystemError::BrokenPipe,
        IoErrorKind::ConnectionAborted => SystemError::ConnectionAborted,
        IoErrorKind::ConnectionRefused => SystemError::ConnectionRefused,
        IoErrorKind::ConnectionReset => SystemError::ConnectionReset,
        IoErrorKind::HostUnreachable => SystemError::HostUnreachable,
        IoErrorKind::Interrupted => SystemError::Interrupted,
        IoErrorKind::InvalidData => SystemError::InvalidData,
        IoErrorKind::InvalidInput => SystemError::InvalidInput,
        IoErrorKind::NetworkDown => SystemError::NetworkDown,
        IoErrorKind::NetworkUnreachable => SystemError::NetworkUnreachable,
        IoErrorKind::NotConnected => SystemError::NotConnected,
        IoErrorKind::NotFound => SystemError::NotFound,
        IoErrorKind::PermissionDenied => SystemError::PermissionDenied,
        IoErrorKind::QuotaExceeded => SystemError::QuotaExceeded,
        IoErrorKind::ResourceBusy => SystemError::ResourceBusy,
        IoErrorKind::TimedOut => SystemError::Timeout,
        IoErrorKind::UnexpectedEof => SystemError::UnexpectedEof,
        IoErrorKind::WouldBlock => SystemError::WouldBlock,
        IoErrorKind::WriteZero => SystemError::WriteZero,
        IoErrorKind::Other => SystemError::Unknown,
    }
}

/// Whether more data could be read or written without blocking.
#[derive(Clone, Copy, PartialEq, Eq, Structural)]
pub enum WouldBlock {
    Yes,
    No,
}

/// Whether written data is still waiting in a buffer.
#[derive(Clone, Copy, PartialEq, Eq, Structural)]
pub enum PendingWrite {
    Yes,
    No,
}

/// An I/O error: its kind and its text.
pub struct StreamError {
    pub kind: IoErrorKind,
    pub text: String,
}

/// Outcome of reading from or writing to a stream.
pub enum StreamResult {
    /// `bytes_count` bytes starting at `start_offset` of the buffer.
    Done { bytes_count: usize, start_offset: usize, would_block: WouldBlock, pending_write: PendingWrite },
    Failed(StreamError),
    StreamClosed,
}

impl StreamResult {
    /// A successful outcome whose data starts at the beginning of the buffer.
    pub fn ok(bytes_count: usize, would_block: WouldBlock, pending_write: PendingWrite) -> (r: StreamResult)
        ensures
            r == (StreamResult::Done { bytes_count, start_offset: 0, would_block, pending_write }),
    {
        StreamResult::Done { bytes_count, start_offset: 0, would_block, pending_write }
    }
}

/// Text of the TUN interface error implied by a TUN stream outcome.
pub open spec fn tun_error_text(res: StreamResult) -> Option<Seq<char>> {
    match res {
        StreamResult::Done { .. } => None,
        StreamResult::Failed(e) => Some(e.text@),
        StreamResult::StreamClosed => Some("Stream closed"@),
    }
}

pub open spec fn interface_error_text(e: Option<InterfaceError>) -> Option<Seq<char>> {
    match e {
        Some(InterfaceError::IoError { error }) => Some(error@),
        None => None,
    }
}

/// The TUN interface error implied by a TUN stream outcome: none on success,
/// the error text on failure, "Stream closed" when the stream closed.
pub fn to_tun_error(res: &StreamResult) -> (r: Option<InterfaceError>)
    ensures
        interface_error_text(r) == tun_error_text(*res),
{
    proof {
        reveal_strlit("Stream closed");
    }
    match res {
        StreamResult::Done { .. } => None,
        StreamResult::Failed(e) => Some(InterfaceError::IoError { error: e.text.clone() }),
        StreamResult::StreamClosed => Some(InterfaceError::IoError { error: "Stream closed".to_string() }),
    }
}

} // verus!
