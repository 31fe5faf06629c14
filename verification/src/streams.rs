use vstd::prelude::*;
use vstd::string::StringExecFns;
use crate::state::{InterfaceError, InterfaceState};
use crate::stream_io::{IoErrorKind, PendingWrite, StreamError, StreamResult, WouldBlock};
use crate::text::{decimal_chars, decimal_string};

verus! {

/// Length of the address family header that Apple TUN devices put before
/// each packet.
pub const APPLE_TUN_PACKET_HEADER_LEN: usize = 4;

/// What one read or write system call gave: a byte count or an error.
pub enum IoOutcome {
    Transferred(usize),
    Failed(StreamError),
}

/// The error only says that the call would have blocked.
pub open spec fn is_would_block(e: StreamError) -> bool {
    e.kind == IoErrorKind::WouldBlock
}

fn would_block(e: &StreamError) -> (r: bool)
    ensures
        r == is_would_block(*e),
{
    e.kind == IoErrorKind::WouldBlock
}

fn error_with(kind: IoErrorKind, text: &str) -> (r: StreamError)
    ensures
        r.kind == kind,
        r.text@ == text@,
{
    StreamError { kind, text: text.to_string() }
}

/// Outcome of a read from a datagram socket: what arrived, or nothing yet.
pub open spec fn udp_result_spec(o: IoOutcome) -> StreamResult {
    match o {
        IoOutcome::Transferred(n) => StreamResult::Done {
            bytes_count: n,
            start_offset: 0,
            would_block: WouldBlock::No,
            pending_write: PendingWrite::No,
        },
        IoOutcome::Failed(e) => if is_would_block(e) {
            StreamResult::Done {
                bytes_count: 0,
                start_offset: 0,
                would_block: WouldBlock::Yes,
                pending_write: PendingWrite::No,
            }
        } else {
            StreamResult::Failed(e)
        },
    }
}

/// Outcome of a datagram socket read or send: the byte count, nothing when
/// the call would block, or the error.
pub fn udp_result(outcome: IoOutcome) -> (r: StreamResult)
    ensures
        r == udp_result_spec(outcome),
{
    match outcome {
        IoOutcome::Transferred(n) => StreamResult::ok(n, WouldBlock::No, PendingWrite::No),
        IoOutcome::Failed(e) => if would_block(&e) {
            StreamResult::ok(0, WouldBlock::Yes, PendingWrite::No)
        } else {
            StreamResult::Failed(e)
        },
    }
}

/// Outcome of a TCP read: zero bytes means the peer closed the stream.
pub open spec fn tcp_read_spec(o: IoOutcome, pending: PendingWrite) -> StreamResult {
    match o {
        IoOutcome::Transferred(n) => if n == 0 {
            StreamResult::StreamClosed
        } else {
            StreamResult::Done {
                bytes_count: n,
                start_offset: 0,
                would_block: WouldBlock::No,
                pending_write: pending,
            }
        },
        IoOutcome::Failed(e) => if is_would_block(e) {
            StreamResult::Done {
                bytes_count: 0,
                start_offset: 0,
                would_block: WouldBlock::Yes,
                pending_write: pending,
            }
        } else {
            StreamResult::Failed(e)
        },
    }
}

/// Outcome of a TCP read; `pending` tells whether written data still waits.
pub fn tcp_read_result(outcome: IoOutcome, pending: PendingWrite) -> (r: StreamResult)
    ensures
        r == tcp_read_spec(outcome, pending),
{
    match outcome {
        IoOutcome::Transferred(n) => if n == 0 {
            StreamResult::StreamClosed
        } else {
            StreamResult::ok(n, WouldBlock::No, pending)
        },
        IoOutcome::Failed(e) => if would_block(&e) {
            StreamResult::ok(0, WouldBlock::Yes, pending)
        } else {
            StreamResult::Failed(e)
        },
    }
}

pub open spec fn unix_tun_read_spec(o: IoOutcome) -> (StreamResult, bool) {
    match o {
        IoOutcome::Transferred(n) => if n == 0 {
            (
                StreamResult::Failed(
                    StreamError { kind: IoErrorKind::UnexpectedEof, text: arbitrary() },
                ),
                true,
            )
        } else {
            (udp_result_spec(o), false)
        },
        IoOutcome::Failed(_) => (udp_result_spec(o), false),
    }
}

/// Outcome of a read from a TUN device: the packet, nothing when the read
/// would block, the error, or an "unexpected EOF" error when nothing was read.
pub fn unix_tun_read_result(outcome: IoOutcome) -> (r: StreamResult)
    ensures
        match outcome {
            IoOutcome::Transferred(0) => r matches StreamResult::Failed(e) && e.kind
                == IoErrorKind::UnexpectedEof && e.text@ == "tun read: unexpected EOF"@,
            _ => r == udp_result_spec(outcome),
        },
{
    match outcome {
        IoOutcome::Transferred(n) => if n == 0 {
            StreamResult::Failed(error_with(IoErrorKind::UnexpectedEof, "tun read: unexpected EOF"))
        } else {
            StreamResult::ok(n, WouldBlock::No, PendingWrite::No)
        },
        IoOutcome::Failed(e) => if would_block(&e) {
            StreamResult::ok(0, WouldBlock::Yes, PendingWrite::No)
        } else {
            StreamResult::Failed(e)
        },
    }
}

/// Text of a too short Apple TUN packet.
pub open spec fn short_packet_text(n: nat) -> Seq<char> {
    "Invalid packet: expected at least 4 bytes, got "@ + decimal_chars(n)
}

/// Outcome of a read from an Apple TUN device: the packet after its
/// four byte header, or an error when the read is shorter than the header.
pub fn apple_tun_read_result(outcome: IoOutcome) -> (r: StreamResult)
    ensures
        match outcome {
            IoOutcome::Transferred(n) => if n >= APPLE_TUN_PACKET_HEADER_LEN {
                r == (StreamResult::Done {
                    bytes_count: (n - APPLE_TUN_PACKET_HEADER_LEN) as usize,
                    start_offset: APPLE_TUN_PACKET_HEADER_LEN,
                    would_block: WouldBlock::No,
                    pending_write: PendingWrite::No,
                })
            } else {
                r matches StreamResult::Failed(e) && e.kind == IoErrorKind::InvalidData && e.text@
                    == short_packet_text(n as nat)
            },
            IoOutcome::Failed(_) => r == udp_result_spec(outcome),
        },
{
    match outcome {
        IoOutcome::Transferred(n) => if n >= APPLE_TUN_PACKET_HEADER_LEN {
            StreamResult::Done {
                bytes_count: n - APPLE_TUN_PACKET_HEADER_LEN,
                start_offset: APPLE_TUN_PACKET_HEADER_LEN,
                would_block: WouldBlock::No,
                pending_write: PendingWrite::No,
            }
        } else {
            let mut text = "Invalid packet: expected at least 4 bytes, got ".to_string();
            let count = decimal_string(n as u64);
            text.append(count.as_str());
            StreamResult::Failed(StreamError { kind: IoErrorKind::InvalidData, text })
        },
        IoOutcome::Failed(e) => if would_block(&e) {
            StreamResult::ok(0, WouldBlock::Yes, PendingWrite::No)
        } else {
            StreamResult::Failed(e)
        },
    }
}

/// Socket address family numbers of the system.
#[derive(Clone, Copy, PartialEq, Eq, Structural)]
pub struct AddressFamilies {
    pub inet: u8,
    pub inet6: u8,
}

/// The address family numbers of the system `libc` is built for
/// (`AF_INET` and `AF_INET6`, as bytes). Their values differ between systems,
/// so the contract states only that the two differ, as they do on every
/// system `libc` supports.
#[verifier::external_body]
pub(crate) fn system_address_families() -> (r: AddressFamilies)
    ensures
        r.inet != r.inet6,
{
    AddressFamilies { inet: libc::AF_INET as u8, inet6: libc::AF_INET6 as u8 }
}

/// Text of a packet whose IP version is neither 4 nor 6.
pub open spec fn invalid_version_text(v: nat) -> Seq<char> {
    "Invalid IP version: "@ + decimal_chars(v)
}

/// The IP version of a packet: the high nibble of its first byte.
pub open spec fn ip_version(first_byte: u8) -> nat {
    (first_byte / 16) as nat
}

/// The address family for a packet whose first byte is given: IPv4 and IPv6
/// packets are told apart by the IP version.
pub fn address_family_for(byte: u8, families: AddressFamilies) -> (r: Result<u8, StreamError>)
    ensures
        ip_version(byte) == 4 ==> r == Ok::<u8, StreamError>(families.inet),
        ip_version(byte) == 6 ==> r == Ok::<u8, StreamError>(families.inet6),
        ip_version(byte) != 4 && ip_version(byte) != 6 ==> (r matches Err(e) && e.kind
            == IoErrorKind::InvalidData && e.text@ == invalid_version_text(ip_version(byte))),
{
    let ip_version = byte / 16;
    if ip_version == 4 {
        Ok(families.inet)
    } else if ip_version == 6 {
        Ok(families.inet6)
    } else {
        let mut text = "Invalid IP version: ".to_string();
        let v = decimal_string(ip_version as u64);
        text.append(v.as_str());
        Err(StreamError { kind: IoErrorKind::InvalidData, text })
    }
}

/// The address family of this system for a packet whose first byte is given.
pub fn address_family(byte: u8) -> (r: Result<u8, StreamError>)
    ensures
        r is Ok <==> (ip_version(byte) == 4 || ip_version(byte) == 6),
        r matches Err(e) ==> e.kind == IoErrorKind::InvalidData && e.text@ == invalid_version_text(
            ip_version(byte),
        ),
{
    address_family_for(byte, system_address_families())
}

/// A packet framed for an Apple TUN device: three zero bytes and the address
/// family, then the packet.
pub open spec fn apple_frame(family: u8, packet: Seq<u8>) -> Seq<u8> {
    seq![0u8, 0u8, 0u8, family] + packet
}

/// Frames a packet for an Apple TUN device; an empty packet or one of an
/// unknown IP version is refused.
pub fn frame_apple_packet(packet: &Vec<u8>, families: AddressFamilies) -> (r: Result<Vec<u8>, StreamError>)
    ensures
        packet@.len() == 0 ==> (r matches Err(e) && e.kind == IoErrorKind::InvalidData && e.text@
            == "Empty packet"@),
        packet@.len() > 0 ==> match address_family_for_spec(packet@[0], families) {
            Some(af) => r matches Ok(v) && v@ == apple_frame(af, packet@),
            None => r matches Err(e) && e.kind == IoErrorKind::InvalidData && e.text@
                == invalid_version_text(ip_version(packet@[0])),
        },
{
    if packet.len() == 0 {
        return Err(error_with(IoErrorKind::InvalidData, "Empty packet"));
    }
    let af = match address_family_for(packet[0], families) {
        Ok(af) => af,
        Err(e) => return Err(e),
    };
    let mut out: Vec<u8> = Vec::new();
    out.push(0);
    out.push(0);
    out.push(0);
    out.push(af);
    let mut i: usize = 0;
    while i < packet.len()
        invariant
            0 <= i <= packet.len(),
            out@ == seq![0u8, 0u8, 0u8, af] + packet@.take(i as int),
        decreases packet.len() - i,
    {
        out.push(packet[i]);
        i = i + 1;
        assert(out@ =~= seq![0u8, 0u8, 0u8, af] + packet@.take(i as int));
    }
    assert(packet@.take(packet.len() as int) =~= packet@);
    Ok(out)
}

pub open spec fn address_family_for_spec(byte: u8, families: AddressFamilies) -> Option<u8> {
    if ip_version(byte) == 4 {
        Some(families.inet)
    } else if ip_version(byte) == 6 {
        Some(families.inet6)
    } else {
        None
    }
}

/// Progress of writing one packet to a TUN device in several calls.
pub struct TunWrite {
    /// Bytes to write in all: the packet, with the header on Apple devices.
    pub total: usize,
    /// Bytes written so far.
    pub written: usize,
    /// Length of the header before the packet (zero without header).
    pub header: usize,
}

/// What the write loop does next.
pub enum WriteStep {
    /// Write the bytes from this offset on.
    Continue(usize),
    /// The write is over, with this outcome.
    Finished(StreamResult),
}

impl TunWrite {
    /// Starts writing `total` bytes whose first `header` bytes are a header.
    pub fn new(total: usize, header: usize) -> (r: TunWrite)
        requires
            header <= total,
        ensures
            r == (TunWrite { total, written: 0, header }),
    {
        TunWrite { total, written: 0, header }
    }

    /// Where the loop goes on: from the first unwritten byte, or finished
    /// with the packet length (the header not counted) once all is written.
    pub fn next(&self) -> (r: WriteStep)
        requires
            self.written <= self.total,
            self.header <= self.total,
        ensures
            self.written < self.total ==> r == WriteStep::Continue(self.written),
            self.written >= self.total ==> r == WriteStep::Finished(
                StreamResult::Done {
                    bytes_count: (self.total - self.header) as usize,
                    start_offset: 0,
                    would_block: WouldBlock::No,
                    pending_write: PendingWrite::No,
                },
            ),
    {
        if self.written < self.total {
            WriteStep::Continue(self.written)
        } else {
            WriteStep::Finished(StreamResult::ok(self.total - self.header, WouldBlock::No, PendingWrite::No))
        }
    }

    /// Takes in one write call of an Apple TUN device: a zero count is an
    /// error, a would-block stops with the packet bytes written so far (an
    /// error while the header is not fully written), other errors stop.
    pub fn apple_step(&mut self, outcome: IoOutcome) -> (r: Option<StreamResult>)
        requires
            old(self).written < old(self).total,
            old(self).header <= old(self).total,
            outcome matches IoOutcome::Transferred(n) ==> old(self).written + n <= old(self).total,
        ensures
            final(self).total == old(self).total,
            final(self).header == old(self).header,
            final(self).written <= final(self).total,
            match outcome {
                IoOutcome::Transferred(n) => if n == 0 {
                    r matches Some(StreamResult::Failed(e)) && e.kind == IoErrorKind::WriteZero
                        && e.text@ == "Failed to write packet to TUN device"@
                } else {
                    r is None && final(self).written == old(self).written + n
                },
                IoOutcome::Failed(e) => if is_would_block(e) {
                    if old(self).written >= old(self).header {
                        r == Some(
                            StreamResult::Done {
                                bytes_count: (old(self).written - old(self).header) as usize,
                                start_offset: 0,
                                would_block: WouldBlock::Yes,
                                pending_write: PendingWrite::No,
                            },
                        )
                    } else {
                        r matches Some(StreamResult::Failed(f)) && f.kind == IoErrorKind::Other
                            && f.text@ == partial_header_text(old(self).written as nat)
                    }
                } else {
                    r == Some(StreamResult::Failed(e))
                },
            },
    {
        match outcome {
            IoOutcome::Transferred(n) => {
                if n == 0 {
                    Some(
                        StreamResult::Failed(
                            error_with(IoErrorKind::WriteZero, "Failed to write packet to TUN device"),
                        ),
                    )
                } else {
                    self.written = self.written + n;
                    None
                }
            },
            IoOutcome::Failed(e) => {
                if would_block(&e) {
                    if self.written >= self.header {
                        Some(StreamResult::ok(self.written - self.header, WouldBlock::Yes, PendingWrite::No))
                    } else {
                        let mut text = "Partial header write (".to_string();
                        let count = decimal_string(self.written as u64);
                        text.append(count.as_str());
                        text.append(" bytes) before would-block");
                        Some(StreamResult::Failed(StreamError { kind: IoErrorKind::Other, text }))
                    }
                } else {
                    Some(StreamResult::Failed(e))
                }
            },
        }
    }

    /// Takes in one write call of a TUN device without header: a
    /// would-block stops with the bytes written so far, other errors stop.
    pub fn unix_step(&mut self, outcome: IoOutcome) -> (r: Option<StreamResult>)
        requires
            old(self).written < old(self).total,
            old(self).header == 0,
            outcome matches IoOutcome::Transferred(n) ==> old(self).written + n <= old(self).total,
        ensures
            final(self).total == old(self).total,
            final(self).header == old(self).header,
            final(self).written <= final(self).total,
            match outcome {
                IoOutcome::Transferred(n) => r is None && final(self).written == old(self).written + n,
                IoOutcome::Failed(e) => if is_would_block(e) {
                    r == Some(
                        StreamResult::Done {
                            bytes_count: old(self).written,
                            start_offset: 0,
                            would_block: WouldBlock::Yes,
                            pending_write: PendingWrite::No,
                        },
                    )
                } else {
                    r == Some(StreamResult::Failed(e))
                },
            },
    {
        match outcome {
            IoOutcome::Transferred(n) => {
                self.written = self.written + n;
                None
            },
            IoOutcome::Failed(e) => if would_block(&e) {
                Some(StreamResult::ok(self.written, WouldBlock::Yes, PendingWrite::No))
            } else {
                Some(StreamResult::Failed(e))
            },
        }
    }
}

/// Text of a would-block before the Apple TUN header was fully written.
pub open spec fn partial_header_text(n: nat) -> Seq<char> {
    "Partial header write ("@ + decimal_chars(n) + " bytes) before would-block"@
}

/// The bytes of a sequence of chunks, one after the other.
pub open spec fn flatten(chunks: Seq<Seq<u8>>) -> Seq<u8>
    decreases chunks.len(),
{
    if chunks.len() == 0 {
        Seq::empty()
    } else {
        flatten(chunks.drop_last()) + chunks.last()
    }
}

/// Data written to a TCP socket that the socket has not taken yet, in
/// chunks, and the byte count of the write in progress.
pub struct TcpWriteQueue {
    chunks: Vec<Vec<u8>>,
    flushed: usize,
}

/// The mathematical content of a [TcpWriteQueue].
pub struct TcpWriteQueueView {
    pub chunks: Seq<Seq<u8>>,
    pub flushed: nat,
}

impl View for TcpWriteQueue {
    type V = TcpWriteQueueView;

    closed spec fn view(&self) -> TcpWriteQueueView {
        TcpWriteQueueView {
            chunks: Seq::new(self.chunks@.len(), |i: int| self.chunks@[i]@),
            flushed: self.flushed as nat,
        }
    }
}

proof fn lemma_flatten_push(chunks: Seq<Seq<u8>>, c: Seq<u8>)
    ensures
        flatten(chunks.push(c)) == flatten(chunks) + c,
{
    assert(chunks.push(c).drop_last() =~= chunks);
}

proof fn lemma_flatten_front(chunks: Seq<Seq<u8>>)
    requires
        chunks.len() > 0,
    ensures
        flatten(chunks) == chunks[0] + flatten(chunks.drop_first()),
    decreases chunks.len(),
{
    if chunks.len() == 1 {
        assert(chunks.drop_first() =~= Seq::<Seq<u8>>::empty());
        assert(chunks.drop_last() =~= Seq::<Seq<u8>>::empty());
        assert(flatten(Seq::<Seq<u8>>::empty()) == Seq::<u8>::empty());
        assert(chunks.last() == chunks[0]);
        assert(flatten(chunks) =~= chunks[0]);
    } else {
        lemma_flatten_front(chunks.drop_last());
        assert(chunks.drop_last().drop_first() =~= chunks.drop_first().drop_last());
        assert(chunks.drop_first().last() == chunks.last());
        assert(flatten(chunks) =~= chunks[0] + flatten(chunks.drop_first()));
    }
}

impl TcpWriteQueue {
    /// Nothing waits.
    pub fn new() -> (r: TcpWriteQueue)
        ensures
            r@.chunks == Seq::<Seq<u8>>::empty(),
            r@.flushed == 0,
    {
        let r = TcpWriteQueue { chunks: Vec::new(), flushed: 0 };
        assert(r@.chunks =~= Seq::<Seq<u8>>::empty());
        r
    }

    /// Whether data still waits.
    pub fn pending_write(&self) -> (r: PendingWrite)
        ensures
            (r == PendingWrite::Yes) == (self@.chunks.len() > 0),
    {
        if self.chunks.len() == 0 {
            PendingWrite::No
        } else {
            PendingWrite::Yes
        }
    }

    /// Queues data behind what waits already.
    pub fn push(&mut self, data: Vec<u8>)
        ensures
            final(self)@.chunks == old(self)@.chunks.push(data@),
            flatten(final(self)@.chunks) == flatten(old(self)@.chunks) + data@,
            final(self)@.flushed == old(self)@.flushed,
    {
        let ghost d = data@;
        self.chunks.push(data);
        proof {
            assert(self@.chunks =~= old(self)@.chunks.push(d));
            lemma_flatten_push(old(self)@.chunks, d);
        }
    }

    /// The bytes written by the flush in progress.
    pub fn flushed(&self) -> (r: usize)
        ensures
            r == self@.flushed,
    {
        self.flushed
    }

    /// Starts writing out what waits.
    pub fn begin_flush(&mut self)
        ensures
            final(self)@.chunks == old(self)@.chunks,
            final(self)@.flushed == 0,
    {
        self.flushed = 0;
        proof {
            assert(self@.chunks =~= old(self)@.chunks);
        }
    }

    /// The chunk to write next.
    pub fn front(&self) -> (r: Option<&Vec<u8>>)
        ensures
            self@.chunks.len() == 0 ==> r is None,
            self@.chunks.len() > 0 ==> (r matches Some(c) && c@ == self@.chunks[0]),
    {
        if self.chunks.len() == 0 {
            None
        } else {
            Some(&self.chunks[0])
        }
    }

    /// Ends a flush that emptied the queue: the bytes written, no more pending.
    pub fn finish_flush(&self) -> (r: StreamResult)
        ensures
            r == (StreamResult::Done {
                bytes_count: self@.flushed as usize,
                start_offset: 0,
                would_block: WouldBlock::No,
                pending_write: PendingWrite::No,
            }),
    {
        StreamResult::ok(self.flushed, WouldBlock::No, PendingWrite::No)
    }

    /// Takes in one write of the front chunk. Written bytes leave the queue,
    /// in order; an error leaves it as it was and ends the flush: a would-block
    /// with the bytes written so far and data pending, another error as is.
    pub fn on_write(&mut self, outcome: IoOutcome) -> (r: Option<StreamResult>)
        requires
            old(self)@.chunks.len() > 0,
            outcome matches IoOutcome::Transferred(n) ==> n <= old(self)@.chunks[0].len()
                && old(self)@.flushed + n <= usize::MAX,
        ensures
            match outcome {
                IoOutcome::Transferred(n) => {
                    &&& r is None
                    &&& flatten(final(self)@.chunks) == flatten(old(self)@.chunks).skip(n as int)
                    &&& final(self)@.flushed == old(self)@.flushed + n
                },
                IoOutcome::Failed(e) => {
                    &&& final(self)@ == old(self)@
                    &&& r == Some(
                        if is_would_block(e) {
                            StreamResult::Done {
                                bytes_count: old(self)@.flushed as usize,
                                start_offset: 0,
                                would_block: WouldBlock::Yes,
                                pending_write: PendingWrite::Yes,
                            }
                        } else {
                            StreamResult::Failed(e)
                        },
                    )
                },
            },
    {
        match outcome {
            IoOutcome::Transferred(n) => {
                let ghost before = self@.chunks;
                proof {
                    lemma_flatten_front(before);
                }
                let front = self.chunks.remove(0);
                proof {
                    assert(self@.chunks =~= before.drop_first());
                }
                if n < front.len() {
                    let mut rest: Vec<u8> = Vec::new();
                    let mut i: usize = n;
                    while i < front.len()
                        invariant
                            n <= i <= front.len(),
                            rest@ == front@.subrange(n as int, i as int),
                        decreases front.len() - i,
                    {
                        rest.push(front[i]);
                        i = i + 1;
                        assert(rest@ =~= front@.subrange(n as int, i as int));
                    }
                    let ghost after_pop = self@.chunks;
                    self.chunks.insert(0, rest);
                    proof {
                        let now = self@.chunks;
                        assert(now =~= seq![front@.subrange(n as int, front@.len() as int)] + after_pop);
                        assert(now.len() > 0);
                        lemma_flatten_front(now);
                        assert(now.drop_first() =~= after_pop);
                        assert(now[0] == front@.subrange(n as int, front@.len() as int));
                        assert(flatten(now) =~= flatten(before).skip(n as int));
                    }
                } else {
                    proof {
                        assert(flatten(self@.chunks) =~= flatten(before).skip(n as int));
                    }
                }
                self.flushed = self.flushed + n;
                None
            },
            IoOutcome::Failed(e) => {
                if would_block(&e) {
                    Some(StreamResult::ok(self.flushed, WouldBlock::Yes, PendingWrite::Yes))
                } else {
                    Some(StreamResult::Failed(e))
                }
            },
        }
    }
}

/// A stream registered for polling.
#[derive(Clone, Copy, PartialEq, Eq, Structural)]
pub struct StreamEntry {
    pub stream_id: u64,
    pub token: usize,
    /// Polled for writability as well as readability.
    pub writable_interest: bool,
    /// Log once when the stream first turns writable (connected).
    pub log_when_connected: bool,
}

/// The streams being polled, by identifier and poll token. Token 0 belongs
/// to the waker; stream tokens count up from 1 and are never reused.
pub struct StreamTable {
    entries: Vec<StreamEntry>,
    next_token: usize,
    tun_id: u64,
}

/// The mathematical content of a [StreamTable].
pub struct StreamTableView {
    pub entries: Seq<StreamEntry>,
    pub next_token: nat,
    pub tun_id: u64,
}

impl View for StreamTable {
    type V = StreamTableView;

    closed spec fn view(&self) -> StreamTableView {
        StreamTableView { entries: self.entries@, next_token: self.next_token as nat, tun_id: self.tun_id }
    }
}

/// A poll event of a stream.
#[derive(Clone, Copy, PartialEq, Eq, Structural)]
pub struct PollResult {
    pub stream_id: u64,
    pub is_readable: bool,
    pub is_writable: bool,
    pub is_error: bool,
}

/// Keeps the entries of other identifiers.
pub open spec fn keep_fn(id: u64) -> spec_fn(StreamEntry) -> bool {
    |e: StreamEntry| e.stream_id != id
}

/// The token of the poll waker.
pub const POLL_WAKER_TOKEN: usize = 0;

impl StreamTableView {
    /// Tokens are distinct, non-zero and below the next one.
    pub open spec fn wf(self) -> bool {
        &&& 1 <= self.next_token <= usize::MAX
        &&& forall|i: int|
            0 <= i < self.entries.len() ==> 1 <= (#[trigger] self.entries[i]).token < self.next_token
        &&& forall|i: int, j: int|
            0 <= i < self.entries.len() && 0 <= j < self.entries.len() && i != j
                ==> self.entries[i].token != self.entries[j].token
    }

    /// Index of the first entry with the identifier, if any.
    pub open spec fn has_id(self, id: u64) -> bool {
        exists|i: int| 0 <= i < self.entries.len() && (#[trigger] self.entries[i]).stream_id == id
    }

    pub open spec fn first_with_id(self, id: u64, i: int) -> bool {
        &&& 0 <= i < self.entries.len()
        &&& self.entries[i].stream_id == id
        &&& forall|j: int| 0 <= j < i ==> (#[trigger] self.entries[j]).stream_id != id
    }

    /// The entries without those of the identifier, in order.
    pub open spec fn without(self, id: u64) -> Seq<StreamEntry> {
        self.entries.filter(keep_fn(id))
    }
}

impl StreamTable {
    /// An empty table for a connection whose TUN stream has identifier `tun_id`.
    pub fn new(tun_id: u64) -> (r: StreamTable)
        ensures
            r@.entries == Seq::<StreamEntry>::empty(),
            r@.next_token == 1,
            r@.tun_id == tun_id,
            r@.wf(),
    {
        StreamTable { entries: Vec::new(), next_token: POLL_WAKER_TOKEN + 1, tun_id }
    }

    /// Whether another stream can be registered (tokens are not exhausted).
    pub fn can_register(&self) -> (r: bool)
        ensures
            r == (self@.next_token < usize::MAX),
    {
        self.next_token < usize::MAX
    }

    /// Registers a stream under a fresh token, which it returns.
    pub fn register(&mut self, stream_id: u64, writable_interest: bool, log_when_connected: bool) -> (r: usize)
        requires
            old(self)@.wf(),
            old(self)@.next_token < usize::MAX,
        ensures
            r == old(self)@.next_token,
            final(self)@.entries == old(self)@.entries.push(
                StreamEntry { stream_id, token: r, writable_interest, log_when_connected },
            ),
            final(self)@.next_token == old(self)@.next_token + 1,
            final(self)@.tun_id == old(self)@.tun_id,
            final(self)@.wf(),
    {
        let token = self.next_token;
        self.next_token = self.next_token + 1;
        let ghost before = self.entries@;
        self.entries.push(StreamEntry { stream_id, token, writable_interest, log_when_connected });
        proof {
            assert forall|i: int| 0 <= i < before.len() implies self.entries@[i] == before[i] by {}
            assert forall|k: int| 0 <= k < before.len() implies (#[trigger] self.entries@[k]).token < token by {
                assert(old(self)@.entries[k] == self.entries@[k]);
            }
            assert(self.entries@[before.len() as int].token == token);
            assert forall|k: int| 0 <= k < self@.entries.len() implies 1 <= (#[trigger] self@.entries[k]).token
                < self@.next_token by {
                if k < before.len() {
                    assert(old(self)@.entries[k] == self.entries@[k]);
                }
            }
            assert forall|i: int, j: int|
                0 <= i < self.entries@.len() && 0 <= j < self.entries@.len() && i != j implies self.entries@[i].token
                != self.entries@[j].token by {
                if i < before.len() && j < before.len() {
                    assert(old(self)@.entries[i] == self.entries@[i]);
                    assert(old(self)@.entries[j] == self.entries@[j]);
                }
            }
            assert(self@.wf());
        }
        token
    }

    /// Index of the first entry with the identifier.
    pub fn find(&self, stream_id: u64) -> (r: Option<usize>)
        ensures
            match r {
                Some(i) => self@.first_with_id(stream_id, i as int),
                None => !self@.has_id(stream_id),
            },
    {
        let mut i: usize = 0;
        while i < self.entries.len()
            invariant
                0 <= i <= self.entries.len(),
                forall|j: int| 0 <= j < i ==> (#[trigger] self.entries@[j]).stream_id != stream_id,
            decreases self.entries.len() - i,
        {
            if self.entries[i].stream_id == stream_id {
                return Some(i);
            }
            i = i + 1;
        }
        None
    }

    /// The entry at an index.
    pub fn entry(&self, i: usize) -> (r: StreamEntry)
        requires
            i < self@.entries.len(),
        ensures
            r == self@.entries[i as int],
    {
        self.entries[i]
    }

    /// Closes a stream: every entry of the identifier leaves the table; the
    /// token of the first one is returned so its source can be deregistered.
    pub fn close(&mut self, stream_id: u64) -> (r: Option<usize>)
        requires
            old(self)@.wf(),
        ensures
            match r {
                Some(t) => exists|i: int| old(self)@.first_with_id(stream_id, i) && old(self)@.entries[i].token == t,
                None => !old(self)@.has_id(stream_id),
            },
            final(self)@.entries == old(self)@.without(stream_id),
            final(self)@.next_token == old(self)@.next_token,
            final(self)@.tun_id == old(self)@.tun_id,
            final(self)@.wf(),
            !final(self)@.has_id(stream_id),
    {
        let first = match self.find(stream_id) {
            Some(i) => Some(self.entries[i].token),
            None => None,
        };
        let ghost old_entries = self.entries@;
        let mut kept: Vec<StreamEntry> = Vec::new();
        let mut i: usize = 0;
        assert(old_entries.take(0) =~= Seq::<StreamEntry>::empty());
        while i < self.entries.len()
            invariant
                old_entries == self.entries@,
                old(self)@.entries == old_entries,
                old(self)@.wf(),
                0 <= i <= old_entries.len(),
                kept@ == old_entries.take(i as int).filter(keep_fn(stream_id)),
                forall|k: int| 0 <= k < kept@.len() ==> (#[trigger] kept@[k]).stream_id != stream_id,
                forall|k: int|
                    0 <= k < kept@.len() ==> exists|j: int|
                        0 <= j < i && old_entries[j] == #[trigger] kept@[k],
                forall|a: int, b: int|
                    0 <= a < kept@.len() && 0 <= b < kept@.len() && a != b ==> kept@[a].token
                        != kept@[b].token,
            decreases old_entries.len() - i,
        {
            let e = self.entries[i];
            proof {
                let t = old_entries.take(i + 1);
                assert(t.drop_last() =~= old_entries.take(i as int));
                assert(t.last() == e);
                assert(keep_fn(stream_id)(e) == (e.stream_id != stream_id));
                reveal_with_fuel(Seq::filter, 1);
            }
            if e.stream_id != stream_id {
                let ghost before = kept@;
                kept.push(e);
                proof {
                    assert forall|k: int| 0 <= k < kept@.len() implies exists|j: int|
                        0 <= j < i + 1 && old_entries[j] == #[trigger] kept@[k] by {
                        if k < before.len() {
                            assert(kept@[k] == before[k]);
                        } else {
                            assert(old_entries[i as int] == kept@[k]);
                        }
                    }
                    assert forall|a: int, b: int|
                        0 <= a < kept@.len() && 0 <= b < kept@.len() && a != b implies kept@[a].token
                        != kept@[b].token by {
                        if a < before.len() && b < before.len() {
                            assert(kept@[a] == before[a]);
                            assert(kept@[b] == before[b]);
                        } else if a < before.len() {
                            assert(kept@[a] == before[a]);
                            let j = choose|j: int| 0 <= j < i && old_entries[j] == before[a];
                            assert(old_entries[j].token != old_entries[i as int].token);
                        } else if b < before.len() {
                            assert(kept@[b] == before[b]);
                            let j = choose|j: int| 0 <= j < i && old_entries[j] == before[b];
                            assert(old_entries[j].token != old_entries[i as int].token);
                        }
                    }
                }
            }
            i = i + 1;
        }
        assert(old_entries.take(old_entries.len() as int) =~= old_entries);
        self.entries = kept;
        proof {
            assert forall|k: int| 0 <= k < self.entries@.len() implies 1 <= (#[trigger] self.entries@[k]).token
                < self@.next_token by {
                let j = choose|j: int| 0 <= j < old_entries.len() && old_entries[j] == self.entries@[k];
                assert(old(self)@.entries[j] == old_entries[j]);
            }
        }
        first
    }

    /// Polls a stream for writability or stops doing so. When its interest
    /// changes, the token and new interest are returned so that the stream
    /// can be registered again.
    pub fn set_wait_for_write(&mut self, stream_id: u64, wait_for_write: bool) -> (r: Option<(usize, bool)>)
        requires
            old(self)@.wf(),
        ensures
            final(self)@.next_token == old(self)@.next_token,
            final(self)@.tun_id == old(self)@.tun_id,
            final(self)@.wf(),
            !old(self)@.has_id(stream_id) ==> r is None && final(self)@ == old(self)@,
            forall|i: int|
                old(self)@.first_with_id(stream_id, i) ==> if old(self)@.entries[i].writable_interest
                    == wait_for_write {
                    r is None && final(self)@ == old(self)@
                } else {
                    r == Some((old(self)@.entries[i].token, wait_for_write))
                        && final(self)@.entries == old(self)@.entries.update(
                        i,
                        StreamEntry { writable_interest: wait_for_write, ..old(self)@.entries[i] },
                    )
                },
    {
        match self.find(stream_id) {
            Some(i) => {
                let e = self.entries[i];
                if e.writable_interest != wait_for_write {
                    self.entries.set(i, StreamEntry { writable_interest: wait_for_write, ..e });
                    Some((e.token, wait_for_write))
                } else {
                    None
                }
            },
            None => None,
        }
    }

    /// The poll event of a token: none for the waker or an unknown token.
    /// The first writable event of a stream marked to log its connection
    /// clears the mark and says so.
    pub fn on_event(&mut self, token: usize, readable: bool, writable: bool, error: bool) -> (r: Option<(PollResult, bool)>)
        requires
            old(self)@.wf(),
        ensures
            final(self)@.wf(),
            final(self)@.next_token == old(self)@.next_token,
            final(self)@.tun_id == old(self)@.tun_id,
            token == POLL_WAKER_TOKEN ==> r is None && final(self)@ == old(self)@,
            token != POLL_WAKER_TOKEN ==> match r {
                None => final(self)@ == old(self)@ && forall|i: int| 0 <= i < old(self)@.entries.len()
                    ==> (#[trigger] old(self)@.entries[i]).token != token,
                Some((res, connected)) => exists|i: int|
                    0 <= i < old(self)@.entries.len() && (#[trigger] old(self)@.entries[i]).token == token && {
                        let e = old(self)@.entries[i];
                        &&& res == (PollResult { stream_id: e.stream_id, is_readable: readable, is_writable: writable, is_error: error })
                        &&& connected == (e.log_when_connected && writable)
                        &&& final(self)@.entries == if connected {
                            old(self)@.entries.update(i, StreamEntry { log_when_connected: false, ..e })
                        } else {
                            old(self)@.entries
                        }
                    },
            },
    {
        if token == POLL_WAKER_TOKEN {
            return None;
        }
        let mut i: usize = 0;
        while i < self.entries.len()
            invariant
                0 <= i <= self.entries.len(),
                self@ == old(self)@,
                old(self)@.wf(),
                token != POLL_WAKER_TOKEN,
                forall|j: int| 0 <= j < i ==> (#[trigger] self.entries@[j]).token != token,
            decreases self.entries.len() - i,
        {
            let e = self.entries[i];
            if e.token == token {
                let connected = e.log_when_connected && writable;
                if connected {
                    self.entries.set(i, StreamEntry { log_when_connected: false, ..e });
                    proof {
                        assert forall|j: int| 0 <= j < self.entries@.len() implies (#[trigger] self.entries@[j]).token
                            == old(self)@.entries[j].token by {}
                    }
                }
                proof {
                    assert(old(self)@.entries[i as int].token == token);
                }
                return Some(
                    (PollResult { stream_id: e.stream_id, is_readable: readable, is_writable: writable, is_error: error }, connected),
                );
            }
            i = i + 1;
        }
        None
    }

    /// State of the TUN interface: up while the TUN stream is registered.
    pub fn tun_interface_state(&self, last_interface_error: Option<InterfaceError>) -> (r: InterfaceState)
        ensures
            r == if self@.has_id(self@.tun_id) {
                InterfaceState::Up { error: last_interface_error }
            } else {
                InterfaceState::Down { last_error: last_interface_error }
            },
    {
        match self.find(self.tun_id) {
            Some(_) => InterfaceState::Up { error: last_interface_error },
            None => InterfaceState::Down { last_error: last_interface_error },
        }
    }

    /// Whether the TUN stream is registered.
    pub fn tun_is_up(&self) -> (r: bool)
        ensures
            r == self@.has_id(self@.tun_id),
    {
        self.find(self.tun_id).is_some()
    }

    /// The identifier of the TUN stream.
    pub fn tun_id(&self) -> (r: u64)
        ensures
            r == self@.tun_id,
    {
        self.tun_id
    }
}


/// The bytes a socket accepted over the first `k` writes of a flush:
/// `queues[i]` is the queue before write `i`, which took `counts[i]` bytes
/// from its front.
pub open spec fn accepted_bytes(queues: Seq<Seq<Seq<u8>>>, counts: Seq<nat>, k: int) -> Seq<u8>
    decreases k,
{
    if k <= 0 {
        Seq::empty()
    } else {
        accepted_bytes(queues, counts, k - 1) + flatten(queues[k - 1]).take(counts[k - 1] as int)
    }
}

/// Over any run of writes, as [TcpWriteQueue::on_write] gives each, nothing
/// is lost, duplicated or reordered: the bytes the socket accepted, followed
/// by what still waits, are the bytes that waited at the start.
pub proof fn law_flush_keeps_bytes(queues: Seq<Seq<Seq<u8>>>, counts: Seq<nat>)
    requires
        queues.len() == counts.len() + 1,
        forall|i: int| 0 <= i < counts.len() ==> #[trigger] counts[i] <= flatten(queues[i]).len()
            && flatten(queues[i + 1]) == flatten(queues[i]).skip(counts[i] as int),
    ensures
        forall|k: int| 0 <= k <= counts.len() ==> #[trigger] accepted_bytes(queues, counts, k) + flatten(queues[k])
            == flatten(queues[0]),
{
    assert forall|k: int| 0 <= k <= counts.len() implies #[trigger] accepted_bytes(queues, counts, k) + flatten(queues[k])
        == flatten(queues[0]) by {
        lemma_flush_keeps_bytes(queues, counts, k);
    }
}

proof fn lemma_flush_keeps_bytes(queues: Seq<Seq<Seq<u8>>>, counts: Seq<nat>, k: int)
    requires
        queues.len() == counts.len() + 1,
        0 <= k <= counts.len(),
        forall|i: int| 0 <= i < counts.len() ==> #[trigger] counts[i] <= flatten(queues[i]).len()
            && flatten(queues[i + 1]) == flatten(queues[i]).skip(counts[i] as int),
    ensures
        accepted_bytes(queues, counts, k) + flatten(queues[k]) == flatten(queues[0]),
    decreases k,
{
    if k == 0 {
        assert(Seq::<u8>::empty() + flatten(queues[0]) =~= flatten(queues[0]));
    } else {
        lemma_flush_keeps_bytes(queues, counts, k - 1);
        let b = flatten(queues[k - 1]);
        let n = counts[k - 1] as int;
        assert(counts[k - 1] <= flatten(queues[k - 1]).len() && flatten(queues[(k - 1) + 1]) == flatten(queues[k - 1]).skip(n));
        assert(b.take(n) + b.skip(n) =~= b);
        assert(accepted_bytes(queues, counts, k - 1) + b.take(n) + flatten(queues[k]) =~= accepted_bytes(queues, counts, k - 1) + (b.take(n) + b.skip(n)));
    }
}


/// The queue contents of a run of queue states.
pub open spec fn chunks_of(qs: Seq<TcpWriteQueueView>) -> Seq<Seq<Seq<u8>>> {
    Seq::new(qs.len(), |i: int| qs[i].chunks)
}

/// A whole flush, as [TcpWriteQueue::begin_flush] and a run of
/// [TcpWriteQueue::on_write] transfers give it: `qs[i]` is the queue before
/// write `i`, which took `counts[i]` bytes. The bytes accepted followed by
/// what still waits are the bytes that waited at the start; the flushed count
/// is the number of bytes accepted; and once the queue is empty every byte
/// was accepted, so [TcpWriteQueue::finish_flush] reports them all. A flush
/// that ends on a would-block reports the bytes accepted while the queue,
/// which [TcpWriteQueue::on_write] takes only non-empty, keeps the rest.
pub proof fn law_full_flush(qs: Seq<TcpWriteQueueView>, counts: Seq<nat>)
    requires
        qs.len() == counts.len() + 1,
        qs[0].flushed == 0,
        forall|i: int| 0 <= i < counts.len() ==> #[trigger] counts[i] <= flatten(qs[i].chunks).len()
            && flatten(qs[i + 1].chunks) == flatten(qs[i].chunks).skip(counts[i] as int)
            && qs[i + 1].flushed == qs[i].flushed + counts[i],
    ensures
        ({
            let k = counts.len() as int;
            let w = accepted_bytes(chunks_of(qs), counts, k);
            &&& w + flatten(qs[k].chunks) == flatten(qs[0].chunks)
            &&& qs[k].flushed == w.len()
            &&& qs[k].chunks.len() == 0 ==> w == flatten(qs[0].chunks) && qs[k].flushed == flatten(qs[0].chunks).len()
        }),
{
    let cs = chunks_of(qs);
    let k = counts.len() as int;
    assert forall|i: int| 0 <= i < counts.len() implies #[trigger] counts[i] <= flatten(cs[i]).len()
        && flatten(cs[i + 1]) == flatten(cs[i]).skip(counts[i] as int) by {
        assert(cs[i] == qs[i].chunks && cs[i + 1] == qs[i + 1].chunks);
    }
    lemma_flush_keeps_bytes(cs, counts, k);
    lemma_flushed_counts(qs, counts, k);
    assert(cs[k] == qs[k].chunks && cs[0] == qs[0].chunks);
    if qs[k].chunks.len() == 0 {
        assert(flatten(qs[k].chunks) == Seq::<u8>::empty());
        let w = accepted_bytes(cs, counts, k);
        assert(w + Seq::<u8>::empty() =~= w);
    }
}

proof fn lemma_flushed_counts(qs: Seq<TcpWriteQueueView>, counts: Seq<nat>, k: int)
    requires
        qs.len() == counts.len() + 1,
        0 <= k <= counts.len(),
        qs[0].flushed == 0,
        forall|i: int| 0 <= i < counts.len() ==> #[trigger] counts[i] <= flatten(qs[i].chunks).len()
            && flatten(qs[i + 1].chunks) == flatten(qs[i].chunks).skip(counts[i] as int)
            && qs[i + 1].flushed == qs[i].flushed + counts[i],
    ensures
        qs[k].flushed == accepted_bytes(chunks_of(qs), counts, k).len(),
    decreases k,
{
    if k > 0 {
        lemma_flushed_counts(qs, counts, k - 1);
        let cs = chunks_of(qs);
        assert(cs[k - 1] == qs[k - 1].chunks);
        assert(counts[k - 1] <= flatten(qs[k - 1].chunks).len() && qs[(k - 1) + 1].flushed == qs[k - 1].flushed + counts[k - 1]);
    }
}

} // verus!
