use protun::streams::{
    address_family_for, apple_tun_read_result, frame_apple_packet, tcp_read_result, udp_result,
    unix_tun_read_result, AddressFamilies, IoOutcome, PollResult, StreamTable, TcpWriteQueue, TunWrite,
    WriteStep,
};
use protun::state::InterfaceState;
use protun::stream_io::{to_tun_error, IoErrorKind, PendingWrite, StreamError, StreamResult, WouldBlock};

const FAMILIES: AddressFamilies = AddressFamilies { inet: 2, inet6: 30 };

fn would_block() -> IoOutcome {
    IoOutcome::Failed(StreamError { kind: IoErrorKind::WouldBlock, text: "wb".to_string() })
}

fn is_done(r: &StreamResult, count: usize, offset: usize, wb: WouldBlock, pw: PendingWrite) -> bool {
    matches!(r, StreamResult::Done { bytes_count, start_offset, would_block, pending_write }
        if *bytes_count == count && *start_offset == offset && *would_block == wb && *pending_write == pw)
}

#[test]
fn address_family_follows_ip_version() {
    assert!(matches!(address_family_for(0x45, FAMILIES), Ok(2)));
    assert!(matches!(address_family_for(0x60, FAMILIES), Ok(30)));
    match address_family_for(0x12, FAMILIES) {
        Err(e) => {
            assert!(e.kind == IoErrorKind::InvalidData);
            assert_eq!(e.text, "Invalid IP version: 1");
        },
        Ok(_) => panic!("error expected"),
    }
}

#[test]
fn apple_packets_are_framed() {
    let framed = frame_apple_packet(&vec![0x45, 1, 2], FAMILIES).ok().expect("frame expected");
    assert_eq!(framed, vec![0, 0, 0, 2, 0x45, 1, 2]);
    match frame_apple_packet(&vec![], FAMILIES) {
        Err(e) => assert_eq!(e.text, "Empty packet"),
        Ok(_) => panic!("error expected"),
    }
}

#[test]
fn read_outcomes() {
    assert!(is_done(&apple_tun_read_result(IoOutcome::Transferred(24)), 20, 4, WouldBlock::No, PendingWrite::No));
    match apple_tun_read_result(IoOutcome::Transferred(3)) {
        StreamResult::Failed(e) => assert_eq!(e.text, "Invalid packet: expected at least 4 bytes, got 3"),
        _ => panic!("error expected"),
    }
    assert!(is_done(&apple_tun_read_result(would_block()), 0, 0, WouldBlock::Yes, PendingWrite::No));
    match unix_tun_read_result(IoOutcome::Transferred(0)) {
        StreamResult::Failed(e) => {
            assert!(e.kind == IoErrorKind::UnexpectedEof);
            assert_eq!(e.text, "tun read: unexpected EOF");
        },
        _ => panic!("error expected"),
    }
    assert!(is_done(&udp_result(IoOutcome::Transferred(0)), 0, 0, WouldBlock::No, PendingWrite::No));
    assert!(matches!(tcp_read_result(IoOutcome::Transferred(0), PendingWrite::No), StreamResult::StreamClosed));
    assert!(is_done(&tcp_read_result(would_block(), PendingWrite::Yes), 0, 0, WouldBlock::Yes, PendingWrite::Yes));
    let err = tcp_read_result(IoOutcome::Failed(StreamError { kind: IoErrorKind::BrokenPipe, text: "pipe".to_string() }), PendingWrite::No);
    let tun_error = to_tun_error(&err);
    assert!(matches!(tun_error, Some(protun::state::InterfaceError::IoError { ref error }) if error == "pipe"));
}

#[test]
fn tun_write_progress() {
    let mut w = TunWrite::new(10, 4);
    assert!(matches!(w.next(), WriteStep::Continue(0)));
    assert!(w.apple_step(IoOutcome::Transferred(6)).is_none());
    assert!(matches!(w.next(), WriteStep::Continue(6)));
    let r = w.apple_step(would_block()).expect("result expected");
    assert!(is_done(&r, 2, 0, WouldBlock::Yes, PendingWrite::No));
    let mut w = TunWrite::new(10, 4);
    w.apple_step(IoOutcome::Transferred(2));
    match w.apple_step(would_block()) {
        Some(StreamResult::Failed(e)) => assert_eq!(e.text, "Partial header write (2 bytes) before would-block"),
        _ => panic!("error expected"),
    }
    let mut w = TunWrite::new(10, 4);
    match w.apple_step(IoOutcome::Transferred(0)) {
        Some(StreamResult::Failed(e)) => assert!(e.kind == IoErrorKind::WriteZero),
        _ => panic!("error expected"),
    }
    let mut w = TunWrite::new(10, 4);
    w.apple_step(IoOutcome::Transferred(10));
    match w.next() {
        WriteStep::Finished(r) => assert!(is_done(&r, 6, 0, WouldBlock::No, PendingWrite::No)),
        _ => panic!("finished expected"),
    }
    let mut u = TunWrite::new(5, 0);
    u.unix_step(IoOutcome::Transferred(3));
    let r = u.unix_step(would_block()).expect("result expected");
    assert!(is_done(&r, 3, 0, WouldBlock::Yes, PendingWrite::No));
}

#[test]
fn tcp_queue_keeps_byte_order() {
    let mut q = TcpWriteQueue::new();
    assert!(q.pending_write() == PendingWrite::No);
    q.push(vec![1, 2, 3]);
    q.push(vec![4, 5]);
    q.begin_flush();
    assert_eq!(q.front().cloned(), Some(vec![1, 2, 3]));
    assert!(q.on_write(IoOutcome::Transferred(2)).is_none());
    assert_eq!(q.front().cloned(), Some(vec![3]));
    let r = q.on_write(would_block()).expect("result expected");
    assert!(is_done(&r, 2, 0, WouldBlock::Yes, PendingWrite::Yes));
    assert!(q.pending_write() == PendingWrite::Yes);
    q.begin_flush();
    assert!(q.on_write(IoOutcome::Transferred(1)).is_none());
    assert_eq!(q.front().cloned(), Some(vec![4, 5]));
    assert!(q.on_write(IoOutcome::Transferred(2)).is_none());
    assert!(q.front().is_none());
    assert!(is_done(&q.finish_flush(), 3, 0, WouldBlock::No, PendingWrite::No));
}

#[test]
fn stream_table_tracks_tokens() {
    let mut t = StreamTable::new(0);
    assert!(matches!(t.tun_interface_state(None), InterfaceState::Down { last_error: None }));
    let tun_token = t.register(0, false, false);
    assert_eq!(tun_token, 1);
    let sock_token = t.register(42, true, true);
    assert_eq!(sock_token, 2);
    assert!(matches!(t.tun_interface_state(None), InterfaceState::Up { error: None }));
    assert!(t.on_event(0, true, false, false).is_none());
    let (res, connected) = t.on_event(2, false, true, false).expect("event expected");
    assert!(res == PollResult { stream_id: 42, is_readable: false, is_writable: true, is_error: false });
    assert!(connected);
    let (_, connected) = t.on_event(2, false, true, false).expect("event expected");
    assert!(!connected);
    assert!(t.set_wait_for_write(42, true).is_none());
    assert!(t.set_wait_for_write(42, false) == Some((2, false)));
    assert!(t.close(42) == Some(2));
    assert!(t.find(42).is_none());
    assert!(t.close(0) == Some(1));
    assert!(matches!(t.tun_interface_state(None), InterfaceState::Down { .. }));
    assert_eq!(t.register(7, false, false), 3);
}
