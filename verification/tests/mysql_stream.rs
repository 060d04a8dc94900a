use warpgate::mysql::{
    MaybeTlsStream, MySqlStream, MySqlStreamError, PacketCodecFault, RecvAction, RecvEvent,
};

fn stream() -> MySqlStream<u8, u16> {
    MySqlStream::new(MaybeTlsStream::Raw(1u8))
}

#[test]
fn new_stream_is_empty_and_plain() {
    let s = stream();
    assert!(s.outbound_bytes().is_empty());
    assert!(!s.is_tls());
}

#[test]
fn is_tls_by_variant() {
    assert!(!MySqlStream::<u8, u16>::new(MaybeTlsStream::Raw(0)).is_tls());
    assert!(MySqlStream::<u8, u16>::new(MaybeTlsStream::Tls(0)).is_tls());
    assert!(!MySqlStream::<u8, u16>::new(MaybeTlsStream::Upgrading).is_tls());
}

#[test]
fn push_frames_packets_with_increasing_sequence_ids() {
    let mut s = stream();
    assert!(s.push(&[0x31, 0x32, 0x33]).is_ok());
    assert_eq!(s.outbound_bytes(), vec![3, 0, 0, 0, 0x31, 0x32, 0x33]);
    assert!(s.push(&[0x41]).is_ok());
    assert_eq!(s.outbound_bytes(), vec![3, 0, 0, 0, 0x31, 0x32, 0x33, 1, 0, 0, 1, 0x41]);
    s.clear_outbound();
    assert!(s.outbound_bytes().is_empty());
    s.reset_sequence_id();
    assert!(s.push(&[]).is_ok());
    assert_eq!(s.outbound_bytes(), vec![0, 0, 0, 0]);
}

#[test]
fn push_refuses_packets_over_the_limit() {
    let mut s = stream();
    let big = vec![0u8; 4 * 1024 * 1024 + 1];
    assert!(matches!(
        s.push(&big),
        Err(MySqlStreamError::Codec(PacketCodecFault::PacketTooLarge))
    ));
}

#[test]
fn recv_decodes_a_packet_across_reads() {
    let mut s = stream();
    let mut payload = Vec::new();
    assert!(matches!(s.recv_step(&mut payload, RecvEvent::Start), Ok(RecvAction::ReadMore)));
    assert!(matches!(s.recv_step(&mut payload, RecvEvent::Received(vec![3, 0])), Ok(RecvAction::ReadMore)));
    match s.recv_step(&mut payload, RecvEvent::Received(vec![0, 0, 7, 8, 9, 1])) {
        Ok(RecvAction::Deliver(p)) => assert_eq!(p, vec![7, 8, 9]),
        _ => panic!("expected a packet"),
    }
    assert!(payload.is_empty());
    // The next packet's first byte is already buffered.
    match s.recv_step(&mut payload, RecvEvent::Received(vec![0, 0, 1, 0xAA])) {
        Ok(RecvAction::Deliver(p)) => assert_eq!(p, vec![0xAA]),
        _ => panic!("expected a packet"),
    }
}

#[test]
fn recv_ends_on_an_empty_read() {
    let mut s = stream();
    let mut payload = Vec::new();
    assert!(matches!(s.recv_step(&mut payload, RecvEvent::Received(vec![])), Ok(RecvAction::EndOfStream)));
}

#[test]
fn recv_reports_packets_out_of_sync() {
    let mut s = stream();
    let mut payload = Vec::new();
    assert!(matches!(
        s.recv_step(&mut payload, RecvEvent::Received(vec![1, 0, 0, 5, 0xAA])),
        Err(MySqlStreamError::Codec(PacketCodecFault::PacketsOutOfSync))
    ));
}

#[test]
fn take_and_set_stream() {
    let mut s = stream();
    let inner = s.take_stream();
    assert!(matches!(inner, MaybeTlsStream::Raw(1)));
    assert!(!s.is_tls());
    s.set_stream(MaybeTlsStream::Tls(5));
    assert!(s.is_tls());
    assert!(matches!(s.into_inner(), MaybeTlsStream::Tls(5)));
}

#[test]
fn refused_push_keeps_buffer_and_sequence_id() {
    let mut s = stream();
    assert!(s.push(&[1]).is_ok());
    let big = vec![0u8; 4 * 1024 * 1024 + 1];
    assert!(s.push(&big).is_err());
    assert_eq!(s.outbound_bytes(), vec![1, 0, 0, 0, 1]);
    assert!(s.push(&[2]).is_ok());
    assert_eq!(s.outbound_bytes(), vec![1, 0, 0, 0, 1, 1, 0, 0, 1, 2]);
}

#[test]
fn pushed_frames_are_received_by_a_peer() {
    let mut a = stream();
    let mut b = stream();
    assert!(a.push(&[9, 8, 7, 6]).is_ok());
    let bytes = a.outbound_bytes();
    let mut payload = Vec::new();
    match b.recv_step(&mut payload, RecvEvent::Received(bytes)) {
        Ok(RecvAction::Deliver(p)) => assert_eq!(p, vec![9, 8, 7, 6]),
        _ => panic!("expected the packet"),
    }
}

/// Feeds `reads` to a fresh stream, one receive step each, and returns what
/// the last step gave.
fn receive_in_reads(reads: &[Vec<u8>]) -> (Result<RecvAction, MySqlStreamError>, Vec<u8>) {
    let mut s = stream();
    let mut payload = Vec::new();
    let mut last = s.recv_step(&mut payload, RecvEvent::Start);
    for r in reads {
        assert!(matches!(last, Ok(RecvAction::ReadMore)));
        last = s.recv_step(&mut payload, RecvEvent::Received(r.clone()));
    }
    (last, payload)
}

fn delivered(r: &Result<RecvAction, MySqlStreamError>) -> Option<Vec<u8>> {
    match r {
        Ok(RecvAction::Deliver(p)) => Some(p.clone()),
        _ => None,
    }
}

#[test]
fn recv_gives_the_same_packet_however_the_bytes_are_split() {
    let bytes = vec![5, 0, 0, 0, 1, 2, 3, 4, 5];
    let (whole, _) = receive_in_reads(&[bytes.clone()]);
    assert_eq!(delivered(&whole), Some(vec![1, 2, 3, 4, 5]));
    for cut in 1..bytes.len() {
        let (split, _) = receive_in_reads(&[bytes[..cut].to_vec(), bytes[cut..].to_vec()]);
        assert_eq!(delivered(&split), Some(vec![1, 2, 3, 4, 5]), "cut at {}", cut);
    }
    let single: Vec<Vec<u8>> = bytes.iter().map(|b| vec![*b]).collect();
    let (bytewise, _) = receive_in_reads(&single);
    assert_eq!(delivered(&bytewise), Some(vec![1, 2, 3, 4, 5]));
}

#[test]
fn recv_reports_the_same_error_however_the_bytes_are_split() {
    let bytes = vec![2, 0, 0, 3, 0xAA, 0xBB];
    let (whole, _) = receive_in_reads(&[bytes.clone()]);
    assert!(matches!(whole, Err(MySqlStreamError::Codec(PacketCodecFault::PacketsOutOfSync))));
    let (split, _) = receive_in_reads(&[bytes[..5].to_vec(), bytes[5..].to_vec()]);
    assert!(matches!(split, Err(MySqlStreamError::Codec(PacketCodecFault::PacketsOutOfSync))));
}

#[test]
fn recv_refuses_a_chunk_over_the_limit() {
    let mut s = stream();
    let mut payload = Vec::new();
    // 0x400001 bytes announced: one more than the 4 MiB limit.
    assert!(matches!(
        s.recv_step(&mut payload, RecvEvent::Received(vec![1, 0, 0x40, 0])),
        Err(MySqlStreamError::Codec(PacketCodecFault::PacketTooLarge))
    ));
}

#[test]
fn recv_waits_for_a_begun_chunk() {
    let mut s = stream();
    let mut payload = Vec::new();
    assert!(matches!(
        s.recv_step(&mut payload, RecvEvent::Received(vec![3, 0, 0, 0, 7])),
        Ok(RecvAction::ReadMore)
    ));
    assert!(payload.is_empty());
    assert!(matches!(s.recv_step(&mut payload, RecvEvent::Received(vec![8])), Ok(RecvAction::ReadMore)));
    match s.recv_step(&mut payload, RecvEvent::Received(vec![9])) {
        Ok(RecvAction::Deliver(p)) => assert_eq!(p, vec![7, 8, 9]),
        _ => panic!("expected a packet"),
    }
}

#[test]
fn reset_stream_frames_and_expects_sequence_id_zero() {
    let mut a = stream();
    assert!(a.push(&[1]).is_ok());
    assert!(a.push(&[2]).is_ok());
    a.clear_outbound();
    a.reset_sequence_id();
    assert!(a.push(&[3, 4]).is_ok());
    let bytes = a.outbound_bytes();
    assert_eq!(bytes, vec![2, 0, 0, 0, 3, 4]);
    let mut b = stream();
    let mut payload = Vec::new();
    // A peer that has received one packet expects id 1 until it is reset.
    assert!(matches!(
        b.recv_step(&mut payload, RecvEvent::Received(vec![1, 0, 0, 0, 9])),
        Ok(RecvAction::Deliver(_))
    ));
    b.reset_sequence_id();
    match b.recv_step(&mut payload, RecvEvent::Received(bytes)) {
        Ok(RecvAction::Deliver(p)) => assert_eq!(p, vec![3, 4]),
        _ => panic!("expected the packet"),
    }
}

#[test]
fn pushes_leave_the_connection_alone() {
    let mut s = stream();
    for i in 0..5u8 {
        assert!(s.push(&[i; 3]).is_ok());
    }
    let big = vec![0u8; 4 * 1024 * 1024 + 1];
    assert!(s.push(&big).is_err());
    assert!(matches!(s.into_inner(), MaybeTlsStream::Raw(1)));
}

#[test]
fn fresh_streams_round_trip_with_trailing_bytes() {
    let mut a = stream();
    let mut b = stream();
    assert!(a.push(&[0x10, 0x20]).is_ok());
    let mut bytes = a.outbound_bytes();
    bytes.extend_from_slice(&[1, 0, 0, 1, 0x30]);
    let mut payload = Vec::new();
    match b.recv_step(&mut payload, RecvEvent::Received(bytes)) {
        Ok(RecvAction::Deliver(p)) => assert_eq!(p, vec![0x10, 0x20]),
        _ => panic!("expected the packet"),
    }
    // The bytes that followed are the next packet, under id 1.
    match b.recv_step(&mut payload, RecvEvent::Start) {
        Ok(RecvAction::Deliver(p)) => assert_eq!(p, vec![0x30]),
        _ => panic!("expected the second packet"),
    }
}
