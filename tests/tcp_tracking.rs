use flowmon::tcp::{TcpPacketInput, TcpSession, TcpState};
use flowmon::wire::PacketDirection;

const FIN: u8 = 0x01;
const SYN: u8 = 0x02;
const RST: u8 = 0x04;
const ACK: u8 = 0x10;

fn segment(seq: u32, ack: u32, flags: u8, options: &[u8], payload: usize) -> Vec<u8> {
    let header = 20 + options.len();
    let mut b = vec![0u8; header];
    b[0] = 0x30;
    b[1] = 0x39;
    b[2] = 0x00;
    b[3] = 0x50;
    b[4..8].copy_from_slice(&seq.to_be_bytes());
    b[8..12].copy_from_slice(&ack.to_be_bytes());
    b[12] = ((header / 4) as u8) << 4;
    b[13] = flags;
    b[14] = 0xff;
    b[15] = 0xff;
    b[20..].copy_from_slice(options);
    b.extend(std::iter::repeat(0xabu8).take(payload));
    b
}

fn c2s(s: &mut TcpSession, seg: Vec<u8>) {
    s.process_packet(&seg, PacketDirection::ClientToServer);
}

fn s2c(s: &mut TcpSession, seg: Vec<u8>) {
    s.process_packet(&seg, PacketDirection::ServerToClient);
}

fn established() -> TcpSession {
    let mut s = TcpSession::new();
    c2s(&mut s, segment(100, 0, SYN, &[], 0));
    s2c(&mut s, segment(500, 101, SYN | ACK, &[], 0));
    c2s(&mut s, segment(101, 501, ACK, &[], 0));
    s
}

#[test]
fn handshake_reaches_established() {
    let mut s = TcpSession::new();
    c2s(&mut s, segment(100, 0, SYN, &[1, 3, 3, 7], 0));
    assert!(matches!(s.state, TcpState::SynSent { client_seq_no: 100, client_next_seq_no: 101, client_window_scale: 7, .. }));
    s2c(&mut s, segment(500, 101, SYN | ACK, &[], 0));
    assert!(matches!(s.state, TcpState::SynReceived { server_seq_no: 500, server_next_seq_no: 501, server_ack_no: 101, .. }));
    c2s(&mut s, segment(101, 501, ACK, &[], 0));
    match s.state {
        TcpState::Established { client, server } => {
            assert_eq!(client.next_seq_no, 101);
            assert_eq!(server.next_seq_no, 501);
            assert_eq!(client.window_scale, 7);
            assert_eq!(client.ack_no, 501);
        }
        _ => panic!("not established"),
    }
    assert_eq!(s.client_stats.syn_count, 1);
    assert_eq!(s.server_stats.syn_count, 1);
}

#[test]
fn mismatched_ack_keeps_syn_received() {
    let mut s = TcpSession::new();
    c2s(&mut s, segment(100, 0, SYN, &[], 0));
    s2c(&mut s, segment(500, 101, SYN | ACK, &[], 0));
    c2s(&mut s, segment(101, 999, ACK, &[], 0));
    assert!(matches!(s.state, TcpState::SynReceived { .. }));
    assert_eq!(s.anomalies, 1);
    s2c(&mut s, segment(500, 101, SYN | ACK, &[], 0));
    assert_eq!(s.server_stats.syn_rexmit_count, 1);
}

#[test]
fn duplicate_acknowledged_segment_is_retransmission() {
    let mut s = established();
    c2s(&mut s, segment(101, 501, ACK, &[], 10));
    s2c(&mut s, segment(501, 111, ACK, &[], 0));
    let before = s;
    c2s(&mut s, segment(101, 501, ACK, &[], 10));
    assert_eq!(s.client_stats.rexmit_count, before.client_stats.rexmit_count + 1);
    assert_eq!(s.client_stats.rexmit_bytes, before.client_stats.rexmit_bytes + 10);
    assert_eq!(s.state, before.state);
    match s.state {
        TcpState::Established { client, .. } => assert_eq!(client.next_seq_no, 111),
        _ => panic!("not established"),
    }
}

#[test]
fn reset_closes_every_open_state() {
    let mut starts: Vec<TcpSession> = Vec::new();
    let mut s = TcpSession::new();
    starts.push(s);
    c2s(&mut s, segment(100, 0, SYN, &[], 0));
    starts.push(s);
    s2c(&mut s, segment(500, 101, SYN | ACK, &[], 0));
    starts.push(s);
    c2s(&mut s, segment(101, 501, ACK, &[], 0));
    starts.push(s);
    let mut fin_wait = s;
    c2s(&mut fin_wait, segment(101, 501, FIN | ACK, &[], 0));
    assert!(matches!(fin_wait.state, TcpState::ClientFinWait { .. }));
    starts.push(fin_wait);
    let mut closing = fin_wait;
    s2c(&mut closing, segment(501, 102, FIN | ACK, &[], 0));
    assert!(matches!(closing.state, TcpState::Closing { .. }));
    starts.push(closing);
    for start in starts {
        let mut t = start;
        s2c(&mut t, segment(0, 0, RST, &[], 0));
        assert_eq!(t.state, TcpState::Closed);
        assert_eq!(t.server_stats.rst_count, start.server_stats.rst_count + 1);
        c2s(&mut t, segment(7, 0, SYN, &[], 0));
        c2s(&mut t, segment(8, 9, ACK, &[], 5));
        assert_eq!(t.state, TcpState::Closed);
        s2c(&mut t, segment(0, 0, RST, &[], 0));
        assert_eq!(t.server_stats.rst_rexmit_count, 1);
        assert_eq!(t.state, TcpState::Closed);
    }
}

#[test]
fn orderly_close_reaches_closed() {
    let mut s = established();
    s2c(&mut s, segment(501, 101, FIN | ACK, &[], 0));
    assert!(matches!(s.state, TcpState::ServerFinWait { .. }));
    c2s(&mut s, segment(101, 502, ACK, &[], 4));
    assert!(matches!(s.state, TcpState::ServerFinWait { client, .. } if client.next_seq_no == 105));
    c2s(&mut s, segment(105, 502, FIN | ACK, &[], 0));
    assert!(matches!(s.state, TcpState::Closing { awaiting_ack_from: PacketDirection::ServerToClient }));
    c2s(&mut s, segment(106, 502, ACK, &[], 0));
    assert!(matches!(s.state, TcpState::Closing { .. }));
    s2c(&mut s, segment(502, 106, ACK, &[], 0));
    assert_eq!(s.state, TcpState::Closed);
}

#[test]
fn syn_while_established_is_anomaly() {
    let mut s = established();
    let before = s.state;
    c2s(&mut s, segment(100, 0, SYN, &[], 0));
    assert_eq!(s.anomalies, 1);
    assert_eq!(s.state, before);
}

#[test]
fn malformed_segment_changes_nothing() {
    let mut s = established();
    let before = s;
    let mut bad = segment(101, 501, ACK, &[], 0);
    bad[12] = 0xf0;
    c2s(&mut s, bad);
    c2s(&mut s, vec![0u8; 12]);
    assert_eq!(s, before);
}

#[test]
fn replay_gives_same_final_state() {
    let segs: Vec<(PacketDirection, Vec<u8>)> = vec![
        (PacketDirection::ClientToServer, segment(100, 0, SYN, &[2, 4, 5, 0xb4], 0)),
        (PacketDirection::ServerToClient, segment(500, 101, SYN | ACK, &[], 0)),
        (PacketDirection::ClientToServer, segment(101, 501, ACK, &[], 20)),
        (PacketDirection::ClientToServer, segment(101, 501, ACK, &[], 20)),
        (PacketDirection::ServerToClient, segment(501, 121, FIN | ACK, &[], 0)),
    ];
    let run = || {
        let mut s = TcpSession::new();
        for (d, b) in &segs {
            s.process_packet(b, *d);
        }
        s
    };
    assert_eq!(run(), run());
}

#[test]
fn decodes_header_fields() {
    let b = segment(0x01020304, 0x0a0b0c0d, ACK | 0x20, &[1, 1, 1, 1], 3);
    let seg = TcpPacketInput::from_buffer(PacketDirection::ServerToClient, &b).unwrap();
    assert_eq!(seg.seq_no, 0x01020304);
    assert_eq!(seg.ack_no(), Some(0x0a0b0c0d));
    assert_eq!(seg.window, 0xffff);
    assert_eq!(seg.payload_offset, 24);
    assert_eq!(seg.payload_len, 3);
    assert_eq!(seg.urgent_ptr(), Some(0));
    assert!(seg.ack() && seg.urg() && !seg.syn() && !seg.fin() && !seg.rst());
    assert!(TcpPacketInput::from_buffer(PacketDirection::ServerToClient, &b[..19]).is_none());
}

#[test]
fn attaches_to_connection_in_progress() {
    let mut s = TcpSession::new();
    s2c(&mut s, segment(9000, 300, ACK, &[], 50));
    match s.state {
        TcpState::Established { client, server } => {
            assert_eq!(server.next_seq_no, 9050);
            assert_eq!(server.ack_no, 300);
            assert_eq!(client.next_seq_no, 300);
        }
        _ => panic!("not established"),
    }
    s2c(&mut s, segment(9000, 300, ACK, &[], 50));
    assert_eq!(s.server_stats.rexmit_count, 1);
    assert_eq!(s.server_stats.rexmit_bytes, 50);
    let mut quiet = TcpSession::new();
    c2s(&mut quiet, segment(1, 0, 0x08, &[], 5));
    assert_eq!(quiet.state, TcpState::Listen);
}

#[test]
fn sequence_numbers_wrap() {
    let mut s = TcpSession::new();
    c2s(&mut s, segment(u32::MAX, 0, SYN, &[], 0));
    assert!(matches!(s.state, TcpState::SynSent { client_next_seq_no: 0, .. }));
    s2c(&mut s, segment(u32::MAX - 4, 0, SYN | ACK, &[], 0));
    c2s(&mut s, segment(0, u32::MAX - 3, ACK, &[], 0));
    assert!(matches!(s.state, TcpState::Established { .. }));
    s2c(&mut s, segment(u32::MAX - 3, 0, ACK, &[], 8));
    match s.state {
        TcpState::Established { server, .. } => assert_eq!(server.next_seq_no, 4),
        _ => panic!("not established"),
    }
    c2s(&mut s, segment(0, 4, ACK, &[], 0));
    s2c(&mut s, segment(u32::MAX - 3, 0, ACK, &[], 8));
    assert_eq!(s.server_stats.rexmit_count, 1);
    assert_eq!(s.server_stats.rexmit_bytes, 8);
}

#[test]
fn fin_on_resent_data_still_closes() {
    let mut s = established();
    c2s(&mut s, segment(101, 501, ACK, &[], 10));
    s2c(&mut s, segment(501, 111, ACK, &[], 0));
    c2s(&mut s, segment(101, 501, FIN | ACK, &[], 10));
    assert_eq!(s.client_stats.rexmit_count, 1);
    match s.state {
        TcpState::ClientFinWait { client, .. } => assert_eq!(client.next_seq_no, 112),
        _ => panic!("not in client FIN wait"),
    }
    s2c(&mut s, segment(501, 112, FIN | ACK, &[], 0));
    assert!(matches!(s.state, TcpState::Closing { awaiting_ack_from: PacketDirection::ClientToServer }));
}
