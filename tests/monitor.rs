use flowmon::monitor::FlowMon;
use flowmon::session::{Session, SessionInfo, SessionKey, SessionStats, SessionTuple, TransportSession};
use flowmon::tcp::TcpState;
use flowmon::wire::{classify, DropReason, NetworkMeta, PacketDirection, PacketMeta, TransportMeta};

const A: u32 = 0x0a00_0001;
const B: u32 = 0x0a00_0002;

fn ipv4(src: u32, dst: u32, protocol: u8, transport: &[u8]) -> Vec<u8> {
    let total = 20 + transport.len();
    let mut p = vec![0u8; 20];
    p[0] = 0x45;
    p[2..4].copy_from_slice(&(total as u16).to_be_bytes());
    p[8] = 64;
    p[9] = protocol;
    p[12..16].copy_from_slice(&src.to_be_bytes());
    p[16..20].copy_from_slice(&dst.to_be_bytes());
    p.extend_from_slice(transport);
    p
}

fn udp(sport: u16, dport: u16, payload: &[u8]) -> Vec<u8> {
    let mut u = Vec::new();
    u.extend_from_slice(&sport.to_be_bytes());
    u.extend_from_slice(&dport.to_be_bytes());
    u.extend_from_slice(&((8 + payload.len()) as u16).to_be_bytes());
    u.extend_from_slice(&[0, 0]);
    u.extend_from_slice(payload);
    u
}

fn tcp(sport: u16, dport: u16, seq: u32, ack: u32, flags: u8) -> Vec<u8> {
    let mut t = vec![0u8; 20];
    t[0..2].copy_from_slice(&sport.to_be_bytes());
    t[2..4].copy_from_slice(&dport.to_be_bytes());
    t[4..8].copy_from_slice(&seq.to_be_bytes());
    t[8..12].copy_from_slice(&ack.to_be_bytes());
    t[12] = 0x50;
    t[13] = flags;
    t
}

#[test]
fn udp_pair_is_one_session() {
    let mut m = FlowMon::new();
    m.handle_ipvx_packet(&ipv4(A, B, 17, &udp(5000, 53, b"query")), 10);
    m.handle_ipvx_packet(&ipv4(B, A, 17, &udp(53, 5000, b"answer!")), 20);
    assert_eq!(m.session_count(), 1);
    let s = m.session(&SessionKey::new(A, B, 5000, 53, 17)).unwrap();
    assert_eq!(s.stats.packets_tx, 1);
    assert_eq!(s.stats.packets_rx, 1);
    assert_eq!(s.stats.bytes_tx, 13);
    assert_eq!(s.stats.bytes_rx, 15);
    assert_eq!(s.tuple.client_ip, A);
    assert_eq!(s.start_time, 10);
    assert_eq!(s.last_tx_time, 10);
    assert_eq!(s.last_rx_time, 20);
    match s.transport {
        TransportSession::Udp(u) => {
            assert_eq!(u.client_stats.datagrams, 1);
            assert_eq!(u.server_stats.datagrams, 1);
        }
        _ => panic!("not udp"),
    }
}

#[test]
fn protocols_do_not_share_sessions() {
    let mut m = FlowMon::new();
    m.handle_ipvx_packet(&ipv4(A, B, 17, &udp(5000, 80, b"")), 1);
    m.handle_ipvx_packet(&ipv4(A, B, 6, &tcp(5000, 80, 1, 0, 0x02)), 2);
    assert_eq!(m.session_count(), 2);
    assert!(m.session(&SessionKey::new(A, B, 5000, 80, 6)).is_some());
    assert!(m.session(&SessionKey::new(B, A, 80, 5000, 17)).is_some());
    assert!(m.session(&SessionKey::new(A, B, 5000, 81, 17)).is_none());
}

#[test]
fn tcp_handshake_through_monitor() {
    let mut m = FlowMon::new();
    m.handle_ipvx_packet(&ipv4(A, B, 6, &tcp(4000, 443, 100, 0, 0x02)), 1);
    m.handle_ipvx_packet(&ipv4(B, A, 6, &tcp(443, 4000, 500, 101, 0x12)), 2);
    m.handle_ipvx_packet(&ipv4(A, B, 6, &tcp(4000, 443, 101, 501, 0x10)), 3);
    let s = m.session(&SessionKey::new(B, A, 443, 4000, 6)).unwrap();
    match s.transport {
        TransportSession::Tcp(t) => assert!(matches!(t.state, TcpState::Established { .. })),
        _ => panic!("not tcp"),
    }
    assert_eq!(s.stats.packets_tx, 2);
    assert_eq!(s.stats.packets_rx, 1);
}

#[test]
fn key_is_symmetric() {
    let k1 = SessionKey::new(B, A, 80, 5000, 6);
    let k2 = SessionKey::new(A, B, 5000, 80, 6);
    assert_eq!(k1, k2);
    assert_eq!(k1.lesser_ip, A);
    assert_eq!(k1.lesser_port, 5000);
    assert_ne!(k1, SessionKey::new(A, B, 5000, 80, 17));
    assert_ne!(k1.packed(), SessionKey::new(A, B, 5000, 80, 17).packed());
}

#[test]
fn equal_addresses_order_by_port() {
    let k1 = SessionKey::new(A, A, 9000, 80, 6);
    let k2 = SessionKey::new(A, A, 80, 9000, 6);
    assert_eq!(k1, k2);
    assert_eq!(k1.lesser_port, 80);
    assert_eq!(k1.greater_port, 9000);
    assert_ne!(k1, SessionKey::new(A, A, 9000, 81, 6));
}

#[test]
fn drops_are_counted_by_kind() {
    let mut m = FlowMon::new();
    let good = ipv4(A, B, 17, &udp(1, 2, b"abc"));
    m.handle_ipvx_packet(&good[..20], 1);
    let mut v6 = good.clone();
    v6[0] = 0x65;
    m.handle_ipvx_packet(&v6, 1);
    m.handle_ipvx_packet(&ipv4(A, B, 1, &[0u8; 8]), 1);
    assert_eq!(m.malformed_drops(), 1);
    assert_eq!(m.unsupported_drops(), 2);
    assert_eq!(m.session_count(), 0);
}

#[test]
fn each_drop_reason() {
    let good = ipv4(A, B, 17, &udp(1, 2, b"abc"));
    assert_eq!(classify(&good[..27], 0).err(), Some(DropReason::TooShort));
    let mut p = good.clone();
    p[0] = 0x65;
    assert_eq!(classify(&p, 0).err(), Some(DropReason::UnsupportedVersion));
    let mut p = good.clone();
    p[0] = 0x44;
    assert_eq!(classify(&p, 0).err(), Some(DropReason::BadHeaderLength));
    let mut p = good.clone();
    p[0] = 0x4f;
    assert_eq!(classify(&p, 0).err(), Some(DropReason::BadHeaderLength));
    let mut p = good.clone();
    p[3] = 200;
    assert_eq!(classify(&p, 0).err(), Some(DropReason::BadTotalLength));
    let mut p = good.clone();
    p[2] = 0;
    p[3] = 10;
    assert_eq!(classify(&p, 0).err(), Some(DropReason::BadTotalLength));
    let short_tcp = ipv4(A, B, 6, &[0u8; 10]);
    assert_eq!(classify(&short_tcp, 0).err(), Some(DropReason::TruncatedTransport));
    let mut p = ipv4(A, B, 17, &udp(1, 2, b"abc"));
    p[20] = 0;
    p[2] = 0;
    p[3] = 27;
    assert_eq!(classify(&p, 0).err(), Some(DropReason::TruncatedTransport));
    let mut t = tcp(1, 2, 0, 0, 0);
    t[12] = 0x60;
    assert_eq!(classify(&ipv4(A, B, 6, &t), 0).err(), Some(DropReason::BadTcpHeaderLength));
    t[12] = 0x40;
    assert_eq!(classify(&ipv4(A, B, 6, &t), 0).err(), Some(DropReason::BadTcpHeaderLength));
    let mut u = udp(1, 2, b"abc");
    u[5] = 12;
    assert_eq!(classify(&ipv4(A, B, 17, &u), 0).err(), Some(DropReason::BadUdpLength));
    assert_eq!(classify(&ipv4(A, B, 47, &[0u8; 8]), 0).err(), Some(DropReason::UnsupportedProtocol));
    assert!(DropReason::UnsupportedProtocol.is_unsupported());
    assert!(!DropReason::BadUdpLength.is_unsupported());
}

#[test]
fn classify_fills_meta() {
    let mut p = ipv4(A, B, 17, &udp(7, 9, b"xy"));
    p.extend_from_slice(&[0u8; 6]);
    let m = classify(&p, 77).unwrap();
    assert_eq!(m.timestamp, 77);
    assert!(matches!(m.network, NetworkMeta::IPv4 { source_ip: A, destination_ip: B, .. }));
    assert_eq!(m.transport, TransportMeta::UDP { source_port: 7, destination_port: 9 });
    assert_eq!(m.payload.len(), 10);
    let fresh = PacketMeta::new(&p, 5);
    assert_eq!(fresh.network, NetworkMeta::Pending);
    assert_eq!(fresh.transport, TransportMeta::Pending);
    assert_eq!(fresh.payload.len(), p.len());
}

#[test]
fn fragments_go_to_reassembly() {
    let mut m = FlowMon::new();
    let mut p = ipv4(A, B, 17, &udp(1, 2, b"abcdef"));
    p[6] = 0x20;
    let meta = classify(&p, 0).unwrap();
    assert!(matches!(meta.network, NetworkMeta::IPv4Fragment { offset: 0, .. }));
    m.handle_ipvx_packet(&p, 0);
    let mut q = ipv4(A, B, 17, &[0u8; 8]);
    q[7] = 3;
    match classify(&q, 0).unwrap().network {
        NetworkMeta::IPv4Fragment { offset, flags, .. } => {
            assert_eq!(offset, 24);
            assert!(!flags.is_more_fragments());
        }
        _ => panic!("not a fragment"),
    }
    m.handle_ipvx_packet(&q, 0);
    assert_eq!(m.fragments(), 2);
    assert_eq!(m.session_count(), 0);
}

#[test]
fn session_basics() {
    let tuple = SessionTuple::new(B, A, 80, 5000, 6);
    let mut s = Session::new(tuple, SessionStats::new());
    assert_eq!(s.key(), SessionKey::new(A, B, 5000, 80, 6));
    assert_eq!(s.pkt_direction(B), PacketDirection::ClientToServer);
    assert_eq!(s.pkt_direction(A), PacketDirection::ServerToClient);
    assert!(matches!(s.transport, TransportSession::Tcp(_)));
    assert!(s.enrich(SessionInfo::Dns {
        query: "example.org".to_string(),
        response: "192.0.2.1".to_string(),
        status: 0,
        latency: 3,
    }));
    assert!(!s.enrich(SessionInfo::Pending));
    assert!(matches!(s.info, SessionInfo::Dns { latency: 3, .. }));
    let other = Session::new(SessionTuple::new(A, B, 1, 2, 1), SessionStats::new());
    assert!(matches!(other.transport, TransportSession::Other));
}
