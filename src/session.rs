//! Sessions: the canonical, direction-free key of a conversation and the
//! per-conversation record that every packet of it updates.
use vstd::prelude::*;
use crate::tcp::TcpSession;
use crate::udp::UdpSession;
use crate::wire::PacketDirection;

verus! {

pub const PROTO_TCP: u8 = 6;
pub const PROTO_UDP: u8 = 17;

/// The endpoints of a session. The client is the endpoint that sent the
/// packet that created the session.
#[derive(Clone, Copy, PartialEq, Eq, Structural, Debug)]
pub struct SessionTuple {
    pub client_ip: u32,
    pub server_ip: u32,
    pub client_port: u16,
    pub server_port: u16,
    pub protocol: u8,
}

impl SessionTuple {
    pub fn new(
        client_ip: u32,
        server_ip: u32,
        client_port: u16,
        server_port: u16,
        protocol: u8,
    ) -> (r: Self)
        ensures
            r == (SessionTuple { client_ip, server_ip, client_port, server_port, protocol }),
    {
        Self { client_ip, server_ip, client_port, server_port, protocol }
    }
}

/// The identity of a session, the same for packets in either direction: the
/// two endpoints are ordered by address, and by port when the addresses are
/// equal.
#[derive(Clone, Copy, PartialEq, Eq, Structural, Hash, Debug)]
pub struct SessionKey {
    pub lesser_ip: u32,
    pub greater_ip: u32,
    pub lesser_port: u16,
    pub greater_port: u16,
    pub protocol: u8,
}

/// The source endpoint orders first.
pub open spec fn source_first(
    source_ip: u32,
    destination_ip: u32,
    source_port: u16,
    destination_port: u16,
) -> bool {
    source_ip < destination_ip || (source_ip == destination_ip && source_port <= destination_port)
}

/// The key of a packet from (`source_ip`, `source_port`) to
/// (`destination_ip`, `destination_port`).
pub open spec fn canonical_key(
    source_ip: u32,
    destination_ip: u32,
    source_port: u16,
    destination_port: u16,
    protocol: u8,
) -> SessionKey {
    if source_first(source_ip, destination_ip, source_port, destination_port) {
        SessionKey {
            lesser_ip: source_ip,
            greater_ip: destination_ip,
            lesser_port: source_port,
            greater_port: destination_port,
            protocol,
        }
    } else {
        SessionKey {
            lesser_ip: destination_ip,
            greater_ip: source_ip,
            lesser_port: destination_port,
            greater_port: source_port,
            protocol,
        }
    }
}

/// All fields of a key in one integer, protocol in the lowest byte.
pub open spec fn pack_key(lip: u32, gip: u32, lport: u16, gport: u16, protocol: u8) -> u128 {
    (lip as u128) << 72u128 | (gip as u128) << 40u128 | (lport as u128) << 24u128 | (gport as u128)
        << 8u128 | (protocol as u128)
}

proof fn lemma_pack_injective(
    a1: u32,
    b1: u32,
    c1: u16,
    d1: u16,
    e1: u8,
    a2: u32,
    b2: u32,
    c2: u16,
    d2: u16,
    e2: u8,
)
    by (bit_vector)
    requires
        pack_key(a1, b1, c1, d1, e1) == pack_key(a2, b2, c2, d2, e2),
    ensures
        a1 == a2 && b1 == b2 && c1 == c2 && d1 == d2 && e1 == e2,
{
}

impl SessionKey {
    pub open spec fn packed_spec(self) -> u128 {
        pack_key(self.lesser_ip, self.greater_ip, self.lesser_port, self.greater_port, self.protocol)
    }

    pub fn new(
        source_ip: u32,
        destination_ip: u32,
        source_port: u16,
        destination_port: u16,
        protocol: u8,
    ) -> (r: Self)
        ensures
            r == canonical_key(source_ip, destination_ip, source_port, destination_port, protocol),
    {
        if source_ip < destination_ip || (source_ip == destination_ip && source_port
            <= destination_port) {
            Self {
                lesser_ip: source_ip,
                greater_ip: destination_ip,
                lesser_port: source_port,
                greater_port: destination_port,
                protocol,
            }
        } else {
            Self {
                lesser_ip: destination_ip,
                greater_ip: source_ip,
                lesser_port: destination_port,
                greater_port: source_port,
                protocol,
            }
        }
    }

    /// The key as one integer; distinct keys give distinct integers.
    pub fn packed(&self) -> (r: u128)
        ensures
            r == self.packed_spec(),
    {
        (self.lesser_ip as u128) << 72u128 | (self.greater_ip as u128) << 40u128
            | (self.lesser_port as u128) << 24u128 | (self.greater_port as u128) << 8u128
            | (self.protocol as u128)
    }
}

/// Distinct keys pack to distinct integers.
pub proof fn lemma_packed_injective(a: SessionKey, b: SessionKey)
    requires
        a.packed_spec() == b.packed_spec(),
    ensures
        a == b,
{
    lemma_pack_injective(
        a.lesser_ip,
        a.greater_ip,
        a.lesser_port,
        a.greater_port,
        a.protocol,
        b.lesser_ip,
        b.greater_ip,
        b.lesser_port,
        b.greater_port,
        b.protocol,
    );
}

/// The key does not depend on which endpoint sent the packet.
pub proof fn lemma_key_symmetric(
    a_ip: u32,
    b_ip: u32,
    a_port: u16,
    b_port: u16,
    protocol: u8,
)
    ensures
        canonical_key(a_ip, b_ip, a_port, b_port, protocol) == canonical_key(
            b_ip,
            a_ip,
            b_port,
            a_port,
            protocol,
        ),
{
}

/// Packets of one conversation share a key whichever way they travel, and
/// packets that differ in protocol never share a key, nor its packed form.
pub proof fn lemma_session_identity(
    a_ip: u32,
    b_ip: u32,
    a_port: u16,
    b_port: u16,
    protocol: u8,
    other_protocol: u8,
)
    requires
        protocol != other_protocol,
    ensures
        canonical_key(a_ip, b_ip, a_port, b_port, protocol) == canonical_key(
            b_ip,
            a_ip,
            b_port,
            a_port,
            protocol,
        ),
        canonical_key(a_ip, b_ip, a_port, b_port, protocol) != canonical_key(
            a_ip,
            b_ip,
            a_port,
            b_port,
            other_protocol,
        ),
        canonical_key(a_ip, b_ip, a_port, b_port, protocol).packed_spec() != canonical_key(
            a_ip,
            b_ip,
            a_port,
            b_port,
            other_protocol,
        ).packed_spec(),
{
    let k1 = canonical_key(a_ip, b_ip, a_port, b_port, protocol);
    let k2 = canonical_key(a_ip, b_ip, a_port, b_port, other_protocol);
    if k1.packed_spec() == k2.packed_spec() {
        lemma_packed_injective(k1, k2);
    }
}

/// Aggregate counters; "tx" is client to server, "rx" server to client.
#[derive(Clone, Copy, PartialEq, Eq, Structural, Debug)]
pub struct SessionStats {
    pub packets_rx: u64,
    pub packets_tx: u64,
    pub bytes_rx: u64,
    pub bytes_tx: u64,
}

impl SessionStats {
    pub open spec fn zero() -> Self {
        SessionStats { packets_rx: 0, packets_tx: 0, bytes_rx: 0, bytes_tx: 0 }
    }

    pub fn new() -> (r: Self)
        ensures
            r == Self::zero(),
    {
        SessionStats { packets_rx: 0, packets_tx: 0, bytes_rx: 0, bytes_tx: 0 }
    }
}

/// Facts an application-layer decoder may attach to a session, once.
pub enum SessionInfo {
    Pending,
    Http { method: String, uri: String, status_code: u16, response_time: u64 },
    Dns { query: String, response: String, status: u16, latency: u64 },
}

/// The transport tracker of a session, chosen once from its protocol.
#[derive(Clone, Copy, PartialEq, Eq, Structural, Debug)]
pub enum TransportSession {
    Tcp(TcpSession),
    Udp(UdpSession),
    Other,
}

pub open spec fn transport_for(protocol: u8) -> TransportSession {
    if protocol == PROTO_TCP {
        TransportSession::Tcp(TcpSession::initial())
    } else if protocol == PROTO_UDP {
        TransportSession::Udp(UdpSession::initial())
    } else {
        TransportSession::Other
    }
}

/// Direction of a packet from `source_ip`: client to server exactly when it
/// comes from the client's address.
pub open spec fn direction_of(tuple: SessionTuple, source_ip: u32) -> PacketDirection {
    if source_ip == tuple.client_ip {
        PacketDirection::ClientToServer
    } else {
        PacketDirection::ServerToClient
    }
}

pub struct Session {
    pub tuple: SessionTuple,
    pub start_time: u64,
    pub last_tx_time: u64,
    pub last_rx_time: u64,
    pub stats: SessionStats,
    pub info: SessionInfo,
    pub transport: TransportSession,
}

impl SessionTuple {
    pub open spec fn key_spec(self) -> SessionKey {
        canonical_key(self.client_ip, self.server_ip, self.client_port, self.server_port, self.protocol)
    }
}

impl Session {
    /// A fresh session for `tuple` whose first packet arrived at `timestamp`.
    pub open spec fn fresh(tuple: SessionTuple, timestamp: u64) -> Session {
        Session {
            tuple,
            start_time: timestamp,
            last_tx_time: 0,
            last_rx_time: 0,
            stats: SessionStats::zero(),
            info: SessionInfo::Pending,
            transport: transport_for(tuple.protocol),
        }
    }

    /// Counters after one packet of `len` bytes in direction `dir` at `timestamp`.
    pub open spec fn counted(self, dir: PacketDirection, len: nat, timestamp: u64) -> Session {
        match dir {
            PacketDirection::ServerToClient => Session {
                stats: SessionStats {
                    packets_rx: self.stats.packets_rx.saturating_add(1),
                    bytes_rx: self.stats.bytes_rx.saturating_add(len as u64),
                    ..self.stats
                },
                last_rx_time: timestamp,
                ..self
            },
            PacketDirection::ClientToServer => Session {
                stats: SessionStats {
                    packets_tx: self.stats.packets_tx.saturating_add(1),
                    bytes_tx: self.stats.bytes_tx.saturating_add(len as u64),
                    ..self.stats
                },
                last_tx_time: timestamp,
                ..self
            },
        }
    }

    /// The session after the transport bytes `payload` in direction `dir`.
    pub open spec fn after_packet(
        self,
        dir: PacketDirection,
        payload: Seq<u8>,
        timestamp: u64,
    ) -> Session {
        let counted = self.counted(dir, payload.len(), timestamp);
        Session {
            transport: match self.transport {
                TransportSession::Tcp(t) => TransportSession::Tcp(t.after_bytes(dir, payload)),
                TransportSession::Udp(u) => TransportSession::Udp(u.after_datagram(dir)),
                TransportSession::Other => TransportSession::Other,
            },
            ..counted
        }
    }

    pub fn new(tuple: SessionTuple, stats: SessionStats) -> (r: Self)
        ensures
            r == (Session {
                tuple,
                start_time: 0,
                last_tx_time: 0,
                last_rx_time: 0,
                stats,
                info: SessionInfo::Pending,
                transport: transport_for(tuple.protocol),
            }),
    {
        let transport = if tuple.protocol == PROTO_TCP {
            TransportSession::Tcp(TcpSession::new())
        } else if tuple.protocol == PROTO_UDP {
            TransportSession::Udp(UdpSession::new())
        } else {
            TransportSession::Other
        };
        Self {
            tuple,
            start_time: 0,
            last_tx_time: 0,
            last_rx_time: 0,
            stats,
            info: SessionInfo::Pending,
            transport,
        }
    }

    pub fn key(&self) -> (r: SessionKey)
        ensures
            r == self.tuple.key_spec(),
    {
        SessionKey::new(
            self.tuple.client_ip,
            self.tuple.server_ip,
            self.tuple.client_port,
            self.tuple.server_port,
            self.tuple.protocol,
        )
    }

    /// Counts one packet and hands its transport bytes to the tracker.
    pub fn handle(&mut self, direction: PacketDirection, payload: &[u8], timestamp: u64)
        ensures
            *final(self) == old(self).after_packet(direction, payload@, timestamp),
    {
        match direction {
            PacketDirection::ServerToClient => {
                self.stats.packets_rx = self.stats.packets_rx.saturating_add(1);
                self.stats.bytes_rx = self.stats.bytes_rx.saturating_add(payload.len() as u64);
                self.last_rx_time = timestamp;
            },
            PacketDirection::ClientToServer => {
                self.stats.packets_tx = self.stats.packets_tx.saturating_add(1);
                self.stats.bytes_tx = self.stats.bytes_tx.saturating_add(payload.len() as u64);
                self.last_tx_time = timestamp;
            },
        }
        match &mut self.transport {
            TransportSession::Tcp(session) => {
                session.process_packet(payload, direction);
            },
            TransportSession::Udp(session) => {
                session.process_packet(payload, direction);
            },
            TransportSession::Other => {},
        }
    }

    pub fn pkt_direction(&self, source_ip: u32) -> (r: PacketDirection)
        ensures
            r == direction_of(self.tuple, source_ip),
    {
        if source_ip == self.tuple.client_ip {
            PacketDirection::ClientToServer
        } else {
            PacketDirection::ServerToClient
        }
    }

    /// Attaches application-layer facts, once: only while the slot is still
    /// pending. Returns whether `info` was stored.
    pub fn enrich(&mut self, info: SessionInfo) -> (r: bool)
        ensures
            r == (old(self).info is Pending),
            r ==> *final(self) == (Session { info, ..*old(self) }),
            !r ==> *final(self) == *old(self),
    {
        match self.info {
            SessionInfo::Pending => {
                self.info = info;
                true
            },
            _ => false,
        }
    }
}

} // verus!
