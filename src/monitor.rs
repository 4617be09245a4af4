//! The flow monitor: classifies each packet, finds or creates its session
//! and hands the packet to it. One monitor owns one partition of sessions
//! and processes its packets one at a time.
use vstd::prelude::*;
use std::collections::HashMap;
use crate::session::{
    canonical_key, direction_of, lemma_packed_injective, Session, SessionKey, SessionStats,
    SessionTuple, PROTO_TCP, PROTO_UDP,
};
use crate::wire::{
    classify, classify_spec, DropReason, NetworkMeta, PacketDirection, PacketMeta, TransportMeta,
};

verus! {

broadcast use vstd::std_specs::hash::group_hash_axioms;

/// What a monitor holds: its sessions by key, how many there are, and its
/// drop counters.
pub struct FlowMonView {
    pub sessions: Map<SessionKey, Session>,
    pub session_count: nat,
    pub malformed_drops: u64,
    pub unsupported_drops: u64,
    pub fragments: u64,
}

/// The session that a packet of `tuple` (sent by its client side) updates:
/// the stored one, or a fresh one started at `timestamp`.
pub open spec fn session_for(v: FlowMonView, tuple: SessionTuple, timestamp: u64) -> Session {
    if v.sessions.contains_key(tuple.key_spec()) {
        v.sessions[tuple.key_spec()]
    } else {
        Session::fresh(tuple, timestamp)
    }
}

/// The monitor after a packet from `tuple.client_*` to `tuple.server_*`
/// carrying the transport bytes `payload`.
pub open spec fn after_delivery(
    v: FlowMonView,
    tuple: SessionTuple,
    payload: Seq<u8>,
    timestamp: u64,
) -> FlowMonView {
    let key = tuple.key_spec();
    let s = session_for(v, tuple, timestamp);
    FlowMonView {
        sessions: v.sessions.insert(
            key,
            s.after_packet(direction_of(s.tuple, tuple.client_ip), payload, timestamp),
        ),
        session_count: if v.sessions.contains_key(key) {
            v.session_count
        } else {
            v.session_count + 1
        },
        ..v
    }
}

/// The monitor after the raw packet `p`: a dropped packet only counts, a
/// fragment goes to reassembly, a TCP or UDP packet updates its session.
pub open spec fn after_ip_packet(v: FlowMonView, p: Seq<u8>, timestamp: u64) -> FlowMonView {
    match classify_spec(p) {
        Err(reason) => {
            if reason.unsupported() {
                FlowMonView { unsupported_drops: v.unsupported_drops.saturating_add(1), ..v }
            } else {
                FlowMonView { malformed_drops: v.malformed_drops.saturating_add(1), ..v }
            }
        },
        Ok(c) => {
            let payload = p.subrange(c.payload_start, c.payload_end);
            match c.network {
                NetworkMeta::IPv4Fragment { .. } => FlowMonView {
                    fragments: v.fragments.saturating_add(1),
                    ..v
                },
                NetworkMeta::IPv4 { source_ip, destination_ip, .. } => match c.transport {
                    TransportMeta::TCP { source_port, destination_port, .. } => after_delivery(
                        v,
                        SessionTuple {
                            client_ip: source_ip,
                            server_ip: destination_ip,
                            client_port: source_port,
                            server_port: destination_port,
                            protocol: PROTO_TCP,
                        },
                        payload,
                        timestamp,
                    ),
                    TransportMeta::UDP { source_port, destination_port } => after_delivery(
                        v,
                        SessionTuple {
                            client_ip: source_ip,
                            server_ip: destination_ip,
                            client_port: source_port,
                            server_port: destination_port,
                            protocol: PROTO_UDP,
                        },
                        payload,
                        timestamp,
                    ),
                    _ => v,
                },
                _ => v,
            }
        },
    }
}

pub struct FlowMon {
    sessions: HashMap<u128, Session>,
    malformed_drops: u64,
    unsupported_drops: u64,
    fragments: u64,
}

impl View for FlowMon {
    type V = FlowMonView;

    closed spec fn view(&self) -> FlowMonView {
        FlowMonView {
            sessions: Map::new(
                |k: SessionKey| self.sessions@.contains_key(k.packed_spec()),
                |k: SessionKey| self.sessions@[k.packed_spec()],
            ),
            session_count: self.sessions@.len(),
            malformed_drops: self.malformed_drops,
            unsupported_drops: self.unsupported_drops,
            fragments: self.fragments,
        }
    }
}

impl FlowMon {
    pub fn new() -> (r: Self)
        ensures
            r@.sessions == Map::<SessionKey, Session>::empty(),
            r@.session_count == 0,
            r@.malformed_drops == 0,
            r@.unsupported_drops == 0,
            r@.fragments == 0,
    {
        let r = Self {
            sessions: HashMap::new(),
            malformed_drops: 0,
            unsupported_drops: 0,
            fragments: 0,
        };
        assert(r@.sessions =~= Map::<SessionKey, Session>::empty());
        r
    }

    /// Reassembly hook for IPv4 fragments. Fragments would be gathered by
    /// identification, source and destination, put in offset order once
    /// complete, and classified again; this monitor counts them and drops
    /// them.
    fn handle_ipv4_fragmentation(&mut self, fragment: &PacketMeta)
        ensures
            final(self)@ == (FlowMonView { fragments: old(self)@.fragments.saturating_add(1), ..old(self)@ }),
    {
        self.fragments = self.fragments.saturating_add(1);
    }

    /// Finds or creates the session of `tuple` and hands it the packet.
    fn deliver(&mut self, tuple: SessionTuple, payload: &[u8], timestamp: u64)
        ensures
            final(self)@ == after_delivery(old(self)@, tuple, payload@, timestamp),
    {
        let key = SessionKey::new(
            tuple.client_ip,
            tuple.server_ip,
            tuple.client_port,
            tuple.server_port,
            tuple.protocol,
        );
        let packed = key.packed();
        let ghost old_map = self.sessions@;
        let mut session = match self.sessions.remove(&packed) {
            Some(s) => s,
            None => {
                let mut s = Session::new(tuple, SessionStats::new());
                s.start_time = timestamp;
                s
            },
        };
        let ghost before = session;
        let direction = session.pkt_direction(tuple.client_ip);
        session.handle(direction, payload, timestamp);
        self.sessions.insert(packed, session);
        proof {
            let old_v = old(self)@;
            assert(before == session_for(old_v, tuple, timestamp));
            assert(self.sessions@ =~= old_map.insert(packed, session));
            assert(self@.sessions =~= old_v.sessions.insert(key, session)) by {
                assert forall|k: SessionKey| #[trigger]
                    self@.sessions.contains_key(k) == old_v.sessions.insert(key, session).contains_key(k)
                    by {
                    if k.packed_spec() == packed {
                        lemma_packed_injective(k, key);
                    }
                }
                assert forall|k: SessionKey| #[trigger]
                    self@.sessions.contains_key(k) implies self@.sessions[k] == old_v.sessions.insert(key, session)[k]
                    by {
                    if k.packed_spec() == packed {
                        lemma_packed_injective(k, key);
                    }
                }
            }
            assert(old_map.dom().finite());
        }
    }

    fn handle_ipv4_tcp_packet(
        &mut self,
        source_ip: u32,
        destination_ip: u32,
        source_port: u16,
        destination_port: u16,
        transport_data: &[u8],
        timestamp: u64,
    )
        ensures
            final(self)@ == after_delivery(
                old(self)@,
                SessionTuple {
                    client_ip: source_ip,
                    server_ip: destination_ip,
                    client_port: source_port,
                    server_port: destination_port,
                    protocol: PROTO_TCP,
                },
                transport_data@,
                timestamp,
            ),
    {
        let tuple = SessionTuple::new(source_ip, destination_ip, source_port, destination_port, PROTO_TCP);
        self.deliver(tuple, transport_data, timestamp);
    }

    fn handle_ipv4_udp_packet(
        &mut self,
        source_ip: u32,
        destination_ip: u32,
        source_port: u16,
        destination_port: u16,
        datagram: &[u8],
        timestamp: u64,
    )
        ensures
            final(self)@ == after_delivery(
                old(self)@,
                SessionTuple {
                    client_ip: source_ip,
                    server_ip: destination_ip,
                    client_port: source_port,
                    server_port: destination_port,
                    protocol: PROTO_UDP,
                },
                datagram@,
                timestamp,
            ),
    {
        let tuple = SessionTuple::new(source_ip, destination_ip, source_port, destination_port, PROTO_UDP);
        self.deliver(tuple, datagram, timestamp);
    }

    fn count_drop(&mut self, reason: DropReason)
        ensures
            final(self)@ == (if reason.unsupported() {
                FlowMonView { unsupported_drops: old(self)@.unsupported_drops.saturating_add(1), ..old(self)@ }
            } else {
                FlowMonView { malformed_drops: old(self)@.malformed_drops.saturating_add(1), ..old(self)@ }
            }),
    {
        if reason.is_unsupported() {
            self.unsupported_drops = self.unsupported_drops.saturating_add(1);
        } else {
            self.malformed_drops = self.malformed_drops.saturating_add(1);
        }
    }

    /// Processes one IPv4 packet (bytes from the IP header on) seen at
    /// `timestamp`.
    pub fn handle_ipvx_packet(&mut self, packet: &[u8], timestamp: u64)
        ensures
            final(self)@ == after_ip_packet(old(self)@, packet@, timestamp),
    {
        match classify(packet, timestamp) {
            Err(reason) => self.count_drop(reason),
            Ok(meta) => match meta.network {
                NetworkMeta::IPv4Fragment { .. } => self.handle_ipv4_fragmentation(&meta),
                NetworkMeta::IPv4 { source_ip, destination_ip, .. } => match meta.transport {
                    TransportMeta::TCP { source_port, destination_port, .. } => {
                        self.handle_ipv4_tcp_packet(
                            source_ip,
                            destination_ip,
                            source_port,
                            destination_port,
                            meta.payload,
                            timestamp,
                        );
                    },
                    TransportMeta::UDP { source_port, destination_port } => {
                        self.handle_ipv4_udp_packet(
                            source_ip,
                            destination_ip,
                            source_port,
                            destination_port,
                            meta.payload,
                            timestamp,
                        );
                    },
                    _ => {},
                },
                _ => {},
            },
        }
    }

    /// The session stored under `key`, if any.
    pub fn session(&self, key: &SessionKey) -> (r: Option<&Session>)
        ensures
            match r {
                Some(s) => self@.sessions.contains_key(*key) && *s == self@.sessions[*key],
                None => !self@.sessions.contains_key(*key),
            },
    {
        self.sessions.get(&key.packed())
    }

    pub fn session_count(&self) -> (r: usize)
        ensures
            r == self@.session_count,
    {
        self.sessions.len()
    }

    pub fn malformed_drops(&self) -> (r: u64)
        ensures
            r == self@.malformed_drops,
    {
        self.malformed_drops
    }

    pub fn unsupported_drops(&self) -> (r: u64)
        ensures
            r == self@.unsupported_drops,
    {
        self.unsupported_drops
    }

    pub fn fragments(&self) -> (r: u64)
        ensures
            r == self@.fragments,
    {
        self.fragments
    }
}


/// A packet never touches a session of another protocol, even on the same
/// addresses and ports; when its own session does not exist yet, one more
/// session exists afterwards.
pub proof fn lemma_protocols_kept_apart(
    v: FlowMonView,
    t: SessionTuple,
    payload: Seq<u8>,
    timestamp: u64,
    other: SessionKey,
)
    requires
        other.protocol != t.protocol,
    ensures
        ({
            let after = after_delivery(v, t, payload, timestamp);
            &&& after.sessions.contains_key(other) == v.sessions.contains_key(other)
            &&& v.sessions.contains_key(other) ==> after.sessions[other] == v.sessions[other]
            &&& !v.sessions.contains_key(t.key_spec()) ==> {
                &&& after.sessions.contains_key(t.key_spec())
                &&& after.session_count == v.session_count + 1
            }
        }),
{
    assert(t.key_spec().protocol == t.protocol);
}

/// The endpoints of `t` seen from the other side.
pub open spec fn reversed(t: SessionTuple) -> SessionTuple {
    SessionTuple {
        client_ip: t.server_ip,
        server_ip: t.client_ip,
        client_port: t.server_port,
        server_port: t.client_port,
        protocol: t.protocol,
    }
}

/// A reply travelling the other way joins the session that the first packet
/// created: no second session appears, the stored endpoints stay those of the
/// first sender, and the reply counts as server-to-client traffic.
pub proof fn lemma_reply_joins_session(
    v: FlowMonView,
    t: SessionTuple,
    request: Seq<u8>,
    reply: Seq<u8>,
    request_time: u64,
    reply_time: u64,
)
    requires
        !v.sessions.contains_key(t.key_spec()),
        t.client_ip != t.server_ip,
    ensures
        ({
            let v1 = after_delivery(v, t, request, request_time);
            let v2 = after_delivery(v1, reversed(t), reply, reply_time);
            &&& reversed(t).key_spec() == t.key_spec()
            &&& v2.session_count == v1.session_count
            &&& v2.sessions.dom() == v1.sessions.dom()
            &&& v2.sessions[t.key_spec()] == v1.sessions[t.key_spec()].after_packet(
                PacketDirection::ServerToClient,
                reply,
                reply_time,
            )
        }),
{
    let key = t.key_spec();
    crate::session::lemma_key_symmetric(
        t.client_ip,
        t.server_ip,
        t.client_port,
        t.server_port,
        t.protocol,
    );
    assert(reversed(t).key_spec() == key);
    let v1 = after_delivery(v, t, request, request_time);
    assert(v1.sessions[key].tuple == t);
    assert(v1.sessions.contains_key(key));
    let v2 = after_delivery(v1, reversed(t), reply, reply_time);
    assert(direction_of(v1.sessions[key].tuple, t.server_ip) == PacketDirection::ServerToClient);
    assert(v2.sessions.dom() =~= v1.sessions.dom());
}

} // verus!
