//! Decoding of IPv4 headers and the fields that the session layer needs.
use vstd::prelude::*;

verus! {

/// Big-endian 16-bit value of the two bytes of `b` at `i` and `i + 1`.
pub open spec fn be16(b: Seq<u8>, i: int) -> u16 {
    (b[i] as int * 256 + b[i + 1] as int) as u16
}

/// Big-endian 32-bit value of the four bytes of `b` starting at `i`.
pub open spec fn be32(b: Seq<u8>, i: int) -> u32 {
    (b[i] as int * 0x100_0000 + b[i + 1] as int * 0x1_0000 + b[i + 2] as int * 0x100
        + b[i + 3] as int) as u32
}

pub fn read_be16(b: &[u8], i: usize) -> (r: u16)
    requires
        i + 1 < b@.len(),
    ensures
        r == be16(b@, i as int),
{
    (b[i] as u16) * 256 + (b[i + 1] as u16)
}

pub fn read_be32(b: &[u8], i: usize) -> (r: u32)
    requires
        i + 3 < b@.len(),
    ensures
        r == be32(b@, i as int),
{
    (b[i] as u32) * 0x100_0000 + (b[i + 1] as u32) * 0x1_0000 + (b[i + 2] as u32) * 0x100
        + (b[i + 3] as u32)
}


/// Which way a packet travels, relative to the endpoint that opened the session.
#[derive(Clone, Copy, PartialEq, Eq, Structural, Debug)]
pub enum PacketDirection {
    ClientToServer,
    ServerToClient,
}

/// The control bits of a TCP header (byte 13).
#[derive(Clone, Copy, PartialEq, Eq, Structural, Debug)]
pub struct TcpFlags(pub u8);

impl TcpFlags {
    pub fn new(flags: u8) -> (r: Self)
        ensures
            r.0 == flags,
    {
        Self(flags)
    }

    pub fn is_syn(&self) -> (r: bool)
        ensures
            r == (self.0 & 0x02 != 0),
    {
        self.0 & 0x02 != 0
    }

    pub fn is_ack(&self) -> (r: bool)
        ensures
            r == (self.0 & 0x10 != 0),
    {
        self.0 & 0x10 != 0
    }

    pub fn is_fin(&self) -> (r: bool)
        ensures
            r == (self.0 & 0x01 != 0),
    {
        self.0 & 0x01 != 0
    }

    pub fn is_rst(&self) -> (r: bool)
        ensures
            r == (self.0 & 0x04 != 0),
    {
        self.0 & 0x04 != 0
    }
}

/// The three flag bits of an IPv4 header, shifted down: bit 0 is
/// "more fragments", bit 1 is "don't fragment".
#[derive(Clone, Copy, PartialEq, Eq, Structural, Debug)]
pub struct IPv4Flags(pub u8);

impl IPv4Flags {
    pub fn new(flags: u8) -> (r: Self)
        ensures
            r.0 == flags,
    {
        Self(flags)
    }

    pub fn is_more_fragments(&self) -> (r: bool)
        ensures
            r == (self.0 & 0x01 != 0),
    {
        self.0 & 0x01 != 0
    }

    pub fn is_dont_fragment(&self) -> (r: bool)
        ensures
            r == (self.0 & 0x02 != 0),
    {
        self.0 & 0x02 != 0
    }
}


/// Network-layer result of classifying a packet; starts as `Pending`.
#[derive(Clone, Copy, PartialEq, Eq, Structural, Debug)]
pub enum NetworkMeta {
    Pending,
    /// A fragment, routed to reassembly; `offset` is in bytes.
    IPv4Fragment {
        source_ip: u32,
        destination_ip: u32,
        identifier: u16,
        flags: IPv4Flags,
        offset: usize,
    },
    IPv4 { source_ip: u32, destination_ip: u32, flags: IPv4Flags },
    Unknown,
}

/// Transport-layer result of classifying a packet; starts as `Pending`.
#[derive(Clone, Copy, PartialEq, Eq, Structural, Debug)]
pub enum TransportMeta {
    Pending,
    TCP { source_port: u16, destination_port: u16, flags: TcpFlags },
    UDP { source_port: u16, destination_port: u16 },
    Other { protocol: u8 },
}

/// A packet with its classification so far; `payload` is the transport part
/// once classified, the whole packet before.
pub struct PacketMeta<'a> {
    pub timestamp: u64,
    pub network: NetworkMeta,
    pub transport: TransportMeta,
    pub payload: &'a [u8],
}

impl<'a> PacketMeta<'a> {
    pub fn new(packet: &'a [u8], timestamp: u64) -> (r: Self)
        ensures
            r.timestamp == timestamp,
            r.network == NetworkMeta::Pending,
            r.transport == TransportMeta::Pending,
            r.payload@ == packet@,
    {
        Self {
            timestamp,
            network: NetworkMeta::Pending,
            transport: TransportMeta::Pending,
            payload: packet,
        }
    }
}

/// Why a packet was dropped before it reached a session.
#[derive(Clone, Copy, PartialEq, Eq, Structural, Debug)]
pub enum DropReason {
    /// Shorter than an IPv4 header and the smallest transport header.
    TooShort,
    /// An IP version other than 4.
    UnsupportedVersion,
    /// Header length under 20 bytes or beyond the packet.
    BadHeaderLength,
    /// Declared total length under the header length or beyond the packet.
    BadTotalLength,
    /// Fewer transport bytes than the transport header needs.
    TruncatedTransport,
    /// TCP data offset under 20 bytes or beyond the segment.
    BadTcpHeaderLength,
    /// UDP length beyond the bytes present.
    BadUdpLength,
    /// A transport protocol other than TCP and UDP.
    UnsupportedProtocol,
}

impl DropReason {
    /// Valid but out of scope, as opposed to malformed.
    pub open spec fn unsupported(self) -> bool {
        self is UnsupportedVersion || self is UnsupportedProtocol
    }

    pub fn is_unsupported(&self) -> (r: bool)
        ensures
            r == self.unsupported(),
    {
        match self {
            DropReason::UnsupportedVersion | DropReason::UnsupportedProtocol => true,
            _ => false,
        }
    }
}

/// Smallest packet considered: an IPv4 header and a UDP header.
pub const MIN_PACKET_LEN: usize = 28;

/// A classified packet: what `PacketMeta` holds, with the transport bytes
/// given as a range of the packet.
pub struct Classified {
    pub network: NetworkMeta,
    pub transport: TransportMeta,
    pub payload_start: int,
    pub payload_end: int,
}

pub open spec fn ip_header_len(p: Seq<u8>) -> int {
    (p[0] % 16) as int * 4
}

pub open spec fn ip_flags(p: Seq<u8>) -> IPv4Flags {
    IPv4Flags(p[6] / 32)
}

/// Fragment offset field, in units of eight bytes.
pub open spec fn fragment_offset(p: Seq<u8>) -> int {
    be16(p, 6) as int % 8192
}

pub open spec fn is_fragment(p: Seq<u8>) -> bool {
    ip_flags(p).0 & 0x01 != 0 || fragment_offset(p) != 0
}

/// Classification of the IPv4 packet `p`: checks in order, the first that
/// fails gives the drop reason.
pub open spec fn classify_spec(p: Seq<u8>) -> Result<Classified, DropReason> {
    if p.len() < MIN_PACKET_LEN {
        Err(DropReason::TooShort)
    } else if p[0] / 16 != 4 {
        Err(DropReason::UnsupportedVersion)
    } else if ip_header_len(p) < 20 || ip_header_len(p) > p.len() {
        Err(DropReason::BadHeaderLength)
    } else if (be16(p, 2) as int) < ip_header_len(p) || be16(p, 2) > p.len() {
        Err(DropReason::BadTotalLength)
    } else {
        let ihl = ip_header_len(p);
        let total = be16(p, 2) as int;
        let src = be32(p, 12);
        let dst = be32(p, 16);
        let t = p.subrange(ihl, total);
        if is_fragment(p) {
            Ok(
                Classified {
                    network: NetworkMeta::IPv4Fragment {
                        source_ip: src,
                        destination_ip: dst,
                        identifier: be16(p, 4),
                        flags: ip_flags(p),
                        offset: (8 * fragment_offset(p)) as usize,
                    },
                    transport: TransportMeta::Pending,
                    payload_start: ihl,
                    payload_end: total,
                },
            )
        } else if p[9] == 6 {
            if t.len() < 20 {
                Err(DropReason::TruncatedTransport)
            } else if (t[12] / 16) as int * 4 < 20 || (t[12] / 16) as int * 4 > t.len() {
                Err(DropReason::BadTcpHeaderLength)
            } else {
                Ok(
                    Classified {
                        network: NetworkMeta::IPv4 { source_ip: src, destination_ip: dst, flags: ip_flags(p) },
                        transport: TransportMeta::TCP {
                            source_port: be16(t, 0),
                            destination_port: be16(t, 2),
                            flags: TcpFlags(t[13]),
                        },
                        payload_start: ihl,
                        payload_end: total,
                    },
                )
            }
        } else if p[9] == 17 {
            if t.len() < 8 {
                Err(DropReason::TruncatedTransport)
            } else if be16(t, 4) > t.len() {
                Err(DropReason::BadUdpLength)
            } else {
                Ok(
                    Classified {
                        network: NetworkMeta::IPv4 { source_ip: src, destination_ip: dst, flags: ip_flags(p) },
                        transport: TransportMeta::UDP {
                            source_port: be16(t, 0),
                            destination_port: be16(t, 2),
                        },
                        payload_start: ihl,
                        payload_end: ihl + be16(t, 4),
                    },
                )
            }
        } else {
            Err(DropReason::UnsupportedProtocol)
        }
    }
}

/// Validates and classifies one IPv4 packet (bytes from the IP header on).
pub fn classify<'a>(packet: &'a [u8], timestamp: u64) -> (r: Result<PacketMeta<'a>, DropReason>)
    ensures
        match r {
            Ok(m) => match classify_spec(packet@) {
                Ok(c) => {
                    &&& m.network == c.network
                    &&& m.transport == c.transport
                    &&& m.payload@ == packet@.subrange(c.payload_start, c.payload_end)
                    &&& m.timestamp == timestamp
                },
                Err(_) => false,
            },
            Err(e) => classify_spec(packet@) == Err::<Classified, DropReason>(e),
        },
{
    if packet.len() < MIN_PACKET_LEN {
        return Err(DropReason::TooShort);
    }
    if packet[0] / 16 != 4 {
        return Err(DropReason::UnsupportedVersion);
    }
    let ihl: usize = (packet[0] % 16) as usize * 4;
    if ihl < 20 || ihl > packet.len() {
        return Err(DropReason::BadHeaderLength);
    }
    let total = read_be16(packet, 2) as usize;
    if total < ihl || total > packet.len() {
        return Err(DropReason::BadTotalLength);
    }
    let source_ip = read_be32(packet, 12);
    let destination_ip = read_be32(packet, 16);
    let flags = IPv4Flags::new(packet[6] / 32);
    let offset_field = read_be16(packet, 6) % 8192;
    let transport_data = &packet[ihl..total];
    if flags.is_more_fragments() || offset_field != 0 {
        return Ok(
            PacketMeta {
                timestamp,
                network: NetworkMeta::IPv4Fragment {
                    source_ip,
                    destination_ip,
                    identifier: read_be16(packet, 4),
                    flags,
                    offset: 8 * offset_field as usize,
                },
                transport: TransportMeta::Pending,
                payload: transport_data,
            },
        );
    }
    let network = NetworkMeta::IPv4 { source_ip, destination_ip, flags };
    let protocol = packet[9];
    if protocol == 6 {
        if transport_data.len() < 20 {
            return Err(DropReason::TruncatedTransport);
        }
        let data_offset: usize = (transport_data[12] / 16) as usize * 4;
        if data_offset < 20 || data_offset > transport_data.len() {
            return Err(DropReason::BadTcpHeaderLength);
        }
        Ok(
            PacketMeta {
                timestamp,
                network,
                transport: TransportMeta::TCP {
                    source_port: read_be16(transport_data, 0),
                    destination_port: read_be16(transport_data, 2),
                    flags: TcpFlags::new(transport_data[13]),
                },
                payload: transport_data,
            },
        )
    } else if protocol == 17 {
        if transport_data.len() < 8 {
            return Err(DropReason::TruncatedTransport);
        }
        let length = read_be16(transport_data, 4) as usize;
        if length > transport_data.len() {
            return Err(DropReason::BadUdpLength);
        }
        Ok(
            PacketMeta {
                timestamp,
                network,
                transport: TransportMeta::UDP {
                    source_port: read_be16(transport_data, 0),
                    destination_port: read_be16(transport_data, 2),
                },
                payload: &packet[ihl..ihl + length],
            },
        )
    } else {
        Err(DropReason::UnsupportedProtocol)
    }
}

} // verus!
