//! Per-session TCP tracking: segment decoding and the connection state machine.
//!
//! The transition model is `TcpSession::after_segment`; the executable
//! handlers are proved to compute exactly it. "Client" is the endpoint that
//! sent the first packet the monitor saw for the session.
use vstd::prelude::*;
use crate::tcp_options::{parse_options, parse_spec, OptionsView, ParsedOptionSet, TcpOption};
use crate::wire::{be16, be32, read_be16, read_be32, PacketDirection};

verus! {

/// Sequence number `n` bytes after `seq`, modulo 2^32.
pub open spec fn seq_advance(seq: u32, n: nat) -> u32 {
    seq.wrapping_add((n % 0x1_0000_0000) as u32)
}

/// `a` is at or before `b` in sequence space (within half the number circle).
pub open spec fn seq_le(a: u32, b: u32) -> bool {
    b.wrapping_sub(a) < 0x8000_0000
}

/// `a` is strictly before `b` in sequence space.
pub open spec fn seq_lt(a: u32, b: u32) -> bool {
    a != b && seq_le(a, b)
}

fn advance(seq: u32, n: usize) -> (r: u32)
    ensures
        r == seq_advance(seq, n as nat),
{
    seq.wrapping_add(((n as u64) % 0x1_0000_0000) as u32)
}

fn before_or_at(a: u32, b: u32) -> (r: bool)
    ensures
        r == seq_le(a, b),
{
    b.wrapping_sub(a) < 0x8000_0000
}

/// The window scale that a list of options announces: the first
/// `WindowScale` option, or zero when there is none.
pub open spec fn window_scale_of(opts: Seq<TcpOption>) -> u8
    decreases opts.len(),
{
    if opts.len() == 0 {
        0
    } else {
        match opts[0] {
            TcpOption::WindowScale { scale } => scale,
            _ => window_scale_of(opts.drop_first()),
        }
    }
}

impl ParsedOptionSet {
    pub fn window_scale(&self) -> (r: u8)
        ensures
            r == window_scale_of(self.options@),
    {
        let mut i: usize = 0;
        assert(self.options@.subrange(0, self.options@.len() as int) =~= self.options@);
        while i < self.options.len()
            invariant
                i <= self.options@.len(),
                window_scale_of(self.options@) == window_scale_of(self.options@.subrange(i as int, self.options@.len() as int)),
            decreases self.options@.len() - i,
        {
            let ghost rest = self.options@.subrange(i as int, self.options@.len() as int);
            assert(rest.drop_first() =~= self.options@.subrange(i + 1, self.options@.len() as int));
            match self.options[i] {
                TcpOption::WindowScale { scale } => {
                    return scale;
                },
                _ => {},
            }
            i = i + 1;
        }
        0
    }
}

/// Decoded fields of one segment.
pub struct SegmentView {
    pub seq_no: u32,
    pub ack_no: u32,
    pub window: u16,
    pub urgent: u16,
    pub flags: u8,
    pub header_len: nat,
    pub payload_len: nat,
    pub options: OptionsView,
}

impl SegmentView {
    pub open spec fn fin(self) -> bool {
        self.flags & 0x01 != 0
    }

    pub open spec fn syn(self) -> bool {
        self.flags & 0x02 != 0
    }

    pub open spec fn rst(self) -> bool {
        self.flags & 0x04 != 0
    }

    pub open spec fn ack(self) -> bool {
        self.flags & 0x10 != 0
    }

    pub open spec fn window_scale(self) -> u8 {
        window_scale_of(self.options.options)
    }
}

/// Header length that the data-offset field of a TCP header declares.
pub open spec fn tcp_header_len(b: Seq<u8>) -> int {
    (b[12] / 16) as int * 4
}

/// The segment that `b` holds, or `None` when it is malformed: shorter than a
/// header, or with a declared header length under 20 or beyond its end.
pub open spec fn segment_of(b: Seq<u8>) -> Option<SegmentView> {
    if b.len() < 20 {
        None
    } else {
        let off = tcp_header_len(b);
        if off < 20 || off > b.len() {
            None
        } else {
            Some(
                SegmentView {
                    seq_no: be32(b, 4),
                    ack_no: be32(b, 8),
                    window: be16(b, 14),
                    urgent: be16(b, 18),
                    flags: b[13],
                    header_len: off as nat,
                    payload_len: (b.len() - off) as nat,
                    options: parse_spec(b.subrange(20, off)),
                },
            )
        }
    }
}

/// One decoded segment, as the state machine consumes it.
pub struct TcpPacketInput {
    pub direction: PacketDirection,
    pub seq_no: u32,
    pub ack_no: u32,
    pub window: u16,
    pub urgent: u16,
    pub flags: u8,
    pub payload_offset: usize,
    pub payload_len: usize,
    pub options: ParsedOptionSet,
}

impl View for TcpPacketInput {
    type V = SegmentView;

    open spec fn view(&self) -> SegmentView {
        SegmentView {
            seq_no: self.seq_no,
            ack_no: self.ack_no,
            window: self.window,
            urgent: self.urgent,
            flags: self.flags,
            header_len: self.payload_offset as nat,
            payload_len: self.payload_len as nat,
            options: self.options@,
        }
    }
}

impl TcpPacketInput {
    /// Decodes a TCP header and its options; `None` for a malformed segment.
    pub fn from_buffer(direction: PacketDirection, buffer: &[u8]) -> (r: Option<TcpPacketInput>)
        ensures
            match r {
                Some(seg) => segment_of(buffer@) == Some(seg@) && seg.direction == direction,
                None => segment_of(buffer@) is None,
            },
    {
        if buffer.len() < 20 {
            return None;
        }
        let data_offset: usize = (buffer[12] / 16) as usize * 4;
        if data_offset < 20 || data_offset > buffer.len() {
            return None;
        }
        let options = parse_options(&buffer[20..data_offset]);
        Some(
            TcpPacketInput {
                direction,
                seq_no: read_be32(buffer, 4),
                ack_no: read_be32(buffer, 8),
                window: read_be16(buffer, 14),
                urgent: read_be16(buffer, 18),
                flags: buffer[13],
                payload_offset: data_offset,
                payload_len: buffer.len() - data_offset,
                options,
            },
        )
    }

    /// The acknowledgment number, when the ACK flag makes it meaningful.
    pub fn ack_no(&self) -> (r: Option<u32>)
        ensures
            r == (if self@.ack() { Some(self.ack_no) } else { None::<u32> }),
    {
        if self.ack() {
            Some(self.ack_no)
        } else {
            None
        }
    }

    /// The urgent pointer, when the URG flag makes it meaningful.
    pub fn urgent_ptr(&self) -> (r: Option<u16>)
        ensures
            r == (if self.flags & 0x20 != 0 { Some(self.urgent) } else { None::<u16> }),
    {
        if self.urg() {
            Some(self.urgent)
        } else {
            None
        }
    }

    pub fn cwr(&self) -> (r: bool)
        ensures
            r == (self.flags & 0x80 != 0),
    {
        self.flags & 0x80 != 0
    }

    pub fn ece(&self) -> (r: bool)
        ensures
            r == (self.flags & 0x40 != 0),
    {
        self.flags & 0x40 != 0
    }

    pub fn urg(&self) -> (r: bool)
        ensures
            r == (self.flags & 0x20 != 0),
    {
        self.flags & 0x20 != 0
    }

    pub fn ack(&self) -> (r: bool)
        ensures
            r == self@.ack(),
    {
        self.flags & 0x10 != 0
    }

    pub fn psh(&self) -> (r: bool)
        ensures
            r == (self.flags & 0x08 != 0),
    {
        self.flags & 0x08 != 0
    }

    pub fn rst(&self) -> (r: bool)
        ensures
            r == self@.rst(),
    {
        self.flags & 0x04 != 0
    }

    pub fn syn(&self) -> (r: bool)
        ensures
            r == self@.syn(),
    {
        self.flags & 0x02 != 0
    }

    pub fn fin(&self) -> (r: bool)
        ensures
            r == self@.fin(),
    {
        self.flags & 0x01 != 0
    }
}


/// Sequence progress of one host, once the connection is established.
#[derive(Clone, Copy, PartialEq, Eq, Structural, Debug)]
pub struct TcpHostSeq {
    /// Sequence number of the host's most recent segment.
    pub seq_no: u32,
    /// Sequence number the host's next new data will carry.
    pub next_seq_no: u32,
    /// Most recent acknowledgment number the host sent.
    pub ack_no: u32,
    /// Window the host most recently advertised.
    pub window_size: u16,
    /// Window scale the host announced in its SYN.
    pub window_scale: u8,
}

/// Connection state; each variant holds the fields that are meaningful in it.
#[derive(Clone, Copy, PartialEq, Eq, Structural, Debug)]
pub enum TcpState {
    /// No SYN seen yet.
    Listen,
    /// The client's SYN was seen.
    SynSent {
        client_seq_no: u32,
        client_next_seq_no: u32,
        client_window_size: u16,
        client_window_scale: u8,
    },
    /// The server's SYN-ACK was seen.
    SynReceived {
        client_seq_no: u32,
        client_next_seq_no: u32,
        client_window_size: u16,
        client_window_scale: u8,
        server_seq_no: u32,
        server_next_seq_no: u32,
        server_ack_no: u32,
        server_window_size: u16,
        server_window_scale: u8,
    },
    /// The handshake completed.
    Established { client: TcpHostSeq, server: TcpHostSeq },
    /// The client sent a FIN; the server side is still open.
    ClientFinWait { client: TcpHostSeq, server: TcpHostSeq },
    /// The server sent a FIN; the client side is still open.
    ServerFinWait { client: TcpHostSeq, server: TcpHostSeq },
    /// Both sides sent a FIN; the last ACK is expected from `awaiting_ack_from`.
    Closing { awaiting_ack_from: PacketDirection },
    /// Terminal.
    Closed,
}

/// Counters of one host (the sender of the segments counted).
#[derive(Clone, Copy, PartialEq, Eq, Structural, Debug)]
pub struct TcpHostStats {
    pub syn_count: u8,
    pub syn_rexmit_count: u8,
    pub rst_count: u8,
    pub rst_rexmit_count: u8,
    pub rexmit_count: u32,
    pub rexmit_bytes: u64,
}

impl TcpHostStats {
    pub open spec fn zero() -> Self {
        TcpHostStats {
            syn_count: 0,
            syn_rexmit_count: 0,
            rst_count: 0,
            rst_rexmit_count: 0,
            rexmit_count: 0,
            rexmit_bytes: 0,
        }
    }

    pub open spec fn counted_syn(self) -> Self {
        TcpHostStats { syn_count: self.syn_count.saturating_add(1), ..self }
    }

    pub open spec fn counted_syn_rexmit(self) -> Self {
        TcpHostStats { syn_rexmit_count: self.syn_rexmit_count.saturating_add(1), ..self }
    }

    pub open spec fn counted_rst(self) -> Self {
        TcpHostStats { rst_count: self.rst_count.saturating_add(1), ..self }
    }

    pub open spec fn counted_rst_rexmit(self) -> Self {
        TcpHostStats { rst_rexmit_count: self.rst_rexmit_count.saturating_add(1), ..self }
    }

    pub open spec fn counted_rexmit(self, bytes: u64) -> Self {
        TcpHostStats {
            rexmit_count: self.rexmit_count.saturating_add(1),
            rexmit_bytes: self.rexmit_bytes.saturating_add(bytes),
            ..self
        }
    }

    pub fn new() -> (r: Self)
        ensures
            r == Self::zero(),
    {
        Self {
            syn_count: 0,
            syn_rexmit_count: 0,
            rst_count: 0,
            rst_rexmit_count: 0,
            rexmit_count: 0,
            rexmit_bytes: 0,
        }
    }
}

/// Whether a segment from a host resends bytes already accounted for: it
/// carries payload, ends at or before the host's next sequence number, and
/// starts at or before what the peer has acknowledged.
pub open spec fn is_retransmission(mine: TcpHostSeq, peer: TcpHostSeq, seg: SegmentView) -> bool {
    &&& seg.payload_len > 0
    &&& seq_le(seq_advance(seg.seq_no, seg.payload_len), mine.next_seq_no)
    &&& seq_le(seg.seq_no, peer.ack_no)
}

/// A host's progress after it sent `seg` (new data, a pure ACK or a FIN).
pub open spec fn advanced_host(mine: TcpHostSeq, seg: SegmentView) -> TcpHostSeq {
    let data_end = seq_advance(seg.seq_no, seg.payload_len);
    let end = if seg.fin() { seq_advance(data_end, 1) } else { data_end };
    TcpHostSeq {
        seq_no: seg.seq_no,
        next_seq_no: if seq_lt(mine.next_seq_no, end) { end } else { mine.next_seq_no },
        ack_no: if seg.ack() { seg.ack_no } else { mine.ack_no },
        window_size: seg.window,
        window_scale: mine.window_scale,
    }
}

/// The state that follows a non-retransmitted segment in a state that tracks
/// sequence numbers, with the trackers already advanced to `c` and `s`.
pub open spec fn next_tracked_state(
    state: TcpState,
    dir: PacketDirection,
    seg: SegmentView,
    c: TcpHostSeq,
    s: TcpHostSeq,
) -> TcpState {
    match state {
        TcpState::Established { .. } => {
            if seg.fin() {
                match dir {
                    PacketDirection::ClientToServer => TcpState::ClientFinWait { client: c, server: s },
                    PacketDirection::ServerToClient => TcpState::ServerFinWait { client: c, server: s },
                }
            } else {
                TcpState::Established { client: c, server: s }
            }
        },
        TcpState::ClientFinWait { .. } => {
            if dir == PacketDirection::ServerToClient && seg.fin() && seg.ack() {
                TcpState::Closing { awaiting_ack_from: PacketDirection::ClientToServer }
            } else {
                TcpState::ClientFinWait { client: c, server: s }
            }
        },
        TcpState::ServerFinWait { .. } => {
            if dir == PacketDirection::ClientToServer && seg.fin() && seg.ack() {
                TcpState::Closing { awaiting_ack_from: PacketDirection::ServerToClient }
            } else {
                TcpState::ServerFinWait { client: c, server: s }
            }
        },
        _ => state,
    }
}

/// Trackers for a connection first seen through the ACK segment `seg`: the
/// sender's from the segment, the peer's from what the segment acknowledges.
pub open spec fn attached_state(dir: PacketDirection, seg: SegmentView) -> TcpState {
    let sender = TcpHostSeq {
        seq_no: seg.seq_no,
        next_seq_no: seq_advance(seg.seq_no, seg.payload_len),
        ack_no: seg.ack_no,
        window_size: seg.window,
        window_scale: 0,
    };
    let peer = TcpHostSeq {
        seq_no: seg.ack_no,
        next_seq_no: seg.ack_no,
        ack_no: seg.seq_no,
        window_size: 0,
        window_scale: 0,
    };
    match dir {
        PacketDirection::ClientToServer => TcpState::Established { client: sender, server: peer },
        PacketDirection::ServerToClient => TcpState::Established { client: peer, server: sender },
    }
}

/// Tracker of one TCP conversation.
#[derive(Clone, Copy, PartialEq, Eq, Structural, Debug)]
pub struct TcpSession {
    pub client_stats: TcpHostStats,
    pub server_stats: TcpHostStats,
    pub state: TcpState,
    /// Segments whose flags or sequence numbers did not fit the state.
    pub anomalies: u32,
}

impl TcpSession {
    pub open spec fn initial() -> Self {
        TcpSession {
            client_stats: TcpHostStats::zero(),
            server_stats: TcpHostStats::zero(),
            state: TcpState::Listen,
            anomalies: 0,
        }
    }

    pub open spec fn sender_stats(self, dir: PacketDirection) -> TcpHostStats {
        match dir {
            PacketDirection::ClientToServer => self.client_stats,
            PacketDirection::ServerToClient => self.server_stats,
        }
    }

    pub open spec fn with_sender_stats(self, dir: PacketDirection, st: TcpHostStats) -> Self {
        match dir {
            PacketDirection::ClientToServer => TcpSession { client_stats: st, ..self },
            PacketDirection::ServerToClient => TcpSession { server_stats: st, ..self },
        }
    }

    pub open spec fn with_anomaly(self) -> Self {
        TcpSession { anomalies: self.anomalies.saturating_add(1), ..self }
    }

    pub open spec fn with_state(self, state: TcpState) -> Self {
        TcpSession { state, ..self }
    }

    /// A RST closes any state and counts for its sender; in `Closed`, a RST
    /// from a host that already sent one counts as a RST retransmission.
    pub open spec fn on_reset(self, dir: PacketDirection) -> Self {
        let st = self.sender_stats(dir);
        if self.state is Closed {
            if st.rst_count > 0 {
                self.with_sender_stats(dir, st.counted_rst_rexmit())
            } else {
                self.with_sender_stats(dir, st.counted_rst())
            }
        } else {
            self.with_sender_stats(dir, st.counted_rst()).with_state(TcpState::Closed)
        }
    }

    /// In `Listen`, a SYN from the client opens the handshake. A plain ACK
    /// segment means the monitor attached to a connection already under way:
    /// tracking starts in `Established` from what that segment shows.
    pub open spec fn on_listen(self, dir: PacketDirection, seg: SegmentView) -> Self {
        if !seg.syn() {
            if seg.ack() && !seg.fin() {
                self.with_state(attached_state(dir, seg))
            } else {
                self
            }
        } else if dir == PacketDirection::ClientToServer && !seg.ack() {
            self.with_sender_stats(dir, self.client_stats.counted_syn()).with_state(
                TcpState::SynSent {
                    client_seq_no: seg.seq_no,
                    client_next_seq_no: seq_advance(seq_advance(seg.seq_no, seg.payload_len), 1),
                    client_window_size: seg.window,
                    client_window_scale: seg.window_scale(),
                },
            )
        } else {
            self.with_anomaly()
        }
    }

    pub open spec fn on_syn_sent(self, dir: PacketDirection, seg: SegmentView) -> Self {
        if !seg.syn() {
            self
        } else if dir == PacketDirection::ServerToClient && seg.ack() {
            match self.state {
                TcpState::SynSent {
                    client_seq_no,
                    client_next_seq_no,
                    client_window_size,
                    client_window_scale,
                } => self.with_sender_stats(dir, self.server_stats.counted_syn()).with_state(
                    TcpState::SynReceived {
                        client_seq_no,
                        client_next_seq_no,
                        client_window_size,
                        client_window_scale,
                        server_seq_no: seg.seq_no,
                        server_next_seq_no: seq_advance(seq_advance(seg.seq_no, seg.payload_len), 1),
                        server_ack_no: seg.ack_no,
                        server_window_size: seg.window,
                        server_window_scale: seg.window_scale(),
                    },
                ),
                _ => self,
            }
        } else if dir == PacketDirection::ClientToServer && !seg.ack() {
            self.with_sender_stats(dir, self.client_stats.counted_syn_rexmit())
        } else {
            self.with_anomaly()
        }
    }

    pub open spec fn on_syn_received(self, dir: PacketDirection, seg: SegmentView) -> Self {
        match self.state {
            TcpState::SynReceived {
                client_seq_no,
                client_next_seq_no,
                client_window_size,
                client_window_scale,
                server_seq_no,
                server_next_seq_no,
                server_ack_no,
                server_window_size,
                server_window_scale,
            } => {
                if seg.syn() {
                    if dir == PacketDirection::ServerToClient && seg.ack() {
                        self.with_sender_stats(dir, self.server_stats.counted_syn_rexmit())
                    } else if dir == PacketDirection::ClientToServer && !seg.ack() {
                        self.with_sender_stats(dir, self.client_stats.counted_syn_rexmit())
                    } else {
                        self.with_anomaly()
                    }
                } else if dir == PacketDirection::ClientToServer && seg.ack() {
                    if seg.ack_no == server_next_seq_no {
                        self.with_state(
                            TcpState::Established {
                                client: TcpHostSeq {
                                    seq_no: seg.seq_no,
                                    next_seq_no: seq_advance(seg.seq_no, seg.payload_len),
                                    ack_no: seg.ack_no,
                                    window_size: seg.window,
                                    window_scale: client_window_scale,
                                },
                                server: TcpHostSeq {
                                    seq_no: server_seq_no,
                                    next_seq_no: server_next_seq_no,
                                    ack_no: server_ack_no,
                                    window_size: server_window_size,
                                    window_scale: server_window_scale,
                                },
                            },
                        )
                    } else {
                        self.with_anomaly()
                    }
                } else {
                    self
                }
            },
            _ => self,
        }
    }

    /// A segment in `Established` or one of the FIN-wait states. Resent data
    /// only counts as a retransmission and leaves the trackers alone, unless
    /// the segment also carries a FIN, which advances the close either way.
    pub open spec fn on_tracked(
        self,
        dir: PacketDirection,
        seg: SegmentView,
        client: TcpHostSeq,
        server: TcpHostSeq,
    ) -> Self {
        if seg.syn() {
            self.with_anomaly()
        } else {
            let mine = if dir == PacketDirection::ClientToServer { client } else { server };
            let peer = if dir == PacketDirection::ClientToServer { server } else { client };
            let c = if dir == PacketDirection::ClientToServer {
                advanced_host(client, seg)
            } else {
                client
            };
            let s = if dir == PacketDirection::ServerToClient {
                advanced_host(server, seg)
            } else {
                server
            };
            if is_retransmission(mine, peer, seg) {
                let counted = self.with_sender_stats(
                    dir,
                    self.sender_stats(dir).counted_rexmit(seg.payload_len as u64),
                );
                if seg.fin() {
                    counted.with_state(next_tracked_state(self.state, dir, seg, c, s))
                } else {
                    counted
                }
            } else {
                self.with_state(next_tracked_state(self.state, dir, seg, c, s))
            }
        }
    }

    pub open spec fn on_closing(self, dir: PacketDirection, seg: SegmentView) -> Self {
        match self.state {
            TcpState::Closing { awaiting_ack_from } => {
                if seg.syn() {
                    self.with_anomaly()
                } else if dir == awaiting_ack_from && seg.ack() {
                    self.with_state(TcpState::Closed)
                } else {
                    self
                }
            },
            _ => self,
        }
    }

    /// The session after a decoded segment travelling in direction `dir`.
    pub open spec fn after_segment(self, dir: PacketDirection, seg: SegmentView) -> Self {
        if seg.rst() {
            self.on_reset(dir)
        } else {
            match self.state {
                TcpState::Listen => self.on_listen(dir, seg),
                TcpState::SynSent { .. } => self.on_syn_sent(dir, seg),
                TcpState::SynReceived { .. } => self.on_syn_received(dir, seg),
                TcpState::Established { client, server } => self.on_tracked(dir, seg, client, server),
                TcpState::ClientFinWait { client, server } => self.on_tracked(dir, seg, client, server),
                TcpState::ServerFinWait { client, server } => self.on_tracked(dir, seg, client, server),
                TcpState::Closing { .. } => self.on_closing(dir, seg),
                TcpState::Closed => self,
            }
        }
    }

    /// The session after the raw segment `b`; a malformed segment changes nothing.
    pub open spec fn after_bytes(self, dir: PacketDirection, b: Seq<u8>) -> Self {
        match segment_of(b) {
            Some(seg) => self.after_segment(dir, seg),
            None => self,
        }
    }
}


impl TcpHostStats {
    fn with_syn(self) -> (r: Self)
        ensures
            r == self.counted_syn(),
    {
        TcpHostStats { syn_count: self.syn_count.saturating_add(1), ..self }
    }

    fn with_syn_rexmit(self) -> (r: Self)
        ensures
            r == self.counted_syn_rexmit(),
    {
        TcpHostStats { syn_rexmit_count: self.syn_rexmit_count.saturating_add(1), ..self }
    }

    fn with_rst(self) -> (r: Self)
        ensures
            r == self.counted_rst(),
    {
        TcpHostStats { rst_count: self.rst_count.saturating_add(1), ..self }
    }

    fn with_rst_rexmit(self) -> (r: Self)
        ensures
            r == self.counted_rst_rexmit(),
    {
        TcpHostStats { rst_rexmit_count: self.rst_rexmit_count.saturating_add(1), ..self }
    }

    fn with_rexmit(self, bytes: u64) -> (r: Self)
        ensures
            r == self.counted_rexmit(bytes),
    {
        TcpHostStats {
            rexmit_count: self.rexmit_count.saturating_add(1),
            rexmit_bytes: self.rexmit_bytes.saturating_add(bytes),
            ..self
        }
    }
}

fn retransmits(mine: TcpHostSeq, peer: TcpHostSeq, seg: &TcpPacketInput) -> (r: bool)
    ensures
        r == is_retransmission(mine, peer, seg@),
{
    seg.payload_len > 0 && before_or_at(advance(seg.seq_no, seg.payload_len), mine.next_seq_no)
        && before_or_at(seg.seq_no, peer.ack_no)
}

fn advance_host(mine: TcpHostSeq, seg: &TcpPacketInput) -> (r: TcpHostSeq)
    ensures
        r == advanced_host(mine, seg@),
{
    let data_end = advance(seg.seq_no, seg.payload_len);
    let end = if seg.fin() {
        advance(data_end, 1)
    } else {
        data_end
    };
    let next_seq_no = if mine.next_seq_no != end && before_or_at(mine.next_seq_no, end) {
        end
    } else {
        mine.next_seq_no
    };
    TcpHostSeq {
        seq_no: seg.seq_no,
        next_seq_no,
        ack_no: if seg.ack() {
            seg.ack_no
        } else {
            mine.ack_no
        },
        window_size: seg.window,
        window_scale: mine.window_scale,
    }
}

fn next_tracked(
    state: TcpState,
    dir: PacketDirection,
    seg: &TcpPacketInput,
    c: TcpHostSeq,
    s: TcpHostSeq,
) -> (r: TcpState)
    ensures
        r == next_tracked_state(state, dir, seg@, c, s),
{
    match state {
        TcpState::Established { .. } => {
            if seg.fin() {
                match dir {
                    PacketDirection::ClientToServer => TcpState::ClientFinWait { client: c, server: s },
                    PacketDirection::ServerToClient => TcpState::ServerFinWait { client: c, server: s },
                }
            } else {
                TcpState::Established { client: c, server: s }
            }
        },
        TcpState::ClientFinWait { .. } => {
            if dir == PacketDirection::ServerToClient && seg.fin() && seg.ack() {
                TcpState::Closing { awaiting_ack_from: PacketDirection::ClientToServer }
            } else {
                TcpState::ClientFinWait { client: c, server: s }
            }
        },
        TcpState::ServerFinWait { .. } => {
            if dir == PacketDirection::ClientToServer && seg.fin() && seg.ack() {
                TcpState::Closing { awaiting_ack_from: PacketDirection::ServerToClient }
            } else {
                TcpState::ServerFinWait { client: c, server: s }
            }
        },
        _ => state,
    }
}

fn attach(dir: PacketDirection, seg: &TcpPacketInput) -> (r: TcpState)
    ensures
        r == attached_state(dir, seg@),
{
    let sender = TcpHostSeq {
        seq_no: seg.seq_no,
        next_seq_no: advance(seg.seq_no, seg.payload_len),
        ack_no: seg.ack_no,
        window_size: seg.window,
        window_scale: 0,
    };
    let peer = TcpHostSeq {
        seq_no: seg.ack_no,
        next_seq_no: seg.ack_no,
        ack_no: seg.seq_no,
        window_size: 0,
        window_scale: 0,
    };
    match dir {
        PacketDirection::ClientToServer => TcpState::Established { client: sender, server: peer },
        PacketDirection::ServerToClient => TcpState::Established { client: peer, server: sender },
    }
}

impl TcpSession {
    pub fn new() -> (r: Self)
        ensures
            r == Self::initial(),
    {
        Self {
            client_stats: TcpHostStats::new(),
            server_stats: TcpHostStats::new(),
            state: TcpState::Listen,
            anomalies: 0,
        }
    }

    fn stats_of(&self, dir: PacketDirection) -> (r: TcpHostStats)
        ensures
            r == self.sender_stats(dir),
    {
        match dir {
            PacketDirection::ClientToServer => self.client_stats,
            PacketDirection::ServerToClient => self.server_stats,
        }
    }

    fn set_stats(&mut self, dir: PacketDirection, st: TcpHostStats)
        ensures
            *final(self) == old(self).with_sender_stats(dir, st),
    {
        match dir {
            PacketDirection::ClientToServer => self.client_stats = st,
            PacketDirection::ServerToClient => self.server_stats = st,
        }
    }

    fn note_anomaly(&mut self)
        ensures
            *final(self) == old(self).with_anomaly(),
    {
        self.anomalies = self.anomalies.saturating_add(1);
    }

    fn process_reset(&mut self, dir: PacketDirection)
        ensures
            *final(self) == old(self).on_reset(dir),
    {
        let st = self.stats_of(dir);
        match self.state {
            TcpState::Closed => {
                if st.rst_count > 0 {
                    self.set_stats(dir, st.with_rst_rexmit());
                } else {
                    self.set_stats(dir, st.with_rst());
                }
            },
            _ => {
                self.set_stats(dir, st.with_rst());
                self.state = TcpState::Closed;
            },
        }
    }

    fn process_listen(&mut self, dir: PacketDirection, seg: &TcpPacketInput)
        ensures
            *final(self) == old(self).on_listen(dir, seg@),
    {
        if !seg.syn() {
            if seg.ack() && !seg.fin() {
                self.state = attach(dir, seg);
            }
            return;
        }
        if dir == PacketDirection::ClientToServer && !seg.ack() {
            let st = self.client_stats.with_syn();
            self.set_stats(dir, st);
            let scale = seg.options.window_scale();
            self.state = TcpState::SynSent {
                client_seq_no: seg.seq_no,
                client_next_seq_no: advance(advance(seg.seq_no, seg.payload_len), 1),
                client_window_size: seg.window,
                client_window_scale: scale,
            };
        } else {
            self.note_anomaly();
        }
    }

    fn process_syn_sent(&mut self, dir: PacketDirection, seg: &TcpPacketInput)
        ensures
            *final(self) == old(self).on_syn_sent(dir, seg@),
    {
        if !seg.syn() {
            return;
        }
        if dir == PacketDirection::ServerToClient && seg.ack() {
            match self.state {
                TcpState::SynSent {
                    client_seq_no,
                    client_next_seq_no,
                    client_window_size,
                    client_window_scale,
                } => {
                    let st = self.server_stats.with_syn();
                    self.set_stats(dir, st);
                    let scale = seg.options.window_scale();
                    self.state = TcpState::SynReceived {
                        client_seq_no,
                        client_next_seq_no,
                        client_window_size,
                        client_window_scale,
                        server_seq_no: seg.seq_no,
                        server_next_seq_no: advance(advance(seg.seq_no, seg.payload_len), 1),
                        server_ack_no: seg.ack_no,
                        server_window_size: seg.window,
                        server_window_scale: scale,
                    };
                },
                _ => {},
            }
        } else if dir == PacketDirection::ClientToServer && !seg.ack() {
            let st = self.client_stats.with_syn_rexmit();
            self.set_stats(dir, st);
        } else {
            self.note_anomaly();
        }
    }

    fn process_syn_received(&mut self, dir: PacketDirection, seg: &TcpPacketInput)
        ensures
            *final(self) == old(self).on_syn_received(dir, seg@),
    {
        match self.state {
            TcpState::SynReceived {
                client_window_scale,
                server_seq_no,
                server_next_seq_no,
                server_ack_no,
                server_window_size,
                server_window_scale,
                ..
            } => {
                if seg.syn() {
                    if dir == PacketDirection::ServerToClient && seg.ack() {
                        let st = self.server_stats.with_syn_rexmit();
                        self.set_stats(dir, st);
                    } else if dir == PacketDirection::ClientToServer && !seg.ack() {
                        let st = self.client_stats.with_syn_rexmit();
                        self.set_stats(dir, st);
                    } else {
                        self.note_anomaly();
                    }
                } else if dir == PacketDirection::ClientToServer && seg.ack() {
                    if seg.ack_no == server_next_seq_no {
                        self.state = TcpState::Established {
                            client: TcpHostSeq {
                                seq_no: seg.seq_no,
                                next_seq_no: advance(seg.seq_no, seg.payload_len),
                                ack_no: seg.ack_no,
                                window_size: seg.window,
                                window_scale: client_window_scale,
                            },
                            server: TcpHostSeq {
                                seq_no: server_seq_no,
                                next_seq_no: server_next_seq_no,
                                ack_no: server_ack_no,
                                window_size: server_window_size,
                                window_scale: server_window_scale,
                            },
                        };
                    } else {
                        self.note_anomaly();
                    }
                }
            },
            _ => {},
        }
    }

    /// Established and the two FIN-wait states share sequence tracking.
    fn process_established(
        &mut self,
        dir: PacketDirection,
        seg: &TcpPacketInput,
        client: TcpHostSeq,
        server: TcpHostSeq,
    )
        ensures
            *final(self) == old(self).on_tracked(dir, seg@, client, server),
    {
        if seg.syn() {
            self.note_anomaly();
            return;
        }
        let (mine, peer) = match dir {
            PacketDirection::ClientToServer => (client, server),
            PacketDirection::ServerToClient => (server, client),
        };
        let c = match dir {
            PacketDirection::ClientToServer => advance_host(client, seg),
            PacketDirection::ServerToClient => client,
        };
        let s = match dir {
            PacketDirection::ServerToClient => advance_host(server, seg),
            PacketDirection::ClientToServer => server,
        };
        if retransmits(mine, peer, seg) {
            let st = self.stats_of(dir).with_rexmit(seg.payload_len as u64);
            self.set_stats(dir, st);
            if seg.fin() {
                self.state = next_tracked(self.state, dir, seg, c, s);
            }
        } else {
            self.state = next_tracked(self.state, dir, seg, c, s);
        }
    }

    fn process_closing(&mut self, dir: PacketDirection, seg: &TcpPacketInput)
        ensures
            *final(self) == old(self).on_closing(dir, seg@),
    {
        match self.state {
            TcpState::Closing { awaiting_ack_from } => {
                if seg.syn() {
                    self.note_anomaly();
                } else if dir == awaiting_ack_from && seg.ack() {
                    self.state = TcpState::Closed;
                }
            },
            _ => {},
        }
    }

    /// Advances the session by one decoded segment.
    pub fn process_segment(&mut self, dir: PacketDirection, seg: &TcpPacketInput)
        ensures
            *final(self) == old(self).after_segment(dir, seg@),
    {
        if seg.rst() {
            self.process_reset(dir);
            return;
        }
        match self.state {
            TcpState::Listen => self.process_listen(dir, seg),
            TcpState::SynSent { .. } => self.process_syn_sent(dir, seg),
            TcpState::SynReceived { .. } => self.process_syn_received(dir, seg),
            TcpState::Established { client, server } => self.process_established(dir, seg, client, server),
            TcpState::ClientFinWait { client, server } => self.process_established(dir, seg, client, server),
            TcpState::ServerFinWait { client, server } => self.process_established(dir, seg, client, server),
            TcpState::Closing { .. } => self.process_closing(dir, seg),
            TcpState::Closed => {},
        }
    }

    /// Decodes a raw segment and advances the session; a malformed segment
    /// leaves the session as it was.
    pub fn process_packet(&mut self, buffer: &[u8], direction: PacketDirection)
        ensures
            *final(self) == old(self).after_bytes(direction, buffer@),
    {
        match TcpPacketInput::from_buffer(direction, buffer) {
            Some(seg) => self.process_segment(direction, &seg),
            None => {},
        }
    }
}


/// The session after the raw segments `segs`, each with its direction, in order.
pub open spec fn replay(s: TcpSession, segs: Seq<(PacketDirection, Seq<u8>)>) -> TcpSession
    decreases segs.len(),
{
    if segs.len() == 0 {
        s
    } else {
        replay(s.after_bytes(segs[0].0, segs[0].1), segs.drop_first())
    }
}

/// Replaying the same segments from a fresh session gives the same final
/// session every time: the tracker keeps no hidden state.
pub proof fn lemma_replay_deterministic(
    first: Seq<(PacketDirection, Seq<u8>)>,
    second: Seq<(PacketDirection, Seq<u8>)>,
)
    requires
        first == second,
    ensures
        replay(TcpSession::initial(), first) == replay(TcpSession::initial(), second),
{
}

/// In `Established`, `seg` from direction `dir` is plain data (no SYN, RST
/// or FIN) that resends bytes the peer has already acknowledged.
pub open spec fn resends_acknowledged_data(state: TcpState, dir: PacketDirection, seg: SegmentView) -> bool {
    match state {
        TcpState::Established { client, server } => {
            let mine = if dir == PacketDirection::ClientToServer { client } else { server };
            let peer = if dir == PacketDirection::ClientToServer { server } else { client };
            !seg.syn() && !seg.rst() && !seg.fin() && is_retransmission(mine, peer, seg)
        },
        _ => false,
    }
}

/// A duplicate of already-acknowledged data raises the sender's
/// retransmission count by one and its retransmitted bytes by the payload
/// length; the state, both trackers, the peer's counters and the anomaly
/// count stay as they were.
pub proof fn lemma_duplicate_segment_counted(s: TcpSession, dir: PacketDirection, b: Seq<u8>)
    requires
        segment_of(b) is Some,
        resends_acknowledged_data(s.state, dir, segment_of(b)->0),
    ensures
        s.after_bytes(dir, b) == s.with_sender_stats(
            dir,
            s.sender_stats(dir).counted_rexmit(segment_of(b)->0.payload_len as u64),
        ),
{
}

/// A RST in any state but `Closed` moves the session to `Closed`.
pub proof fn lemma_reset_closes(s: TcpSession, dir: PacketDirection, seg: SegmentView)
    requires
        seg.rst(),
    ensures
        s.after_segment(dir, seg).state is Closed,
{
}

/// Once `Closed`, no segment moves the session to another state.
pub proof fn lemma_closed_is_terminal(s: TcpSession, segs: Seq<(PacketDirection, Seq<u8>)>)
    requires
        s.state is Closed,
    ensures
        replay(s, segs).state is Closed,
    decreases segs.len(),
{
    if segs.len() > 0 {
        lemma_closed_is_terminal(s.after_bytes(segs[0].0, segs[0].1), segs.drop_first());
    }
}

} // verus!
