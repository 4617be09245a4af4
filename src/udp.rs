//! Per-session UDP tracking: direction-aware delivery counts. Request and
//! response pairing would build on this tracker.
use vstd::prelude::*;
use crate::wire::PacketDirection;

verus! {

/// Datagrams one host has sent.
#[derive(Clone, Copy, PartialEq, Eq, Structural, Debug)]
pub struct UdpHostStats {
    pub datagrams: u64,
}

impl UdpHostStats {
    pub fn new() -> (r: Self)
        ensures
            r.datagrams == 0,
    {
        Self { datagrams: 0 }
    }
}

#[derive(Clone, Copy, PartialEq, Eq, Structural, Debug)]
pub enum UdpState {
    Init,
}

#[derive(Clone, Copy, PartialEq, Eq, Structural, Debug)]
pub struct UdpSession {
    pub client_stats: UdpHostStats,
    pub server_stats: UdpHostStats,
    pub state: UdpState,
}

impl UdpSession {
    pub open spec fn initial() -> Self {
        UdpSession {
            client_stats: UdpHostStats { datagrams: 0 },
            server_stats: UdpHostStats { datagrams: 0 },
            state: UdpState::Init,
        }
    }

    /// The session after one datagram sent in direction `dir`.
    pub open spec fn after_datagram(self, dir: PacketDirection) -> Self {
        match dir {
            PacketDirection::ClientToServer => UdpSession {
                client_stats: UdpHostStats {
                    datagrams: self.client_stats.datagrams.saturating_add(1),
                },
                ..self
            },
            PacketDirection::ServerToClient => UdpSession {
                server_stats: UdpHostStats {
                    datagrams: self.server_stats.datagrams.saturating_add(1),
                },
                ..self
            },
        }
    }

    pub fn new() -> (r: Self)
        ensures
            r == Self::initial(),
    {
        UdpSession {
            client_stats: UdpHostStats::new(),
            server_stats: UdpHostStats::new(),
            state: UdpState::Init,
        }
    }

    pub fn process_packet(&mut self, buffer: &[u8], direction: PacketDirection)
        ensures
            *final(self) == old(self).after_datagram(direction),
    {
        match direction {
            PacketDirection::ClientToServer => {
                self.client_stats.datagrams = self.client_stats.datagrams.saturating_add(1);
            },
            PacketDirection::ServerToClient => {
                self.server_stats.datagrams = self.server_stats.datagrams.saturating_add(1);
            },
        }
    }
}

} // verus!
