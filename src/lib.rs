//! Passive monitoring of network conversations: IPv4 classification, a
//! bidirectional session registry, and per-session TCP/UDP tracking.
pub mod monitor;
pub mod session;
pub mod sip;
pub mod tcp;
pub mod tcp_options;
pub mod udp;
pub mod wire;

pub use monitor::FlowMon;
pub use session::{
    Session, SessionInfo, SessionKey, SessionStats, SessionTuple, TransportSession,
};
pub use wire::{IPv4Flags, NetworkMeta, PacketDirection, PacketMeta, TcpFlags, TransportMeta};
