//! A peer-to-peer VPN: every IP packet read from a TUN device travels to the
//! other peer as one length-prefixed frame over a libp2p request-response
//! stream. This crate holds the verified core: the frame format, the decisions
//! of the tunnel's event loop and of its TUN tasks, and the connection budget.

pub mod consts;
pub mod frame;
pub mod connection;
pub mod session;
pub mod tun;
