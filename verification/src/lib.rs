//! Cobweb: the decision logic of a small VPN suite (address handling, the
//! node information exchanged over RPC, the key exchange steps, the packet
//! codecs and the client's connection sequence), verified with Verus.

pub mod text;
pub mod addr;
pub mod rpc;
pub mod tun;
pub mod sec;
pub mod vpn;
pub mod proxy;
