//! A SOCKS5 proxy endpoint without the sockets: the address codec, the
//! handshake and request negotiation, and the decisions of the relay, each a
//! function on bytes or on states with a proved contract.

pub mod error;
pub mod source;
pub mod address;
pub mod socks5;
pub mod relay;
