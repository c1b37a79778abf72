//! Why a session is dropped.

use vstd::prelude::*;

verus! {

/// A fault in what the client sent. Every one of them ends the session.
#[derive(Clone, Copy, Debug, PartialEq, Eq, Structural)]
pub enum ProtocolError {
    /// The version octet is not 5.
    BadVersion,
    /// The command octet is none of CONNECT, BIND, UDP ASSOCIATE.
    UnsupportedCommand,
    /// The address type octet is none of IPv4, domain name, IPv6.
    UnsupportedAddressType,
    /// A domain label that is not UTF-8, or a name too long for its length octet.
    MalformedAddress,
    /// The bytes ended before the field did.
    Truncated,
}

} // verus!
