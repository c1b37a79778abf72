//! The address field of a request or a reply: one octet that tells the kind
//! of address, the address itself, and a port in network byte order.

use crate::error::ProtocolError;
use crate::source::ByteSource;
use vstd::prelude::*;
use vstd::utf8::{decode_utf8, encode_utf8, valid_utf8};

verus! {

/// Address type octet of an IPv4 address.
pub const IPV4_ADDR: u8 = 0x1;

/// Address type octet of a domain name.
pub const DOMAIN_ADDR: u8 = 0x3;

/// Address type octet of an IPv6 address.
pub const IPV6_ADDR: u8 = 0x4;

/// Octets of an IPv4 address.
pub const IPV4_LEN: usize = 4;

/// Octets of an IPv6 address.
pub const IPV6_LEN: usize = 16;

/// Octets of a port.
pub const PORT_LEN: usize = 2;

/// The longest domain label that the length octet can announce.
pub const MAX_DOMAIN_LEN: usize = 255;

/// Where a request wants to go, or where a reply says the proxy is bound.
#[derive(Debug, PartialEq, Eq)]
pub enum TargetAddress {
    /// Four address octets and a port.
    IPv4([u8; 4], u16),
    /// Eight 16-bit groups and a port.
    IPv6([u16; 8], u16),
    /// A name, to be resolved by whoever connects, and a port.
    Domain(String, u16),
}

/// What a `TargetAddress` stands for.
pub enum AddressModel {
    IPv4(Seq<u8>, u16),
    IPv6(Seq<u16>, u16),
    Domain(Seq<char>, u16),
}

impl View for TargetAddress {
    type V = AddressModel;

    open spec fn view(&self) -> AddressModel {
        match *self {
            TargetAddress::IPv4(octets, port) => AddressModel::IPv4(octets@, port),
            TargetAddress::IPv6(groups, port) => AddressModel::IPv6(groups@, port),
            TargetAddress::Domain(name, port) => AddressModel::Domain(name@, port),
        }
    }
}

impl Clone for TargetAddress {
    fn clone(&self) -> (res: TargetAddress)
        ensures
            res@ == self@,
    {
        match self {
            TargetAddress::IPv4(octets, port) => TargetAddress::IPv4(*octets, *port),
            TargetAddress::IPv6(groups, port) => TargetAddress::IPv6(*groups, *port),
            TargetAddress::Domain(name, port) => TargetAddress::Domain(name.clone(), *port),
        }
    }
}

impl AddressModel {
    /// The address has the size of its kind, and a domain name fits the
    /// length octet.
    pub open spec fn encodable(self) -> bool {
        match self {
            AddressModel::IPv4(octets, _) => octets.len() == IPV4_LEN,
            AddressModel::IPv6(groups, _) => groups.len() == 8,
            AddressModel::Domain(name, _) => encode_utf8(name).len() <= MAX_DOMAIN_LEN,
        }
    }
}

/// The 16-bit value whose big-endian octets are `hi`, `lo`.
pub open spec fn be16(hi: u8, lo: u8) -> u16 {
    (hi as int * 256 + lo as int) as u16
}

/// The two big-endian octets of `v`.
pub open spec fn be16_bytes(v: u16) -> Seq<u8> {
    seq![(v / 256) as u8, (v % 256) as u8]
}

/// The sixteen octets of eight groups, each group big-endian.
pub open spec fn group_bytes(groups: Seq<u16>) -> Seq<u8> {
    Seq::new(
        16,
        |i: int|
            if i % 2 == 0 {
                (groups[i / 2] / 256) as u8
            } else {
                (groups[i / 2] % 256) as u8
            },
    )
}

/// The eight groups that sixteen octets hold.
pub open spec fn bytes_groups(octets: Seq<u8>) -> Seq<u16> {
    Seq::new(8, |i: int| be16(octets[2 * i], octets[2 * i + 1]))
}

/// The address field of `a` on the wire.
pub open spec fn wire_bytes(a: AddressModel) -> Seq<u8> {
    match a {
        AddressModel::IPv4(octets, port) => seq![IPV4_ADDR] + octets + be16_bytes(port),
        AddressModel::IPv6(groups, port) => seq![IPV6_ADDR] + group_bytes(groups) + be16_bytes(
            port,
        ),
        AddressModel::Domain(name, port) => seq![DOMAIN_ADDR, encode_utf8(name).len() as u8]
            + encode_utf8(name) + be16_bytes(port),
    }
}

/// `t` is one of the three address type octets.
pub open spec fn is_address_type(t: u8) -> bool {
    t == IPV4_ADDR || t == DOMAIN_ADDR || t == IPV6_ADDR
}

/// The length of the address field that starts with `s`, as far as `s`
/// tells it: from the type octet, and for a domain name from the length octet.
pub open spec fn field_len(s: Seq<u8>) -> Option<nat> {
    if s.len() >= 1 && s[0] == IPV4_ADDR {
        Some((1 + IPV4_LEN + PORT_LEN) as nat)
    } else if s.len() >= 1 && s[0] == IPV6_ADDR {
        Some((1 + IPV6_LEN + PORT_LEN) as nat)
    } else if s.len() >= 2 && s[0] == DOMAIN_ADDR {
        Some((2 + s[1] + PORT_LEN) as nat)
    } else {
        None
    }
}

/// `s` ends before the address field that it starts is complete.
pub open spec fn is_truncated(s: Seq<u8>) -> bool {
    s.len() == 0 || (is_address_type(s[0]) && match field_len(s) {
        Some(n) => s.len() < n,
        None => true,
    })
}

/// What decoding makes of a byte sequence: an address or an error, and how
/// many bytes were consumed on the way.
pub struct Decoded {
    pub outcome: Result<AddressModel, ProtocolError>,
    pub consumed: nat,
}

/// Decoding the address field at the front of `s`.
///
/// An unknown type octet is consumed alone. A field that ends early has only
/// its type octet consumed, and its length octet if it has one. A complete
/// field is consumed whole, whether or not its domain label is UTF-8.
pub open spec fn decode(s: Seq<u8>) -> Decoded {
    if s.len() == 0 {
        Decoded { outcome: Err(ProtocolError::Truncated), consumed: 0 }
    } else if !is_address_type(s[0]) {
        Decoded { outcome: Err(ProtocolError::UnsupportedAddressType), consumed: 1 }
    } else if is_truncated(s) {
        Decoded {
            outcome: Err(ProtocolError::Truncated),
            consumed: if s[0] == DOMAIN_ADDR && s.len() >= 2 {
                2
            } else {
                1
            },
        }
    } else {
        let n = field_len(s).unwrap();
        let port = be16(s[n - 2], s[n - 1]);
        let outcome = if s[0] == IPV4_ADDR {
            Ok(AddressModel::IPv4(s.subrange(1, 5), port))
        } else if s[0] == IPV6_ADDR {
            Ok(AddressModel::IPv6(bytes_groups(s.subrange(1, 17)), port))
        } else {
            let label = s.subrange(2, n - 2);
            if valid_utf8(label) {
                Ok(AddressModel::Domain(decode_utf8(label), port))
            } else {
                Err(ProtocolError::MalformedAddress)
            }
        };
        Decoded { outcome, consumed: n }
    }
}

/// Calls `String::from_utf8` of std, which turns bytes into a string where
/// they are UTF-8 and refuses them where they are not. Believed, not proved:
/// that it accepts exactly the byte sequences that are valid UTF-8, and that
/// the string then holds the characters that the bytes encode.
#[verifier::external_body]
fn string_from_utf8(bytes: Vec<u8>) -> (res: Option<String>)
    ensures
        res.is_some() == valid_utf8(bytes@),
        res.is_some() ==> res.unwrap()@ == decode_utf8(bytes@),
{
    match String::from_utf8(bytes) {
        Ok(s) => Some(s),
        Err(_) => None,
    }
}

fn make_be16(hi: u8, lo: u8) -> (v: u16)
    ensures
        v == be16(hi, lo),
{
    (hi as u16) * 256 + (lo as u16)
}

/// Decodes the address field at the front of what `r` still holds.
pub fn get_address(r: &mut ByteSource) -> (res: Result<TargetAddress, ProtocolError>)
    ensures
        final(r).content() == old(r).content(),
        final(r).consumed() <= final(r).content().len(),
        final(r).consumed() == old(r).consumed() + decode(old(r).pending()).consumed,
        match decode(old(r).pending()).outcome {
            Ok(a) => res.is_ok() && res.unwrap()@ == a,
            Err(e) => res == Err::<TargetAddress, ProtocolError>(e),
        },
        old(r).pending().len() >= 1 && !is_address_type(old(r).pending()[0]) ==> res == Err::<
            TargetAddress,
            ProtocolError,
        >(ProtocolError::UnsupportedAddressType) && final(r).consumed() == old(r).consumed() + 1,
        is_truncated(old(r).pending()) ==> res == Err::<TargetAddress, ProtocolError>(
            ProtocolError::Truncated,
        ),
{
    let ghost s = r.pending();
    let atyp = match r.read_u8() {
        Some(b) => b,
        None => {
            return Err(ProtocolError::Truncated);
        },
    };
    if atyp == IPV4_ADDR {
        let raw = match r.read_exact(IPV4_LEN + PORT_LEN) {
            Some(v) => v,
            None => {
                return Err(ProtocolError::Truncated);
            },
        };
        let octets: [u8; 4] = [raw[0], raw[1], raw[2], raw[3]];
        assert(octets@ =~= s.subrange(1, 5));
        Ok(TargetAddress::IPv4(octets, make_be16(raw[4], raw[5])))
    } else if atyp == IPV6_ADDR {
        let raw = match r.read_exact(IPV6_LEN + PORT_LEN) {
            Some(v) => v,
            None => {
                return Err(ProtocolError::Truncated);
            },
        };
        let groups: [u16; 8] = [
            make_be16(raw[0], raw[1]),
            make_be16(raw[2], raw[3]),
            make_be16(raw[4], raw[5]),
            make_be16(raw[6], raw[7]),
            make_be16(raw[8], raw[9]),
            make_be16(raw[10], raw[11]),
            make_be16(raw[12], raw[13]),
            make_be16(raw[14], raw[15]),
        ];
        assert(groups@ =~= bytes_groups(s.subrange(1, 17)));
        Ok(TargetAddress::IPv6(groups, make_be16(raw[16], raw[17])))
    } else if atyp == DOMAIN_ADDR {
        let len = match r.read_u8() {
            Some(b) => b as usize,
            None => {
                return Err(ProtocolError::Truncated);
            },
        };
        let raw = match r.read_exact(len + PORT_LEN) {
            Some(v) => v,
            None => {
                return Err(ProtocolError::Truncated);
            },
        };
        let port = make_be16(raw[len], raw[len + 1]);
        let mut label = raw;
        label.truncate(len);
        assert(label@ =~= s.subrange(2, 2 + len));
        match string_from_utf8(label) {
            Some(name) => Ok(TargetAddress::Domain(name, port)),
            None => Err(ProtocolError::MalformedAddress),
        }
    } else {
        Err(ProtocolError::UnsupportedAddressType)
    }
}

fn push_be16(out: &mut Vec<u8>, v: u16)
    ensures
        final(out)@ == old(out)@ + be16_bytes(v),
{
    out.push((v / 256) as u8);
    out.push((v % 256) as u8);
    assert(out@ =~= old(out)@ + be16_bytes(v));
}

impl TargetAddress {
    /// The port of the address.
    pub fn port(&self) -> (p: u16)
        ensures
            p == match self@ {
                AddressModel::IPv4(_, port) => port,
                AddressModel::IPv6(_, port) => port,
                AddressModel::Domain(_, port) => port,
            },
    {
        match self {
            TargetAddress::IPv4(_, port) => *port,
            TargetAddress::IPv6(_, port) => *port,
            TargetAddress::Domain(_, port) => *port,
        }
    }

    /// The address field on the wire. Only a domain name of more than 255
    /// octets has none.
    pub fn encode(&self) -> (res: Result<Vec<u8>, ProtocolError>)
        ensures
            self@.encodable() ==> res.is_ok() && res.unwrap()@ == wire_bytes(self@),
            !self@.encodable() ==> res == Err::<Vec<u8>, ProtocolError>(
                ProtocolError::MalformedAddress,
            ),
    {
        let mut out: Vec<u8> = Vec::new();
        match self {
            TargetAddress::IPv4(octets, port) => {
                out.push(IPV4_ADDR);
                out.push(octets[0]);
                out.push(octets[1]);
                out.push(octets[2]);
                out.push(octets[3]);
                assert(out@ =~= seq![IPV4_ADDR] + octets@);
                push_be16(&mut out, *port);
            },
            TargetAddress::IPv6(groups, port) => {
                out.push(IPV6_ADDR);
                let mut i: usize = 0;
                while i < 8
                    invariant
                        i <= 8,
                        out@.len() == 1 + 2 * i,
                        out@[0] == IPV6_ADDR,
                        forall|k: int| 0 <= k < 2 * i ==> out@[1 + k] == group_bytes(groups@)[k],
                    decreases 8 - i,
                {
                    let g = groups[i];
                    out.push((g / 256) as u8);
                    out.push((g % 256) as u8);
                    i = i + 1;
                }
                assert(out@ =~= seq![IPV6_ADDR] + group_bytes(groups@));
                push_be16(&mut out, *port);
            },
            TargetAddress::Domain(name, port) => {
                let label = name.as_str().as_bytes();
                if label.len() > MAX_DOMAIN_LEN {
                    return Err(ProtocolError::MalformedAddress);
                }
                out.push(DOMAIN_ADDR);
                out.push(label.len() as u8);
                let mut i: usize = 0;
                while i < label.len()
                    invariant
                        i <= label@.len(),
                        out@.len() == 2 + i,
                        out@[0] == DOMAIN_ADDR,
                        out@[1] == label@.len() as u8,
                        forall|k: int| 0 <= k < i ==> out@[2 + k] == label@[k],
                    decreases label@.len() - i,
                {
                    out.push(label[i]);
                    i = i + 1;
                }
                assert(out@ =~= seq![DOMAIN_ADDR, label@.len() as u8] + label@);
                push_be16(&mut out, *port);
            },
        }
        Ok(out)
    }
}

/// Decoding what encoding wrote gives the address back, consumes exactly the
/// encoded field, and leaves what follows it untouched.
pub proof fn decode_inverts_encode(a: AddressModel, rest: Seq<u8>)
    requires
        a.encodable(),
    ensures
        decode(wire_bytes(a) + rest) == (Decoded {
            outcome: Ok(a),
            consumed: wire_bytes(a).len(),
        }),
        (wire_bytes(a) + rest).skip(wire_bytes(a).len() as int) == rest,
{
    let w = wire_bytes(a);
    let s = w + rest;
    assert(s.skip(w.len() as int) =~= rest);
    match a {
        AddressModel::IPv4(octets, port) => {
            assert(s.subrange(1, 5) =~= octets);
            assert(be16(s[5], s[6]) == port);
        },
        AddressModel::IPv6(groups, port) => {
            assert(s.subrange(1, 17) =~= group_bytes(groups));
            assert(bytes_groups(group_bytes(groups)) =~= groups);
            assert(be16(s[17], s[18]) == port);
        },
        AddressModel::Domain(name, port) => {
            let label = encode_utf8(name);
            let n = label.len() as int;
            assert(s[1] == n);
            assert(s.subrange(2, 2 + n) =~= label);
            vstd::utf8::encode_utf8_valid_utf8(name);
            vstd::utf8::encode_utf8_decode_utf8(name);
            assert(be16(s[2 + n], s[3 + n]) == port);
        },
    }
}

/// Encoding what decoding read gives the consumed bytes back: no two byte
/// sequences decode to the same address.
pub proof fn encode_inverts_decode(s: Seq<u8>)
    requires
        decode(s).outcome.is_ok(),
    ensures
        decode(s).outcome.unwrap().encodable(),
        wire_bytes(decode(s).outcome.unwrap()) == s.take(decode(s).consumed as int),
{
    let a = decode(s).outcome.unwrap();
    let n = decode(s).consumed;
    if s[0] == IPV4_ADDR {
        assert(wire_bytes(a) =~= s.take(n as int));
    } else if s[0] == IPV6_ADDR {
        assert(group_bytes(bytes_groups(s.subrange(1, 17))) =~= s.subrange(1, 17));
        assert(wire_bytes(a) =~= s.take(n as int));
    } else {
        let label = s.subrange(2, n - 2);
        vstd::utf8::decode_utf8_encode_utf8(label);
        assert(wire_bytes(a) =~= s.take(n as int));
    }
}

} // verus!
