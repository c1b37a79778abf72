//! The messages of a SOCKS5 session: the method negotiation, the request and
//! the reply.

use crate::address::{
    decode, field_len, get_address, is_address_type, is_truncated, wire_bytes, AddressModel,
    TargetAddress, DOMAIN_ADDR, IPV4_ADDR, IPV4_LEN, IPV6_ADDR, IPV6_LEN, PORT_LEN,
};
use crate::error::ProtocolError;
use crate::relay::RelayOutcome;
use crate::source::ByteSource;
use vstd::prelude::*;

verus! {

/// The protocol version octet.
pub const SOCKSV5: u8 = 0x05;

/// The method octet for "no authentication required".
pub const NO_AUTH: u8 = 0x00;

/// Command octet of CONNECT.
pub const CONNECT: u8 = 0x01;

/// Command octet of BIND.
pub const BIND: u8 = 0x02;

/// Command octet of UDP ASSOCIATE.
pub const UDP_ASSOCIATE: u8 = 0x03;

/// The port that the reply to UDP ASSOCIATE names.
pub const UDP_REPLY_PORT: u16 = 1080;

/// What the client asks the proxy to do.
#[derive(Clone, Copy, Debug, PartialEq, Eq, Structural)]
pub enum Command {
    Connect,
    Bind,
    UdpAssociate,
}

/// The command that an octet stands for, if any.
pub open spec fn command_of(b: u8) -> Option<Command> {
    if b == CONNECT {
        Some(Command::Connect)
    } else if b == BIND {
        Some(Command::Bind)
    } else if b == UDP_ASSOCIATE {
        Some(Command::UdpAssociate)
    } else {
        None
    }
}

impl Command {
    /// The command's octet on the wire.
    pub open spec fn octet(self) -> u8 {
        match self {
            Command::Connect => CONNECT,
            Command::Bind => BIND,
            Command::UdpAssociate => UDP_ASSOCIATE,
        }
    }

    /// The command's octet on the wire.
    pub fn code(&self) -> (b: u8)
        ensures
            b == self.octet(),
            command_of(b) == Some(*self),
    {
        match self {
            Command::Connect => CONNECT,
            Command::Bind => BIND,
            Command::UdpAssociate => UDP_ASSOCIATE,
        }
    }

    /// The command that `b` stands for, if any.
    pub fn from_octet(b: u8) -> (res: Option<Command>)
        ensures
            res == command_of(b),
    {
        if b == CONNECT {
            Some(Command::Connect)
        } else if b == BIND {
            Some(Command::Bind)
        } else if b == UDP_ASSOCIATE {
            Some(Command::UdpAssociate)
        } else {
            None
        }
    }
}

/// The status octet of a reply.
#[derive(Clone, Copy, Debug, PartialEq, Eq, Structural)]
pub enum ReplyStatus {
    Succeeded,
    GeneralFailure,
    NotAllowed,
    NetworkUnreachable,
    HostUnreachable,
    ConnectionRefused,
    TtlExpired,
    CommandNotSupported,
    AddressTypeNotSupported,
}

impl ReplyStatus {
    /// The status octet on the wire.
    pub open spec fn octet(self) -> u8 {
        match self {
            ReplyStatus::Succeeded => 0x00,
            ReplyStatus::GeneralFailure => 0x01,
            ReplyStatus::NotAllowed => 0x02,
            ReplyStatus::NetworkUnreachable => 0x03,
            ReplyStatus::HostUnreachable => 0x04,
            ReplyStatus::ConnectionRefused => 0x05,
            ReplyStatus::TtlExpired => 0x06,
            ReplyStatus::CommandNotSupported => 0x07,
            ReplyStatus::AddressTypeNotSupported => 0x08,
        }
    }

    /// The status octet on the wire.
    pub fn code(&self) -> (b: u8)
        ensures
            b == self.octet(),
    {
        match self {
            ReplyStatus::Succeeded => 0x00,
            ReplyStatus::GeneralFailure => 0x01,
            ReplyStatus::NotAllowed => 0x02,
            ReplyStatus::NetworkUnreachable => 0x03,
            ReplyStatus::HostUnreachable => 0x04,
            ReplyStatus::ConnectionRefused => 0x05,
            ReplyStatus::TtlExpired => 0x06,
            ReplyStatus::CommandNotSupported => 0x07,
            ReplyStatus::AddressTypeNotSupported => 0x08,
        }
    }
}

/// What the negotiation makes of the bytes `s`: the reply to write or an
/// error, and how many bytes it consumed.
///
/// The version and the method count are read together, then as many method
/// octets as were counted; what the methods are does not matter. A wrong
/// version yields no reply.
pub open spec fn handshake(s: Seq<u8>) -> (Result<Seq<u8>, ProtocolError>, nat) {
    if s.len() < 2 {
        (Err(ProtocolError::Truncated), 0)
    } else if s[0] != SOCKSV5 {
        (Err(ProtocolError::BadVersion), 2)
    } else if s.len() < 2 + s[1] {
        (Err(ProtocolError::Truncated), 2)
    } else {
        (Ok(seq![SOCKSV5, NO_AUTH]), (2 + s[1]) as nat)
    }
}

/// What the first three octets of a request say: version, command, reserved.
pub open spec fn request_head(s: Seq<u8>) -> (Result<Command, ProtocolError>, nat) {
    if s.len() < 3 {
        (Err(ProtocolError::Truncated), 0)
    } else if s[0] != SOCKSV5 {
        (Err(ProtocolError::BadVersion), 3)
    } else {
        match command_of(s[1]) {
            Some(c) => (Ok(c), 3),
            None => (Err(ProtocolError::UnsupportedCommand), 3),
        }
    }
}

/// What a request at the front of `s` asks for, and how many bytes it took:
/// the head, then the address field.
pub open spec fn request(s: Seq<u8>) -> (Result<(Command, AddressModel), ProtocolError>, nat) {
    match request_head(s).0 {
        Err(e) => (Err(e), request_head(s).1),
        Ok(c) => {
            let d = decode(s.skip(3));
            (
                match d.outcome {
                    Ok(a) => Ok((c, a)),
                    Err(e) => Err(e),
                },
                3 + d.consumed,
            )
        },
    }
}

/// The reply with status `status` and bound address `bound`.
pub open spec fn reply_bytes(status: ReplyStatus, bound: AddressModel) -> Seq<u8> {
    seq![SOCKSV5, status.octet(), 0x00u8] + wire_bytes(bound)
}

/// The address that a reply names when there is none to tell: 0.0.0.0, with
/// the given port.
pub open spec fn unspecified(port: u16) -> AddressModel {
    AddressModel::IPv4(seq![0u8, 0u8, 0u8, 0u8], port)
}

fn append_bytes(dst: &mut Vec<u8>, src: &Vec<u8>)
    ensures
        final(dst)@ == old(dst)@ + src@,
{
    let mut i: usize = 0;
    while i < src.len()
        invariant
            i <= src@.len(),
            dst@ =~= old(dst)@ + src@.take(i as int),
        decreases src@.len() - i,
    {
        dst.push(src[i]);
        i = i + 1;
    }
    assert(src@.take(i as int) =~= src@);
}

/// Reads the client's method offer and answers it: the result is the reply
/// to write, which always chooses "no authentication".
pub fn hand_shake(r: &mut ByteSource) -> (res: Result<Vec<u8>, ProtocolError>)
    ensures
        final(r).content() == old(r).content(),
        final(r).consumed() <= final(r).content().len(),
        final(r).consumed() == old(r).consumed() + handshake(old(r).pending()).1,
        match handshake(old(r).pending()).0 {
            Ok(reply) => res.is_ok() && res.unwrap()@ == reply,
            Err(e) => res == Err::<Vec<u8>, ProtocolError>(e),
        },
        old(r).pending().len() >= 1 && old(r).pending()[0] != SOCKSV5 ==> res.is_err(),
{
    let head = match r.read_exact(2) {
        Some(v) => v,
        None => {
            return Err(ProtocolError::Truncated);
        },
    };
    if head[0] != SOCKSV5 {
        return Err(ProtocolError::BadVersion);
    }
    let nmethods = head[1] as usize;
    match r.read_exact(nmethods) {
        Some(_) => {},
        None => {
            return Err(ProtocolError::Truncated);
        },
    }
    let mut reply: Vec<u8> = Vec::new();
    reply.push(SOCKSV5);
    reply.push(NO_AUTH);
    assert(reply@ =~= seq![SOCKSV5, NO_AUTH]);
    Ok(reply)
}

/// Reads the head of a request and gives its command.
pub fn get_cmd(r: &mut ByteSource) -> (res: Result<Command, ProtocolError>)
    ensures
        final(r).content() == old(r).content(),
        final(r).consumed() <= final(r).content().len(),
        final(r).consumed() == old(r).consumed() + request_head(old(r).pending()).1,
        res == request_head(old(r).pending()).0,
{
    let head = match r.read_exact(3) {
        Some(v) => v,
        None => {
            return Err(ProtocolError::Truncated);
        },
    };
    if head[0] != SOCKSV5 {
        return Err(ProtocolError::BadVersion);
    }
    match Command::from_octet(head[1]) {
        Some(c) => Ok(c),
        None => Err(ProtocolError::UnsupportedCommand),
    }
}

/// Reads a request: its head and its destination address.
pub fn parse_request(r: &mut ByteSource) -> (res: Result<
    (Command, TargetAddress),
    ProtocolError,
>)
    ensures
        final(r).content() == old(r).content(),
        final(r).consumed() <= final(r).content().len(),
        final(r).consumed() == old(r).consumed() + request(old(r).pending()).1,
        match request(old(r).pending()).0 {
            Ok(p) => res.is_ok() && res.unwrap().0 == p.0 && res.unwrap().1@ == p.1,
            Err(e) => res == Err::<(Command, TargetAddress), ProtocolError>(e),
        },
        request_head(old(r).pending()).0 is Ok && is_truncated(old(r).pending().skip(3)) ==> res
            == Err::<(Command, TargetAddress), ProtocolError>(ProtocolError::Truncated),
{
    let cmd = match get_cmd(r) {
        Ok(c) => c,
        Err(e) => {
            return Err(e);
        },
    };
    assert(r.pending() =~= old(r).pending().skip(3));
    match get_address(r) {
        Ok(addr) => Ok((cmd, addr)),
        Err(e) => Err(e),
    }
}

/// The reply that tells the client `status` and the address that the proxy
/// is bound to. Only a domain name of more than 255 octets has none.
pub fn reply(status: ReplyStatus, bound: &TargetAddress) -> (res: Result<Vec<u8>, ProtocolError>)
    ensures
        bound@.encodable() ==> res.is_ok() && res.unwrap()@ == reply_bytes(status, bound@),
        !bound@.encodable() ==> res == Err::<Vec<u8>, ProtocolError>(
            ProtocolError::MalformedAddress,
        ),
{
    let field = match bound.encode() {
        Ok(v) => v,
        Err(e) => {
            return Err(e);
        },
    };
    let mut out: Vec<u8> = Vec::new();
    out.push(SOCKSV5);
    out.push(status.code());
    out.push(0x00);
    append_bytes(&mut out, &field);
    Ok(out)
}

/// The reply to UDP ASSOCIATE: success, bound to 0.0.0.0 and the fixed port.
pub fn udp_associate() -> (res: Vec<u8>)
    ensures
        res@ == reply_bytes(ReplyStatus::Succeeded, unspecified(UDP_REPLY_PORT)),
        res@ == seq![
            SOCKSV5,
            0x00u8,
            0x00u8,
            IPV4_ADDR,
            0x00u8,
            0x00u8,
            0x00u8,
            0x00u8,
            0x04u8,
            0x38u8,
        ],
{
    let bound = TargetAddress::IPv4([0, 0, 0, 0], UDP_REPLY_PORT);
    assert(bound@ == unspecified(UDP_REPLY_PORT)) by {
        assert(bound@->IPv4_0 =~= seq![0u8, 0u8, 0u8, 0u8]);
    }
    let res = match reply(ReplyStatus::Succeeded, &bound) {
        Ok(v) => v,
        Err(_) => Vec::new(),
    };
    assert(res@ =~= seq![
        SOCKSV5,
        0x00u8,
        0x00u8,
        IPV4_ADDR,
        0x00u8,
        0x00u8,
        0x00u8,
        0x00u8,
        0x04u8,
        0x38u8,
    ]);
    res
}

/// The bytes that the negotiation still has to read after `buf`, to its next
/// decision; none when the offer is complete.
pub open spec fn handshake_need(buf: Seq<u8>) -> Result<nat, ProtocolError> {
    if buf.len() < 2 {
        Ok((2 - buf.len()) as nat)
    } else if buf[0] != SOCKSV5 {
        Err(ProtocolError::BadVersion)
    } else if buf.len() < 2 + buf[1] {
        Ok((2 + buf[1] - buf.len()) as nat)
    } else {
        Ok(0)
    }
}

/// The bytes that a request still has to read after `buf`, to its next
/// decision; none when the request is complete. The head is read first, then
/// the address type, then a domain name's length, then the rest.
pub open spec fn request_need(buf: Seq<u8>) -> Result<nat, ProtocolError> {
    if buf.len() < 3 {
        Ok((3 - buf.len()) as nat)
    } else if request_head(buf).0 is Err {
        Err(request_head(buf).0->Err_0)
    } else if buf.len() < 4 {
        Ok(1)
    } else if !is_address_type(buf[3]) {
        Err(ProtocolError::UnsupportedAddressType)
    } else {
        match field_len(buf.skip(3)) {
            None => Ok(1),
            Some(n) => if buf.len() < 3 + n {
                Ok((3 + n - buf.len()) as nat)
            } else {
                Ok(0)
            },
        }
    }
}

/// How many bytes to read next for the method offer that starts with `buf`.
pub fn bytes_for_handshake(buf: &Vec<u8>) -> (res: Result<usize, ProtocolError>)
    ensures
        match handshake_need(buf@) {
            Ok(n) => res == Ok::<usize, ProtocolError>(n as usize),
            Err(e) => res == Err::<usize, ProtocolError>(e),
        },
{
    if buf.len() < 2 {
        Ok(2 - buf.len())
    } else if buf[0] != SOCKSV5 {
        Err(ProtocolError::BadVersion)
    } else {
        let full = 2 + buf[1] as usize;
        if buf.len() < full {
            Ok(full - buf.len())
        } else {
            Ok(0)
        }
    }
}

/// How many bytes to read next for the request that starts with `buf`.
pub fn bytes_for_request(buf: &Vec<u8>) -> (res: Result<usize, ProtocolError>)
    ensures
        match request_need(buf@) {
            Ok(n) => res == Ok::<usize, ProtocolError>(n as usize),
            Err(e) => res == Err::<usize, ProtocolError>(e),
        },
{
    if buf.len() < 3 {
        return Ok(3 - buf.len());
    }
    if buf[0] != SOCKSV5 {
        return Err(ProtocolError::BadVersion);
    }
    if Command::from_octet(buf[1]).is_none() {
        return Err(ProtocolError::UnsupportedCommand);
    }
    if buf.len() < 4 {
        return Ok(1);
    }
    let atyp = buf[3];
    let full = if atyp == IPV4_ADDR {
        3 + 1 + IPV4_LEN + PORT_LEN
    } else if atyp == IPV6_ADDR {
        3 + 1 + IPV6_LEN + PORT_LEN
    } else if atyp == DOMAIN_ADDR {
        if buf.len() < 5 {
            return Ok(1);
        }
        3 + 2 + buf[4] as usize + PORT_LEN
    } else {
        return Err(ProtocolError::UnsupportedAddressType);
    };
    if buf.len() < full {
        Ok(full - buf.len())
    } else {
        Ok(0)
    }
}

/// `buf` ends where a read of the method offer ends: before the first
/// octet, behind the method count, or behind the last method.
pub open spec fn handshake_boundary(buf: Seq<u8>) -> bool {
    buf.len() == 0 || buf.len() == 2 || (buf.len() > 2 && buf.len() == 2 + buf[1])
}

/// `buf` ends where a read of the request ends: before the first octet,
/// behind the head, behind the address type, behind a domain name's length,
/// or behind the port.
pub open spec fn request_boundary(buf: Seq<u8>) -> bool {
    buf.len() == 0 || buf.len() == 3 || buf.len() == 4 || (buf.len() == 5 && buf[3]
        == DOMAIN_ADDR) || (buf.len() > 4 && field_len(buf.skip(3)) == Some(
        (buf.len() - 3) as nat,
    ))
}

/// Reading step by step agrees with parsing at once: while more bytes are
/// asked for the message is truncated, an error found on the way is the
/// error that parsing gives, and a request that is complete parses to a
/// command and an address or has a malformed domain name, within the bytes
/// that were read.
pub proof fn need_agrees_with_request(buf: Seq<u8>)
    ensures
        match request_need(buf) {
            Ok(n) => if n > 0 {
                request(buf).0 == Err::<(Command, AddressModel), ProtocolError>(
                    ProtocolError::Truncated,
                )
            } else {
                &&& request(buf).1 <= buf.len()
                &&& request(buf).0 is Ok || request(buf).0 == Err::<
                    (Command, AddressModel),
                    ProtocolError,
                >(ProtocolError::MalformedAddress)
            },
            Err(e) => request(buf).0 == Err::<(Command, AddressModel), ProtocolError>(e),
        },
        handshake_need(buf) is Ok && handshake_need(buf)->Ok_0 > 0 ==> handshake(buf).0 == Err::<
            Seq<u8>,
            ProtocolError,
        >(ProtocolError::Truncated),
        handshake_need(buf) == Ok::<nat, ProtocolError>(0) ==> handshake(buf).0 is Ok && handshake(
            buf,
        ).1 <= buf.len(),
        handshake_need(buf) is Err ==> handshake(buf).0 == Err::<Seq<u8>, ProtocolError>(
            handshake_need(buf)->Err_0,
        ),
{
}

/// Reading exactly what is asked for never reads past the message: each
/// read ends on a boundary of the message, and when nothing more is asked
/// for, the bytes read are the message and no byte more.
pub proof fn exact_reads_end_with_message(buf: Seq<u8>, more: Seq<u8>)
    ensures
        handshake_boundary(buf) && handshake_need(buf) == Ok::<nat, ProtocolError>(more.len())
            ==> handshake_boundary(buf + more),
        handshake_boundary(buf) && handshake_need(buf) == Ok::<nat, ProtocolError>(0)
            ==> handshake(buf).1 == buf.len(),
        request_boundary(buf) && request_need(buf) == Ok::<nat, ProtocolError>(more.len())
            ==> request_boundary(buf + more),
        request_boundary(buf) && request_need(buf) == Ok::<nat, ProtocolError>(0) ==> request(
            buf,
        ).1 == buf.len(),
{
    let all = buf + more;
    if request_boundary(buf) && request_need(buf) == Ok::<nat, ProtocolError>(more.len()) {
        if buf.len() >= 4 {
            assert(all.skip(3)[0] == buf.skip(3)[0]);
            if buf.len() >= 5 {
                assert(all.skip(3)[1] == buf.skip(3)[1]);
            }
        }
    }
    if handshake_boundary(buf) && handshake_need(buf) == Ok::<nat, ProtocolError>(more.len()) {
        if buf.len() >= 2 {
            assert(all[1] == buf[1]);
        }
    }
}

/// Where a session stands.
#[derive(Clone, Copy, Debug, PartialEq, Eq, Structural)]
pub enum Phase {
    /// The connection was accepted; nothing has been read.
    Accepted,
    /// The method offer is being read.
    Negotiating,
    /// The request is being read.
    AwaitingRequest,
    /// The upstream connection is being opened.
    Connecting,
    /// Bytes are relayed.
    Relaying,
    /// The session was dropped on a fault. Terminal.
    Aborted,
    /// The session came to its end. Terminal.
    Closed,
}

/// What the owner of the sockets reports to the session.
#[derive(Clone, Debug, PartialEq, Eq)]
pub enum SessionEvent {
    /// The connection was accepted.
    Start,
    /// The read that was asked for returned these bytes.
    Bytes(Vec<u8>),
    /// A read or a write on the client's socket failed, or its stream ended.
    Failed,
    /// The upstream connection is open; its local address is this.
    Connected(TargetAddress),
    /// The upstream connection could not be opened; the client is to be
    /// told this status.
    ConnectFailed(ReplyStatus),
    /// The relay stopped.
    RelayDone(RelayOutcome),
}

/// What the owner of the sockets is to do after sending.
#[derive(Clone, Debug, PartialEq, Eq)]
pub enum Next {
    /// Read exactly this many bytes from the client and report them.
    Read(usize),
    /// Open a connection to this address and report how it went.
    Connect(TargetAddress),
    /// Relay between the client and the upstream connection.
    Relay,
    /// Close both sockets.
    Close,
}

/// What the session decides: bytes to write to the client, if any, and then
/// what to do.
#[derive(Clone, Debug, PartialEq, Eq)]
pub struct SessionAction {
    pub send: Vec<u8>,
    pub next: Next,
}

/// What a `SessionEvent` stands for.
pub enum SessionEventModel {
    Start,
    Bytes(Seq<u8>),
    Failed,
    Connected(AddressModel),
    ConnectFailed(ReplyStatus),
    RelayDone(RelayOutcome),
}

/// What a `Next` stands for.
pub enum NextModel {
    Read(nat),
    Connect(AddressModel),
    Relay,
    Close,
}

/// What a `SessionAction` stands for.
pub struct SessionActionModel {
    pub send: Seq<u8>,
    pub next: NextModel,
}

/// What a session stands for: its phase, the bytes of the message that is
/// being read, and the command and destination once the request is parsed.
pub struct SessionModel {
    pub phase: Phase,
    pub buf: Seq<u8>,
    pub command: Option<Command>,
    pub target: Option<AddressModel>,
}

impl SessionModel {
    /// An upstream connection is opened, and bytes are relayed, only for a
    /// parsed CONNECT request.
    pub open spec fn sound(self) -> bool {
        self.phase == Phase::Connecting || self.phase == Phase::Relaying ==> self.command == Some(
            Command::Connect,
        ) && self.target is Some
    }
}

impl View for SessionEvent {
    type V = SessionEventModel;

    open spec fn view(&self) -> SessionEventModel {
        match *self {
            SessionEvent::Start => SessionEventModel::Start,
            SessionEvent::Bytes(b) => SessionEventModel::Bytes(b@),
            SessionEvent::Failed => SessionEventModel::Failed,
            SessionEvent::Connected(a) => SessionEventModel::Connected(a@),
            SessionEvent::ConnectFailed(st) => SessionEventModel::ConnectFailed(st),
            SessionEvent::RelayDone(o) => SessionEventModel::RelayDone(o),
        }
    }
}

impl View for Next {
    type V = NextModel;

    open spec fn view(&self) -> NextModel {
        match *self {
            Next::Read(n) => NextModel::Read(n as nat),
            Next::Connect(a) => NextModel::Connect(a@),
            Next::Relay => NextModel::Relay,
            Next::Close => NextModel::Close,
        }
    }
}

impl View for SessionAction {
    type V = SessionActionModel;

    open spec fn view(&self) -> SessionActionModel {
        SessionActionModel { send: self.send@, next: self.next@ }
    }
}

/// The status that the client is told when connecting failed with `status`.
pub open spec fn failure_status(status: ReplyStatus) -> ReplyStatus {
    if status == ReplyStatus::Succeeded {
        ReplyStatus::GeneralFailure
    } else {
        status
    }
}

/// The session ends in `phase`, after sending `send`.
pub open spec fn closing(s: SessionModel, phase: Phase, send: Seq<u8>) -> (
    SessionModel,
    SessionActionModel,
) {
    (
        SessionModel { phase, buf: Seq::empty(), ..s },
        SessionActionModel { send, next: NextModel::Close },
    )
}

/// The session goes on in `phase` with `buf` read so far: it sends `send` and
/// reads `n` more bytes.
pub open spec fn reading(s: SessionModel, phase: Phase, buf: Seq<u8>, send: Seq<u8>, n: nat) -> (
    SessionModel,
    SessionActionModel,
) {
    (SessionModel { phase, buf, ..s }, SessionActionModel { send, next: NextModel::Read(n) })
}

/// The step of a negotiating session that has read `buf` of the offer.
pub open spec fn negotiate_step(s: SessionModel, buf: Seq<u8>) -> (
    SessionModel,
    SessionActionModel,
) {
    match handshake_need(buf) {
        Err(_) => closing(s, Phase::Aborted, Seq::empty()),
        Ok(n) => if n > 0 {
            reading(s, Phase::Negotiating, buf, Seq::empty(), n)
        } else {
            match handshake(buf).0 {
                Ok(answer) => reading(s, Phase::AwaitingRequest, Seq::empty(), answer, 3),
                Err(_) => closing(s, Phase::Aborted, Seq::empty()),
            }
        },
    }
}

/// The step of a session that has read `buf` of the request.
pub open spec fn dispatch_step(s: SessionModel, buf: Seq<u8>) -> (
    SessionModel,
    SessionActionModel,
) {
    match request_need(buf) {
        Err(_) => closing(s, Phase::Aborted, Seq::empty()),
        Ok(n) => if n > 0 {
            reading(s, Phase::AwaitingRequest, buf, Seq::empty(), n)
        } else {
            match request(buf).0 {
                Err(_) => closing(s, Phase::Aborted, Seq::empty()),
                Ok(p) => {
                    let parsed = SessionModel { command: Some(p.0), target: Some(p.1), ..s };
                    match p.0 {
                        Command::Connect => (
                            SessionModel {
                                phase: Phase::Connecting,
                                buf: Seq::empty(),
                                ..parsed
                            },
                            SessionActionModel {
                                send: Seq::empty(),
                                next: NextModel::Connect(p.1),
                            },
                        ),
                        Command::Bind => closing(parsed, Phase::Aborted, Seq::empty()),
                        Command::UdpAssociate => closing(
                            parsed,
                            Phase::Closed,
                            reply_bytes(ReplyStatus::Succeeded, unspecified(UDP_REPLY_PORT)),
                        ),
                    }
                },
            }
        },
    }
}

/// One step of a session: from its state and an event to its next state and
/// what to do.
///
/// Bytes are asked for field by field, so that nothing behind the request is
/// ever read. Any fault in what the client sent, any failure on its socket
/// and any event out of turn abort the session, with nothing sent. BIND is
/// aborted after its request is parsed. UDP ASSOCIATE gets its reply and the
/// session is closed. CONNECT has the upstream connection opened: on success
/// the reply names the connection's local address and the relay starts; on
/// failure the reply tells the status and the session is closed.
pub open spec fn session_step(s: SessionModel, e: SessionEventModel) -> (
    SessionModel,
    SessionActionModel,
) {
    match (s.phase, e) {
        (Phase::Accepted, SessionEventModel::Start) => reading(
            s,
            Phase::Negotiating,
            Seq::empty(),
            Seq::empty(),
            2,
        ),
        (Phase::Negotiating, SessionEventModel::Bytes(b)) => negotiate_step(s, s.buf + b),
        (Phase::AwaitingRequest, SessionEventModel::Bytes(b)) => dispatch_step(s, s.buf + b),
        (Phase::Connecting, SessionEventModel::Connected(bound)) => if bound.encodable() {
            (
                SessionModel { phase: Phase::Relaying, ..s },
                SessionActionModel {
                    send: reply_bytes(ReplyStatus::Succeeded, bound),
                    next: NextModel::Relay,
                },
            )
        } else {
            closing(s, Phase::Aborted, Seq::empty())
        },
        (Phase::Connecting, SessionEventModel::ConnectFailed(status)) => closing(
            s,
            Phase::Closed,
            reply_bytes(failure_status(status), unspecified(0)),
        ),
        (Phase::Relaying, SessionEventModel::RelayDone(_)) => closing(
            s,
            Phase::Closed,
            Seq::empty(),
        ),
        (Phase::Closed, _) => closing(s, Phase::Closed, Seq::empty()),
        _ => closing(s, Phase::Aborted, Seq::empty()),
    }
}

/// One client's session, from the accepted connection to its end, without
/// the sockets: whoever owns them does what `serve` says and reports back.
pub struct TCPRelay {
    phase: Phase,
    buf: Vec<u8>,
    command: Option<Command>,
    target: Option<TargetAddress>,
    ss_server: String,
}

impl View for TCPRelay {
    type V = SessionModel;

    closed spec fn view(&self) -> SessionModel {
        SessionModel {
            phase: self.phase,
            buf: self.buf@,
            command: self.command,
            target: match self.target {
                Some(t) => Some(t@),
                None => None,
            },
        }
    }
}

impl TCPRelay {
    #[verifier::type_invariant]
    spec fn sound(&self) -> bool {
        self@.sound()
    }

    /// The name of the server that the session was made for.
    pub closed spec fn server(&self) -> Seq<char> {
        self.ss_server@
    }

    /// A session for a connection that was just accepted.
    pub fn new(mika_server: String) -> (relay: TCPRelay)
        ensures
            relay@ == (SessionModel {
                phase: Phase::Accepted,
                buf: Seq::empty(),
                command: None,
                target: None,
            }),
            relay.server() == mika_server@,
    {
        TCPRelay {
            phase: Phase::Accepted,
            buf: Vec::new(),
            command: None,
            target: None,
            ss_server: mika_server,
        }
    }

    /// The name of the server that the session was made for.
    pub fn server_name(&self) -> (name: &String)
        ensures
            name@ == self.server(),
    {
        &self.ss_server
    }

    /// Where the session stands.
    pub fn phase(&self) -> (p: Phase)
        ensures
            p == self@.phase,
    {
        self.phase
    }

    /// Whether the session is over.
    pub fn is_closed(&self) -> (b: bool)
        ensures
            b == (self@.phase == Phase::Aborted || self@.phase == Phase::Closed),
    {
        match self.phase {
            Phase::Aborted => true,
            Phase::Closed => true,
            _ => false,
        }
    }

    /// The command of the request, once it is parsed.
    pub fn command(&self) -> (c: Option<Command>)
        ensures
            c == self@.command,
    {
        self.command
    }

    /// The destination of the request, once it is parsed.
    pub fn target(&self) -> (t: Option<TargetAddress>)
        ensures
            match self@.target {
                Some(a) => t.is_some() && t.unwrap()@ == a,
                None => t.is_none(),
            },
    {
        match &self.target {
            Some(a) => Some(a.clone()),
            None => None,
        }
    }

    fn finish(&mut self, phase: Phase, send: Vec<u8>) -> (action: SessionAction)
        requires
            phase == Phase::Aborted || phase == Phase::Closed,
        ensures
            (final(self)@, action@) == closing(old(self)@, phase, send@),
            final(self).server() == old(self).server(),
    {
        self.phase = phase;
        self.buf = Vec::new();
        SessionAction { send, next: Next::Close }
    }

    fn negotiate(&mut self, buf: Vec<u8>) -> (action: SessionAction)
        ensures
            (final(self)@, action@) == negotiate_step(old(self)@, buf@),
            final(self).server() == old(self).server(),
    {
        match bytes_for_handshake(&buf) {
            Err(_) => self.finish(Phase::Aborted, Vec::new()),
            Ok(n) => {
                if n > 0 {
                    self.phase = Phase::Negotiating;
                    self.buf = buf;
                    SessionAction { send: Vec::new(), next: Next::Read(n) }
                } else {
                    let mut src = ByteSource::new(buf);
                    assert(src.pending() =~= buf@);
                    match hand_shake(&mut src) {
                        Ok(answer) => {
                            self.phase = Phase::AwaitingRequest;
                            self.buf = Vec::new();
                            SessionAction { send: answer, next: Next::Read(3) }
                        },
                        Err(_) => self.finish(Phase::Aborted, Vec::new()),
                    }
                }
            },
        }
    }

    fn dispatch(&mut self, buf: Vec<u8>) -> (action: SessionAction)
        ensures
            (final(self)@, action@) == dispatch_step(old(self)@, buf@),
            final(self).server() == old(self).server(),
    {
        match bytes_for_request(&buf) {
            Err(_) => self.finish(Phase::Aborted, Vec::new()),
            Ok(n) => {
                if n > 0 {
                    self.phase = Phase::AwaitingRequest;
                    self.buf = buf;
                    SessionAction { send: Vec::new(), next: Next::Read(n) }
                } else {
                    let mut src = ByteSource::new(buf);
                    assert(src.pending() =~= buf@);
                    match parse_request(&mut src) {
                        Err(_) => self.finish(Phase::Aborted, Vec::new()),
                        Ok((cmd, addr)) => {
                            self.phase = Phase::AwaitingRequest;
                            self.command = Some(cmd);
                            self.target = Some(addr.clone());
                            match cmd {
                                Command::Connect => {
                                    self.phase = Phase::Connecting;
                                    self.buf = Vec::new();
                                    SessionAction { send: Vec::new(), next: Next::Connect(addr) }
                                },
                                Command::Bind => self.finish(Phase::Aborted, Vec::new()),
                                Command::UdpAssociate => self.finish(
                                    Phase::Closed,
                                    udp_associate(),
                                ),
                            }
                        },
                    }
                }
            },
        }
    }

    /// Takes one event and says what to do: see `session_step`.
    ///
    /// Nothing is sent when the session is aborted, and an upstream
    /// connection is asked for only by a CONNECT request.
    pub fn serve(&mut self, event: SessionEvent) -> (action: SessionAction)
        ensures
            (final(self)@, action@) == session_step(old(self)@, event@),
            final(self).server() == old(self).server(),
            old(self)@.sound(),
            final(self)@.sound(),
            final(self)@.phase == Phase::Aborted ==> action@.send.len() == 0 && action@.next
                == NextModel::Close,
            action@.next is Connect ==> final(self)@.command == Some(Command::Connect),
            action@.next is Relay ==> final(self)@.command == Some(Command::Connect),
    {
        proof {
            use_type_invariant(&*self);
        }
        match self.phase {
            Phase::Accepted => match event {
                SessionEvent::Start => {
                    self.phase = Phase::Negotiating;
                    self.buf = Vec::new();
                    SessionAction { send: Vec::new(), next: Next::Read(2) }
                },
                _ => self.finish(Phase::Aborted, Vec::new()),
            },
            Phase::Negotiating => match event {
                SessionEvent::Bytes(b) => {
                    let mut buf: Vec<u8> = Vec::new();
                    core::mem::swap(&mut self.buf, &mut buf);
                    append_bytes(&mut buf, &b);
                    self.negotiate(buf)
                },
                _ => self.finish(Phase::Aborted, Vec::new()),
            },
            Phase::AwaitingRequest => match event {
                SessionEvent::Bytes(b) => {
                    let mut buf: Vec<u8> = Vec::new();
                    core::mem::swap(&mut self.buf, &mut buf);
                    append_bytes(&mut buf, &b);
                    self.dispatch(buf)
                },
                _ => self.finish(Phase::Aborted, Vec::new()),
            },
            Phase::Connecting => match event {
                SessionEvent::Connected(bound) => match reply(ReplyStatus::Succeeded, &bound) {
                    Ok(bytes) => {
                        self.phase = Phase::Relaying;
                        SessionAction { send: bytes, next: Next::Relay }
                    },
                    Err(_) => self.finish(Phase::Aborted, Vec::new()),
                },
                SessionEvent::ConnectFailed(status) => {
                    let told = match status {
                        ReplyStatus::Succeeded => ReplyStatus::GeneralFailure,
                        other => other,
                    };
                    let bound = TargetAddress::IPv4([0, 0, 0, 0], 0);
                    assert(bound@ == unspecified(0)) by {
                        assert(bound@->IPv4_0 =~= seq![0u8, 0u8, 0u8, 0u8]);
                    }
                    match reply(told, &bound) {
                        Ok(bytes) => self.finish(Phase::Closed, bytes),
                        Err(_) => self.finish(Phase::Aborted, Vec::new()),
                    }
                },
                _ => self.finish(Phase::Aborted, Vec::new()),
            },
            Phase::Relaying => match event {
                SessionEvent::RelayDone(_) => self.finish(Phase::Closed, Vec::new()),
                _ => self.finish(Phase::Aborted, Vec::new()),
            },
            Phase::Closed => self.finish(Phase::Closed, Vec::new()),
            Phase::Aborted => self.finish(Phase::Aborted, Vec::new()),
        }
    }
}

/// No step leads a session into connecting or relaying but a parsed CONNECT
/// request.
pub proof fn step_keeps_sound(s: SessionModel, e: SessionEventModel)
    requires
        s.sound(),
    ensures
        session_step(s, e).0.sound(),
{
}

/// A session that is over stays over: whatever is reported to it, it sends
/// nothing and says to close.
pub proof fn over_stays_over(s: SessionModel, e: SessionEventModel)
    requires
        s.phase == Phase::Aborted || s.phase == Phase::Closed,
    ensures
        session_step(s, e).0.phase == s.phase,
        session_step(s, e).1 == (SessionActionModel { send: Seq::empty(), next: NextModel::Close }),
{
}

/// A method offer whose version is not 5 aborts the session as soon as the
/// version is read, and nothing is written.
pub proof fn wrong_version_aborts(s: SessionModel, b: Seq<u8>)
    requires
        s.phase == Phase::Negotiating,
        (s.buf + b).len() >= 2,
        (s.buf + b)[0] != SOCKSV5,
    ensures
        session_step(s, SessionEventModel::Bytes(b)).0.phase == Phase::Aborted,
        session_step(s, SessionEventModel::Bytes(b)).1 == (SessionActionModel {
            send: Seq::empty(),
            next: NextModel::Close,
        }),
        handshake(s.buf + b).0 == Err::<Seq<u8>, ProtocolError>(ProtocolError::BadVersion),
{
}

/// A complete BIND request aborts the session: nothing is sent, and no
/// upstream connection and no relay is asked for.
pub proof fn bind_aborts(s: SessionModel, b: Seq<u8>)
    requires
        s.phase == Phase::AwaitingRequest,
        request(s.buf + b).0 is Ok,
        request(s.buf + b).0->Ok_0.0 == Command::Bind,
    ensures
        session_step(s, SessionEventModel::Bytes(b)).0.phase == Phase::Aborted,
        session_step(s, SessionEventModel::Bytes(b)).1 == (SessionActionModel {
            send: Seq::empty(),
            next: NextModel::Close,
        }),
{
    need_agrees_with_request(s.buf + b);
}

} // verus!
