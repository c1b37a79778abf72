use socks5_proxy::address::TargetAddress;
use socks5_proxy::relay::{Cause, Direction, RelayOutcome};
use socks5_proxy::socks5::{
    Command, Next, Phase, ReplyStatus, SessionAction, SessionEvent, TCPRelay,
};

fn quiet(next: Next) -> SessionAction {
    SessionAction { send: vec![], next }
}

fn negotiated() -> TCPRelay {
    let mut s = TCPRelay::new("upstream".to_string());
    assert_eq!(s.serve(SessionEvent::Start), quiet(Next::Read(2)));
    assert_eq!(s.serve(SessionEvent::Bytes(vec![0x05, 0x01])), quiet(Next::Read(1)));
    assert_eq!(
        s.serve(SessionEvent::Bytes(vec![0x00])),
        SessionAction { send: vec![0x05, 0x00], next: Next::Read(3) }
    );
    assert_eq!(s.phase(), Phase::AwaitingRequest);
    s
}

fn connecting() -> TCPRelay {
    let mut s = negotiated();
    assert_eq!(s.serve(SessionEvent::Bytes(vec![0x05, 0x01, 0x00])), quiet(Next::Read(1)));
    assert_eq!(s.serve(SessionEvent::Bytes(vec![0x01])), quiet(Next::Read(6)));
    assert_eq!(
        s.serve(SessionEvent::Bytes(vec![0x7F, 0x00, 0x00, 0x01, 0x00, 0x50])),
        quiet(Next::Connect(TargetAddress::IPv4([127, 0, 0, 1], 80)))
    );
    assert_eq!(s.phase(), Phase::Connecting);
    s
}

#[test]
fn new_session_is_accepted() {
    let s = TCPRelay::new("1234556".to_string());
    assert_eq!(s.phase(), Phase::Accepted);
    assert!(!s.is_closed());
    assert_eq!(s.command(), None);
    assert_eq!(s.target(), None);
}

#[test]
fn connect_session_runs_to_the_relay_and_closes() {
    let mut s = connecting();
    assert_eq!(s.command(), Some(Command::Connect));
    assert_eq!(s.target(), Some(TargetAddress::IPv4([127, 0, 0, 1], 80)));
    let act = s.serve(SessionEvent::Connected(TargetAddress::IPv4([10, 1, 2, 3], 40000)));
    assert_eq!(
        act,
        SessionAction {
            send: vec![0x05, 0x00, 0x00, 0x01, 10, 1, 2, 3, 0x9C, 0x40],
            next: Next::Relay
        }
    );
    assert_eq!(s.phase(), Phase::Relaying);
    let done = RelayOutcome { first: Direction::ClientToUpstream, cause: Cause::Eof };
    assert_eq!(s.serve(SessionEvent::RelayDone(done)), quiet(Next::Close));
    assert_eq!(s.phase(), Phase::Closed);
    assert!(s.is_closed());
}

#[test]
fn handshake_without_methods_is_answered_at_once() {
    let mut s = TCPRelay::new(String::new());
    s.serve(SessionEvent::Start);
    assert_eq!(
        s.serve(SessionEvent::Bytes(vec![0x05, 0x00])),
        SessionAction { send: vec![0x05, 0x00], next: Next::Read(3) }
    );
}

#[test]
fn wrong_version_aborts_without_reply() {
    let mut s = TCPRelay::new(String::new());
    s.serve(SessionEvent::Start);
    assert_eq!(s.serve(SessionEvent::Bytes(vec![0x04, 0x01])), quiet(Next::Close));
    assert_eq!(s.phase(), Phase::Aborted);
    assert!(s.is_closed());
}

#[test]
fn wrong_version_in_request_aborts() {
    let mut s = negotiated();
    assert_eq!(s.serve(SessionEvent::Bytes(vec![0x04, 0x01, 0x00])), quiet(Next::Close));
    assert_eq!(s.phase(), Phase::Aborted);
}

#[test]
fn unknown_command_aborts() {
    let mut s = negotiated();
    assert_eq!(s.serve(SessionEvent::Bytes(vec![0x05, 0x07, 0x00])), quiet(Next::Close));
    assert_eq!(s.phase(), Phase::Aborted);
}

#[test]
fn unknown_address_type_aborts_after_its_octet() {
    let mut s = negotiated();
    assert_eq!(s.serve(SessionEvent::Bytes(vec![0x05, 0x01, 0x00])), quiet(Next::Read(1)));
    assert_eq!(s.serve(SessionEvent::Bytes(vec![0x02])), quiet(Next::Close));
    assert_eq!(s.phase(), Phase::Aborted);
}

#[test]
fn bind_aborts_without_connecting() {
    let mut s = negotiated();
    assert_eq!(s.serve(SessionEvent::Bytes(vec![0x05, 0x02, 0x00])), quiet(Next::Read(1)));
    assert_eq!(s.serve(SessionEvent::Bytes(vec![0x01])), quiet(Next::Read(6)));
    assert_eq!(
        s.serve(SessionEvent::Bytes(vec![0, 0, 0, 0, 0x00, 0x00])),
        quiet(Next::Close)
    );
    assert_eq!(s.phase(), Phase::Aborted);
    assert_eq!(s.command(), Some(Command::Bind));
    assert_eq!(s.serve(SessionEvent::Start), quiet(Next::Close));
}

#[test]
fn udp_associate_replies_then_closes() {
    let mut s = negotiated();
    s.serve(SessionEvent::Bytes(vec![0x05, 0x03, 0x00]));
    s.serve(SessionEvent::Bytes(vec![0x01]));
    assert_eq!(
        s.serve(SessionEvent::Bytes(vec![0, 0, 0, 0, 0x00, 0x00])),
        SessionAction {
            send: vec![0x05, 0x00, 0x00, 0x01, 0x00, 0x00, 0x00, 0x00, 0x04, 0x38],
            next: Next::Close
        }
    );
    assert_eq!(s.phase(), Phase::Closed);
}

#[test]
fn domain_request_is_read_in_four_steps() {
    let mut s = negotiated();
    assert_eq!(s.serve(SessionEvent::Bytes(vec![0x05, 0x01, 0x00])), quiet(Next::Read(1)));
    assert_eq!(s.serve(SessionEvent::Bytes(vec![0x03])), quiet(Next::Read(1)));
    assert_eq!(s.serve(SessionEvent::Bytes(vec![11])), quiet(Next::Read(13)));
    let mut rest = b"example.com".to_vec();
    rest.extend_from_slice(&[0x01, 0xBB]);
    assert_eq!(
        s.serve(SessionEvent::Bytes(rest)),
        quiet(Next::Connect(TargetAddress::Domain("example.com".to_string(), 443)))
    );
}

#[test]
fn malformed_domain_aborts() {
    let mut s = negotiated();
    s.serve(SessionEvent::Bytes(vec![0x05, 0x01, 0x00]));
    s.serve(SessionEvent::Bytes(vec![0x03]));
    s.serve(SessionEvent::Bytes(vec![1]));
    assert_eq!(s.serve(SessionEvent::Bytes(vec![0xC0, 0, 80])), quiet(Next::Close));
    assert_eq!(s.phase(), Phase::Aborted);
}

#[test]
fn failed_connect_tells_the_status() {
    let mut s = connecting();
    assert_eq!(
        s.serve(SessionEvent::ConnectFailed(ReplyStatus::HostUnreachable)),
        SessionAction {
            send: vec![0x05, 0x04, 0x00, 0x01, 0, 0, 0, 0, 0, 0],
            next: Next::Close
        }
    );
    assert_eq!(s.phase(), Phase::Closed);
    let mut t = connecting();
    assert_eq!(
        t.serve(SessionEvent::ConnectFailed(ReplyStatus::Succeeded)).send,
        vec![0x05, 0x01, 0x00, 0x01, 0, 0, 0, 0, 0, 0]
    );
}

#[test]
fn failure_on_the_socket_aborts() {
    let mut s = negotiated();
    assert_eq!(s.serve(SessionEvent::Failed), quiet(Next::Close));
    assert_eq!(s.phase(), Phase::Aborted);
    let mut t = TCPRelay::new(String::new());
    t.serve(SessionEvent::Start);
    assert_eq!(t.serve(SessionEvent::Failed), quiet(Next::Close));
    assert_eq!(t.phase(), Phase::Aborted);
}

#[test]
fn event_out_of_turn_aborts() {
    let mut s = TCPRelay::new(String::new());
    assert_eq!(s.serve(SessionEvent::Bytes(vec![5, 0])), quiet(Next::Close));
    assert_eq!(s.phase(), Phase::Aborted);
    let mut t = connecting();
    assert_eq!(t.serve(SessionEvent::Bytes(vec![1])), quiet(Next::Close));
    assert_eq!(t.phase(), Phase::Aborted);
}

#[test]
fn closed_session_stays_closed() {
    let mut s = connecting();
    s.serve(SessionEvent::ConnectFailed(ReplyStatus::GeneralFailure));
    assert_eq!(s.phase(), Phase::Closed);
    assert_eq!(s.serve(SessionEvent::Start), quiet(Next::Close));
    assert_eq!(s.serve(SessionEvent::Failed), quiet(Next::Close));
    assert_eq!(s.phase(), Phase::Closed);
}

#[test]
fn unencodable_bound_address_aborts() {
    let mut s = connecting();
    let bound = TargetAddress::Domain("h".repeat(256), 1);
    assert_eq!(s.serve(SessionEvent::Connected(bound)), quiet(Next::Close));
    assert_eq!(s.phase(), Phase::Aborted);
}
