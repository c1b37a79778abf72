use socks5_proxy::address::TargetAddress;
use socks5_proxy::error::ProtocolError;
use socks5_proxy::socks5::{
    bytes_for_handshake, bytes_for_request, get_cmd, hand_shake, parse_request, reply,
    udp_associate, Command, ReplyStatus,
};
use socks5_proxy::source::ByteSource;

#[test]
fn handshake_answers_no_auth() {
    let mut src = ByteSource::new(vec![0x05, 0x01, 0x00]);
    assert_eq!(hand_shake(&mut src), Ok(vec![0x05, 0x00]));
    assert_eq!(src.position(), 3);
}

#[test]
fn handshake_discards_offered_methods() {
    let mut src = ByteSource::new(vec![0x05, 0x03, 0x02, 0x01, 0x80, 0x05, 0x01]);
    assert_eq!(hand_shake(&mut src), Ok(vec![0x05, 0x00]));
    assert_eq!(src.position(), 5);
    let mut none = ByteSource::new(vec![0x05, 0x00, 0x05]);
    assert_eq!(hand_shake(&mut none), Ok(vec![0x05, 0x00]));
    assert_eq!(none.position(), 2);
}

#[test]
fn handshake_with_wrong_version_gives_no_reply() {
    for ver in [0x00u8, 0x04, 0x06, 0xFF] {
        let mut src = ByteSource::new(vec![ver, 0x01, 0x00]);
        assert_eq!(hand_shake(&mut src), Err(ProtocolError::BadVersion));
        assert_eq!(src.position(), 2);
    }
}

#[test]
fn handshake_cut_short_is_truncated() {
    let mut a = ByteSource::new(vec![]);
    assert_eq!(hand_shake(&mut a), Err(ProtocolError::Truncated));
    let mut b = ByteSource::new(vec![0x05]);
    assert_eq!(hand_shake(&mut b), Err(ProtocolError::Truncated));
    assert_eq!(b.position(), 0);
    let mut c = ByteSource::new(vec![0x05, 0x02, 0x00]);
    assert_eq!(hand_shake(&mut c), Err(ProtocolError::Truncated));
    assert_eq!(c.position(), 2);
}

#[test]
fn command_octets() {
    assert_eq!(Command::from_octet(0x01), Some(Command::Connect));
    assert_eq!(Command::from_octet(0x02), Some(Command::Bind));
    assert_eq!(Command::from_octet(0x03), Some(Command::UdpAssociate));
    assert_eq!(Command::from_octet(0x00), None);
    assert_eq!(Command::from_octet(0x04), None);
    for c in [Command::Connect, Command::Bind, Command::UdpAssociate] {
        assert_eq!(Command::from_octet(c.code()), Some(c));
    }
}

#[test]
fn status_octets() {
    let all = [
        ReplyStatus::Succeeded,
        ReplyStatus::GeneralFailure,
        ReplyStatus::NotAllowed,
        ReplyStatus::NetworkUnreachable,
        ReplyStatus::HostUnreachable,
        ReplyStatus::ConnectionRefused,
        ReplyStatus::TtlExpired,
        ReplyStatus::CommandNotSupported,
        ReplyStatus::AddressTypeNotSupported,
    ];
    for (i, st) in all.iter().enumerate() {
        assert_eq!(st.code() as usize, i);
    }
}

#[test]
fn get_cmd_reads_three_octets() {
    let mut src = ByteSource::new(vec![0x05, 0x03, 0x00, 0x01]);
    assert_eq!(get_cmd(&mut src), Ok(Command::UdpAssociate));
    assert_eq!(src.position(), 3);
    let mut bad_ver = ByteSource::new(vec![0x04, 0x01, 0x00]);
    assert_eq!(get_cmd(&mut bad_ver), Err(ProtocolError::BadVersion));
    let mut bad_cmd = ByteSource::new(vec![0x05, 0x09, 0x00]);
    assert_eq!(get_cmd(&mut bad_cmd), Err(ProtocolError::UnsupportedCommand));
    let mut short = ByteSource::new(vec![0x05, 0x01]);
    assert_eq!(get_cmd(&mut short), Err(ProtocolError::Truncated));
    assert_eq!(short.position(), 0);
}

#[test]
fn connect_request_to_localhost() {
    let mut hello = ByteSource::new(vec![0x05, 0x01, 0x00]);
    assert_eq!(hand_shake(&mut hello), Ok(vec![0x05, 0x00]));
    let mut src = ByteSource::new(vec![
        0x05, 0x01, 0x00, 0x01, 0x7F, 0x00, 0x00, 0x01, 0x00, 0x50,
    ]);
    assert_eq!(
        parse_request(&mut src),
        Ok((Command::Connect, TargetAddress::IPv4([127, 0, 0, 1], 80)))
    );
    assert_eq!(src.position(), 10);
    let bound = TargetAddress::IPv4([192, 168, 0, 7], 54321);
    let bytes = reply(ReplyStatus::Succeeded, &bound).unwrap();
    assert_eq!(&bytes[..4], &[0x05, 0x00, 0x00, 0x01]);
    assert_eq!(&bytes[4..], &[192, 168, 0, 7, 0xD4, 0x31]);
}

#[test]
fn request_leaves_what_follows() {
    let mut src = ByteSource::new(vec![
        0x05, 0x01, 0x00, 0x03, 0x02, b'a', b'b', 0x00, 0x50, b'G', b'E', b'T',
    ]);
    assert_eq!(
        parse_request(&mut src),
        Ok((Command::Connect, TargetAddress::Domain("ab".to_string(), 80)))
    );
    assert_eq!(src.read_exact(3), Some(b"GET".to_vec()));
}

#[test]
fn request_errors() {
    let mut bad_ver = ByteSource::new(vec![0x04, 0x01, 0x00, 0x01, 1, 2, 3, 4, 0, 80]);
    assert_eq!(parse_request(&mut bad_ver), Err(ProtocolError::BadVersion));
    assert_eq!(bad_ver.position(), 3);
    let mut bad_cmd = ByteSource::new(vec![0x05, 0x04, 0x00, 0x01, 1, 2, 3, 4, 0, 80]);
    assert_eq!(parse_request(&mut bad_cmd), Err(ProtocolError::UnsupportedCommand));
    assert_eq!(bad_cmd.position(), 3);
    let mut bad_atyp = ByteSource::new(vec![0x05, 0x01, 0x00, 0x02, 1, 2, 3, 4, 0, 80]);
    assert_eq!(
        parse_request(&mut bad_atyp),
        Err(ProtocolError::UnsupportedAddressType)
    );
    assert_eq!(bad_atyp.position(), 4);
    let mut short = ByteSource::new(vec![0x05, 0x01, 0x00, 0x01, 1, 2, 3, 4, 0]);
    assert_eq!(parse_request(&mut short), Err(ProtocolError::Truncated));
    let mut bad_name = ByteSource::new(vec![0x05, 0x01, 0x00, 0x03, 1, 0x80, 0, 80]);
    assert_eq!(parse_request(&mut bad_name), Err(ProtocolError::MalformedAddress));
}

#[test]
fn reply_layout() {
    let v6 = TargetAddress::IPv6([0, 0, 0, 0, 0, 0, 0, 1], 1080);
    assert_eq!(
        reply(ReplyStatus::ConnectionRefused, &v6),
        Ok(vec![
            0x05, 0x05, 0x00, 0x04, 0, 0, 0, 0, 0, 0, 0, 0, 0, 0, 0, 0, 0, 0, 0, 1, 0x04, 0x38
        ])
    );
    let name = TargetAddress::Domain("gw".to_string(), 7);
    assert_eq!(
        reply(ReplyStatus::Succeeded, &name),
        Ok(vec![0x05, 0x00, 0x00, 0x03, 2, b'g', b'w', 0, 7])
    );
    let too_long = TargetAddress::Domain("n".repeat(300), 7);
    assert_eq!(
        reply(ReplyStatus::Succeeded, &too_long),
        Err(ProtocolError::MalformedAddress)
    );
}

#[test]
fn udp_associate_reply_is_fixed() {
    assert_eq!(
        udp_associate(),
        vec![0x05, 0x00, 0x00, 0x01, 0x00, 0x00, 0x00, 0x00, 0x04, 0x38]
    );
}

#[test]
fn handshake_is_read_in_two_steps() {
    assert_eq!(bytes_for_handshake(&vec![]), Ok(2));
    assert_eq!(bytes_for_handshake(&vec![0x05]), Ok(1));
    assert_eq!(bytes_for_handshake(&vec![0x05, 0x03]), Ok(3));
    assert_eq!(bytes_for_handshake(&vec![0x05, 0x03, 0x00]), Ok(2));
    assert_eq!(bytes_for_handshake(&vec![0x05, 0x03, 0, 1, 2]), Ok(0));
    assert_eq!(bytes_for_handshake(&vec![0x05, 0x00]), Ok(0));
    assert_eq!(
        bytes_for_handshake(&vec![0x04, 0x01]),
        Err(ProtocolError::BadVersion)
    );
}

#[test]
fn request_is_read_field_by_field() {
    assert_eq!(bytes_for_request(&vec![]), Ok(3));
    assert_eq!(bytes_for_request(&vec![0x05, 0x01, 0x00]), Ok(1));
    assert_eq!(bytes_for_request(&vec![0x05, 0x01, 0x00, 0x01]), Ok(6));
    assert_eq!(bytes_for_request(&vec![0x05, 0x01, 0x00, 0x04]), Ok(18));
    assert_eq!(bytes_for_request(&vec![0x05, 0x01, 0x00, 0x03]), Ok(1));
    assert_eq!(bytes_for_request(&vec![0x05, 0x01, 0x00, 0x03, 11]), Ok(13));
    assert_eq!(bytes_for_request(&vec![0x05, 0x01, 0x00, 0x03, 0]), Ok(2));
    assert_eq!(
        bytes_for_request(&vec![0x05, 0x01, 0x00, 0x01, 1, 2, 3, 4, 0, 80]),
        Ok(0)
    );
    assert_eq!(
        bytes_for_request(&vec![0x06, 0x01, 0x00]),
        Err(ProtocolError::BadVersion)
    );
    assert_eq!(
        bytes_for_request(&vec![0x05, 0x00, 0x00]),
        Err(ProtocolError::UnsupportedCommand)
    );
    assert_eq!(
        bytes_for_request(&vec![0x05, 0x01, 0x00, 0x05]),
        Err(ProtocolError::UnsupportedAddressType)
    );
}
