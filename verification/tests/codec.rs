//! Wire-codec tests: exact byte layouts, round trips, and decode errors.
use socks5::address::{Address, SocketAddress};
use socks5::head::{
    AuthenticationRequest, AuthenticationResponse, SubNegotiationAuthenticationRequest,
    SubNegotiationAuthenticationResponse, TcpRequestHeader, TcpResponseHeader,
};
use socks5::message::{Command, Method, Replies};
use socks5::ser::check_version;

fn v4(a: u8, b: u8, c: u8, d: u8, port: u16) -> Address {
    Address::Socket(SocketAddress::V4([a, b, c, d], port))
}

#[test]
fn address_ipv4_exact_bytes() {
    let a = v4(127, 0, 0, 1, 80);
    assert_eq!(a.to_bytes().as_ref(), &[1, 127, 0, 0, 1, 0, 80]);
}

#[test]
fn address_ipv6_exact_bytes() {
    let a = Address::Socket(SocketAddress::V6([0xfe; 16], 0x1f90));
    let mut expected = vec![4u8];
    expected.extend_from_slice(&[0xfe; 16]);
    expected.extend_from_slice(&[0x1f, 0x90]);
    assert_eq!(a.to_bytes().as_ref(), expected.as_slice());
}

#[test]
fn address_domain_exact_bytes() {
    let a = Address::DomainName(b"example.com".to_vec(), 443);
    let mut expected = vec![3u8, 11];
    expected.extend_from_slice(b"example.com");
    expected.extend_from_slice(&[1, 187]);
    assert_eq!(a.to_bytes().as_ref(), expected.as_slice());
}

#[test]
fn address_round_trip_ipv4() {
    let a = v4(10, 20, 30, 40, 65535);
    let encoded = a.to_bytes();
    let decoded = Address::from_bytes(encoded.as_ref()).unwrap();
    assert_eq!(decoded, a);
}

#[test]
fn address_round_trip_ipv6() {
    let octets: [u8; 16] = [0, 1, 2, 3, 4, 5, 6, 7, 8, 9, 10, 11, 12, 13, 14, 15];
    let a = Address::Socket(SocketAddress::V6(octets, 1));
    let encoded = a.to_bytes();
    let decoded = Address::from_bytes(encoded.as_ref()).unwrap();
    assert_eq!(decoded, a);
}

#[test]
fn address_round_trip_domain_len_0() {
    let a = Address::DomainName(vec![], 0);
    let decoded = Address::from_bytes(a.to_bytes().as_ref()).unwrap();
    assert_eq!(decoded, a);
}

#[test]
fn address_round_trip_domain_len_1() {
    let a = Address::DomainName(vec![b'x'], 8080);
    let decoded = Address::from_bytes(a.to_bytes().as_ref()).unwrap();
    assert_eq!(decoded, a);
}

#[test]
fn address_round_trip_domain_len_255() {
    let a = Address::DomainName(vec![b'a'; 255], 53);
    let decoded = Address::from_bytes(a.to_bytes().as_ref()).unwrap();
    assert_eq!(decoded, a);
}

#[test]
fn address_round_trip_ignores_trailing_bytes() {
    let a = v4(192, 168, 0, 1, 1080);
    let mut encoded = a.to_bytes().as_ref().to_vec();
    encoded.extend_from_slice(&[0xaa, 0xbb]);
    let decoded = Address::from_bytes(&encoded).unwrap();
    assert_eq!(decoded, a);
}

#[test]
fn address_unknown_tag_not_supported() {
    let e = Address::from_bytes(&[2, 127, 0, 0, 1, 0, 80]).unwrap_err();
    assert_eq!(e.reply, Replies::AddressTypeNotSupported);
    let e = Address::from_bytes(&[0]).unwrap_err();
    assert_eq!(e.reply, Replies::AddressTypeNotSupported);
}

#[test]
fn address_truncated_is_general_failure() {
    assert_eq!(Address::from_bytes(&[]).unwrap_err().reply, Replies::GeneralFailure);
    assert_eq!(Address::from_bytes(&[1, 127, 0]).unwrap_err().reply, Replies::GeneralFailure);
    assert_eq!(Address::from_bytes(&[4, 0, 1]).unwrap_err().reply, Replies::GeneralFailure);
    // domain of advertised length 5 with only 3 name bytes
    assert_eq!(Address::from_bytes(&[3, 5, b'a', b'b', b'c']).unwrap_err().reply, Replies::GeneralFailure);
}

#[test]
fn check_version_accepts_only_5() {
    assert!(check_version(5).is_ok());
    for v in [0u8, 1, 4, 6, 255] {
        assert_eq!(check_version(v).unwrap_err().reply, Replies::ConnectionRefused);
    }
}

#[test]
fn wrong_version_refused_for_every_message() {
    // P2: whatever the message type, a first byte other than 5 is ConnectionRefused.
    let e = AuthenticationRequest::read_from(&[4, 1, 0]).unwrap_err();
    assert_eq!(e.reply, Replies::ConnectionRefused);
    let e = AuthenticationResponse::read_from(&[4, 0]).unwrap_err();
    assert_eq!(e.reply, Replies::ConnectionRefused);
    let e = TcpRequestHeader::read_from(&[4, 1, 0, 1, 127, 0, 0, 1, 0, 80]).unwrap_err();
    assert_eq!(e.reply, Replies::ConnectionRefused);
    let e = TcpResponseHeader::read_from(&[4, 0, 0, 1, 127, 0, 0, 1, 0, 80]).unwrap_err();
    assert_eq!(e.reply, Replies::ConnectionRefused);
}

#[test]
fn authentication_request_exact_bytes_and_round_trip() {
    let req = AuthenticationRequest::new(vec![Method::NONE, Method::PASSWORD]);
    let encoded = req.to_bytes();
    assert_eq!(encoded.as_ref(), &[5, 2, 0, 2]);
    let decoded = AuthenticationRequest::read_from(encoded.as_ref()).unwrap();
    assert_eq!(decoded.methods, vec![Method::NONE, Method::PASSWORD]);
}

#[test]
fn authentication_request_empty_method_list() {
    let decoded = AuthenticationRequest::read_from(&[5, 0]).unwrap();
    assert!(decoded.methods.is_empty());
    assert!(decoded.required_authentication());
}

#[test]
fn authentication_request_largest_method_list() {
    let req = AuthenticationRequest::new(vec![Method::PASSWORD; 255]);
    let encoded = req.to_bytes();
    assert_eq!(encoded.len(), 257);
    assert_eq!(encoded[1], 255);
    let decoded = AuthenticationRequest::read_from(encoded.as_ref()).unwrap();
    assert_eq!(decoded.methods.len(), 255);
    assert!(decoded.methods.iter().all(|m| *m == Method::PASSWORD));
}

#[test]
fn authentication_request_required_authentication() {
    let req = AuthenticationRequest::new(vec![Method::PASSWORD]);
    assert!(req.required_authentication());
    let req = AuthenticationRequest::new(vec![Method::PASSWORD, Method::NONE]);
    assert!(!req.required_authentication());
}

#[test]
fn authentication_request_bad_method_byte() {
    // methods [0x00, 0x7f]: 0x7f is no method.
    let e = AuthenticationRequest::read_from(&[5, 2, 0, 0x7f]).unwrap_err();
    assert_eq!(e.reply, Replies::GeneralFailure);
}

#[test]
fn authentication_response_round_trip() {
    let resp = AuthenticationResponse::from(Method::NONE);
    assert!(!resp.required_authentication());
    let encoded = resp.to_bytes();
    assert_eq!(encoded.as_ref(), &[5, 0]);
    let decoded = AuthenticationResponse::read_from(encoded.as_ref()).unwrap();
    assert_eq!(decoded.method, Method::NONE);

    let resp = AuthenticationResponse::from(Method::NotAcceptable);
    assert!(resp.required_authentication());
    assert_eq!(resp.to_bytes().as_ref(), &[5, 0xff]);
}

#[test]
fn sub_negotiation_request_exact_bytes_and_round_trip() {
    let req = SubNegotiationAuthenticationRequest::new(b"user".to_vec(), b"pwd".to_vec());
    let encoded = req.to_bytes();
    assert_eq!(encoded.as_ref(), &[1, 4, b'u', b's', b'e', b'r', 3, b'p', b'w', b'd']);
    let decoded = SubNegotiationAuthenticationRequest::read_from(encoded.as_ref()).unwrap();
    assert_eq!(decoded.username, b"user".to_vec());
    assert_eq!(decoded.password, b"pwd".to_vec());
}

#[test]
fn sub_negotiation_bad_sub_version() {
    let e = SubNegotiationAuthenticationRequest::read_from(&[2, 1, b'u', 1, b'p']).unwrap_err();
    assert_eq!(e.reply, Replies::GeneralFailure);
    let e = SubNegotiationAuthenticationResponse::read_from(&[2, 0]).unwrap_err();
    assert_eq!(e.reply, Replies::GeneralFailure);
}

#[test]
fn sub_negotiation_response_status() {
    let ok = SubNegotiationAuthenticationResponse::read_from(&[1, 0]).unwrap();
    assert!(ok.is_success());
    assert_eq!(ok.to_bytes().as_ref(), &[1, 0]);
    let bad = SubNegotiationAuthenticationResponse::read_from(&[1, 9]).unwrap();
    assert!(!bad.is_success());
}

#[test]
fn tcp_request_header_exact_bytes_and_round_trip() {
    let h = TcpRequestHeader::new(Command::Connect, v4(127, 0, 0, 1, 1080));
    let encoded = h.to_bytes();
    assert_eq!(encoded.as_ref(), &[5, 1, 0, 1, 127, 0, 0, 1, 4, 56]);
    let decoded = TcpRequestHeader::read_from(encoded.as_ref()).unwrap();
    assert_eq!(decoded.command(), Command::Connect);
    assert_eq!(*decoded.address(), v4(127, 0, 0, 1, 1080));
}

#[test]
fn tcp_request_header_domain_round_trip() {
    let h = TcpRequestHeader::new(Command::Connect, Address::DomainName(b"host".to_vec(), 80));
    let decoded = TcpRequestHeader::read_from(h.to_bytes().as_ref()).unwrap();
    assert_eq!(*decoded.address(), Address::DomainName(b"host".to_vec(), 80));
}

#[test]
fn tcp_request_header_nonzero_reserved_byte_is_read() {
    // the reserved byte is read but not validated
    let decoded = TcpRequestHeader::read_from(&[5, 1, 0xee, 1, 9, 9, 9, 9, 0, 80]).unwrap();
    assert_eq!(*decoded.address(), v4(9, 9, 9, 9, 80));
}

#[test]
fn tcp_request_header_bad_command() {
    let e = TcpRequestHeader::read_from(&[5, 9, 0, 1, 127, 0, 0, 1, 0, 80]).unwrap_err();
    assert_eq!(e.reply, Replies::GeneralFailure);
}

#[test]
fn tcp_request_header_unknown_address_tag() {
    // P3 through a full message: ATYP 2 is no address type.
    let e = TcpRequestHeader::read_from(&[5, 1, 0, 2, 127, 0, 0, 1, 0, 80]).unwrap_err();
    assert_eq!(e.reply, Replies::AddressTypeNotSupported);
}

#[test]
fn tcp_response_header_exact_bytes_and_round_trip() {
    let h = TcpResponseHeader::new(Replies::Succeeded, v4(10, 0, 0, 7, 443));
    assert!(h.is_success());
    let encoded = h.to_bytes();
    assert_eq!(encoded.as_ref(), &[5, 0, 0, 1, 10, 0, 0, 7, 1, 187]);
    let decoded = TcpResponseHeader::read_from(encoded.as_ref()).unwrap();
    assert!(decoded.is_success());
    assert_eq!(decoded.address, v4(10, 0, 0, 7, 443));
}

#[test]
fn tcp_response_header_failure_reply() {
    let h = TcpResponseHeader::new(Replies::HostUnreachable, v4(0, 0, 0, 0, 0));
    assert!(!h.is_success());
    let decoded = TcpResponseHeader::read_from(h.to_bytes().as_ref()).unwrap();
    assert_eq!(decoded.reply, Replies::HostUnreachable);
}

#[test]
fn method_byte_values() {
    for (m, b) in [
        (Method::NONE, 0x00u8),
        (Method::GSSAPI, 0x01),
        (Method::PASSWORD, 0x02),
        (Method::NotAcceptable, 0xff),
    ] {
        assert_eq!(m.byte(), b);
        assert_eq!(Method::try_from(b).unwrap(), m);
    }
    assert_eq!(Method::try_from(0x03).unwrap_err().reply, Replies::GeneralFailure);
    assert_eq!(Method::default(), Method::NONE);
}

#[test]
fn command_byte_values() {
    for (c, b) in [(Command::Connect, 1u8), (Command::Bind, 2), (Command::UdpAssociate, 3)] {
        assert_eq!(c.byte(), b);
        assert_eq!(Command::try_from(b).unwrap(), c);
    }
    assert_eq!(Command::try_from(0).unwrap_err().reply, Replies::GeneralFailure);
}

#[test]
fn replies_byte_values() {
    let all = [
        Replies::Succeeded,
        Replies::GeneralFailure,
        Replies::ConnectionNotAllowed,
        Replies::NetworkUnreachable,
        Replies::HostUnreachable,
        Replies::ConnectionRefused,
        Replies::TtlExpired,
        Replies::CommandNotSupported,
        Replies::AddressTypeNotSupported,
    ];
    for (i, r) in all.iter().enumerate() {
        assert_eq!(r.byte(), i as u8);
        assert_eq!(Replies::try_from(i as u8).unwrap(), *r);
    }
    assert_eq!(Replies::try_from(9).unwrap_err().reply, Replies::GeneralFailure);
}

#[test]
fn replies_to_error_messages() {
    let e = Replies::HostUnreachable.to_error();
    assert_eq!(e.reply, Replies::HostUnreachable);
    assert_eq!(e.message, "host unreachable");
    let e = Replies::TtlExpired.to_error();
    assert_eq!(e.message, "TTL expired");
}
