//! End-to-end handshake scenarios: the client and server state machines
//! driven against each other over in-memory byte buffers, the way a
//! transport-owning caller drives them over a connection.
use socks5::address::{Address, SocketAddress};
use socks5::client::{client_hello, client_on_method, client_on_response, ClientProgress};
use socks5::head::{AuthenticationRequest, AuthenticationResponse, TcpRequestHeader,
    TcpResponseHeader};
use socks5::message::{Command, Replies};
use socks5::server::{server_on_authentication, server_on_dialed, server_on_request,
    DialDecision, RequestDecision};

/// Runs one client handshake against one no-auth server instance, both as
/// pure state machines exchanging byte buffers, with a dialer that always
/// succeeds.  Returns the address the server dialed and the client's final
/// outcome.
fn run_session(dest: Address) -> (SocketAddress, Result<(), socks5::error::Error>) {
    let src = SocketAddress::V4([127, 0, 0, 1], 50000);

    // client -> server: method negotiation
    let hello = client_hello(&None);
    let auth_request = AuthenticationRequest::read_from(hello.as_ref()).unwrap();
    let (auth_response_bytes, proceed) = server_on_authentication(&auth_request);
    assert!(proceed);

    // server -> client: selected method
    let auth_response = AuthenticationResponse::read_from(auth_response_bytes.as_ref()).unwrap();
    let request_bytes = match client_on_method(&auth_response, &None, dest) {
        ClientProgress::Request(b) => b,
        _ => panic!("a no-auth server continues straight to the request"),
    };

    // client -> server: CONNECT request; the server dispatches and dials
    let header = TcpRequestHeader::read_from(request_bytes.as_ref());
    let dialed = match server_on_request(header, src) {
        RequestDecision::Dial(sa) => sa,
        _ => panic!("a literal destination is dialed directly"),
    };
    let response_bytes = match server_on_dialed(Ok(()), dialed) {
        DialDecision::Relay(b) => b,
        DialDecision::Fail(_) => panic!("the dial succeeded"),
    };

    // server -> client: the reply; the relay would start now
    let response = TcpResponseHeader::read_from(response_bytes.as_ref()).unwrap();
    (dialed, client_on_response(&response))
}

#[test]
fn connect_through_no_auth_server() {
    let (dialed, outcome) = run_session(Address::Socket(SocketAddress::V4([10, 1, 2, 3], 7)));
    assert_eq!(dialed, SocketAddress::V4([10, 1, 2, 3], 7));
    assert!(outcome.is_ok());
}

#[test]
fn two_sessions_stay_independent() {
    // two simultaneous connections through one server share no state: each
    // session's dial and reply depend only on its own messages.
    let a = Address::Socket(SocketAddress::V4([10, 0, 0, 1], 81));
    let b = Address::Socket(SocketAddress::V6([3; 16], 82));

    let (dialed_a, outcome_a) = run_session(a);
    let (dialed_b, outcome_b) = run_session(b);

    assert_eq!(dialed_a, SocketAddress::V4([10, 0, 0, 1], 81));
    assert_eq!(dialed_b, SocketAddress::V6([3; 16], 82));
    assert!(outcome_a.is_ok() && outcome_b.is_ok());
}

#[test]
fn rejected_connect_surfaces_the_reply() {
    // a server that cannot be reached answers with a failure reply; the
    // client surfaces it as the matching error.
    let refused = TcpResponseHeader::new(
        Replies::ConnectionRefused,
        Address::Socket(SocketAddress::V4([10, 1, 2, 3], 7)),
    );
    let decoded = TcpResponseHeader::read_from(refused.to_bytes().as_ref()).unwrap();
    let e = client_on_response(&decoded).unwrap_err();
    assert_eq!(e.reply, Replies::ConnectionRefused);
}

#[test]
fn unsupported_command_session_ends_without_dial() {
    let src = SocketAddress::V4([127, 0, 0, 1], 50000);
    let header = TcpRequestHeader::new(
        Command::Bind,
        Address::Socket(SocketAddress::V4([10, 1, 2, 3], 7)),
    );
    let denied = match server_on_request(Ok(header), src) {
        RequestDecision::Deny(b) => b,
        _ => panic!("Bind never dials"),
    };
    let response = TcpResponseHeader::read_from(denied.as_ref()).unwrap();
    assert_eq!(response.reply, Replies::CommandNotSupported);
}
