//! The server-side handshake and dispatch: a state machine from received
//! messages and injected outcomes (resolver, dialer) to the bytes to write
//! and the action to take next.
//!
//! The caller (which owns the accepted connection) drives it: read an
//! `AuthenticationRequest` and apply `server_on_authentication`; read a
//! `TcpRequestHeader` and apply `server_on_request`; run the resolver or the
//! dialer as the decision asks, handing their outcomes to
//! `server_on_resolved` and `server_on_dialed`; and on `Relay`, splice the
//! two streams until either direction finishes.
use vstd::prelude::*;

use crate::address::{sa_eq, Address, SocketAddress};
use crate::buffer::bytes_contents;
use crate::error::Error;
use crate::head::{AuthenticationRequest, AuthenticationResponse, TcpRequestHeader,
    TcpResponseHeader};
use crate::message::{Command, Method, Replies};
use crate::ser::Encode;
use crate::VERSION;

verus! {

/// The framed response header answering with `reply` against `address`.
pub open spec fn spec_response_bytes(reply: Replies, address: Address) -> Seq<u8> {
    seq![VERSION, reply.spec_byte(), 0u8] + address.spec_payload()
}

/// Builds the framed response header answering with `reply` against
/// `address`.
pub fn response_bytes(reply: Replies, address: Address) -> (r: bytes::Bytes)
    requires
        address.wf(),
    ensures
        bytes_contents(r) == spec_response_bytes(reply, address),
{
    let header = TcpResponseHeader::new(reply, address);
    let r = header.to_bytes();
    proof {
        assert(seq![VERSION] + header.spec_payload() =~= spec_response_bytes(
            reply,
            header.address,
        ));
    }
    r
}

/// Step one: answer the method negotiation.  The server supports only
/// no-authentication: it selects NONE exactly when the client offered it,
/// and NotAcceptable otherwise.  Returns the framed response to write and
/// whether the handshake proceeds.
pub fn server_on_authentication(request: &AuthenticationRequest) -> (r: (bytes::Bytes, bool))
    ensures
        r.1 == request.methods@.contains(Method::NONE),
        r.1 ==> bytes_contents(r.0) == seq![VERSION, Method::NONE.spec_byte()],
        !r.1 ==> bytes_contents(r.0) == seq![VERSION, Method::NotAcceptable.spec_byte()],
{
    let acceptable = !request.required_authentication();
    let method = if acceptable {
        Method::NONE
    } else {
        Method::NotAcceptable
    };
    let response = AuthenticationResponse { method };
    let b = response.to_bytes();
    proof {
        assert(seq![VERSION] + response.spec_payload() =~= seq![VERSION, method.spec_byte()]);
    }
    (b, acceptable)
}

/// What the server does with the request header it read.
pub enum RequestDecision {
    /// Resolve this domain name (name bytes and port) with the injected
    /// resolver, then apply `server_on_resolved` to the outcome.
    Resolve(Vec<u8>, u16),
    /// Dial this destination with the injected connector, then apply
    /// `server_on_dialed` to the outcome.
    Dial(SocketAddress),
    /// Write these response bytes, then fail the handshake with the error.
    Reject(bytes::Bytes, Error),
    /// Write these response bytes, then end the handshake without a relay:
    /// the command (Bind or UdpAssociate) is not supported, and no dial
    /// happens.
    Deny(bytes::Bytes),
}

/// Step two: dispatch on the request header, or on its decode error.
///
/// A decode error answers with the error's reply code against the inbound
/// peer's address `src` (the destination is not yet known), then propagates
/// the error.  A Connect request moves on to resolution (a literal address
/// resolves to itself and goes straight to the dial).  Bind and UdpAssociate
/// answer `CommandNotSupported` against the request's own address, and never
/// dial or relay.
pub fn server_on_request(request: Result<TcpRequestHeader, Error>, src: SocketAddress) -> (r:
    RequestDecision)
    requires
        request matches Ok(h) ==> h.wf(),
    ensures
        request matches Err(e) ==> (r matches RequestDecision::Reject(b, e2) && bytes_contents(b)
            == spec_response_bytes(e.reply, Address::Socket(src)) && e2 == e),
        request matches Ok(h) ==> {
            &&& h.command == Command::Connect ==> (h.address matches Address::Socket(sa) ==> (
            r matches RequestDecision::Dial(out) && out == sa))
            &&& h.command == Command::Connect ==> (h.address matches Address::DomainName(
                name,
                port,
            ) ==> (r matches RequestDecision::Resolve(n, p) && n@ == name@ && p == port))
            &&& h.command != Command::Connect ==> (r matches RequestDecision::Deny(b)
                && bytes_contents(b) == spec_response_bytes(
                Replies::CommandNotSupported,
                h.address,
            ))
        },
{
    match request {
        Err(e) => {
            let b = response_bytes(e.reply, Address::Socket(src));
            RequestDecision::Reject(b, e)
        },
        Ok(h) => {
            let TcpRequestHeader { command, address } = h;
            match command {
                Command::Connect => match address {
                    Address::Socket(sa) => RequestDecision::Dial(sa),
                    Address::DomainName(name, port) => RequestDecision::Resolve(name, port),
                },
                _ => {
                    let b = response_bytes(Replies::CommandNotSupported, address);
                    RequestDecision::Deny(b)
                },
            }
        },
    }
}

/// Step three, only for domain names: dispatch on the resolver's outcome for
/// the name and port that `server_on_request` handed out.
///
/// Success moves on to the dial; failure answers `HostUnreachable` (carrying
/// the resolver's message) against the unresolved address, then propagates
/// the error.
pub fn server_on_resolved(outcome: Result<SocketAddress, String>, name: Vec<u8>, port: u16) -> (r:
    RequestDecision)
    requires
        name@.len() <= 255,
    ensures
        outcome matches Ok(sa) ==> (r matches RequestDecision::Dial(out) && sa_eq(out, sa)),
        outcome matches Err(m) ==> (r matches RequestDecision::Reject(b, e) && e.reply
            == Replies::HostUnreachable && e.message@ == m@ && bytes_contents(b)
            == spec_response_bytes(Replies::HostUnreachable, Address::DomainName(name, port))),
{
    let address = Address::DomainName(name, port);
    match address.lookup(Some(outcome)) {
        Ok(sa) => RequestDecision::Dial(sa),
        Err(e) => {
            let reply = e.reply;
            let b = response_bytes(reply, address);
            RequestDecision::Reject(b, e)
        },
    }
}

/// What the server does after the dial.
pub enum DialDecision {
    /// Write these response bytes, then relay the client and destination
    /// streams bidirectionally until either direction finishes.
    Relay(bytes::Bytes),
    /// Fail the handshake with the error.  No response is written on a dial
    /// failure — unlike a resolution failure, which does answer first.
    Fail(Error),
}

/// Step four: dispatch on the dialer's outcome for the resolved destination.
///
/// Success answers `Succeeded` against the resolved address and starts the
/// relay; failure propagates an I/O error (as `GeneralFailure`, carrying the
/// dialer's message) without writing a reply.
pub fn server_on_dialed(outcome: Result<(), String>, resolved: SocketAddress) -> (r: DialDecision)
    ensures
        outcome is Ok ==> (r matches DialDecision::Relay(b) && bytes_contents(b)
            == spec_response_bytes(Replies::Succeeded, Address::Socket(resolved))),
        outcome matches Err(m) ==> (r matches DialDecision::Fail(e) && e.reply
            == Replies::GeneralFailure && e.message@ == m@),
{
    match outcome {
        Ok(()) => DialDecision::Relay(response_bytes(Replies::Succeeded, Address::Socket(resolved))),
        Err(m) => DialDecision::Fail(Error::with_message(Replies::GeneralFailure, m)),
    }
}

} // verus!
