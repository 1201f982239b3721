//! The client-side handshake: a state machine from received messages to the
//! bytes to write next, over an already-open transport.
//!
//! The caller (which owns the transport) drives it: write `client_hello`,
//! read an `AuthenticationResponse` and apply `client_on_method`, optionally
//! exchange the sub-negotiation and apply `client_on_sub_negotiation`, then
//! read the final `TcpResponseHeader` and apply `client_on_response`.  Every
//! step is a pure function; any I/O failure is terminal for the handshake
//! and surfaces to the caller.
use vstd::prelude::*;

use crate::address::Address;
use crate::buffer::bytes_contents;
use crate::error::Error;
use crate::head::{
    AuthenticationRequest, AuthenticationResponse, SubNegotiationAuthenticationRequest,
    SubNegotiationAuthenticationResponse, TcpRequestHeader, TcpResponseHeader, SUB_VERSION,
};
use crate::message::{Command, Method, Replies};
use crate::ser::Encode;
use crate::VERSION;

verus! {

/// Username and password for the RFC 1929 sub-negotiation; each must fit its
/// one-byte wire length field.
pub struct Credentials {
    pub username: Vec<u8>,
    pub password: Vec<u8>,
}

impl Credentials {
    /// Well-formedness: both fields fit their one-byte wire length.
    pub open spec fn wf(&self) -> bool {
        self.username@.len() <= 255 && self.password@.len() <= 255
    }

    pub fn new(username: Vec<u8>, password: Vec<u8>) -> (r: Credentials)
        requires
            username@.len() <= 255,
            password@.len() <= 255,
        ensures
            r.username@ == username@,
            r.password@ == password@,
    {
        Credentials { username, password }
    }
}

/// The single method the client offers: PASSWORD when credentials were
/// supplied, NONE otherwise.
pub open spec fn spec_offered_method(credentials: Option<Credentials>) -> Method {
    if credentials is Some {
        Method::PASSWORD
    } else {
        Method::NONE
    }
}

/// The framed CONNECT request the client sends for its destination.
pub open spec fn spec_connect_request_bytes(dest: Address) -> Seq<u8> {
    seq![VERSION, Command::Connect.spec_byte(), 0u8] + dest.spec_payload()
}

/// The sub-negotiation request bytes carrying the given credentials.
pub open spec fn spec_sub_negotiation_bytes(c: Credentials) -> Seq<u8> {
    seq![SUB_VERSION, c.username@.len() as u8] + c.username@ + seq![c.password@.len() as u8]
        + c.password@
}

/// What the client does after a handshake event: bytes to write and the
/// message to read next, or a terminal failure (on which nothing more is
/// written).
pub enum ClientProgress {
    /// Write these bytes, then read a sub-negotiation response.
    SubNegotiation(bytes::Bytes),
    /// Write these bytes, then read a TCP response header.
    Request(bytes::Bytes),
    /// The server selected PASSWORD but no credentials were supplied.
    RequireAuth,
    /// The server accepted none of the offered methods.
    NotAcceptable,
    /// The server selected GSSAPI, which is not implemented.
    UnsupportedGssApi,
    /// The server rejected the credentials in the sub-negotiation.
    AuthFailure,
}

impl ClientProgress {
    /// The error a terminal failure surfaces to the caller; `None` for the
    /// variants that continue the handshake.
    pub fn to_error(&self) -> (r: Option<Error>)
        ensures
            self is SubNegotiation ==> r is None,
            self is Request ==> r is None,
            self is RequireAuth ==> (r matches Some(e) && e.reply == Replies::GeneralFailure
                && e.message@ == "server does not support none password auth method"@),
            self is NotAcceptable ==> (r matches Some(e) && e.reply == Replies::GeneralFailure
                && e.message@ == "no acceptable authentication method"@),
            self is UnsupportedGssApi ==> (r matches Some(e) && e.reply == Replies::GeneralFailure
                && e.message@ == "gssapi authentication is not supported"@),
            self is AuthFailure ==> (r matches Some(e) && e.reply == Replies::GeneralFailure
                && e.message@ == "password authentication failed"@),
    {
        match self {
            ClientProgress::SubNegotiation(_) => None,
            ClientProgress::Request(_) => None,
            ClientProgress::RequireAuth => Some(
                Error::new(
                    Replies::GeneralFailure,
                    "server does not support none password auth method",
                ),
            ),
            ClientProgress::NotAcceptable => Some(
                Error::new(Replies::GeneralFailure, "no acceptable authentication method"),
            ),
            ClientProgress::UnsupportedGssApi => Some(
                Error::new(Replies::GeneralFailure, "gssapi authentication is not supported"),
            ),
            ClientProgress::AuthFailure => Some(
                Error::new(Replies::GeneralFailure, "password authentication failed"),
            ),
        }
    }
}

/// Builds the framed CONNECT request for the destination.
fn connect_request_bytes(dest: Address) -> (r: bytes::Bytes)
    requires
        dest.wf(),
    ensures
        bytes_contents(r) == spec_connect_request_bytes(dest),
{
    let header = TcpRequestHeader::new(Command::Connect, dest);
    let r = header.to_bytes();
    proof {
        assert(seq![VERSION] + header.spec_payload() =~= spec_connect_request_bytes(
            header.address,
        ));
    }
    r
}

/// Step one of the client handshake: the framed authentication request,
/// offering exactly one method — PASSWORD when credentials were supplied,
/// NONE otherwise.  Write it, flush, then read an `AuthenticationResponse`.
pub fn client_hello(credentials: &Option<Credentials>) -> (r: bytes::Bytes)
    ensures
        bytes_contents(r) == seq![
            VERSION,
            1u8,
            spec_offered_method(*credentials).spec_byte(),
        ],
{
    let method = match credentials {
        Some(_) => Method::PASSWORD,
        None => Method::NONE,
    };
    let mut methods: Vec<Method> = Vec::new();
    methods.push(method);
    let request = AuthenticationRequest::new(methods);
    let r = request.to_bytes();
    proof {
        assert(request.spec_payload() =~= seq![1u8, method.spec_byte()]);
        assert(bytes_contents(r) =~= seq![VERSION, 1u8, method.spec_byte()]);
    }
    r
}

/// Step two: dispatch on the method the server selected.
///
/// NONE proceeds straight to the CONNECT request; PASSWORD starts the
/// sub-negotiation when credentials were supplied and fails with
/// `RequireAuth` (writing nothing) when they were not; NotAcceptable and
/// GSSAPI are terminal failures.
pub fn client_on_method(
    response: &AuthenticationResponse,
    credentials: &Option<Credentials>,
    dest: Address,
) -> (r: ClientProgress)
    requires
        dest.wf(),
        credentials matches Some(c) ==> c.wf(),
    ensures
        response.method == Method::NONE ==> (r matches ClientProgress::Request(b)
            && bytes_contents(b) == spec_connect_request_bytes(dest)),
        response.method == Method::PASSWORD ==> (credentials matches Some(c) ==> (
        r matches ClientProgress::SubNegotiation(b) && bytes_contents(b)
            == spec_sub_negotiation_bytes(*c))),
        response.method == Method::PASSWORD && credentials is None ==> r is RequireAuth,
        response.method == Method::NotAcceptable ==> r is NotAcceptable,
        response.method == Method::GSSAPI ==> r is UnsupportedGssApi,
{
    match response.method {
        Method::NONE => ClientProgress::Request(connect_request_bytes(dest)),
        Method::PASSWORD => match credentials {
            Some(c) => {
                let request = SubNegotiationAuthenticationRequest::new(
                    clone_bytes(&c.username),
                    clone_bytes(&c.password),
                );
                let b = request.to_bytes();
                proof {
                    assert(request.spec_payload() =~= spec_sub_negotiation_bytes(*c));
                }
                ClientProgress::SubNegotiation(b)
            },
            None => ClientProgress::RequireAuth,
        },
        Method::NotAcceptable => ClientProgress::NotAcceptable,
        Method::GSSAPI => ClientProgress::UnsupportedGssApi,
    }
}

/// Step two-and-a-half, only on the PASSWORD path: dispatch on the
/// sub-negotiation outcome.  Status zero proceeds to the CONNECT request;
/// anything else is `AuthFailure`.
pub fn client_on_sub_negotiation(
    response: &SubNegotiationAuthenticationResponse,
    dest: Address,
) -> (r: ClientProgress)
    requires
        dest.wf(),
    ensures
        response.status == 0 ==> (r matches ClientProgress::Request(b) && bytes_contents(b)
            == spec_connect_request_bytes(dest)),
        response.status != 0 ==> r is AuthFailure,
{
    if response.is_success() {
        ClientProgress::Request(connect_request_bytes(dest))
    } else {
        ClientProgress::AuthFailure
    }
}

/// Final step: dispatch on the server's response header.  `Succeeded` means
/// the transport now carries proxied payload; any other reply fails the
/// handshake with that reply's canonical error.
pub fn client_on_response(response: &TcpResponseHeader) -> (r: Result<(), Error>)
    ensures
        response.reply == Replies::Succeeded ==> r is Ok,
        response.reply != Replies::Succeeded ==> (r matches Err(e) && e.reply == response.reply
            && e.message@ == response.reply.spec_message()),
    {
    if response.is_success() {
        Ok(())
    } else {
        Err(response.reply.to_error())
    }
}

/// Copies a byte vector.
fn clone_bytes(v: &Vec<u8>) -> (r: Vec<u8>)
    ensures
        r@ == v@,
{
    let mut r: Vec<u8> = Vec::new();
    let mut i: usize = 0;
    while i < v.len()
        invariant
            0 <= i <= v@.len(),
            r@ == v@.subrange(0, i as int),
        decreases v@.len() - i,
    {
        proof {
            assert(v@.subrange(0, i as int + 1) =~= v@.subrange(0, i as int).push(v@[i as int]));
        }
        r.push(v[i]);
        i += 1;
    }
    proof {
        assert(v@.subrange(0, v@.len() as int) =~= v@);
    }
    r
}

} // verus!
