//! The SOCKS5 handshake messages: method negotiation, the RFC 1929
//! username/password sub-negotiation, and the TCP request/response headers.
use vstd::prelude::*;

use crate::address::{
    addr_eq, lemma_addr_payload_injective, lemma_addr_payload_parses, spec_addr_err_reply,
    spec_addr_len, spec_addr_parses, Address,
};
use crate::buffer::{
    buffer_contents, buffer_freeze, buffer_new, buffer_with_capacity, bytes_as_slice,
    bytes_contents, put_slice, put_u8,
};
use crate::error::Error;
use crate::message::{
    lemma_command_byte_injective, lemma_method_byte_injective, lemma_replies_byte_injective,
    Command, Method, Replies,
};
use crate::ser::{read_outcome, Decode, Encode};
use crate::VERSION;

verus! {

/// SOCKS5 authentication request packet
///
/// ```plain
/// +----+----------+----------+
/// |VER | NMETHODS | METHODS  |
/// +----+----------+----------+
/// | 5  |    1     | 1 to 255 |
/// +----+----------+----------|
/// ```
#[derive(Debug)]
pub struct AuthenticationRequest {
    pub methods: Vec<Method>,
}

impl AuthenticationRequest {
    /// Builds a request offering the given methods; the count must fit the
    /// one-byte wire field.
    pub fn new(methods: Vec<Method>) -> (r: AuthenticationRequest)
        requires
            methods@.len() <= 255,
        ensures
            r.methods@ == methods@,
    {
        AuthenticationRequest { methods }
    }

    /// True when the offered set does not contain the no-authentication
    /// method, so that the peer must authenticate.
    pub fn required_authentication(&self) -> (r: bool)
        ensures
            r == !self.methods@.contains(Method::NONE),
    {
        let mut i: usize = 0;
        while i < self.methods.len()
            invariant
                0 <= i <= self.methods@.len(),
                forall|j: int| 0 <= j < i ==> self.methods@[j] != Method::NONE,
            decreases self.methods@.len() - i,
        {
            if self.methods[i] == Method::NONE {
                return false;
            }
            i += 1;
        }
        true
    }

    /// Frames the request for the transport (version byte included).
    pub fn to_bytes(&self) -> (r: bytes::Bytes)
        requires
            self.wf(),
        ensures
            bytes_contents(r) == seq![VERSION] + self.spec_payload(),
    {
        self.as_bytes()
    }

    /// Reads a framed request, validating the version byte.
    pub fn read_from(buf: &[u8]) -> (r: Result<AuthenticationRequest, Error>)
        ensures
            read_outcome::<AuthenticationRequest>(buf@, r),
    {
        Self::read(buf)
    }
}

impl Encode for AuthenticationRequest {
    open spec fn wf(&self) -> bool {
        self.methods@.len() <= 255
    }

    open spec fn spec_payload(&self) -> Seq<u8> {
        seq![self.methods@.len() as u8] + self.methods@.map_values(|m: Method| m.spec_byte())
    }

    fn encode(&self) -> (r: bytes::Bytes) {
        let ghost bytes = self.methods@.map_values(|m: Method| m.spec_byte());
        let mut buffer = buffer_new();
        put_u8(&mut buffer, self.methods.len() as u8);
        let mut i: usize = 0;
        while i < self.methods.len()
            invariant
                0 <= i <= self.methods@.len(),
                self.methods@.len() <= 255,
                bytes == self.methods@.map_values(|m: Method| m.spec_byte()),
                buffer_contents(buffer) == seq![self.methods@.len() as u8] + bytes.subrange(
                    0,
                    i as int,
                ),
            decreases self.methods@.len() - i,
        {
            put_u8(&mut buffer, self.methods[i].byte());
            proof {
                assert(seq![self.methods@.len() as u8] + bytes.subrange(0, i as int + 1) =~= (
                seq![self.methods@.len() as u8] + bytes.subrange(0, i as int)).push(
                    bytes[i as int],
                ));
            }
            i += 1;
        }
        proof {
            assert(bytes.subrange(0, self.methods@.len() as int) =~= bytes);
        }
        buffer_freeze(buffer)
    }
}

impl Decode for AuthenticationRequest {
    open spec fn spec_parses(b: Seq<u8>) -> bool {
        &&& b.len() >= 1
    &&& b.len() >= 1 + b[0] as int
    &&& forall|i: int| 1 <= i < 1 + b[0] as int ==> Method::spec_parses(#[trigger] b[i])
    }

    open spec fn spec_parsed_payload(b: Seq<u8>) -> Seq<u8> {
        b.subrange(0, 1 + b[0] as int)
    }

    open spec fn spec_err_reply(b: Seq<u8>) -> Replies {
        Replies::GeneralFailure
    }

    fn decode(buf: &[u8]) -> (r: Result<AuthenticationRequest, Error>) {
        if buf.len() < 1 {
            return Err(Error::new(Replies::GeneralFailure, "truncated message"));
        }
        let n = buf[0] as usize;
        if buf.len() < 1 + n {
            return Err(Error::new(Replies::GeneralFailure, "truncated message"));
        }
        let mut methods: Vec<Method> = Vec::new();
        let mut i: usize = 1;
        while i < 1 + n
            invariant
                1 <= i <= 1 + n,
                n <= 255,
                buf@.len() >= 1 + n,
                n == buf@[0] as int,
                methods@.len() == i - 1,
                forall|j: int|
                    0 <= j < i - 1 ==> (#[trigger] methods@[j]).spec_byte() == buf@[j + 1],
                forall|j: int| 1 <= j < i ==> Method::spec_parses(#[trigger] buf@[j]),
            decreases 1 + n - i,
        {
            let m = match Method::try_from(buf[i]) {
                Ok(m) => m,
                Err(e) => {
                    proof {
                        assert(!Method::spec_parses(buf@[i as int]));
                    }
                    return Err(e);
                },
            };
            methods.push(m);
            i += 1;
        }
        let r = AuthenticationRequest { methods };
        proof {
            assert(r.spec_payload() =~= buf@.subrange(0, 1 + n as int)) by {
                let bytes = r.methods@.map_values(|m: Method| m.spec_byte());
                assert(forall|j: int| 0 <= j < n ==> bytes[j] == r.methods@[j].spec_byte());
            }
        }
        Ok(r)
    }
}

impl From<Vec<Method>> for AuthenticationRequest {
    fn from(methods: Vec<Method>) -> (r: AuthenticationRequest) {
        AuthenticationRequest { methods }
    }
}

impl vstd::std_specs::convert::FromSpecImpl<Vec<Method>> for AuthenticationRequest {
    open spec fn obeys_from_spec() -> bool {
        true
    }

    open spec fn from_spec(methods: Vec<Method>) -> AuthenticationRequest {
        AuthenticationRequest { methods }
    }
}

/// SOCKS5 authentication response packet
///
/// ```plain
/// +----+--------+
/// |VER | METHOD |
/// +----+--------+
/// | 1  |   1    |
/// +----+--------+
/// ```
#[derive(Debug)]
pub struct AuthenticationResponse {
    pub method: Method,
}

impl AuthenticationResponse {
    /// True when the server selected a method other than no-authentication,
    /// so that the client must authenticate.
    pub fn required_authentication(&self) -> (r: bool)
        ensures
            r == (self.method != Method::NONE),
    {
        self.method != Method::NONE
    }

    /// Frames the response for the transport (version byte included).
    pub fn to_bytes(&self) -> (r: bytes::Bytes)
        ensures
            bytes_contents(r) == seq![VERSION] + self.spec_payload(),
    {
        self.as_bytes()
    }

    /// Reads a framed response, validating the version byte.
    pub fn read_from(buf: &[u8]) -> (r: Result<AuthenticationResponse, Error>)
        ensures
            read_outcome::<AuthenticationResponse>(buf@, r),
    {
        Self::read(buf)
    }
}

impl Encode for AuthenticationResponse {
    open spec fn wf(&self) -> bool {
        true
    }

    open spec fn spec_payload(&self) -> Seq<u8> {
        seq![self.method.spec_byte()]
    }

    fn encode(&self) -> (r: bytes::Bytes) {
        let mut buffer = buffer_new();
        put_u8(&mut buffer, self.method.byte());
        proof {
            assert(buffer_contents(buffer) =~= self.spec_payload());
        }
        buffer_freeze(buffer)
    }
}

impl Decode for AuthenticationResponse {
    open spec fn spec_parses(b: Seq<u8>) -> bool {
        b.len() >= 1 && Method::spec_parses(b[0])
    }

    open spec fn spec_parsed_payload(b: Seq<u8>) -> Seq<u8> {
        b.subrange(0, 1)
    }

    open spec fn spec_err_reply(b: Seq<u8>) -> Replies {
        Replies::GeneralFailure
    }

    fn decode(buf: &[u8]) -> (r: Result<AuthenticationResponse, Error>) {
        if buf.len() < 1 {
            return Err(Error::new(Replies::GeneralFailure, "truncated message"));
        }
        let method = match Method::try_from(buf[0]) {
            Ok(m) => m,
            Err(e) => {
                return Err(e);
            },
        };
        let r = AuthenticationResponse { method };
        proof {
            assert(r.spec_payload() =~= buf@.subrange(0, 1));
        }
        Ok(r)
    }
}

impl From<Method> for AuthenticationResponse {
    fn from(method: Method) -> (r: AuthenticationResponse) {
        AuthenticationResponse { method }
    }
}

impl vstd::std_specs::convert::FromSpecImpl<Method> for AuthenticationResponse {
    open spec fn obeys_from_spec() -> bool {
        true
    }

    open spec fn from_spec(method: Method) -> AuthenticationResponse {
        AuthenticationResponse { method }
    }
}

/// The sub-version byte that opens both RFC 1929 sub-negotiation messages.
pub const SUB_VERSION: u8 = 0x01;

/// RFC 1929 username/password sub-negotiation request
///
/// ```plain
/// +----+------+----------+------+----------+
/// |VER | ULEN |  UNAME   | PLEN |  PASSWD  |
/// +----+------+----------+------+----------+
/// | 1  |  1   | 1 to 255 |  1   | 1 to 255 |
/// +----+------+----------+------+----------+
/// ```
///
/// Unlike the top-level messages, the leading byte is the sub-negotiation
/// version 1, not the SOCKS version 5, so this message is written and read
/// without the extra framing byte.
#[derive(Debug)]
pub struct SubNegotiationAuthenticationRequest {
    pub username: Vec<u8>,
    pub password: Vec<u8>,
}

impl SubNegotiationAuthenticationRequest {
    /// Well-formedness: each of the two fields fits its one-byte wire length.
    pub open spec fn wf(&self) -> bool {
        self.username@.len() <= 255 && self.password@.len() <= 255
    }

    /// The full wire bytes of the request.
    pub open spec fn spec_payload(&self) -> Seq<u8> {
        seq![SUB_VERSION, self.username@.len() as u8] + self.username@ + seq![
            self.password@.len() as u8,
        ] + self.password@
    }

    /// True when a prefix of `b` is a well-formed sub-negotiation request.
    pub open spec fn spec_parses(b: Seq<u8>) -> bool {
        &&& b.len() >= 2
    &&& b[0] == SUB_VERSION
    &&& b.len() >= 3 + b[1] as int
    &&& b.len() >= 3 + b[1] as int + b[2 + b[1] as int] as int
    }

    /// The length of the request at the front of `b`, when one parses.
    pub open spec fn spec_parse_len(b: Seq<u8>) -> int {
        3 + b[1] as int + b[2 + b[1] as int] as int
    }

    pub fn new(username: Vec<u8>, password: Vec<u8>) -> (r: SubNegotiationAuthenticationRequest)
        requires
            username@.len() <= 255,
            password@.len() <= 255,
        ensures
            r.username@ == username@,
            r.password@ == password@,
    {
        SubNegotiationAuthenticationRequest { username, password }
    }

    /// Encodes the request; no version framing is added.
    pub fn to_bytes(&self) -> (r: bytes::Bytes)
        requires
            self.wf(),
        ensures
            bytes_contents(r) == self.spec_payload(),
    {
        let mut buffer = buffer_new();
        put_u8(&mut buffer, SUB_VERSION);
        put_u8(&mut buffer, self.username.len() as u8);
        put_slice(&mut buffer, self.username.as_slice());
        put_u8(&mut buffer, self.password.len() as u8);
        put_slice(&mut buffer, self.password.as_slice());
        proof {
            assert(buffer_contents(buffer) =~= self.spec_payload());
        }
        buffer_freeze(buffer)
    }

    /// Decodes a request from the front of `buf`; bytes past the request are
    /// ignored.  The returned request re-encodes to exactly the consumed
    /// prefix.
    pub fn read_from(buf: &[u8]) -> (r: Result<SubNegotiationAuthenticationRequest, Error>)
        ensures
            Self::spec_parses(buf@) ==> (r matches Ok(m) && m.wf() && m.spec_payload()
                == buf@.subrange(0, Self::spec_parse_len(buf@))),
            !Self::spec_parses(buf@) ==> (r matches Err(e) && e.reply == Replies::GeneralFailure),
    {
        if buf.len() < 2 {
            return Err(Error::new(Replies::GeneralFailure, "truncated message"));
        }
        if buf[0] != SUB_VERSION {
            return Err(Error::new(Replies::GeneralFailure, "unsupported sub-negotiation version"));
        }
        let ulen = buf[1] as usize;
        if buf.len() < 3 + ulen {
            return Err(Error::new(Replies::GeneralFailure, "truncated message"));
        }
        let username = copy_range(buf, 2, ulen);
        let plen = buf[2 + ulen] as usize;
        if buf.len() < 3 + ulen + plen {
            return Err(Error::new(Replies::GeneralFailure, "truncated message"));
        }
        let password = copy_range(buf, 3 + ulen, plen);
        let r = SubNegotiationAuthenticationRequest { username, password };
        proof {
            assert(r.spec_payload() =~= buf@.subrange(0, Self::spec_parse_len(buf@)));
        }
        Ok(r)
    }
}

/// RFC 1929 sub-negotiation response: the sub-version byte and a status
/// byte, where zero means the credentials were accepted.
///
/// ```plain
/// +----+--------+
/// |VER | STATUS |
/// +----+--------+
/// | 1  |   1    |
/// +----+--------+
/// ```
#[derive(Debug)]
pub struct SubNegotiationAuthenticationResponse {
    pub status: u8,
}

impl SubNegotiationAuthenticationResponse {
    /// The full wire bytes of the response.
    pub open spec fn spec_payload(&self) -> Seq<u8> {
        seq![SUB_VERSION, self.status]
    }

    pub fn new(status: u8) -> (r: SubNegotiationAuthenticationResponse)
        ensures
            r.status == status,
    {
        SubNegotiationAuthenticationResponse { status }
    }

    /// True when the peer accepted the credentials.
    pub fn is_success(&self) -> (r: bool)
        ensures
            r == (self.status == 0),
    {
        self.status == 0
    }

    /// Encodes the response; no version framing is added.
    pub fn to_bytes(&self) -> (r: bytes::Bytes)
        ensures
            bytes_contents(r) == self.spec_payload(),
    {
        let mut buffer = buffer_new();
        put_u8(&mut buffer, SUB_VERSION);
        put_u8(&mut buffer, self.status);
        proof {
            assert(buffer_contents(buffer) =~= self.spec_payload());
        }
        buffer_freeze(buffer)
    }

    /// Decodes a response from the front of `buf`: the leading byte must be
    /// the sub-negotiation version 1, else the decode fails.
    pub fn read_from(buf: &[u8]) -> (r: Result<SubNegotiationAuthenticationResponse, Error>)
        ensures
            buf@.len() >= 2 && buf@[0] == SUB_VERSION ==> (r matches Ok(m) && m.spec_payload()
                == buf@.subrange(0, 2)),
            !(buf@.len() >= 2 && buf@[0] == SUB_VERSION) ==> (r matches Err(e) && e.reply
                == Replies::GeneralFailure),
    {
        if buf.len() < 2 {
            return Err(Error::new(Replies::GeneralFailure, "truncated message"));
        }
        if buf[0] != SUB_VERSION {
            return Err(Error::new(Replies::GeneralFailure, "unsupported sub-negotiation version"));
        }
        let r = SubNegotiationAuthenticationResponse { status: buf[1] };
        proof {
            assert(r.spec_payload() =~= buf@.subrange(0, 2));
        }
        Ok(r)
    }
}

/// Copies `count` bytes of `buf` starting at `start` into a fresh vector.
fn copy_range(buf: &[u8], start: usize, count: usize) -> (r: Vec<u8>)
    requires
        start + count <= buf@.len(),
    ensures
        r@ == buf@.subrange(start as int, start as int + count as int),
{
    let n = buf.len();
    let mut r: Vec<u8> = Vec::new();
    let mut i: usize = 0;
    while i < count
        invariant
            0 <= i <= count,
            n == buf@.len(),
            start + count <= n,
            r@ == buf@.subrange(start as int, start as int + i as int),
        decreases count - i,
    {
        proof {
            assert(buf@.subrange(start as int, start as int + i as int + 1) =~= buf@.subrange(
                start as int,
                start as int + i as int,
            ).push(buf@[start as int + i as int]));
        }
        r.push(buf[start + i]);
        i += 1;
    }
    r
}

/// TCP request header after authentication
///
/// ```plain
/// +----+-----+-------+------+----------+----------+
/// |VER | CMD |  RSV  | ATYP | DST.ADDR | DST.PORT |
/// +----+-----+-------+------+----------+----------+
/// | 1  |  1  | X'00' |  1   | Variable |    2     |
/// +----+-----+-------+------+----------+----------+
/// ```
#[derive(Debug)]
pub struct TcpRequestHeader {
    /// SOCKS5 command
    pub command: Command,
    /// Remote address
    pub address: Address,
}

impl TcpRequestHeader {
    pub fn new(command: Command, address: Address) -> (r: TcpRequestHeader)
        ensures
            r.command == command,
            r.address == address,
    {
        TcpRequestHeader { command, address }
    }

    pub fn address(&self) -> (r: &Address)
        ensures
            r == &self.address,
    {
        &self.address
    }

    pub fn command(&self) -> (r: Command)
        ensures
            r == self.command,
    {
        self.command
    }

    /// Frames the header for the transport (version byte included).
    pub fn to_bytes(&self) -> (r: bytes::Bytes)
        requires
            self.wf(),
        ensures
            bytes_contents(r) == seq![VERSION] + self.spec_payload(),
    {
        self.as_bytes()
    }

    /// Reads a framed header, validating the version byte.
    pub fn read_from(buf: &[u8]) -> (r: Result<TcpRequestHeader, Error>)
        ensures
            read_outcome::<TcpRequestHeader>(buf@, r),
    {
        Self::read(buf)
    }
}

impl Encode for TcpRequestHeader {
    open spec fn wf(&self) -> bool {
        self.address.wf()
    }

    open spec fn spec_payload(&self) -> Seq<u8> {
        seq![self.command.spec_byte(), 0u8] + self.address.spec_payload()
    }

    fn encode(&self) -> (r: bytes::Bytes) {
        let address = self.address.to_bytes();
        let mut buffer = buffer_with_capacity(2 + self.address.size_hint());
        put_u8(&mut buffer, self.command.byte());
        put_u8(&mut buffer, 0);
        put_slice(&mut buffer, bytes_as_slice(&address));
        proof {
            assert(buffer_contents(buffer) =~= self.spec_payload());
        }
        buffer_freeze(buffer)
    }
}

impl Decode for TcpRequestHeader {
    open spec fn spec_parses(b: Seq<u8>) -> bool {
        &&& b.len() >= 2
    &&& Command::spec_parses(b[0])
    &&& spec_addr_parses(b.subrange(2, b.len() as int))
    }

    open spec fn spec_parsed_payload(b: Seq<u8>) -> Seq<u8> {
        seq![b[0], 0u8] + b.subrange(2, 2 + spec_addr_len(b.subrange(2, b.len() as int)))
    }

    open spec fn spec_err_reply(b: Seq<u8>) -> Replies {
        if b.len() >= 2 && Command::spec_parses(b[0]) {
            spec_addr_err_reply(b.subrange(2, b.len() as int))
        } else {
            Replies::GeneralFailure
        }
    }

    fn decode(buf: &[u8]) -> (r: Result<TcpRequestHeader, Error>) {
        if buf.len() < 1 {
            return Err(Error::new(Replies::GeneralFailure, "truncated message"));
        }
        let command = match Command::try_from(buf[0]) {
            Ok(c) => c,
            Err(e) => {
                return Err(e);
            },
        };
        if buf.len() < 2 {
            return Err(Error::new(Replies::GeneralFailure, "truncated message"));
        }
        let address = match Address::from_bytes(&buf[2..buf.len()]) {
            Ok(a) => a,
            Err(e) => {
                return Err(e);
            },
        };
        let r = TcpRequestHeader { command, address };
        proof {
            if Self::spec_parses(buf@) {
                assert(r.spec_payload() =~= Self::spec_parsed_payload(buf@));
            }
        }
        Ok(r)
    }
}

/// TCP response header
///
/// ```plain
/// +----+-----+-------+------+----------+----------+
/// |VER | REP |  RSV  | ATYP | BND.ADDR | BND.PORT |
/// +----+-----+-------+------+----------+----------+
/// | 1  |  1  | X'00' |  1   | Variable |    2     |
/// +----+-----+-------+------+----------+----------+
/// ```
#[derive(Debug)]
pub struct TcpResponseHeader {
    /// SOCKS5 reply
    pub reply: Replies,
    /// Reply address
    pub address: Address,
}

impl TcpResponseHeader {
    /// Creates a response header
    pub fn new(reply: Replies, address: Address) -> (r: TcpResponseHeader)
        ensures
            r.reply == reply,
            r.address == address,
    {
        TcpResponseHeader { reply, address }
    }

    /// True when the header reports a successful request.
    pub fn is_success(&self) -> (r: bool)
        ensures
            r == (self.reply == Replies::Succeeded),
    {
        self.reply == Replies::Succeeded
    }

    /// Frames the header for the transport (version byte included).
    pub fn to_bytes(&self) -> (r: bytes::Bytes)
        requires
            self.wf(),
        ensures
            bytes_contents(r) == seq![VERSION] + self.spec_payload(),
    {
        self.as_bytes()
    }

    /// Reads a framed header, validating the version byte.
    pub fn read_from(buf: &[u8]) -> (r: Result<TcpResponseHeader, Error>)
        ensures
            read_outcome::<TcpResponseHeader>(buf@, r),
    {
        Self::read(buf)
    }
}

impl Encode for TcpResponseHeader {
    open spec fn wf(&self) -> bool {
        self.address.wf()
    }

    open spec fn spec_payload(&self) -> Seq<u8> {
        seq![self.reply.spec_byte(), 0u8] + self.address.spec_payload()
    }

    fn encode(&self) -> (r: bytes::Bytes) {
        let address = self.address.to_bytes();
        let mut buffer = buffer_with_capacity(2 + self.address.size_hint());
        put_u8(&mut buffer, self.reply.byte());
        put_u8(&mut buffer, 0);
        put_slice(&mut buffer, bytes_as_slice(&address));
        proof {
            assert(buffer_contents(buffer) =~= self.spec_payload());
        }
        buffer_freeze(buffer)
    }
}

impl Decode for TcpResponseHeader {
    open spec fn spec_parses(b: Seq<u8>) -> bool {
        &&& b.len() >= 2
    &&& Replies::spec_parses(b[0])
    &&& spec_addr_parses(b.subrange(2, b.len() as int))
    }

    open spec fn spec_parsed_payload(b: Seq<u8>) -> Seq<u8> {
        seq![b[0], 0u8] + b.subrange(2, 2 + spec_addr_len(b.subrange(2, b.len() as int)))
    }

    open spec fn spec_err_reply(b: Seq<u8>) -> Replies {
        if b.len() >= 2 && Replies::spec_parses(b[0]) {
            spec_addr_err_reply(b.subrange(2, b.len() as int))
        } else {
            Replies::GeneralFailure
        }
    }

    fn decode(buf: &[u8]) -> (r: Result<TcpResponseHeader, Error>) {
        if buf.len() < 1 {
            return Err(Error::new(Replies::GeneralFailure, "truncated message"));
        }
        let reply = match Replies::try_from(buf[0]) {
            Ok(c) => c,
            Err(e) => {
                return Err(e);
            },
        };
        if buf.len() < 2 {
            return Err(Error::new(Replies::GeneralFailure, "truncated message"));
        }
        let address = match Address::from_bytes(&buf[2..buf.len()]) {
            Ok(a) => a,
            Err(e) => {
                return Err(e);
            },
        };
        let r = TcpResponseHeader { reply, address };
        proof {
            if Self::spec_parses(buf@) {
                assert(r.spec_payload() =~= Self::spec_parsed_payload(buf@));
            }
        }
        Ok(r)
    }
}


/// Round-trip law for the method-negotiation request: every well-formed
/// request's payload parses, whole and as itself, and any request decoded
/// from it offers the same methods.
pub proof fn lemma_auth_request_payload_parses(m: AuthenticationRequest)
    requires
        m.wf(),
    ensures
        AuthenticationRequest::spec_parses(m.spec_payload()),
        AuthenticationRequest::spec_parsed_payload(m.spec_payload()) == m.spec_payload(),
{
    let b = m.spec_payload();
    let bytes = m.methods@.map_values(|mm: Method| mm.spec_byte());
    assert(b[0] == m.methods@.len() as u8);
    assert forall|i: int| 1 <= i < 1 + b[0] as int implies Method::spec_parses(#[trigger] b[i]) by {
        assert(b[i] == bytes[i - 1]);
        assert(bytes[i - 1] == m.methods@[i - 1].spec_byte());
    }
    assert(AuthenticationRequest::spec_parsed_payload(b) =~= b);
}

/// Encoding-uniqueness law for the method-negotiation request.
pub proof fn lemma_auth_request_payload_injective(
    m1: AuthenticationRequest,
    m2: AuthenticationRequest,
)
    requires
        m1.wf(),
        m2.wf(),
        m1.spec_payload() == m2.spec_payload(),
    ensures
        m1.methods@ == m2.methods@,
{
    let b1 = m1.spec_payload();
    let bytes1 = m1.methods@.map_values(|mm: Method| mm.spec_byte());
    let bytes2 = m2.methods@.map_values(|mm: Method| mm.spec_byte());
    assert(b1[0] == m1.methods@.len() as u8 && b1[0] == m2.methods@.len() as u8);
    assert(m1.methods@.len() == m2.methods@.len());
    assert forall|i: int| 0 <= i < m1.methods@.len() implies m1.methods@[i] == m2.methods@[i] by {
        assert(b1[i + 1] == bytes1[i] && b1[i + 1] == bytes2[i]);
        lemma_method_byte_injective(m1.methods@[i], m2.methods@[i]);
    }
    assert(m1.methods@ =~= m2.methods@);
}

/// Round-trip law for the method-negotiation response.
pub proof fn lemma_auth_response_round_trip(m: AuthenticationResponse, d: AuthenticationResponse)
    requires
        d.spec_payload() == AuthenticationResponse::spec_parsed_payload(m.spec_payload()),
    ensures
        AuthenticationResponse::spec_parses(m.spec_payload()),
        d.method == m.method,
{
    let b = m.spec_payload();
    assert(AuthenticationResponse::spec_parsed_payload(b) =~= b);
    assert(d.spec_payload()[0] == d.method.spec_byte() && b[0] == m.method.spec_byte());
    lemma_method_byte_injective(d.method, m.method);
}

/// Round-trip law for the sub-negotiation request: every well-formed
/// request's bytes parse, whole and as themselves, and uniquely.
pub proof fn lemma_sub_negotiation_round_trip(
    m: SubNegotiationAuthenticationRequest,
    d: SubNegotiationAuthenticationRequest,
)
    requires
        m.wf(),
        d.wf(),
        d.spec_payload() == m.spec_payload().subrange(
            0,
            SubNegotiationAuthenticationRequest::spec_parse_len(m.spec_payload()),
        ),
    ensures
        SubNegotiationAuthenticationRequest::spec_parses(m.spec_payload()),
        SubNegotiationAuthenticationRequest::spec_parse_len(m.spec_payload())
            == m.spec_payload().len(),
        d.username@ == m.username@,
        d.password@ == m.password@,
{
    let b = m.spec_payload();
    let ul = m.username@.len() as int;
    let pl = m.password@.len() as int;
    assert(b[1] == m.username@.len() as u8 && b[2 + ul] == m.password@.len() as u8);
    assert(b.len() == 3 + ul + pl);
    assert(b.subrange(0, b.len() as int) =~= b);
    let db = d.spec_payload();
    assert(d.username@.len() == m.username@.len() && d.password@.len() == m.password@.len()) by {
        assert(db[1] == d.username@.len() as u8 && db[1] == b[1]);
        assert(db[2 + ul] == d.password@.len() as u8 && db[2 + ul] == b[2 + ul]);
    }
    assert forall|i: int| 0 <= i < ul implies d.username@[i] == m.username@[i] by {
        assert(db[i + 2] == d.username@[i] && b[i + 2] == m.username@[i]);
    }
    assert forall|i: int| 0 <= i < pl implies d.password@[i] == m.password@[i] by {
        assert(db[i + 3 + ul] == d.password@[i] && b[i + 3 + ul] == m.password@[i]);
    }
    assert(d.username@ =~= m.username@);
    assert(d.password@ =~= m.password@);
}

/// Round-trip law for the TCP request header: every well-formed header's
/// payload parses as itself, and any header decoded from it carries the same
/// command and an equal address.
pub proof fn lemma_request_header_round_trip(h: TcpRequestHeader, d: TcpRequestHeader)
    requires
        h.wf(),
        d.wf(),
        d.spec_payload() == TcpRequestHeader::spec_parsed_payload(h.spec_payload()),
    ensures
        TcpRequestHeader::spec_parses(h.spec_payload()),
        d.command == h.command,
        addr_eq(d.address, h.address),
{
    let b = h.spec_payload();
    let ap = h.address.spec_payload();
    assert(b.subrange(2, b.len() as int) =~= ap);
    lemma_addr_payload_parses(h.address);
    assert(TcpRequestHeader::spec_parsed_payload(b) =~= b) by {
        assert(b.subrange(2, 2 + spec_addr_len(ap)) =~= ap);
    }
    assert(d.spec_payload() == b);
    assert(d.command.spec_byte() == b[0] && h.command.spec_byte() == b[0]);
    lemma_command_byte_injective(d.command, h.command);
    let dap = d.address.spec_payload();
    assert forall|i: int| 0 <= i < ap.len() implies dap[i] == ap[i] by {
        assert(d.spec_payload()[i + 2] == dap[i] && b[i + 2] == ap[i]);
    }
    assert(dap.len() == ap.len());
    assert(dap =~= ap);
    lemma_addr_payload_injective(d.address, h.address);
}

/// Round-trip law for the TCP response header: every well-formed header's
/// payload parses as itself, and any header decoded from it carries the same
/// reply code and an equal address.
pub proof fn lemma_response_header_round_trip(h: TcpResponseHeader, d: TcpResponseHeader)
    requires
        h.wf(),
        d.wf(),
        d.spec_payload() == TcpResponseHeader::spec_parsed_payload(h.spec_payload()),
    ensures
        TcpResponseHeader::spec_parses(h.spec_payload()),
        d.reply == h.reply,
        addr_eq(d.address, h.address),
{
    let b = h.spec_payload();
    let ap = h.address.spec_payload();
    assert(b.subrange(2, b.len() as int) =~= ap);
    lemma_addr_payload_parses(h.address);
    assert(TcpResponseHeader::spec_parsed_payload(b) =~= b) by {
        assert(b.subrange(2, 2 + spec_addr_len(ap)) =~= ap);
    }
    assert(d.spec_payload() == b);
    assert(d.reply.spec_byte() == b[0] && h.reply.spec_byte() == b[0]);
    lemma_replies_byte_injective(d.reply, h.reply);
    let dap = d.address.spec_payload();
    assert forall|i: int| 0 <= i < ap.len() implies dap[i] == ap[i] by {
        assert(d.spec_payload()[i + 2] == dap[i] && b[i + 2] == ap[i]);
    }
    assert(dap.len() == ap.len());
    assert(dap =~= ap);
    lemma_addr_payload_injective(d.address, h.address);
}

} // verus!
