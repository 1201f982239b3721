//! SOCKS5 addressing: a literal IPv4/IPv6 socket address or a domain name,
//! with its wire encoding (one type-tag byte, the address bytes, and a
//! two-byte big-endian port).
use vstd::prelude::*;

use crate::buffer::{
    buffer_contents, buffer_freeze, buffer_with_capacity, bytes_contents, put_slice, put_u16,
    put_u8,
};
use crate::error::Error;
use crate::message::Replies;

verus! {

/// Wire tag for an IPv4 address.
pub const ADDR_TYPE_IPV4: u8 = 1;

/// Wire tag for a domain-name address.
pub const ADDR_TYPE_DOMAIN: u8 = 3;

/// Wire tag for an IPv6 address.
pub const ADDR_TYPE_IPV6: u8 = 4;

/// A literal socket address: the address octets and a port.
#[derive(Copy, Clone, Debug)]
pub enum SocketAddress {
    V4([u8; 4], u16),
    V6([u8; 16], u16),
}

/// SOCKS5 address type
#[derive(Clone, Debug)]
pub enum Address {
    /// Socket address
    Socket(SocketAddress),
    /// Domain name address: the name's bytes and a port
    DomainName(Vec<u8>, u16),
}

/// The two big-endian bytes of a port.
pub open spec fn spec_port_bytes(port: u16) -> Seq<u8> {
    seq![(port / 256) as u8, (port % 256) as u8]
}

/// Equality of socket addresses, by octets and port.
pub open spec fn sa_eq(a: SocketAddress, b: SocketAddress) -> bool {
    match (a, b) {
        (SocketAddress::V4(x, p), SocketAddress::V4(y, q)) => x@ == y@ && p == q,
        (SocketAddress::V6(x, p), SocketAddress::V6(y, q)) => x@ == y@ && p == q,
        _ => false,
    }
}

/// Equality of addresses, by variant, contents and port.
pub open spec fn addr_eq(a: Address, b: Address) -> bool {
    match (a, b) {
        (Address::Socket(x), Address::Socket(y)) => sa_eq(x, y),
        (Address::DomainName(n1, p1), Address::DomainName(n2, p2)) => n1@ == n2@ && p1 == p2,
        _ => false,
    }
}

impl SocketAddress {
    /// The port of this socket address.
    pub open spec fn spec_port(self) -> u16 {
        match self {
            SocketAddress::V4(_, port) => port,
            SocketAddress::V6(_, port) => port,
        }
    }

    /// The variant-specific wire bytes: tag, octets, port.
    pub open spec fn spec_payload(self) -> Seq<u8> {
        match self {
            SocketAddress::V4(octets, port) => seq![ADDR_TYPE_IPV4] + octets@ + spec_port_bytes(
                port,
            ),
            SocketAddress::V6(octets, port) => seq![ADDR_TYPE_IPV6] + octets@ + spec_port_bytes(
                port,
            ),
        }
    }

    pub fn port(&self) -> (r: u16)
        ensures
            r == self.spec_port(),
    {
        match self {
            SocketAddress::V4(_, port) => *port,
            SocketAddress::V6(_, port) => *port,
        }
    }
}

impl PartialEq for SocketAddress {
    fn eq(&self, other: &SocketAddress) -> (r: bool) {
        match (self, other) {
            (SocketAddress::V4(x, p), SocketAddress::V4(y, q)) => bytes_eq(
                x.as_slice(),
                y.as_slice(),
            ) && *p == *q,
            (SocketAddress::V6(x, p), SocketAddress::V6(y, q)) => bytes_eq(
                x.as_slice(),
                y.as_slice(),
            ) && *p == *q,
            _ => false,
        }
    }
}

impl Eq for SocketAddress {

}

impl vstd::std_specs::cmp::PartialEqSpecImpl for SocketAddress {
    open spec fn obeys_eq_spec() -> bool {
        true
    }

    open spec fn eq_spec(&self, other: &SocketAddress) -> bool {
        sa_eq(*self, *other)
    }
}

impl PartialEq for Address {
    fn eq(&self, other: &Address) -> (r: bool) {
        match (self, other) {
            (Address::Socket(x), Address::Socket(y)) => x == y,
            (Address::DomainName(n1, p1), Address::DomainName(n2, p2)) => bytes_eq(
                n1.as_slice(),
                n2.as_slice(),
            ) && *p1 == *p2,
            _ => false,
        }
    }
}

impl Eq for Address {

}

impl vstd::std_specs::cmp::PartialEqSpecImpl for Address {
    open spec fn obeys_eq_spec() -> bool {
        true
    }

    open spec fn eq_spec(&self, other: &Address) -> bool {
        addr_eq(*self, *other)
    }
}

/// Byte-slice equality, used by the hand-written `PartialEq` impls.
pub fn bytes_eq(a: &[u8], b: &[u8]) -> (r: bool)
    ensures
        r == (a@ == b@),
{
    if a.len() != b.len() {
        proof {
            assert(a@.len() != b@.len());
        }
        return false;
    }
    let mut i: usize = 0;
    while i < a.len()
        invariant
            0 <= i <= a@.len(),
            a@.len() == b@.len(),
            forall|j: int| 0 <= j < i ==> a@[j] == b@[j],
        decreases a@.len() - i,
    {
        if a[i] != b[i] {
            return false;
        }
        i += 1;
    }
    proof {
        assert(a@ =~= b@);
    }
    true
}

impl From<SocketAddress> for Address {
    fn from(s: SocketAddress) -> (r: Address) {
        Address::Socket(s)
    }
}

impl vstd::std_specs::convert::FromSpecImpl<SocketAddress> for Address {
    open spec fn obeys_from_spec() -> bool {
        true
    }

    open spec fn from_spec(s: SocketAddress) -> Address {
        Address::Socket(s)
    }
}

/// True when a prefix of `b` is a well-formed address encoding.
pub open spec fn spec_addr_parses(b: Seq<u8>) -> bool {
    b.len() >= 1 && ((b[0] == ADDR_TYPE_IPV4 && b.len() >= 7) || (b[0] == ADDR_TYPE_IPV6 && b.len()
        >= 19) || (b[0] == ADDR_TYPE_DOMAIN && b.len() >= 2 && b.len() >= 4 + b[1] as int))
}

/// The length of the address encoding at the front of `b`, when one parses.
pub open spec fn spec_addr_len(b: Seq<u8>) -> int {
    if b.len() >= 1 && b[0] == ADDR_TYPE_IPV4 {
        7
    } else if b.len() >= 1 && b[0] == ADDR_TYPE_IPV6 {
        19
    } else if b.len() >= 2 && b[0] == ADDR_TYPE_DOMAIN {
        4 + b[1] as int
    } else {
        0
    }
}

/// The reply code carried by the error when no address parses from `b`:
/// an unknown type tag is `AddressTypeNotSupported`, anything else
/// (truncation) is `GeneralFailure`.
pub open spec fn spec_addr_err_reply(b: Seq<u8>) -> Replies {
    if b.len() >= 1 && b[0] != ADDR_TYPE_IPV4 && b[0] != ADDR_TYPE_DOMAIN && b[0]
        != ADDR_TYPE_IPV6 {
        Replies::AddressTypeNotSupported
    } else {
        Replies::GeneralFailure
    }
}

/// Combines two big-endian bytes into a port.
fn be_port(hi: u8, lo: u8) -> (p: u16)
    ensures
        spec_port_bytes(p) == seq![hi, lo],
{
    let p: u16 = (hi as u16) * 256 + (lo as u16);
    proof {
        assert(p / 256 == hi as u16 && p % 256 == lo as u16);
        assert(spec_port_bytes(p) =~= seq![hi, lo]);
    }
    p
}

impl Address {
    /// Well-formedness: a domain name fits the one-byte wire length field.
    pub open spec fn wf(self) -> bool {
        match self {
            Address::Socket(_) => true,
            Address::DomainName(name, _) => name@.len() <= 255,
        }
    }

    /// The variant-specific wire bytes: tag, address bytes, port.
    pub open spec fn spec_payload(self) -> Seq<u8> {
        match self {
            Address::Socket(sa) => sa.spec_payload(),
            Address::DomainName(name, port) => seq![ADDR_TYPE_DOMAIN, name@.len() as u8] + name@
                + spec_port_bytes(port),
        }
    }

    /// Decodes an address from the front of `buf`; bytes past the encoding
    /// are ignored.  The returned address re-encodes to exactly the consumed
    /// prefix; an unknown type tag yields `AddressTypeNotSupported` and a
    /// truncated buffer `GeneralFailure`.
    pub fn from_bytes(buf: &[u8]) -> (r: Result<Address, Error>)
        ensures
            spec_addr_parses(buf@) ==> (r matches Ok(a) && a.wf() && a.spec_payload()
                == buf@.subrange(0, spec_addr_len(buf@))),
            !spec_addr_parses(buf@) ==> (r matches Err(e) && e.reply == spec_addr_err_reply(buf@)),
    {
        if buf.len() < 1 {
            return Err(Error::new(Replies::GeneralFailure, "truncated address"));
        }
        let tag = buf[0];
        if tag == ADDR_TYPE_IPV4 {
            if buf.len() < 7 {
                return Err(Error::new(Replies::GeneralFailure, "truncated address"));
            }
            let octets: [u8; 4] = [buf[1], buf[2], buf[3], buf[4]];
            let port = be_port(buf[5], buf[6]);
            let a = Address::Socket(SocketAddress::V4(octets, port));
            proof {
                assert(a.spec_payload() =~= buf@.subrange(0, 7));
            }
            Ok(a)
        } else if tag == ADDR_TYPE_IPV6 {
            if buf.len() < 19 {
                return Err(Error::new(Replies::GeneralFailure, "truncated address"));
            }
            let octets: [u8; 16] = [
                buf[1],
                buf[2],
                buf[3],
                buf[4],
                buf[5],
                buf[6],
                buf[7],
                buf[8],
                buf[9],
                buf[10],
                buf[11],
                buf[12],
                buf[13],
                buf[14],
                buf[15],
                buf[16],
            ];
            let port = be_port(buf[17], buf[18]);
            let a = Address::Socket(SocketAddress::V6(octets, port));
            proof {
                assert(a.spec_payload() =~= buf@.subrange(0, 19));
            }
            Ok(a)
        } else if tag == ADDR_TYPE_DOMAIN {
            if buf.len() < 2 {
                return Err(Error::new(Replies::GeneralFailure, "truncated address"));
            }
            let n = buf[1] as usize;
            if buf.len() < 4 + n {
                return Err(Error::new(Replies::GeneralFailure, "truncated address"));
            }
            let mut name: Vec<u8> = Vec::new();
            let mut i: usize = 2;
            while i < 2 + n
                invariant
                    2 <= i <= 2 + n,
                    n <= 255,
                    buf@.len() >= 4 + n,
                    name@ == buf@.subrange(2, i as int),
                decreases 2 + n - i,
            {
                proof {
                    assert(buf@.subrange(2, i as int + 1) =~= buf@.subrange(2, i as int).push(
                        buf@[i as int],
                    ));
                }
                name.push(buf[i]);
                i += 1;
            }
            let port = be_port(buf[2 + n], buf[3 + n]);
            let a = Address::DomainName(name, port);
            proof {
                assert(a.spec_payload() =~= buf@.subrange(0, 4 + n as int));
            }
            Ok(a)
        } else {
            Err(Error::new(Replies::AddressTypeNotSupported, "unsupported address type"))
        }
    }

    /// Encodes this address into its wire bytes.
    pub fn to_bytes(&self) -> (r: bytes::Bytes)
        requires
            self.wf(),
        ensures
            bytes_contents(r) == self.spec_payload(),
    {
        let mut buffer = buffer_with_capacity(self.size_hint());
        match self {
            Address::Socket(sa) => match sa {
                SocketAddress::V4(octets, port) => {
                    put_u8(&mut buffer, ADDR_TYPE_IPV4);
                    put_slice(&mut buffer, octets.as_slice());
                    put_u16(&mut buffer, *port);
                },
                SocketAddress::V6(octets, port) => {
                    put_u8(&mut buffer, ADDR_TYPE_IPV6);
                    put_slice(&mut buffer, octets.as_slice());
                    put_u16(&mut buffer, *port);
                },
            },
            Address::DomainName(name, port) => {
                put_u8(&mut buffer, ADDR_TYPE_DOMAIN);
                put_u8(&mut buffer, name.len() as u8);
                put_slice(&mut buffer, name.as_slice());
                put_u16(&mut buffer, *port);
            },
        }
        proof {
            assert(buffer_contents(buffer) =~= self.spec_payload());
        }
        buffer_freeze(buffer)
    }

    /// The exact length of this address's wire encoding.
    pub(crate) fn size_hint(&self) -> (r: usize)
        requires
            self.wf(),
        ensures
            r == self.spec_payload().len(),
    {
        match self {
            Address::Socket(SocketAddress::V4(..)) => 1 + 4 + 2,
            Address::Socket(SocketAddress::V6(..)) => 1 + 16 + 2,
            Address::DomainName(name, _) => 1 + 1 + name.len() + 2,
        }
    }

    /// Resolution decision for dispatching a Connect request: a literal
    /// socket address resolves to itself (the resolver is not consulted); a
    /// domain name takes the injected resolver's outcome, mapping a resolver
    /// failure to `HostUnreachable` with the resolver's message.
    pub fn lookup(&self, resolved: Option<Result<SocketAddress, String>>) -> (r: Result<
        SocketAddress,
        Error,
    >)
        requires
            (self is DomainName) <==> (resolved is Some),
        ensures
            (self matches Address::Socket(sa) ==> r matches Ok(out) && sa_eq(out, *sa)),
            (resolved matches Some(Ok(sa)) ==> r matches Ok(out) && sa_eq(out, sa)),
            (resolved matches Some(Err(m)) ==> r matches Err(e) && e.reply
                == Replies::HostUnreachable && e.message@ == m@),
    {
        match self {
            Address::Socket(sa) => Ok(*sa),
            Address::DomainName(_, _) => match resolved {
                Some(Ok(sa)) => Ok(sa),
                Some(Err(m)) => Err(Error::with_message(Replies::HostUnreachable, m)),
                None => Err(Error::new(Replies::HostUnreachable, "domain name not resolved")),
            },
        }
    }
}

/// Round-trip law, uniqueness side: the address encoding is injective, so a
/// decoded address whose payload equals an encoder's output is that encoder's
/// input.  Together with `Address::from_bytes`'s contract this gives
/// `from_bytes` of `to_bytes` of `a` back as `a`, for every well-formed `a`.
pub proof fn lemma_addr_payload_injective(a: Address, b: Address)
    requires
        a.wf(),
        b.wf(),
        a.spec_payload() == b.spec_payload(),
    ensures
        addr_eq(a, b),
{
    let pa = a.spec_payload();
    let pb = b.spec_payload();
    match (a, b) {
        (Address::Socket(SocketAddress::V4(x, p)), Address::Socket(SocketAddress::V4(y, q))) => {
            assert forall|i: int| 0 <= i < 4 implies x@[i] == y@[i] by {
                assert(pa[i + 1] == x@[i] && pb[i + 1] == y@[i]);
            }
            assert(x@ =~= y@);
            assert(pa[5] == (p / 256) as u8 && pa[6] == (p % 256) as u8);
            assert(p == 256 * (p / 256) + p % 256 && q == 256 * (q / 256) + q % 256);
        },
        (Address::Socket(SocketAddress::V6(x, p)), Address::Socket(SocketAddress::V6(y, q))) => {
            assert forall|i: int| 0 <= i < 16 implies x@[i] == y@[i] by {
                assert(pa[i + 1] == x@[i] && pb[i + 1] == y@[i]);
            }
            assert(x@ =~= y@);
            assert(pa[17] == (p / 256) as u8 && pa[18] == (p % 256) as u8);
            assert(p == 256 * (p / 256) + p % 256 && q == 256 * (q / 256) + q % 256);
        },
        (Address::DomainName(n1, p), Address::DomainName(n2, q)) => {
            assert(pa[1] == n1@.len() as u8 && pb[1] == n2@.len() as u8);
            assert(n1@.len() == n2@.len());
            assert forall|i: int| 0 <= i < n1@.len() implies n1@[i] == n2@[i] by {
                assert(pa[i + 2] == n1@[i] && pb[i + 2] == n2@[i]);
            }
            assert(n1@ =~= n2@);
            let l = n1@.len() as int;
            assert(pa[2 + l] == (p / 256) as u8 && pa[3 + l] == (p % 256) as u8);
            assert(p == 256 * (p / 256) + p % 256 && q == 256 * (q / 256) + q % 256);
        },
        _ => {
            assert(pa[0] == pb[0]);
            assert(false);
        },
    }
}

/// Round-trip law: decoding the encoding of a well-formed address gives that
/// address back.  `d` stands for what `Address::from_bytes` returns on
/// `a.spec_payload()`: its contract makes `d` well-formed with its payload
/// equal to the consumed prefix, and this lemma concludes that `d` equals
/// `a`.
pub proof fn lemma_address_round_trip(a: Address, d: Address)
    requires
        a.wf(),
        d.wf(),
        d.spec_payload() == a.spec_payload().subrange(0, spec_addr_len(a.spec_payload())),
    ensures
        addr_eq(d, a),
{
    lemma_addr_payload_parses(a);
    assert(a.spec_payload().subrange(0, a.spec_payload().len() as int) =~= a.spec_payload());
    lemma_addr_payload_injective(d, a);
}

/// Unknown-tag law: a buffer whose first byte is none of the three address
/// type tags never parses, and its decode error is always
/// `AddressTypeNotSupported`, by `Address::from_bytes`'s contract.
pub proof fn lemma_unknown_address_tag(b: Seq<u8>)
    requires
        b.len() >= 1,
        b[0] != ADDR_TYPE_IPV4,
        b[0] != ADDR_TYPE_DOMAIN,
        b[0] != ADDR_TYPE_IPV6,
    ensures
        !spec_addr_parses(b),
        spec_addr_err_reply(b) == Replies::AddressTypeNotSupported,
{
}

/// Round-trip law, parsing side: every well-formed address's encoding parses,
/// and is consumed in full.
pub proof fn lemma_addr_payload_parses(a: Address)
    requires
        a.wf(),
    ensures
        spec_addr_parses(a.spec_payload()),
        spec_addr_len(a.spec_payload()) == a.spec_payload().len(),
{
    let p = a.spec_payload();
    match a {
        Address::Socket(SocketAddress::V4(x, _)) => {
            assert(p[0] == ADDR_TYPE_IPV4 && p.len() == 7);
        },
        Address::Socket(SocketAddress::V6(x, _)) => {
            assert(p[0] == ADDR_TYPE_IPV6 && p.len() == 19);
        },
        Address::DomainName(name, _) => {
            assert(p[0] == ADDR_TYPE_DOMAIN && p[1] == name@.len() as u8);
            assert(p.len() == 4 + name@.len());
        },
    }
}

} // verus!
