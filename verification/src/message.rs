//! The closed sets of wire values used by SOCKS5 messages: authentication
//! methods, commands, and reply codes, together with their byte encodings.
use vstd::prelude::*;

use crate::address::Address;
use crate::error::Error;
use crate::head::TcpResponseHeader;

verus! {

/// An authentication method offered during method negotiation.
#[derive(Copy, Clone, Debug, PartialEq, Eq, Structural)]
pub enum Method {
    NONE,
    GSSAPI,
    PASSWORD,
    NotAcceptable,
}

impl Method {
    /// The wire value of this method.
    pub open spec fn spec_byte(self) -> u8 {
        match self {
            Method::NONE => 0x00,
            Method::GSSAPI => 0x01,
            Method::PASSWORD => 0x02,
            Method::NotAcceptable => 0xff,
        }
    }

    /// True when `v` is the wire value of some method.
    pub open spec fn spec_parses(v: u8) -> bool {
        v == 0x00 || v == 0x01 || v == 0x02 || v == 0xff
    }

    pub fn byte(self) -> (r: u8)
        ensures
            r == self.spec_byte(),
    {
        match self {
            Method::NONE => 0x00,
            Method::GSSAPI => 0x01,
            Method::PASSWORD => 0x02,
            Method::NotAcceptable => 0xff,
        }
    }

    /// Parses a method byte; any value outside the closed set is a decode
    /// error carrying `GeneralFailure`.
    pub fn try_from(value: u8) -> (r: Result<Method, Error>)
        ensures
            Method::spec_parses(value) ==> (r matches Ok(m) && m.spec_byte() == value),
            !Method::spec_parses(value) ==> (r matches Err(e) && e.reply == Replies::GeneralFailure),
    {
        match value {
            0x00 => Ok(Method::NONE),
            0x01 => Ok(Method::GSSAPI),
            0x02 => Ok(Method::PASSWORD),
            0xff => Ok(Method::NotAcceptable),
            _ => Err(Error::new(Replies::GeneralFailure, "unsupported method")),
        }
    }
}

impl Default for Method {
    fn default() -> (r: Method)
        ensures
            r == Method::NONE,
    {
        Method::NONE
    }
}

/// A SOCKS5 request command.
#[derive(Copy, Clone, Debug, PartialEq, Eq, Structural)]
pub enum Command {
    Connect,
    Bind,
    UdpAssociate,
}

impl Command {
    /// The wire value of this command.
    pub open spec fn spec_byte(self) -> u8 {
        match self {
            Command::Connect => 0x01,
            Command::Bind => 0x02,
            Command::UdpAssociate => 0x03,
        }
    }

    /// True when `v` is the wire value of some command.
    pub open spec fn spec_parses(v: u8) -> bool {
        v == 0x01 || v == 0x02 || v == 0x03
    }

    pub fn byte(self) -> (r: u8)
        ensures
            r == self.spec_byte(),
    {
        match self {
            Command::Connect => 0x01,
            Command::Bind => 0x02,
            Command::UdpAssociate => 0x03,
        }
    }

    /// Parses a command byte; any value outside the closed set is a decode
    /// error carrying `GeneralFailure`.
    pub fn try_from(value: u8) -> (r: Result<Command, Error>)
        ensures
            Command::spec_parses(value) ==> (r matches Ok(c) && c.spec_byte() == value),
            !Command::spec_parses(value) ==> (r matches Err(e) && e.reply == Replies::GeneralFailure),
    {
        match value {
            0x01 => Ok(Command::Connect),
            0x02 => Ok(Command::Bind),
            0x03 => Ok(Command::UdpAssociate),
            _ => Err(Error::new(Replies::GeneralFailure, "unsupported command")),
        }
    }
}

/// The nine standardized SOCKS5 reply codes.
#[derive(Copy, Clone, Debug, PartialEq, Eq, Structural)]
pub enum Replies {
    Succeeded,
    GeneralFailure,
    ConnectionNotAllowed,
    NetworkUnreachable,
    HostUnreachable,
    ConnectionRefused,
    TtlExpired,
    CommandNotSupported,
    AddressTypeNotSupported,
}

impl Replies {
    /// The wire value of this reply code.
    pub open spec fn spec_byte(self) -> u8 {
        match self {
            Replies::Succeeded => 0x00,
            Replies::GeneralFailure => 0x01,
            Replies::ConnectionNotAllowed => 0x02,
            Replies::NetworkUnreachable => 0x03,
            Replies::HostUnreachable => 0x04,
            Replies::ConnectionRefused => 0x05,
            Replies::TtlExpired => 0x06,
            Replies::CommandNotSupported => 0x07,
            Replies::AddressTypeNotSupported => 0x08,
        }
    }

    /// True when `v` is the wire value of some reply code.
    pub open spec fn spec_parses(v: u8) -> bool {
        v <= 0x08
    }

    pub fn byte(self) -> (r: u8)
        ensures
            r == self.spec_byte(),
    {
        match self {
            Replies::Succeeded => 0x00,
            Replies::GeneralFailure => 0x01,
            Replies::ConnectionNotAllowed => 0x02,
            Replies::NetworkUnreachable => 0x03,
            Replies::HostUnreachable => 0x04,
            Replies::ConnectionRefused => 0x05,
            Replies::TtlExpired => 0x06,
            Replies::CommandNotSupported => 0x07,
            Replies::AddressTypeNotSupported => 0x08,
        }
    }

    /// Parses a reply byte; any value outside the closed set is a decode
    /// error carrying `GeneralFailure`.
    pub fn try_from(value: u8) -> (r: Result<Replies, Error>)
        ensures
            Replies::spec_parses(value) ==> (r matches Ok(c) && c.spec_byte() == value),
            !Replies::spec_parses(value) ==> (r matches Err(e) && e.reply == Replies::GeneralFailure),
    {
        match value {
            0x00 => Ok(Replies::Succeeded),
            0x01 => Ok(Replies::GeneralFailure),
            0x02 => Ok(Replies::ConnectionNotAllowed),
            0x03 => Ok(Replies::NetworkUnreachable),
            0x04 => Ok(Replies::HostUnreachable),
            0x05 => Ok(Replies::ConnectionRefused),
            0x06 => Ok(Replies::TtlExpired),
            0x07 => Ok(Replies::CommandNotSupported),
            0x08 => Ok(Replies::AddressTypeNotSupported),
            _ => Err(Error::new(Replies::GeneralFailure, "unsupported reply")),
        }
    }

    /// The canonical human-readable message for this reply code.
    pub open spec fn spec_message(self) -> Seq<char> {
        match self {
            Replies::Succeeded => "succeeded"@,
            Replies::GeneralFailure => "general failure"@,
            Replies::ConnectionNotAllowed => "connection not allowed"@,
            Replies::NetworkUnreachable => "network unreachable"@,
            Replies::HostUnreachable => "host unreachable"@,
            Replies::ConnectionRefused => "connection refused"@,
            Replies::TtlExpired => "TTL expired"@,
            Replies::CommandNotSupported => "command not supported"@,
            Replies::AddressTypeNotSupported => "address type not supported"@,
        }
    }

    /// Turns a reply code into the `Error` that carries it, with the
    /// canonical message.
    pub fn to_error(self) -> (e: Error)
        ensures
            e.reply == self,
            e.message@ == self.spec_message(),
    {
        match self {
            Replies::Succeeded => Error::new(self, "succeeded"),
            Replies::GeneralFailure => Error::new(self, "general failure"),
            Replies::ConnectionNotAllowed => Error::new(self, "connection not allowed"),
            Replies::NetworkUnreachable => Error::new(self, "network unreachable"),
            Replies::HostUnreachable => Error::new(self, "host unreachable"),
            Replies::ConnectionRefused => Error::new(self, "connection refused"),
            Replies::TtlExpired => Error::new(self, "TTL expired"),
            Replies::CommandNotSupported => Error::new(self, "command not supported"),
            Replies::AddressTypeNotSupported => Error::new(self, "address type not supported"),
        }
    }
}

/// The wire value determines the method: the closed set has no collisions.
pub proof fn lemma_method_byte_injective(a: Method, b: Method)
    requires
        a.spec_byte() == b.spec_byte(),
    ensures
        a == b,
{
}

/// The wire value determines the command: the closed set has no collisions.
pub proof fn lemma_command_byte_injective(a: Command, b: Command)
    requires
        a.spec_byte() == b.spec_byte(),
    ensures
        a == b,
{
}

/// The wire value determines the reply code: the closed set has no
/// collisions.
pub proof fn lemma_replies_byte_injective(a: Replies, b: Replies)
    requires
        a.spec_byte() == b.spec_byte(),
    ensures
        a == b,
{
}

impl Replies {
    /// Builds the wire response header that answers with this reply code,
    /// against the given address.
    pub fn into_response(self, address: Address) -> (r: TcpResponseHeader)
        ensures
            r.reply == self,
            r.address == address,
    {
        TcpResponseHeader::new(self, address)
    }
}

/// The kind of transport I/O failure, as the caller's I/O layer reports it.
///
/// Used when a wire reply must be built from an I/O error: each kind maps to
/// the reply code a SOCKS5 server answers with in that situation.
#[derive(Copy, Clone, Debug, PartialEq, Eq, Structural)]
pub enum IoErrorKind {
    ConnectionRefused,
    ConnectionAborted,
    Other,
}

impl Replies {
    /// The reply code that stands for an I/O failure of the given kind.
    pub open spec fn spec_for_io_error(kind: IoErrorKind) -> Replies {
        match kind {
            IoErrorKind::ConnectionRefused => Replies::ConnectionRefused,
            IoErrorKind::ConnectionAborted => Replies::HostUnreachable,
            IoErrorKind::Other => Replies::NetworkUnreachable,
        }
    }

    pub fn for_io_error(kind: IoErrorKind) -> (r: Replies)
        ensures
            r == Replies::spec_for_io_error(kind),
    {
        match kind {
            IoErrorKind::ConnectionRefused => Replies::ConnectionRefused,
            IoErrorKind::ConnectionAborted => Replies::HostUnreachable,
            IoErrorKind::Other => Replies::NetworkUnreachable,
        }
    }
}

} // verus!
