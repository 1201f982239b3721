//! Framing shared by every top-level message: the `Encode` and `Decode`
//! traits tie a message type to its wire payload, and `read`/`as_bytes` add
//! the leading SOCKS version byte that every top-level message carries.
use vstd::prelude::*;

use crate::buffer::{
    buffer_contents, buffer_freeze, buffer_new, bytes_as_slice, bytes_contents, put_slice, put_u8,
};
use crate::error::Error;
use crate::message::Replies;
use crate::VERSION;

verus! {

/// Checks the version byte that opens every top-level message: any value
/// other than 5 is rejected with `ConnectionRefused`.
pub fn check_version(v: u8) -> (r: Result<(), Error>)
    ensures
        v == VERSION ==> r is Ok,
        v != VERSION ==> (r matches Err(e) && e.reply == Replies::ConnectionRefused),
{
    if v == VERSION {
        Ok(())
    } else {
        Err(Error::new(Replies::ConnectionRefused, "unsupported socks version"))
    }
}

/// A message with a fixed wire payload.
pub trait Encode {
    /// Well-formedness required for the payload to fit its wire layout.
    spec fn wf(&self) -> bool;

    /// The message's payload bytes, without the leading version byte.
    spec fn spec_payload(&self) -> Seq<u8>;

    /// Encodes the payload.
    fn encode(&self) -> (r: bytes::Bytes)
        requires
            self.wf(),
        ensures
            bytes_contents(r) == self.spec_payload(),
    ;

    /// Frames the payload for the transport: the version byte, then the
    /// payload.
    fn as_bytes(&self) -> (r: bytes::Bytes)
        requires
            self.wf(),
        ensures
            bytes_contents(r) == seq![VERSION] + self.spec_payload(),
    {
        let mut buffer = buffer_new();
        put_u8(&mut buffer, VERSION);
        let payload = self.encode();
        put_slice(&mut buffer, bytes_as_slice(&payload));
        proof {
            assert(buffer_contents(buffer) =~= seq![VERSION] + self.spec_payload());
        }
        buffer_freeze(buffer)
    }
}

/// What reading a framed message from `b` returns: an empty buffer is
/// `GeneralFailure`; a first byte other than the version byte 5 is
/// `ConnectionRefused`, whatever the message type; otherwise the rest of the
/// buffer decodes as the message's payload.
pub open spec fn read_outcome<T: Decode>(b: Seq<u8>, r: Result<T, Error>) -> bool {
    &&& b.len() == 0 ==> (r matches Err(e) && e.reply == Replies::GeneralFailure)
    &&& b.len() >= 1 && b[0] != VERSION ==> (r matches Err(e) && e.reply
        == Replies::ConnectionRefused)
    &&& b.len() >= 1 && b[0] == VERSION ==> {
        let rest = b.subrange(1, b.len() as int);
        &&& T::spec_parses(rest) ==> (r matches Ok(m) && m.wf() && m.spec_payload()
            == T::spec_parsed_payload(rest))
        &&& !T::spec_parses(rest) ==> (r matches Err(e) && e.reply == T::spec_err_reply(rest))
    }
}

/// Version-check law: whatever the message type, reading a framed buffer
/// whose first byte is not the version byte 5 yields `ConnectionRefused`.
/// `r` stands for what `T::read` returns on `b`, which its contract makes
/// satisfy `read_outcome`.
pub proof fn lemma_wrong_version_refused<T: Decode>(b: Seq<u8>, r: Result<T, Error>)
    requires
        read_outcome::<T>(b, r),
        b.len() >= 1,
        b[0] != VERSION,
    ensures
        r matches Err(e) && e.reply == Replies::ConnectionRefused,
{
}

/// A message decodable from its wire payload.
///
/// `decode`'s contract pins the result down through `Encode`: on success the
/// returned message is well-formed and its re-encoding is the canonical
/// payload of the consumed bytes.
pub trait Decode: Encode + Sized {
    /// True when a prefix of `b` is a well-formed payload for this message
    /// type.
    spec fn spec_parses(b: Seq<u8>) -> bool;

    /// The canonical payload of the message parsed from `b`: the consumed
    /// prefix with any read-but-ignored bytes (such as a reserved byte) set
    /// to their canonical value.
    spec fn spec_parsed_payload(b: Seq<u8>) -> Seq<u8>;

    /// The reply code carried by the decode error on `b`.
    spec fn spec_err_reply(b: Seq<u8>) -> Replies;

    /// Decodes a message from the front of `buf`; bytes past the payload are
    /// ignored.
    fn decode(buf: &[u8]) -> (r: Result<Self, Error>)
        ensures
            Self::spec_parses(buf@) ==> (r matches Ok(m) && m.wf() && m.spec_payload()
                == Self::spec_parsed_payload(buf@)),
            !Self::spec_parses(buf@) ==> (r matches Err(e) && e.reply == Self::spec_err_reply(
                buf@,
            )),
    ;

    /// Reads a framed message: validates the version byte — any first byte
    /// other than 5 yields `ConnectionRefused`, whatever the message type —
    /// then decodes the rest.
    fn read(buf: &[u8]) -> (r: Result<Self, Error>)
        ensures
            buf@.len() == 0 ==> (r matches Err(e) && e.reply == Replies::GeneralFailure),
            buf@.len() >= 1 && buf@[0] != VERSION ==> (r matches Err(e) && e.reply
                == Replies::ConnectionRefused),
            buf@.len() >= 1 && buf@[0] == VERSION ==> {
                let rest = buf@.subrange(1, buf@.len() as int);
                &&& Self::spec_parses(rest) ==> (r matches Ok(m) && m.wf() && m.spec_payload()
                    == Self::spec_parsed_payload(rest))
                &&& !Self::spec_parses(rest) ==> (r matches Err(e) && e.reply
                    == Self::spec_err_reply(rest))
            },
    {
        if buf.len() == 0 {
            return Err(Error::new(Replies::GeneralFailure, "empty message"));
        }
        match check_version(buf[0]) {
            Ok(()) => {},
            Err(e) => {
                return Err(e);
            },
        }
        Self::decode(&buf[1..buf.len()])
    }
}

} // verus!
