//! SOCKS5 proxy protocol core (RFC 1928/1929).
//!
//! A verified implementation of the SOCKS5 wire codec, the client and server
//! handshake state machines, and the reply/error taxonomy.  Every byte layout
//! is pinned down by a specification function, and every decoder is proved to
//! return a message whose re-encoding is exactly the bytes it consumed.
//!
//! Transport I/O, name resolution and the byte-relay loop are injected by the
//! caller; the library itself is a pure core driving those collaborators.
use vstd::prelude::*;

pub mod address;
pub mod buffer;
pub mod client;
pub mod error;
pub mod head;
pub mod message;
pub mod ser;
pub mod server;

verus! {

/// The SOCKS protocol version byte carried by every top-level message.
pub const VERSION: u8 = 0x05;

} // verus!
