//! The error carried by every fallible operation of the protocol core: a
//! SOCKS5 reply code paired with a human-readable message, so that a server
//! can always translate a failure into a valid wire response.
use vstd::prelude::*;
use vstd::string::StringExecFns;

use crate::message::Replies;

verus! {

/// A protocol failure: the reply code to answer with, and a message for the
/// caller.
#[derive(Clone, Debug)]
pub struct Error {
    /// Reply code
    pub reply: Replies,
    /// Error message
    pub message: String,
}

impl Error {
    /// Builds an error from a reply code and a message.
    pub fn new(reply: Replies, message: &str) -> (e: Error)
        ensures
            e.reply == reply,
            e.message@ == message@,
    {
        Error { reply, message: String::from_str(message) }
    }

    /// Builds an error from a reply code and an owned message, keeping the
    /// message as it is.
    pub fn with_message(reply: Replies, message: String) -> (e: Error)
        ensures
            e.reply == reply,
            e.message@ == message@,
    {
        Error { reply, message }
    }
}

} // verus!
