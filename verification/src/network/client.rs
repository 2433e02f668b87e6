//! The connecting side.

use crate::text::{decimal, decimal_string};
use vstd::prelude::*;
use vstd::string::StringExecFns;

verus! {

/// The longest message, in bytes, that a client sends.
pub const MAX_MESSAGE_LEN: usize = 1000;

/// The timeout a new client starts with.
pub const DEFAULT_TIMEOUT: u32 = 30;

/// A named client with an identifier and a timeout.
pub struct Client {
    id: u64,
    pub name: String,
    timeout: u32,
}

/// What can go wrong on the client's side.
pub enum ClientError {
    Timeout,
    ConnectionFailed,
    InvalidData,
}

/// Calls `rand::random::<u64>()`. Trusted; nothing is promised of the value
/// it returns.
#[verifier::external_body]
fn random_id() -> u64 {
    rand::random()
}

impl Client {
    /// The client's identifier.
    pub closed spec fn id(&self) -> u64 {
        self.id
    }

    /// The client's name.
    pub closed spec fn named(&self) -> Seq<char> {
        self.name@
    }

    /// The client's timeout.
    pub closed spec fn timeout(&self) -> u32 {
        self.timeout
    }

    /// A client called `name` with a random identifier and the default
    /// timeout.
    pub fn new(name: &str) -> (client: Self)
        ensures
            client.named() == name@,
            client.timeout() == DEFAULT_TIMEOUT,
    {
        Client::with_id(random_id(), name)
    }

    /// A client called `name` with the identifier `id` and the default
    /// timeout.
    pub fn with_id(id: u64, name: &str) -> (client: Self)
        ensures
            client.id() == id,
            client.named() == name@,
            client.timeout() == DEFAULT_TIMEOUT,
    {
        Client { id, name: name.to_owned(), timeout: DEFAULT_TIMEOUT }
    }

    /// Accepts `message` for sending unless it is longer than
    /// [`MAX_MESSAGE_LEN`] bytes.
    pub fn send(&self, message: &str) -> (r: Result<(), String>)
        ensures
            r is Err <==> message.len() > MAX_MESSAGE_LEN,
            r matches Err(reason) ==> reason@ == "Message too long"@,
    {
        if message.len() > MAX_MESSAGE_LEN {
            Err("Message too long".to_owned())
        } else {
            Ok(())
        }
    }

    /// Replaces the timeout.
    pub fn set_timeout(&mut self, timeout: u32)
        ensures
            final(self).timeout() == timeout,
            final(self).id() == old(self).id(),
            final(self).named() == old(self).named(),
    {
        self.timeout = timeout;
    }

    /// The identifier and the name.
    pub fn into_parts(self) -> (parts: (u64, String))
        ensures
            parts.0 == self.id(),
            parts.1@ == self.named(),
    {
        (self.id, self.name)
    }

    /// Whether `message` is non-empty and no longer, in bytes, than the
    /// timeout.
    pub fn validate_message(&self, message: &str) -> (b: bool)
        ensures
            b == (message@.len() > 0 && message.len() <= self.timeout()),
    {
        !message.is_empty() && message.len() <= self.timeout as usize
    }

    /// The client's name and identifier in one line.
    pub fn describe(&self) -> (line: String)
        ensures
            line@ == "Client "@ + self.named() + " (ID: "@ + decimal(self.id() as nat) + ")"@,
    {
        let mut line = "Client ".to_owned();
        line.append(self.name.as_str());
        line.append(" (ID: ");
        line.append(decimal_string(self.id).as_str());
        line.append(")");
        line
    }
}

} // verus!
