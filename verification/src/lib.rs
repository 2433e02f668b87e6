//! A collection of small, independent exercises, each stated with a
//! contract and proved against it.
//!
//! * [`list`]: a doubly-linked list threaded through numbered node slots,
//!   with its linking invariant and the laws of linking and unlinking.
//! * [`exercises`], [`basics`], [`functions`], [`generics`],
//!   [`iter_closures`], [`memory_types`], [`ownership`]: short
//!   self-contained functions and types.
//! * [`error_handling`]: results, options and error types with their
//!   messages.
//! * [`utils`], [`network`], and the items of this file: a toy library with
//!   a formatter, a splitter, a client and a server.
//! * [`web`], [`api_client`], [`runtime`], [`archive`]: the decisions behind
//!   request handlers, a caching client, a task runtime and an archive
//!   reader, with the waiting, sending and reading left to the caller.
//! * [`text`]: the character and string primitives the others share.

use vstd::prelude::*;
use vstd::string::StringExecFns;

pub mod api_client;
pub mod archive;
pub mod basics;
pub mod error_handling;
pub mod exercises;
pub mod functions;
pub mod generics;
mod internal;
pub mod iter_closures;
pub mod list;
pub mod memory_types;
pub mod network;
pub mod ownership;
pub mod runtime;
pub mod text;
pub mod utils;
pub mod web;

pub use network::Client;
pub use utils::format_data;

verus! {

/// A named library at a fixed version.
pub struct Library {
    name: String,
    version: String,
}

impl Library {
    /// The library's name.
    pub closed spec fn name(&self) -> Seq<char> {
        self.name@
    }

    /// The library's version.
    pub closed spec fn version(&self) -> Seq<char> {
        self.version@
    }

    /// The library called `name`, at version `1.0.0`.
    pub fn new(name: &str) -> (library: Self)
        ensures
            library.name() == name@,
            library.version() == "1.0.0"@,
    {
        Library { name: name.to_owned(), version: "1.0.0".to_owned() }
    }

    /// The name, ` v` and the version.
    pub fn info(&self) -> (text: String)
        ensures
            text@ == self.name() + " v"@ + self.version(),
    {
        let mut text = self.name.clone();
        text.append(" v");
        text.append(self.version.as_str());
        text
    }
}

/// The answer.
pub fn get_answer() -> (answer: i32)
    ensures
        answer == 42,
{
    internal::internal_helper()
}

} // verus!
