//! A toy networking layer: endpoints, a client and a server.

use vstd::prelude::*;

pub mod client;
pub mod header;
pub mod server;

pub use client::Client;

verus! {

/// Accepts any endpoint but the empty one.
pub fn connect(endpoint: &str) -> (r: Result<(), String>)
    ensures
        r is Err <==> endpoint@.len() == 0,
        r matches Err(message) ==> message@ == "Empty endpoint"@,
{
    if endpoint.is_empty() {
        Err("Empty endpoint".to_owned())
    } else {
        Ok(())
    }
}

/// Connects as [`connect`] does; the caller records the attempt.
pub fn connect_and_log(endpoint: &str) -> (r: Result<(), String>)
    ensures
        r is Err <==> endpoint@.len() == 0,
        r matches Err(message) ==> message@ == "Empty endpoint"@,
{
    connect(endpoint)
}

} // verus!
