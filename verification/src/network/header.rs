//! The header in front of a message.

use vstd::prelude::*;

verus! {

/// A message header: the version of the format that follows.
pub struct Header {
    pub version: u8,
}

/// Why bytes hold no header.
pub enum HeaderError {
    /// There is no byte to read the version from.
    Empty,
}

/// Reads the header from the front of `bytes`: its first byte is the
/// version. Bytes after the header are left for the caller.
pub fn parse_header(bytes: &[u8]) -> (r: Result<Header, HeaderError>)
    ensures
        r is Err <==> bytes@.len() == 0,
        r matches Ok(header) ==> header.version == bytes@[0],
{
    if bytes.len() == 0 {
        Err(HeaderError::Empty)
    } else {
        Ok(Header { version: bytes[0] })
    }
}

} // verus!
