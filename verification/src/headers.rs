//! The response headers that the service sets, as names and values.

use vstd::prelude::*;

verus! {

/// The product token sent as the `Server` header.
pub const SERVER_NAME: &'static str = "hasher/0.1.0";

/// The rehash signal: whether the client should replace the record it holds
/// by one made under the current parameter set.
#[derive(Debug, Clone, Copy, PartialEq, Eq, Structural)]
pub struct XRehash(pub bool);

impl XRehash {
    pub fn header_name() -> (name: &'static str)
        ensures
            name@ == "X-Rehash"@,
    {
        "X-Rehash"
    }

    /// The value sent: `1` if the record should be replaced, else `0`.
    pub fn header_value(&self) -> (value: &'static str)
        ensures
            value@ == (if self.0 {
                "1"@
            } else {
                "0"@
            }),
    {
        if self.0 {
            "1"
        } else {
            "0"
        }
    }
}

/// The `Server` header, which names this service.
#[derive(Debug, Clone, Copy)]
pub struct ServerHeader {}

impl ServerHeader {
    pub fn header_name() -> (name: &'static str)
        ensures
            name@ == "Server"@,
    {
        "Server"
    }

    /// The value sent: [`SERVER_NAME`].
    pub fn header_value(&self) -> (value: &'static str)
        ensures
            value@ == SERVER_NAME@,
    {
        SERVER_NAME
    }
}

} // verus!
