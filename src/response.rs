//! The reply written to every accepted connection.

use vstd::prelude::*;

verus! {

/// The reply, whatever the client sent: a status line, an empty line and
/// the body `Hello world`.
pub open spec fn response_text() -> Seq<char> {
    "HTTP/1.1 200 OK\n\nHello world"@
}

/// The reply written to each connection.
pub fn response() -> (r: &'static str)
    ensures
        r@ == response_text(),
{
    "HTTP/1.1 200 OK\n\nHello world"
}

} // verus!
