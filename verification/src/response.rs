//! The fixed response: every request, whatever its method, path or
//! validity, is answered with the same status line, content-type header and
//! static HTML body.

use vstd::prelude::*;

verus! {

/// The characters of the fixed response head: status line
/// `HTTP/1.0 200 OK`, a `Content-type: text/html` header, and the blank
/// line before the body.
pub open spec fn response_header() -> Seq<char> {
    "HTTP/1.0 200 OK\r\nContent-type: text/html\r\n\r\n"@
}

/// The fixed response head to write before the HTML body.
pub fn http_header() -> (h: &'static str)
    ensures
        h@ == response_header(),
{
    "HTTP/1.0 200 OK\r\nContent-type: text/html\r\n\r\n"
}

} // verus!
