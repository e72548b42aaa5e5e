//! Resolution of the correlation identifier for one request.
//!
//! The identifier is adopted verbatim from the inbound `X-Request-ID`
//! header when that header is present and non-empty; otherwise a fresh
//! token supplied by the caller takes its place. The token comes from
//! outside (a random generator, or a fixed fallback word), so the
//! handlers take it as a plain argument; all that is asked of it is
//! that it is non-empty.

use vstd::prelude::*;

verus! {

/// The identifier a request with this header value and this fresh
/// token is handled under.
pub open spec fn chosen_request_id(header: Option<&str>, fresh: Seq<char>) -> Seq<char> {
    match header {
        Some(h) => if h@.len() > 0 {
            h@
        } else {
            fresh
        },
        None => fresh,
    }
}

/// Adopt the inbound `X-Request-ID` value when it is present and
/// non-empty; fall back to the supplied fresh token otherwise.
/// Identifier handling never fails: any non-empty header value is
/// accepted as opaque text.
pub fn extract_request_id(header: Option<&str>, fresh_id: &str) -> (id: String)
    requires
        fresh_id@.len() > 0,
    ensures
        id@ == chosen_request_id(header, fresh_id@),
        id@.len() > 0,
{
    match header {
        Some(h) => {
            if h.is_empty() {
                fresh_id.to_owned()
            } else {
                h.to_owned()
            }
        },
        None => fresh_id.to_owned(),
    }
}

} // verus!
