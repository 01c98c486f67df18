//! The computational part of the post fetcher.
//!
//! The fetch itself is a host effect: the host issues the GET request this
//! module names and reads the body. What is verified here is the request's
//! URL and the collapse of every failure mode to the single "absent" outcome.

use vstd::prelude::*;
use vstd::string::StringExecFns;

verus! {

/// The conventional server path of a post's raw text.
pub open spec fn spec_post_url(post_id: Seq<char>) -> Seq<char> {
    "/markdown/"@ + post_id + ".md"@
}

/// Builds the URL the fetcher issues its GET request against:
/// `/markdown/<post-id>.md`.
pub fn post_url(post_id: &str) -> (r: String)
    ensures
        r@ == spec_post_url(post_id@),
{
    let s = String::from_str("/markdown/");
    let s = s.concat(post_id);
    s.concat(".md")
}

/// Collapses the outcome of one fetch to success-or-absent.
///
/// `status_success` says whether the response carried a success status;
/// `body` is the decoded text body, absent already when any earlier stage
/// (request construction, the network, reading or decoding the body) failed.
/// Every failure collapses to the one absent result: no distinction is kept
/// between a missing resource, a network error and a malformed response.
pub fn collapse_fetch(status_success: bool, body: Option<String>) -> (r: Option<String>)
    ensures
        r == (if status_success {
            body
        } else {
            None::<String>
        }),
        r is Some <==> status_success && body is Some,
{
    if status_success {
        body
    } else {
        None
    }
}

} // verus!
