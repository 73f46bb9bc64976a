//! What a failed API response is reported as.
use vstd::prelude::*;
use crate::text::{chars_of, owned, string_of};

verus! {

broadcast use vstd::string::group_string_axioms;

/// How much of a failed response's body is quoted.
pub const BODY_PREVIEW_CHARS: usize = 256;

/// The error a response with HTTP status `status` (shown as `status_text`)
/// from `url` is reported as: an expired token for 401, the status and the
/// start of the body for any other status outside 2xx, nothing for success.
pub open spec fn spec_status_error(status: u16, status_text: Seq<char>, url: Seq<char>, body: Seq<char>) -> Option<Seq<char>> {
    if status == 401 {
        Some("Unauthorized (401) from "@ + url + " \u{2014} token may be expired"@)
    } else if !(200 <= status && status <= 299) {
        Some("HTTP "@ + status_text + " from "@ + url + " \u{2014} body preview: "@
            + (if body.len() <= BODY_PREVIEW_CHARS { body } else { body.take(BODY_PREVIEW_CHARS as int) }))
    } else {
        None
    }
}

/// The error a response is reported as, if it failed.
pub fn status_error(status: u16, status_text: &str, url: &str, body: &str) -> (r: Option<String>)
    ensures
        match spec_status_error(status, status_text@, url@, body@) {
            Some(m) => r matches Some(x) && x@ == m,
            None => r is None,
        },
{
    if status == 401 {
        let mut m = owned("Unauthorized (401) from ");
        m.append(url);
        m.append(" \u{2014} token may be expired");
        Some(m)
    } else if !(200 <= status && status <= 299) {
        let mut m = owned("HTTP ");
        m.append(status_text);
        m.append(" from ");
        m.append(url);
        m.append(" \u{2014} body preview: ");
        let cs = chars_of(body);
        let n = if cs.len() <= BODY_PREVIEW_CHARS { cs.len() } else { BODY_PREVIEW_CHARS };
        let preview = string_of(&cs[0..n]);
        assert(cs@.subrange(0, n as int) == (if body@.len() <= BODY_PREVIEW_CHARS { body@ } else { body@.take(BODY_PREVIEW_CHARS as int) }));
        m.append(preview.as_str());
        Some(m)
    } else {
        None
    }
}

/// The error a body that is not the expected JSON is reported as.
pub fn decode_error(url: &str, reason: &str) -> (r: String)
    ensures
        r@ == "JSON decode error from "@ + url@ + ": "@ + reason@,
{
    let mut m = owned("JSON decode error from ");
    m.append(url);
    m.append(": ");
    m.append(reason);
    m
}

} // verus!
