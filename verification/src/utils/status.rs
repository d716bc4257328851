//! How an HTTP status code is written in messages.

use crate::utils::text::{concat, decimal, push_decimal};
use vstd::prelude::*;

verus! {

/// The canonical reason phrase of the HTTP status code `code`, if it has one.
pub uninterp spec fn status_reason(code: u16) -> Option<Seq<char>>;

/// The reason phrases of the statuses that the control plane's errors are classified by.
pub open spec fn known_reason(code: u16) -> Option<Seq<char>> {
    if code == 400 {
        Some("Bad Request"@)
    } else if code == 401 {
        Some("Unauthorized"@)
    } else if code == 403 {
        Some("Forbidden"@)
    } else if code == 404 {
        Some("Not Found"@)
    } else if code == 409 {
        Some("Conflict"@)
    } else if code == 412 {
        Some("Precondition Failed"@)
    } else if code == 422 {
        Some("Unprocessable Entity"@)
    } else if code == 500 {
        Some("Internal Server Error"@)
    } else {
        None
    }
}

/// Calls `StatusCode::canonical_reason` of the `http` crate (re-exported by `reqwest`) on the
/// status code `code`. The contract claims that the result is the phrase named
/// `status_reason(code)`, a function of `code` alone, and states the phrases of the statuses
/// that the control plane's errors are classified by, as the crate's table gives them; the
/// phrases of other codes are not stated.
#[verifier::external_body]
fn canonical_reason(code: u16) -> (r: Option<String>)
    requires
        100 <= code <= 999,
    ensures
        match r {
            Some(s) => status_reason(code) == Some(s@),
            None => status_reason(code) is None,
        },
        known_reason(code) is Some ==> r.deep_view() == known_reason(code),
{
    reqwest::StatusCode::from_u16(code).ok().and_then(|s| s.canonical_reason()).map(|s| s.to_string())
}

/// The reason phrase written after a status code: the known phrase of a status the control
/// plane's errors are classified by, else the one HTTP's table gives.
pub open spec fn reason_text(code: u16) -> Seq<char> {
    if let Some(p) = known_reason(code) {
        p
    } else if 100 <= code <= 999 {
        match status_reason(code) {
            Some(r) => r,
            None => "<unknown status code>"@,
        }
    } else {
        "<unknown status code>"@
    }
}

/// A status code as HTTP displays it: its number, a space and its reason phrase.
pub open spec fn status_text(code: u16) -> Seq<char> {
    decimal(code as nat) + " "@ + reason_text(code)
}

/// A status code with a reason phrase, as written in messages: its number, a space, and the
/// phrase, or `<unknown status code>` when there is none.
pub open spec fn status_line_text(code: u16, reason: Option<Seq<char>>) -> Seq<char> {
    decimal(code as nat) + " "@ + match reason {
        Some(r) => r,
        None => "<unknown status code>"@,
    }
}

/// Writes a status code with its reason phrase: its number, a space, and the phrase, or
/// `<unknown status code>` when there is none.
pub fn status_line(code: u16, reason: Option<&str>) -> (s: String)
    ensures
        s@ == status_line_text(
            code,
            match reason {
                Some(r) => Some(r@),
                None => None,
            },
        ),
{
    let mut s = String::new();
    push_decimal(&mut s, code as u64);
    let s = concat(s.as_str(), " ");
    match reason {
        Some(r) => concat(s.as_str(), r),
        None => concat(s.as_str(), "<unknown status code>"),
    }
}

/// Displays a status code: its number, a space and its reason phrase
/// (`<unknown status code>` for a code without one).
pub fn display_status(code: u16) -> (s: String)
    ensures
        s@ == status_text(code),
{
    if 100 <= code && code <= 999 {
        match canonical_reason(code) {
            Some(r) => status_line(code, Some(r.as_str())),
            None => status_line(code, None),
        }
    } else {
        status_line(code, None)
    }
}

} // verus!
