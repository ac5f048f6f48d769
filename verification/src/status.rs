//! HTTP status lines, as the plugins' error messages show them.
use vstd::prelude::*;
use crate::text::{decimal, push_decimal, push_str};

verus! {

/// The reason phrase that the `http` crate registers for a status code, if
/// it registers one.
pub uninterp spec fn canonical_reason(code: u16) -> Option<Seq<char>>;

/// Calls `reqwest::StatusCode::from_u16` and then `canonical_reason`: the
/// registered reason phrase of a valid code (100 to 999), or `None` where
/// the code has none.
#[verifier::external_body]
fn reason_phrase(code: u16) -> (r: Option<&'static str>)
    requires
        100 <= code <= 999,
    ensures
        match r {
            Some(s) => canonical_reason(code) == Some(s@),
            None => canonical_reason(code) is None,
        },
{
    match reqwest::StatusCode::from_u16(code) {
        Ok(status) => status.canonical_reason(),
        Err(_) => None,
    }
}

/// The status line of a code: its number, a space, and its reason phrase or
/// `<unknown status code>`.
pub open spec fn status_line_spec(code: u16) -> Seq<char> {
    decimal(code as nat) + " "@ + match canonical_reason(code) {
        Some(reason) => reason,
        None => "<unknown status code>"@,
    }
}

/// The status line of a code, as a status code displays itself.
pub fn status_line(code: u16) -> (r: String)
    requires
        100 <= code <= 999,
    ensures
        r@ == status_line_spec(code),
{
    let mut out = String::new();
    push_decimal(&mut out, code as u64);
    push_str(&mut out, " ");
    match reason_phrase(code) {
        Some(reason) => push_str(&mut out, reason),
        None => push_str(&mut out, "<unknown status code>"),
    }
    out
}

} // verus!
