//! HTTP status codes.

use vstd::prelude::*;
use crate::text::decimal;

verus! {

/// The status codes that an HTTP response can carry.
pub open spec fn is_status(code: u16) -> bool {
    100 <= code <= 999
}

/// The status codes that report success.
pub open spec fn is_success_code(code: u16) -> bool {
    200 <= code <= 299
}

/// What `reqwest::StatusCode` displays for a status code: the code and its
/// standard reason phrase.
pub uninterp spec fn status_text(code: u16) -> Seq<char>;

/// `reqwest::StatusCode::is_success`: a status code reports success when it lies
/// between 200 and 299.
#[verifier::external_body]
pub(crate) fn is_success(code: u16) -> (r: bool)
    requires
        is_status(code),
    ensures
        r == is_success_code(code),
{
    match reqwest::StatusCode::from_u16(code) {
        Ok(status) => status.is_success(),
        Err(_) => false,
    }
}

/// The `Display` text of `reqwest::StatusCode`: the code in decimal, a space, and
/// the reason phrase that the crate's table holds for it.
#[verifier::external_body]
pub(crate) fn status_line(code: u16) -> (r: String)
    requires
        is_status(code),
    ensures
        r@ == status_text(code),
        exists|reason: Seq<char>| r@ == decimal(code as nat) + seq![' '] + reason,
{
    match reqwest::StatusCode::from_u16(code) {
        Ok(status) => status.to_string(),
        Err(_) => String::new(),
    }
}

} // verus!
