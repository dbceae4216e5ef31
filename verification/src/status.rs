//! HTTP status codes.

use vstd::prelude::*;
use reqwest::StatusCode;
use crate::decimal::decimal;

verus! {

/// The status of a response that carries the whole resource.
pub const OK: u16 = 200;

/// The status of a response that carries the byte range asked for.
pub const PARTIAL_CONTENT: u16 = 206;

/// Whether `code` can be the status of a response: at least 100 and below 600.
pub open spec fn is_status_code(code: u16) -> bool {
    100 <= code < 600
}

/// Whether `code` lies in the success class, 200 to 299.
pub open spec fn is_success(code: u16) -> bool {
    200 <= code < 300
}

/// The reason phrase that the `http` crate keeps for the status `code`, or
/// what it prints in place of one for a status that it has no phrase for.
pub uninterp spec fn status_reason(code: u16) -> Seq<char>;

/// The status line of `code`: the number, a space and the reason phrase.
pub open spec fn status_text(code: u16) -> Seq<char> {
    decimal(code as nat) + " "@ + status_reason(code)
}

/// A status code as a response carries it. The view is the number.
#[derive(Clone, Copy, Debug, PartialEq, Eq)]
pub struct Status {
    code: u16,
}

impl View for Status {
    type V = u16;

    closed spec fn view(&self) -> u16 {
        self.code
    }
}

/// Formats a status as `StatusCode` does with `{}`. Calls
/// `StatusCode::from_u16`, which accepts every number from 100 to 599, and
/// `to_string` on what it returns, which writes the number in decimal, a
/// space, and the reason phrase. Of the phrase the claim is only that it is
/// the one named `status_reason`.
#[verifier::external_body]
fn format_status(code: u16) -> (s: String)
    requires
        is_status_code(code),
    ensures
        s@ == decimal(code as nat) + " "@ + status_reason(code),
{
    StatusCode::from_u16(code).unwrap().to_string()
}

impl Status {
    #[verifier::type_invariant]
    spec fn in_range(self) -> bool {
        is_status_code(self.code)
    }

    /// The status with the number `code`, if there is one.
    pub fn new(code: u16) -> (r: Option<Status>)
        ensures
            r is Some <==> is_status_code(code),
            r matches Some(s) ==> s@ == code,
    {
        if 100 <= code && code < 600 {
            Some(Status { code })
        } else {
            None
        }
    }

    /// The number of this status.
    pub fn as_u16(&self) -> (code: u16)
        ensures
            code == self@,
            is_status_code(code),
    {
        proof {
            use_type_invariant(self);
        }
        self.code
    }

    /// Whether this status reports success.
    pub fn is_success(&self) -> (r: bool)
        ensures
            r == is_success(self@),
    {
        200 <= self.code && self.code < 300
    }

    /// The status line text: the number and its reason phrase.
    pub fn display(&self) -> (s: String)
        ensures
            s@ == status_text(self@),
    {
        proof {
            use_type_invariant(self);
        }
        format_status(self.code)
    }
}

} // verus!
