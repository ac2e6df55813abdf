//! HTTP status codes, and what `reqwest` makes of them.

use vstd::prelude::*;
use crate::text::decimal;

verus! {

/// The status code of an HTTP response: a number from 100 to 999.
///
/// This is the range that `reqwest::StatusCode` can hold, so every status that
/// a response carries can be written as a value of this type.
#[derive(Clone, Copy, Debug)]
pub struct HttpStatus {
    code: u16,
}

/// The phrase that `reqwest::StatusCode` prints behind a status code: the
/// code's canonical reason phrase, or a fixed placeholder where it has none.
pub uninterp spec fn reason_phrase(code: u16) -> Seq<char>;

/// A status code as `reqwest::StatusCode` displays it: the code in decimal, a
/// space, and the reason phrase.
pub open spec fn status_line(code: u16) -> Seq<char> {
    decimal(code as nat) + seq![' '] + reason_phrase(code)
}

/// `reqwest::StatusCode::is_success`, on the status code built by
/// `StatusCode::from_u16`.
///
/// Trusted: the answer is `true` exactly for the codes from 200 to 299. The
/// conversion cannot fail on a code from 100 to 999.
#[verifier::external_body]
fn reqwest_is_success(code: u16) -> (yes: bool)
    requires
        100 <= code <= 999,
    ensures
        yes == (200 <= code <= 299),
{
    reqwest::StatusCode::from_u16(code).unwrap().is_success()
}

/// The `Display` form of `reqwest::StatusCode`, on the status code built by
/// `StatusCode::from_u16`.
///
/// Trusted: the text is the code in decimal, one space, and then
/// `reason_phrase` of the code. The conversion cannot fail on a code from 100
/// to 999.
#[verifier::external_body]
fn reqwest_display(code: u16) -> (line: String)
    requires
        100 <= code <= 999,
    ensures
        line@ == decimal(code as nat) + seq![' '] + reason_phrase(code),
{
    format!("{}", reqwest::StatusCode::from_u16(code).unwrap())
}

impl HttpStatus {
    #[verifier::type_invariant]
    spec fn in_range(self) -> bool {
        100 <= self.code <= 999
    }

    /// The numeric code.
    pub closed spec fn code(self) -> u16 {
        self.code
    }

    /// What every status that exists at run time satisfies: its code has three
    /// digits.
    pub open spec fn valid(self) -> bool {
        100 <= self.code() <= 999
    }

    /// The status reports success: its code lies in 200..=299.
    pub open spec fn success(self) -> bool {
        200 <= self.code() <= 299
    }

    /// The status with the given code, if there is one.
    pub fn from_u16(code: u16) -> (status: Option<HttpStatus>)
        ensures
            status is Some <==> 100 <= code <= 999,
            status matches Some(s) ==> s.code() == code && s.valid(),
    {
        if 100 <= code && code <= 999 {
            Some(HttpStatus { code })
        } else {
            None
        }
    }

    /// The numeric code.
    pub fn as_u16(&self) -> (code: u16)
        ensures
            code == self.code(),
            self.valid(),
    {
        proof {
            use_type_invariant(self);
        }
        self.code
    }

    /// Whether the status reports success.
    pub fn is_success(&self) -> (yes: bool)
        ensures
            yes == self.success(),
            self.valid(),
    {
        proof {
            use_type_invariant(self);
        }
        reqwest_is_success(self.code)
    }

    /// The status as it is shown in messages, such as `404 Not Found`.
    pub fn line(&self) -> (line: String)
        ensures
            line@ == status_line(self.code()),
            self.valid(),
    {
        proof {
            use_type_invariant(self);
        }
        reqwest_display(self.code)
    }
}

} // verus!
