//! HTTP status codes as the gateway sees them.

use vstd::prelude::*;

verus! {

/// The phrase that `http::StatusCode` (re-exported as `reqwest::StatusCode`)
/// displays after a code and a space: the canonical reason of the code, or a
/// fixed placeholder where the code has none.
pub uninterp spec fn reason_phrase(code: int) -> Seq<char>;

/// The character of a decimal digit.
pub open spec fn digit(d: int) -> char {
    seq!['0', '1', '2', '3', '4', '5', '6', '7', '8', '9'][d]
}

/// The three decimal digits of a code from 100 to 999.
pub open spec fn code_digits(code: int) -> Seq<char> {
    seq![digit(code / 100), digit(code / 10 % 10), digit(code % 10)]
}

/// A code as it is shown to a reader: its three digits, a space and its
/// reason phrase, such as `404 Not Found`.
pub open spec fn status_line(code: int) -> Seq<char> {
    code_digits(code) + seq![' '] + reason_phrase(code)
}

/// A three-digit HTTP status code.
#[derive(Debug, Clone, Copy, PartialEq, Eq)]
pub struct StatusCode {
    code: u16,
}

impl View for StatusCode {
    type V = int;

    closed spec fn view(&self) -> int {
        self.code as int
    }
}

impl StatusCode {
    #[verifier::type_invariant]
    spec fn in_range(&self) -> bool {
        100 <= self.code <= 999
    }

    /// Accepts exactly the codes from 100 to 999.
    pub fn new(code: u16) -> (r: Option<StatusCode>)
        ensures
            r is Some <==> 100 <= code <= 999,
            r matches Some(s) ==> s@ == code,
    {
        if 100 <= code && code <= 999 {
            Some(StatusCode { code })
        } else {
            None
        }
    }

    /// The numeric code.
    pub fn code(&self) -> (c: u16)
        ensures
            c == self@,
            100 <= c <= 999,
    {
        proof {
            use_type_invariant(self);
        }
        self.code
    }

    /// Whether the code is a success code: 200 to 299.
    pub fn is_success(&self) -> (ok: bool)
        ensures
            ok == (200 <= self@ <= 299),
    {
        200 <= self.code && self.code <= 299
    }

    /// The code as it is shown to a reader, such as `404 Not Found`.
    pub fn line(&self) -> (text: String)
        ensures
            text@ == status_line(self@),
    {
        proof {
            use_type_invariant(self);
        }
        display_status(self.code)
    }
}

/// Calls `reqwest::StatusCode::from_u16` and then the `Display` impl of the
/// status code. The conversion accepts every code from 100 to 999. The text
/// is the code in decimal, which has three digits in that range, then a
/// space, then a phrase that depends on the code alone.
#[verifier::external_body]
fn display_status(code: u16) -> (text: String)
    requires
        100 <= code <= 999,
    ensures
        text@ == code_digits(code as int) + seq![' '] + reason_phrase(code as int),
{
    match reqwest::StatusCode::from_u16(code) {
        Ok(status) => status.to_string(),
        Err(_) => String::new(),
    }
}

} // verus!
