//! HTTP status codes and header values, as the client reads them.

use vstd::prelude::*;

verus! {

/// A status code that HTTP admits: three decimal digits, from 100 to 999.
pub open spec fn valid_status(code: u16) -> bool {
    100 <= code < 1000
}

/// The text of a status code: the number, a space and the standard reason
/// phrase, or a placeholder for codes without one.
pub uninterp spec fn status_line(code: u16) -> Seq<char>;

/// `reqwest::StatusCode`'s `Display` text for a valid code. The formatting
/// (number, space, reason phrase or placeholder) is the HTTP library's and is
/// named here, not restated.
#[verifier::external_body]
pub fn status_text(code: u16) -> (r: String)
    requires
        valid_status(code),
    ensures
        r@ == status_line(code),
{
    match reqwest::StatusCode::from_u16(code) {
        Ok(s) => s.to_string(),
        Err(_) => String::new(),
    }
}

/// Whether a status code reports success (the 2xx class).
pub open spec fn is_success_status(code: u16) -> bool {
    200 <= code < 300
}

/// Whether a status code reports a client or server error (4xx or 5xx).
pub open spec fn is_error_status(code: u16) -> bool {
    400 <= code < 600
}

/// A character that can stand in a header value: any character from the
/// space on except DEL, or a tab.
pub open spec fn header_char_ok(c: char) -> bool {
    (c as u32 >= 32 && c as u32 != 127) || c as u32 == 9
}

/// Whether every character of `s` can stand in a header value.
pub open spec fn header_value_ok(s: Seq<char>) -> bool {
    forall|i: int| 0 <= i < s.len() ==> header_char_ok(#[trigger] s[i])
}

/// Whether `reqwest::header::HeaderValue::from_str` accepts `s`. It
/// accepts exactly the strings whose bytes are all at least 32 and not 127,
/// or tabs; the bytes of a non-ASCII character are all at least 128.
#[verifier::external_body]
pub fn is_valid_header_value(s: &str) -> (r: bool)
    ensures
        r == header_value_ok(s@),
{
    reqwest::header::HeaderValue::from_str(s).is_ok()
}

} // verus!
