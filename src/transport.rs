use vstd::prelude::*;

verus! {

/// An HTTP status in the 2xx range.
pub open spec fn is_success_code(code: u16) -> bool {
    200 <= code <= 299
}

/// Whether a provider reply with this status carries data.
pub fn is_success_status(code: u16) -> (r: bool)
    ensures
        r == is_success_code(code),
{
    200 <= code && code <= 299
}

/// Longest part of a reply body quoted in a parse error, in characters.
pub const SNIPPET_CHARS: usize = 200;

/// The first `max` characters of `s` (all of it when shorter).
pub open spec fn prefix_of(s: Seq<char>, max: nat) -> Seq<char> {
    if s.len() <= max {
        s
    } else {
        s.subrange(0, max as int)
    }
}

/// The error for a provider reply outside 2xx; `status` is the status as
/// text (code and reason).
pub open spec fn api_error_text(status: Seq<char>) -> Seq<char> {
    "OpenMeteo API error: "@ + status
}

/// The error for a geocoding reply outside 2xx, quoting its body, or saying
/// that the body could not be read.
pub open spec fn geocoding_error_text(status: Seq<char>, body: Option<Seq<char>>) -> Seq<char> {
    "OpenMeteo Geocoding API error: "@ + status + ". Body: "@ + match body {
        Some(b) => b,
        None => "Failed to read error body"@,
    }
}

/// The error for a geocoding body that is not JSON, quoting its start.
pub open spec fn geocoding_parse_error_text(reason: Seq<char>, body: Seq<char>) -> Seq<char> {
    "Failed to parse Geocoding API JSON response: "@ + reason + ". Response text snippet: "@
        + prefix_of(body, SNIPPET_CHARS as nat)
}

/// Builds the error for a provider reply outside 2xx.
pub fn api_error_message(status: &str) -> (r: String)
    ensures
        r@ == api_error_text(status@),
{
    String::from_str("OpenMeteo API error: ").concat(status)
}

/// Builds the error for a geocoding reply outside 2xx; `body` is `None` when
/// the body could not be read.
pub fn geocoding_error_message(status: &str, body: Option<&str>) -> (r: String)
    ensures
        r@ == geocoding_error_text(
            status@,
            match body {
                Some(b) => Some(b@),
                None => None,
            },
        ),
{
    let head = String::from_str("OpenMeteo Geocoding API error: ").concat(status).concat(". Body: ");
    match body {
        Some(b) => head.concat(b),
        None => head.concat("Failed to read error body"),
    }
}

/// The first `max` characters of `s`.
pub fn snippet(s: &str, max: usize) -> (r: String)
    ensures
        r@ == prefix_of(s@, max as nat),
{
    let len = s.unicode_len();
    if len <= max {
        String::from_str(s)
    } else {
        String::from_str(s.substring_char(0, max))
    }
}

/// Builds the error for a geocoding body that is not JSON.
pub fn geocoding_parse_error_message(reason: &str, body: &str) -> (r: String)
    ensures
        r@ == geocoding_parse_error_text(reason@, body@),
{
    let quoted = snippet(body, SNIPPET_CHARS);
    String::from_str("Failed to parse Geocoding API JSON response: ").concat(reason).concat(
        ". Response text snippet: ",
    ).concat(quoted.as_str())
}

} // verus!
