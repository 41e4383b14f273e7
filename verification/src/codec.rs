//! The three outside decoding steps the pipeline leans on: base64, UTF-8
//! and URL parsing. Each is deterministic — a function of its input text
//! alone — so each result is given a name that the pipeline's contracts
//! speak of exactly.

use vstd::prelude::*;

verus! {

/// What base64's standard engine (padded, non-URL-safe alphabet) decodes a
/// string to: `Some(bytes)` on well-formed input, `None` otherwise.
pub uninterp spec fn b64_standard_decode(s: Seq<char>) -> Option<Seq<u8>>;

/// What UTF-8 decoding makes of a byte sequence: `Some(text)` when the
/// bytes are valid UTF-8, `None` otherwise.
pub uninterp spec fn utf8_decode(b: Seq<u8>) -> Option<Seq<char>>;

/// What URL parsing makes of a piece of text: `None` when it is not an
/// absolute URL, otherwise `Some((scheme, domain))` — the (normalized)
/// scheme, and the host's domain name when the host is a domain name
/// (`None` for a missing host or a bare IP address).
pub uninterp spec fn url_parse(s: Seq<char>) -> Option<(Seq<char>, Option<Seq<char>>)>;

/// The view of an optional owned string.
pub open spec fn opt_string_view(o: Option<String>) -> Option<Seq<char>> {
    match o {
        Some(s) => Some(s@),
        None => None,
    }
}

/// Relies on base64's `Engine::decode` with the `STANDARD` engine: the
/// result depends on the input characters alone, succeeding exactly on
/// well-formed padded base64.
#[verifier::external_body]
pub fn base64_decode(s: &str) -> (r: Option<Vec<u8>>)
    ensures
        match r {
            Some(b) => b64_standard_decode(s@) == Some(b@),
            None => b64_standard_decode(s@) is None,
        },
{
    base64::Engine::decode(&base64::engine::general_purpose::STANDARD, s).ok()
}

/// Relies on `String::from_utf8`: it succeeds exactly on valid UTF-8, and
/// the resulting text depends on the bytes alone.
#[verifier::external_body]
pub fn bytes_to_string(b: Vec<u8>) -> (r: Option<String>)
    ensures
        match r {
            Some(s) => utf8_decode(b@) == Some(s@),
            None => utf8_decode(b@) is None,
        },
{
    String::from_utf8(b).ok()
}

/// Relies on `url::Url::parse`, `Url::scheme` and `Url::domain`: parsing
/// succeeds exactly on absolute URLs and depends on the text alone;
/// `scheme` is the parsed (lowercased) scheme and `domain` is the host's
/// domain name, absent when the host is missing or an IP address.
#[verifier::external_body]
pub fn parse_url(s: &str) -> (r: Option<(String, Option<String>)>)
    ensures
        match r {
            Some(p) => url_parse(s@) == Some((p.0@, opt_string_view(p.1))),
            None => url_parse(s@) is None,
        },
{
    match url::Url::parse(s) {
        Ok(u) => Some((u.scheme().to_owned(), u.domain().map(|d| d.to_owned()))),
        Err(_) => None,
    }
}

} // verus!
