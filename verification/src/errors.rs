//! The proxy's failure taxonomy: each refusal the request pipeline can hit,
//! with the exact HTTP status code and plain-text body it answers with.

use vstd::prelude::*;

verus! {

/// One variant per way the proxy refuses a request.
///
/// Client-input failures answer 400, upstream failures 502, and the
/// content policy answers 403.
#[derive(Clone, Copy, Debug, PartialEq, Eq, Structural)]
pub enum ProxyError {
    /// The `url` query parameter is not valid standard base64.
    InvalidBase64,
    /// The decoded bytes are not valid UTF-8.
    InvalidUtf8,
    /// The decoded text does not parse as an absolute URL.
    InvalidUrl,
    /// The URL parsed but has no resolvable domain name.
    MissingDomain,
    /// The URL's scheme is neither `http` nor `https`.
    SchemeNotAllowed,
    /// The outbound fetch failed before any upstream response arrived.
    FetchFailed,
    /// The upstream answered with a status outside the success range.
    UpstreamStatus,
    /// The upstream content is HTML, which this media proxy refuses.
    HtmlRefused,
}

impl ProxyError {
    /// The HTTP status code of the response that reports this failure.
    pub open spec fn spec_status_code(self) -> u16 {
        match self {
            ProxyError::InvalidBase64 => 400,
            ProxyError::InvalidUtf8 => 400,
            ProxyError::InvalidUrl => 400,
            ProxyError::MissingDomain => 400,
            ProxyError::SchemeNotAllowed => 400,
            ProxyError::FetchFailed => 502,
            ProxyError::UpstreamStatus => 502,
            ProxyError::HtmlRefused => 403,
        }
    }

    /// The plain-text body of the response that reports this failure.
    pub open spec fn spec_message(self) -> Seq<char> {
        match self {
            ProxyError::InvalidBase64 => "Invalid base64 in URL"@,
            ProxyError::InvalidUtf8 => "Invalid UTF-8 in URL"@,
            ProxyError::InvalidUrl => "Invalid URL"@,
            ProxyError::MissingDomain => "Missing or invalid domain"@,
            ProxyError::SchemeNotAllowed => "Only http/https allowed"@,
            ProxyError::FetchFailed => "Failed to fetch upstream"@,
            ProxyError::UpstreamStatus => "Upstream returned error"@,
            ProxyError::HtmlRefused => "This is a media-based proxy only!"@,
        }
    }

    pub fn status_code(&self) -> (r: u16)
        ensures
            r == self.spec_status_code(),
    {
        match self {
            ProxyError::InvalidBase64 => 400,
            ProxyError::InvalidUtf8 => 400,
            ProxyError::InvalidUrl => 400,
            ProxyError::MissingDomain => 400,
            ProxyError::SchemeNotAllowed => 400,
            ProxyError::FetchFailed => 502,
            ProxyError::UpstreamStatus => 502,
            ProxyError::HtmlRefused => 403,
        }
    }

    pub fn message(&self) -> (r: String)
        ensures
            r@ == self.spec_message(),
    {
        match self {
            ProxyError::InvalidBase64 => "Invalid base64 in URL".to_owned(),
            ProxyError::InvalidUtf8 => "Invalid UTF-8 in URL".to_owned(),
            ProxyError::InvalidUrl => "Invalid URL".to_owned(),
            ProxyError::MissingDomain => "Missing or invalid domain".to_owned(),
            ProxyError::SchemeNotAllowed => "Only http/https allowed".to_owned(),
            ProxyError::FetchFailed => "Failed to fetch upstream".to_owned(),
            ProxyError::UpstreamStatus => "Upstream returned error".to_owned(),
            ProxyError::HtmlRefused => "This is a media-based proxy only!".to_owned(),
        }
    }
}

} // verus!
