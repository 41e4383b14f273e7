//! The request pipeline's decisions: validating the client-supplied URL
//! before the fetch, and gating the upstream response after it.

use vstd::prelude::*;

use crate::codec::base64_decode;
use crate::codec::bytes_to_string;
use crate::codec::parse_url;
use crate::codec::b64_standard_decode;
use crate::codec::utf8_decode;
use crate::codec::url_parse;
use crate::codec::opt_string_view;
use crate::errors::ProxyError;
use vstd::string::StrSliceExecFns;

verus! {

/// Whether a parsed scheme is on the proxy's allow-list.
pub open spec fn spec_scheme_allowed(scheme: Seq<char>) -> bool {
    scheme == "http"@ || scheme == "https"@
}

/// What validation makes of the raw `url` query parameter: the decoded
/// target URL to fetch, or the exact refusal. The steps run in order:
/// base64, UTF-8, URL parse, domain presence, scheme allow-list.
pub open spec fn spec_validate(s: Seq<char>) -> Result<Seq<char>, ProxyError> {
    match b64_standard_decode(s) {
        None => Err(ProxyError::InvalidBase64),
        Some(bytes) => match utf8_decode(bytes) {
            None => Err(ProxyError::InvalidUtf8),
            Some(text) => match url_parse(text) {
                None => Err(ProxyError::InvalidUrl),
                Some(parts) => if parts.1 is None {
                    Err(ProxyError::MissingDomain)
                } else if spec_scheme_allowed(parts.0) {
                    Ok(text)
                } else {
                    Err(ProxyError::SchemeNotAllowed)
                },
            },
        },
    }
}

/// Decode and validate the raw `url` query parameter.
///
/// On success the returned string is the decoded target URL, ready to
/// fetch; on failure the error says exactly which step refused, and so
/// which status and body the client sees.
pub fn validate_target(raw: &str) -> (r: Result<String, ProxyError>)
    ensures
        match r {
            Ok(u) => spec_validate(raw@) == Ok::<Seq<char>, ProxyError>(u@),
            Err(e) => spec_validate(raw@) == Err::<Seq<char>, ProxyError>(e),
        },
{
    let bytes = match base64_decode(raw) {
        Some(b) => b,
        None => {
            return Err(ProxyError::InvalidBase64);
        },
    };
    let text = match bytes_to_string(bytes) {
        Some(t) => t,
        None => {
            return Err(ProxyError::InvalidUtf8);
        },
    };
    let parts = match parse_url(text.as_str()) {
        Some(p) => p,
        None => {
            return Err(ProxyError::InvalidUrl);
        },
    };
    if parts.1.is_none() {
        return Err(ProxyError::MissingDomain);
    }
    let scheme_ok = scheme_allowed(parts.0.as_str());
    if scheme_ok {
        Ok(text)
    } else {
        Err(ProxyError::SchemeNotAllowed)
    }
}

/// Whether the scheme is exactly `http` or `https`.
pub fn scheme_allowed(scheme: &str) -> (r: bool)
    ensures
        r == spec_scheme_allowed(scheme@),
{
    let http: String = "http".to_owned();
    let https: String = "https".to_owned();
    let s: String = scheme.to_owned();
    s == http || s == https
}

/// The content type a response is taken to carry: the upstream header when
/// one arrived and read as text, otherwise the octet-stream default.
pub open spec fn spec_effective_content_type(ct: Option<Seq<char>>) -> Seq<char> {
    match ct {
        Some(s) => s,
        None => "application/octet-stream"@,
    }
}

/// Whether a content type is HTML: it starts with the exact prefix
/// `text/html` (case-sensitive).
pub open spec fn spec_is_html(ct: Seq<char>) -> bool {
    ct.len() >= 9 && ct.subrange(0, 9) == "text/html"@
}

/// Whether the string starts with the exact prefix `text/html`.
pub fn is_html_content_type(ct: &str) -> (r: bool)
    ensures
        r == spec_is_html(ct@),
{
    proof {
        reveal_strlit("text/html");
    }
    let pat: &str = "text/html";
    let n: usize = ct.unicode_len();
    if n < 9 {
        return false;
    }
    let mut i: usize = 0;
    while i < 9
        invariant
            0 <= i <= 9,
            9 <= ct@.len(),
            pat@ == "text/html"@,
            pat@.len() == 9,
            forall|j: int| 0 <= j < i ==> ct@[j] == pat@[j],
        decreases 9 - i,
    {
        if ct.get_char(i) != pat.get_char(i) {
            assert(ct@.subrange(0, 9) != "text/html"@) by {
                assert(ct@.subrange(0, 9)[i as int] != "text/html"@[i as int]);
            }
            return false;
        }
        i += 1;
    }
    assert(ct@.subrange(0, 9) =~= "text/html"@);
    true
}

/// What the proxy does with an upstream response, decided from its status
/// code and its `Content-Type` header.
pub enum UpstreamDecision {
    /// Refuse, answering with the error's status and message.
    Reject(ProxyError),
    /// Relay the body, answering 200 with this content type and the
    /// long-lived cache header.
    Forward { content_type: String },
}

/// What the upstream gate decides: non-success statuses are refused as an
/// upstream error, HTML content is refused by policy, and anything else is
/// forwarded under the effective content type.
pub open spec fn spec_upstream_decision(status: u16, ct: Option<Seq<char>>) -> Result<
    Seq<char>,
    ProxyError,
> {
    if !(200 <= status < 300) {
        Err(ProxyError::UpstreamStatus)
    } else if spec_is_html(spec_effective_content_type(ct)) {
        Err(ProxyError::HtmlRefused)
    } else {
        Ok(spec_effective_content_type(ct))
    }
}

/// Gate an upstream response on its status and content type.
///
/// `content_type` is the upstream `Content-Type` header read as text, or
/// `None` when absent or unreadable.
pub fn classify_upstream(status: u16, content_type: Option<String>) -> (r: UpstreamDecision)
    ensures
        match r {
            UpstreamDecision::Reject(e) => spec_upstream_decision(
                status,
                opt_string_view(content_type),
            ) == Err::<Seq<char>, ProxyError>(e),
            UpstreamDecision::Forward { content_type: ct } => spec_upstream_decision(
                status,
                opt_string_view(content_type),
            ) == Ok::<Seq<char>, ProxyError>(ct@),
        },
{
    if status < 200 || status >= 300 {
        return UpstreamDecision::Reject(ProxyError::UpstreamStatus);
    }
    let ct: String = match content_type {
        Some(s) => s,
        None => "application/octet-stream".to_owned(),
    };
    if is_html_content_type(ct.as_str()) {
        UpstreamDecision::Reject(ProxyError::HtmlRefused)
    } else {
        UpstreamDecision::Forward { content_type: ct }
    }
}

/// The fixed caching header every forwarded response carries.
pub fn cache_control_value() -> (r: String)
    ensures
        r@ == "public, max-age=31536000"@,
{
    "public, max-age=31536000".to_owned()
}

/// A `url` parameter that is not well-formed base64 is refused with
/// status 400 and the body `Invalid base64 in URL`, whatever else it
/// holds.
pub proof fn lemma_bad_base64_rejected(raw: Seq<char>)
    requires
        b64_standard_decode(raw) is None,
    ensures
        spec_validate(raw) == Err::<Seq<char>, ProxyError>(ProxyError::InvalidBase64),
        ProxyError::InvalidBase64.spec_status_code() == 400,
        ProxyError::InvalidBase64.spec_message() == "Invalid base64 in URL"@,
{
}

/// A `url` parameter whose base64 payload is not valid UTF-8 is refused
/// with status 400 and the body `Invalid UTF-8 in URL`.
pub proof fn lemma_bad_utf8_rejected(raw: Seq<char>, bytes: Seq<u8>)
    requires
        b64_standard_decode(raw) == Some(bytes),
        utf8_decode(bytes) is None,
    ensures
        spec_validate(raw) == Err::<Seq<char>, ProxyError>(ProxyError::InvalidUtf8),
        ProxyError::InvalidUtf8.spec_status_code() == 400,
        ProxyError::InvalidUtf8.spec_message() == "Invalid UTF-8 in URL"@,
{
}

/// A `url` parameter whose decoded text does not parse as an absolute URL
/// is refused with status 400 and the body `Invalid URL`.
pub proof fn lemma_bad_url_rejected(raw: Seq<char>, bytes: Seq<u8>, text: Seq<char>)
    requires
        b64_standard_decode(raw) == Some(bytes),
        utf8_decode(bytes) == Some(text),
        url_parse(text) is None,
    ensures
        spec_validate(raw) == Err::<Seq<char>, ProxyError>(ProxyError::InvalidUrl),
        ProxyError::InvalidUrl.spec_status_code() == 400,
        ProxyError::InvalidUrl.spec_message() == "Invalid URL"@,
{
}

/// The proxy keeps no state of its own: both decisions — validating the
/// `url` parameter and gating the upstream response — are functions of
/// their inputs alone, so repeating an identical request against an
/// unchanged upstream repeats the identical decision.
pub proof fn lemma_identical_request_identical_decision(
    raw1: Seq<char>,
    raw2: Seq<char>,
    status1: u16,
    status2: u16,
    ct1: Option<Seq<char>>,
    ct2: Option<Seq<char>>,
)
    requires
        raw1 == raw2,
        status1 == status2,
        ct1 == ct2,
    ensures
        spec_validate(raw1) == spec_validate(raw2),
        spec_upstream_decision(status1, ct1) == spec_upstream_decision(status2, ct2),
{
}

} // verus!
