use media_proxy::errors::ProxyError;
use media_proxy::handler::cache_control_value;
use media_proxy::handler::classify_upstream;
use media_proxy::handler::is_html_content_type;
use media_proxy::handler::scheme_allowed;
use media_proxy::handler::validate_target;
use media_proxy::handler::UpstreamDecision;

#[test]
fn rejects_non_base64() {
    let r = validate_target("!!!not base64!!!");
    assert_eq!(r, Err(ProxyError::InvalidBase64));
    let e = r.unwrap_err();
    assert_eq!(e.status_code(), 400);
    assert_eq!(e.message(), "Invalid base64 in URL");
}

#[test]
fn rejects_invalid_utf8_payload() {
    // base64 of the bytes ff fe fd, which are not valid UTF-8
    let r = validate_target("//79");
    assert_eq!(r, Err(ProxyError::InvalidUtf8));
    let e = r.unwrap_err();
    assert_eq!(e.status_code(), 400);
    assert_eq!(e.message(), "Invalid UTF-8 in URL");
}

#[test]
fn rejects_unparsable_url() {
    // base64 of "not a url"
    let r = validate_target("bm90IGEgdXJs");
    assert_eq!(r, Err(ProxyError::InvalidUrl));
    let e = r.unwrap_err();
    assert_eq!(e.status_code(), 400);
    assert_eq!(e.message(), "Invalid URL");
}

#[test]
fn rejects_empty_payload() {
    // "" is well-formed base64 for the empty byte string, which is empty
    // UTF-8 text and no URL at all
    let r = validate_target("");
    assert_eq!(r, Err(ProxyError::InvalidUrl));
}

#[test]
fn rejects_disallowed_scheme() {
    // base64 of "ftp://example.com/file"
    let r = validate_target("ZnRwOi8vZXhhbXBsZS5jb20vZmlsZQ==");
    assert_eq!(r, Err(ProxyError::SchemeNotAllowed));
    let e = r.unwrap_err();
    assert_eq!(e.status_code(), 400);
    assert_eq!(e.message(), "Only http/https allowed");
}

#[test]
fn rejects_url_without_host() {
    // base64 of "http://": either no parse or no domain, and both answer 400
    let r = validate_target("aHR0cDovLw==");
    let e = r.unwrap_err();
    assert!(e == ProxyError::InvalidUrl || e == ProxyError::MissingDomain);
    assert_eq!(e.status_code(), 400);
}

#[test]
fn rejects_ip_host_as_missing_domain() {
    // base64 of "http://127.0.0.1/": parses, but the host is no domain name
    let r = validate_target("aHR0cDovLzEyNy4wLjAuMS8=");
    assert_eq!(r, Err(ProxyError::MissingDomain));
    let e = r.unwrap_err();
    assert_eq!(e.status_code(), 400);
    assert_eq!(e.message(), "Missing or invalid domain");
}

#[test]
fn accepts_http_url() {
    // base64 of "http://example.com/a.png"
    let r = validate_target("aHR0cDovL2V4YW1wbGUuY29tL2EucG5n");
    assert_eq!(r, Ok("http://example.com/a.png".to_owned()));
}

#[test]
fn accepts_https_url_with_mixed_case_scheme() {
    // base64 of "HTTPS://Example.COM/x": the parser normalizes the scheme,
    // so the allow-list sees "https"
    let r = validate_target("SFRUUFM6Ly9FeGFtcGxlLkNPTS94");
    assert!(r.is_ok());
}

#[test]
fn forwards_media_content_type() {
    let d = classify_upstream(200, Some("image/png".to_owned()));
    match d {
        UpstreamDecision::Forward { content_type } => {
            assert_eq!(content_type, "image/png");
        },
        UpstreamDecision::Reject(_) => panic!("media response must be forwarded"),
    }
    assert_eq!(cache_control_value(), "public, max-age=31536000");
}

#[test]
fn defaults_missing_content_type_to_octet_stream() {
    let d = classify_upstream(200, None);
    match d {
        UpstreamDecision::Forward { content_type } => {
            assert_eq!(content_type, "application/octet-stream");
        },
        UpstreamDecision::Reject(_) => panic!("default content type must be forwarded"),
    }
}

#[test]
fn refuses_html_content() {
    let d = classify_upstream(200, Some("text/html; charset=utf-8".to_owned()));
    match d {
        UpstreamDecision::Reject(e) => {
            assert_eq!(e, ProxyError::HtmlRefused);
            assert_eq!(e.status_code(), 403);
            assert_eq!(e.message(), "This is a media-based proxy only!");
        },
        UpstreamDecision::Forward { .. } => panic!("html must be refused"),
    }
}

#[test]
fn refuses_bare_html_content_type() {
    let d = classify_upstream(200, Some("text/html".to_owned()));
    assert!(matches!(d, UpstreamDecision::Reject(ProxyError::HtmlRefused)));
}

#[test]
fn forwards_near_html_prefixes() {
    // shorter than the html prefix, and case differs: both are forwarded
    for ct in ["text/htm", "Text/html", "text/HTML"] {
        let d = classify_upstream(200, Some(ct.to_owned()));
        assert!(matches!(d, UpstreamDecision::Forward { .. }), "{ct} must be forwarded");
    }
}

#[test]
fn refuses_non_success_status() {
    let d = classify_upstream(404, Some("image/png".to_owned()));
    match d {
        UpstreamDecision::Reject(e) => {
            assert_eq!(e, ProxyError::UpstreamStatus);
            assert_eq!(e.status_code(), 502);
            assert_eq!(e.message(), "Upstream returned error");
        },
        UpstreamDecision::Forward { .. } => panic!("404 must be refused"),
    }
}

#[test]
fn success_range_bounds() {
    assert!(matches!(
        classify_upstream(200, Some("image/gif".to_owned())),
        UpstreamDecision::Forward { .. }
    ));
    assert!(matches!(
        classify_upstream(299, Some("image/gif".to_owned())),
        UpstreamDecision::Forward { .. }
    ));
    assert!(matches!(
        classify_upstream(199, Some("image/gif".to_owned())),
        UpstreamDecision::Reject(ProxyError::UpstreamStatus)
    ));
    assert!(matches!(
        classify_upstream(300, Some("image/gif".to_owned())),
        UpstreamDecision::Reject(ProxyError::UpstreamStatus)
    ));
}

#[test]
fn fetch_failure_maps_to_bad_gateway() {
    let e = ProxyError::FetchFailed;
    assert_eq!(e.status_code(), 502);
    assert_eq!(e.message(), "Failed to fetch upstream");
}

#[test]
fn identical_requests_decide_identically() {
    let a = validate_target("aHR0cDovL2V4YW1wbGUuY29tL2EucG5n");
    let b = validate_target("aHR0cDovL2V4YW1wbGUuY29tL2EucG5n");
    assert_eq!(a, b);
    let da = classify_upstream(200, Some("image/png".to_owned()));
    let db = classify_upstream(200, Some("image/png".to_owned()));
    match (da, db) {
        (
            UpstreamDecision::Forward { content_type: ca },
            UpstreamDecision::Forward { content_type: cb },
        ) => assert_eq!(ca, cb),
        _ => panic!("identical upstream responses must decide identically"),
    }
}

#[test]
fn scheme_allow_list_is_exact() {
    assert!(scheme_allowed("http"));
    assert!(scheme_allowed("https"));
    assert!(!scheme_allowed("ftp"));
    assert!(!scheme_allowed("httpx"));
    assert!(!scheme_allowed(""));
    assert!(!scheme_allowed("HTTP"));
}

#[test]
fn html_prefix_check_is_exact() {
    assert!(is_html_content_type("text/html"));
    assert!(is_html_content_type("text/html; charset=utf-8"));
    assert!(!is_html_content_type("text/plain"));
    assert!(!is_html_content_type("image/png"));
    assert!(!is_html_content_type(""));
    assert!(!is_html_content_type("text/htm"));
}
