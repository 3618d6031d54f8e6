use fetch_gateway::error::GatewayError;
use fetch_gateway::exchange::begin;
use fetch_gateway::policy::{validate, AllowPolicy};
use fetch_gateway::target::ParsedUrl;

fn parts(scheme: &str, host: Option<&str>, href: &str) -> ParsedUrl {
    ParsedUrl {
        scheme: scheme.to_string(),
        host: host.map(str::to_string),
        href: href.to_string(),
    }
}

#[test]
fn text_that_is_no_url_is_invalid() {
    let outcome = validate("not a url");
    assert_eq!(
        outcome,
        Err(GatewayError::InvalidUrl { detail: "relative URL without a base".to_string() })
    );
}

#[test]
fn empty_text_is_invalid() {
    assert!(matches!(validate(""), Err(GatewayError::InvalidUrl { .. })));
}

#[test]
fn https_without_host_is_invalid() {
    assert_eq!(
        validate("https://"),
        Err(GatewayError::InvalidUrl { detail: "empty host".to_string() })
    );
}

#[test]
fn bad_port_is_invalid() {
    assert_eq!(
        validate("https://poe.ninja:99999/x"),
        Err(GatewayError::InvalidUrl { detail: "invalid port number".to_string() })
    );
}

#[test]
fn plain_http_to_the_allowed_host_is_rejected_for_its_scheme() {
    assert_eq!(validate("http://poe.ninja/x"), Err(GatewayError::SchemeNotAllowed));
}

#[test]
fn scheme_is_checked_before_host() {
    assert_eq!(validate("ftp://evil.example/x"), Err(GatewayError::SchemeNotAllowed));
}

#[test]
fn url_without_authority_is_rejected_for_its_scheme() {
    assert_eq!(validate("data:text/plain,hello"), Err(GatewayError::SchemeNotAllowed));
    assert_eq!(validate("mailto:someone@poe.ninja"), Err(GatewayError::SchemeNotAllowed));
}

#[test]
fn https_to_another_host_is_rejected_for_its_host() {
    assert_eq!(validate("https://evil.example/x"), Err(GatewayError::HostNotAllowed));
}

#[test]
fn subdomains_and_lookalikes_do_not_match() {
    assert_eq!(validate("https://www.poe.ninja/"), Err(GatewayError::HostNotAllowed));
    assert_eq!(validate("https://poe.ninja.evil.example/"), Err(GatewayError::HostNotAllowed));
    assert_eq!(validate("https://poe.ninja./"), Err(GatewayError::HostNotAllowed));
    assert_eq!(validate("https://evil.example/poe.ninja"), Err(GatewayError::HostNotAllowed));
    assert_eq!(validate("https://poe.ninja@evil.example/"), Err(GatewayError::HostNotAllowed));
}

#[test]
fn allowed_target_passes_with_its_parts() {
    let url = validate("https://poe.ninja/api/data?league=Standard").unwrap();
    assert_eq!(url.scheme, "https");
    assert_eq!(url.host.as_deref(), Some("poe.ninja"));
    assert_eq!(url.href, "https://poe.ninja/api/data?league=Standard");
}

#[test]
fn parser_normalises_case_before_the_checks() {
    let url = validate("HTTPS://POE.NINJA/x").unwrap();
    assert_eq!(url.scheme, "https");
    assert_eq!(url.host.as_deref(), Some("poe.ninja"));
    assert_eq!(url.href, "https://poe.ninja/x");
}

#[test]
fn parser_completes_the_path() {
    let url = validate("https://poe.ninja").unwrap();
    assert_eq!(url.href, "https://poe.ninja/");
}

#[test]
fn port_and_credentials_do_not_change_the_host() {
    assert_eq!(validate("https://poe.ninja:8443/x").unwrap().host.as_deref(), Some("poe.ninja"));
    assert_eq!(validate("https://user:pw@poe.ninja/x").unwrap().host.as_deref(), Some("poe.ninja"));
}

#[test]
fn screen_keeps_the_parse_error_text() {
    let policy = AllowPolicy::fixed();
    assert_eq!(
        policy.screen(Err("empty host".to_string())),
        Err(GatewayError::InvalidUrl { detail: "empty host".to_string() })
    );
}

#[test]
fn screen_rejects_other_schemes() {
    let policy = AllowPolicy::fixed();
    let url = parts("http", Some("poe.ninja"), "http://poe.ninja/x");
    assert_eq!(policy.screen(Ok(url)), Err(GatewayError::SchemeNotAllowed));
    let url = parts("HTTPS", Some("poe.ninja"), "HTTPS://poe.ninja/x");
    assert_eq!(policy.screen(Ok(url)), Err(GatewayError::SchemeNotAllowed));
    let url = parts("", Some("poe.ninja"), "//poe.ninja/x");
    assert_eq!(policy.screen(Ok(url)), Err(GatewayError::SchemeNotAllowed));
}

#[test]
fn screen_rejects_absent_empty_and_other_hosts() {
    let policy = AllowPolicy::fixed();
    let url = parts("https", None, "https:/x");
    assert_eq!(policy.screen(Ok(url)), Err(GatewayError::HostNotAllowed));
    let url = parts("https", Some(""), "https:///x");
    assert_eq!(policy.screen(Ok(url)), Err(GatewayError::HostNotAllowed));
    let url = parts("https", Some("POE.NINJA"), "https://POE.NINJA/x");
    assert_eq!(policy.screen(Ok(url)), Err(GatewayError::HostNotAllowed));
    let url = parts("https", Some("poe.ninj"), "https://poe.ninj/x");
    assert_eq!(policy.screen(Ok(url)), Err(GatewayError::HostNotAllowed));
}

#[test]
fn screen_hands_back_what_passes() {
    let policy = AllowPolicy::fixed();
    let url = parts("https", Some("poe.ninja"), "https://poe.ninja/x");
    assert_eq!(policy.screen(Ok(url)), Ok(parts("https", Some("poe.ninja"), "https://poe.ninja/x")));
}

#[test]
fn policy_matches_exactly() {
    let policy = AllowPolicy::fixed();
    assert!(policy.permits_scheme("https"));
    assert!(!policy.permits_scheme("http"));
    assert!(!policy.permits_scheme("HTTPS"));
    assert!(!policy.permits_scheme("https:"));
    assert!(!policy.permits_scheme(""));
    assert!(policy.permits_host("poe.ninja"));
    assert!(!policy.permits_host(""));
    assert!(!policy.permits_host("Poe.Ninja"));
    assert!(!policy.permits_host("api.poe.ninja"));
    assert!(!policy.permits_host("poe.ninja "));
}

#[test]
fn begin_describes_a_request_only_for_a_screened_url() {
    assert!(matches!(begin("not a url"), Err(GatewayError::InvalidUrl { .. })));
    assert!(matches!(begin("http://poe.ninja/x"), Err(GatewayError::SchemeNotAllowed)));
    assert!(matches!(begin("https://evil.example/x"), Err(GatewayError::HostNotAllowed)));
    let waiting = match begin("https://poe.ninja/x") {
        Ok(waiting) => waiting,
        Err(error) => panic!("rejected: {}", error.message()),
    };
    assert_eq!(waiting.target().scheme, "https");
    assert_eq!(waiting.target().host.as_deref(), Some("poe.ninja"));
    let request = waiting.request();
    assert_eq!(request.url, "https://poe.ninja/x");
    assert_eq!(request.accept, "application/json");
}
