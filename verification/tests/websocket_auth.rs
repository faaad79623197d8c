//! The upgrade decisions, driven with a session validator that accepts the
//! cookie `access_token=valid-session` (identity `session-user`) and the
//! bearer token `valid-bearer` (identity `bearer-user`).

use plexus_transport::config::ApiKeyHeader;
use plexus_transport::websocket::{
    strip_bearer, unauthorized, Admission, AuthAction, AuthFlow, AuthSettings, RejectReason,
    UpgradeHeaders,
};

const K: &str = "test-api-key";

/// The identity the fixture validator produces for an input, if any.
fn validate(input: &str) -> Option<&'static str> {
    let token = if let Some(rest) = input.strip_prefix("access_token=") {
        rest.split(';').next().unwrap_or(rest).trim()
    } else if input.contains("access_token=") {
        input
            .split(';')
            .map(str::trim)
            .find_map(|p| p.strip_prefix("access_token="))
            .unwrap_or(input)
    } else {
        input.trim()
    };
    match token {
        "valid-session" => Some("session-user"),
        "valid-bearer" => Some("bearer-user"),
        _ => None,
    }
}

#[derive(Debug, PartialEq)]
enum Result401 {
    /// 401 with this body.
    Refused(String),
    /// The inner service was called, with this identity if any.
    Passed(Option<&'static str>),
}

struct Run {
    result: Result401,
    asked: Vec<String>,
    admission: Admission,
}

fn run(api_key: Option<&str>, validator: bool, strict: bool, headers: UpgradeHeaders) -> Run {
    let settings = AuthSettings {
        api_key: api_key.map(|k| k.to_string()),
        has_session_validator: validator,
        reject_on_session_failure: strict,
    };
    let (mut flow, mut action) = AuthFlow::start(&settings, &headers);
    let mut asked = Vec::new();
    let mut identity = None;
    loop {
        match action {
            AuthAction::Validate(input) => {
                assert!(validator, "no validator configured, yet asked to validate");
                identity = validate(&input);
                asked.push(input);
                action = flow.on_validated(identity.is_some());
            }
            AuthAction::Reject(r) => {
                let resp = unauthorized(r);
                assert_eq!(resp.status, 401);
                assert_eq!(resp.www_authenticate, "Bearer realm=\"plexus\"");
                assert_eq!(resp.content_type, "text/plain");
                return Run {
                    result: Result401::Refused(resp.body.to_string()),
                    asked,
                    admission: flow.admission(),
                };
            }
            AuthAction::Forward => {
                return Run { result: Result401::Passed(None), asked, admission: flow.admission() }
            }
            AuthAction::ForwardWithContext => {
                return Run {
                    result: Result401::Passed(Some(identity.expect("an identity"))),
                    asked,
                    admission: flow.admission(),
                }
            }
        }
    }
}

fn headers(api_key_header: Option<&str>, authorization: Option<&str>, cookie: Option<&str>) -> UpgradeHeaders {
    UpgradeHeaders {
        api_key_header: api_key_header.map(str::to_string),
        authorization: authorization.map(str::to_string),
        cookie: cookie.map(str::to_string),
    }
}

fn refused_with(r: &Run, text: &str) -> bool {
    matches!(&r.result, Result401::Refused(body) if body.contains(text))
}

#[test]
fn ac1_api_key_configured_header_missing_rejects_401() {
    let r = run(Some(K), false, false, headers(None, None, None));
    assert!(refused_with(&r, "api key required"));
    assert_eq!(r.admission, Admission::Rejected(RejectReason::ApiKeyRequired));
}

#[test]
fn ac2_api_key_configured_wrong_value_rejects_401() {
    let r = run(Some(K), false, false, headers(Some("wrong"), None, None));
    assert!(refused_with(&r, "api key invalid"));
}

#[test]
fn ac3_api_key_correct_no_validator_passes_with_no_auth_context() {
    let r = run(Some(K), false, false, headers(Some(K), None, None));
    assert_eq!(r.result, Result401::Passed(None));
    assert_eq!(r.admission, Admission::KeyMatched);
}

#[test]
fn ac4_no_api_key_valid_bearer_passes_with_bearer_auth_context() {
    let r = run(None, true, false, headers(None, Some("Bearer valid-bearer"), None));
    assert_eq!(r.result, Result401::Passed(Some("bearer-user")));
    assert_eq!(r.asked, vec!["valid-bearer".to_string()]);
}

#[test]
fn ac5_no_api_key_valid_cookie_passes_with_cookie_auth_context() {
    let r = run(None, true, false, headers(None, None, Some("access_token=valid-session")));
    assert_eq!(r.result, Result401::Passed(Some("session-user")));
    assert_eq!(r.asked, vec!["access_token=valid-session".to_string()]);
}

#[test]
fn ac6_cookie_wins_over_bearer_when_both_valid() {
    let r = run(
        None,
        true,
        false,
        headers(None, Some("Bearer valid-bearer"), Some("access_token=valid-session")),
    );
    assert_eq!(r.result, Result401::Passed(Some("session-user")));
    assert_eq!(r.asked.len(), 1, "the bearer token is not consulted once the cookie is accepted");
}

#[test]
fn ac7_invalid_cookie_falls_through_to_valid_bearer() {
    let r = run(
        None,
        true,
        false,
        headers(None, Some("Bearer valid-bearer"), Some("access_token=garbage")),
    );
    assert_eq!(r.result, Result401::Passed(Some("bearer-user")));
    assert_eq!(r.asked, vec!["access_token=garbage".to_string(), "valid-bearer".to_string()]);
}

#[test]
fn ac8_strict_mode_invalid_cookie_invalid_bearer_rejects_401() {
    let r = run(
        None,
        true,
        true,
        headers(None, Some("Bearer garbage-token"), Some("access_token=garbage")),
    );
    assert!(refused_with(&r, "session invalid or expired"));
}

#[test]
fn ac9_api_key_and_validator_both_pass_with_cookie() {
    let r = run(Some(K), true, false, headers(Some(K), None, Some("access_token=valid-session")));
    assert_eq!(r.result, Result401::Passed(Some("session-user")));
}

#[test]
fn ac10_strict_mode_api_key_passes_but_no_credentials_rejects_401() {
    let r = run(Some(K), true, true, headers(Some(K), None, None));
    assert!(refused_with(&r, "session cookie or bearer required"));
    assert!(r.asked.is_empty());
}

#[test]
fn ac11_compat_shim_bearer_as_api_key_passes_with_warn() {
    let bearer = format!("Bearer {}", K);
    let r = run(Some(K), false, false, headers(None, Some(&bearer), None));
    assert_eq!(r.result, Result401::Passed(None));
    assert_eq!(r.admission, Admission::CompatShim);
}

#[test]
fn ac12_compat_shim_off_when_validator_configured() {
    let bearer = format!("Bearer {}", K);
    let r = run(Some(K), true, false, headers(None, Some(&bearer), None));
    assert!(refused_with(&r, "api key required"));
    assert!(r.asked.is_empty(), "the validator is not consulted when the api key check refuses");
}

/// The value of the header named `configured` among `request`, matching
/// names as the header map does: by their normalized form.
fn lookup(request: &[(&str, &str)], configured: &ApiKeyHeader) -> Option<String> {
    request
        .iter()
        .find(|(name, _)| ApiKeyHeader::parse(name).map(|h| h.as_str() == configured.as_str()).unwrap_or(false))
        .map(|(_, v)| v.to_string())
}

#[test]
fn ac13_custom_api_key_header_required_default_header_ignored() {
    let custom = ApiKeyHeader::parse("x-my-key").unwrap();
    let sent = [("X-My-Key", K)];
    let r = run(Some(K), false, false, headers(lookup(&sent, &custom).as_deref(), None, None));
    assert_eq!(r.result, Result401::Passed(None));
    let sent = [("X-Plexus-API-Key", K)];
    let r = run(Some(K), false, false, headers(lookup(&sent, &custom).as_deref(), None, None));
    assert!(refused_with(&r, "api key required"));
}

#[test]
fn regression_cookie_only_path_unchanged() {
    let r = run(None, true, false, headers(None, None, Some("access_token=valid-session")));
    assert_eq!(r.result, Result401::Passed(Some("session-user")));
}

#[test]
fn regression_strict_mode_no_credentials_rejects_with_updated_body() {
    let r = run(None, true, true, headers(None, None, None));
    assert!(refused_with(&r, "session cookie or bearer required"));
}

#[test]
fn regression_passthrough_when_nothing_configured() {
    let r = run(None, false, false, headers(None, None, Some("irrelevant=value")));
    assert_eq!(r.result, Result401::Passed(None));
    assert_eq!(r.admission, Admission::Open);
}

#[test]
fn lenient_mode_invalid_credentials_pass_without_identity() {
    let r = run(None, true, false, headers(None, Some("Bearer nope"), Some("access_token=nope")));
    assert_eq!(r.result, Result401::Passed(None));
    assert_eq!(r.asked.len(), 2);
}

#[test]
fn bearer_prefix_is_case_sensitive() {
    assert_eq!(strip_bearer("Bearer abc"), Some("abc"));
    assert_eq!(strip_bearer("Bearer "), Some(""));
    assert_eq!(strip_bearer("bearer abc"), None);
    assert_eq!(strip_bearer("Bearer"), None);
    assert_eq!(strip_bearer("Basic abc"), None);
    // A lowercase scheme is not a bearer token, so it does not reach the validator.
    let r = run(None, true, true, headers(None, Some("bearer valid-bearer"), None));
    assert!(refused_with(&r, "session cookie or bearer required"));
}

#[test]
fn api_key_header_value_is_compared_exactly() {
    let r = run(Some(K), false, false, headers(Some("TEST-API-KEY"), None, None));
    assert!(refused_with(&r, "api key invalid"));
    let r = run(Some(K), false, false, headers(Some("test-api-key "), None, None));
    assert!(refused_with(&r, "api key invalid"));
}

#[test]
fn rejection_bodies() {
    assert_eq!(RejectReason::ApiKeyRequired.body(), "Unauthorized: api key required");
    assert_eq!(RejectReason::ApiKeyInvalid.body(), "Unauthorized: api key invalid");
    assert_eq!(RejectReason::SessionInvalid.body(), "Unauthorized: session invalid or expired");
    assert_eq!(
        RejectReason::SessionRequired.body(),
        "Unauthorized: session cookie or bearer required"
    );
}

#[test]
fn middleware_installed_only_when_auth_configured() {
    let s = |k: Option<&str>, v: bool| AuthSettings {
        api_key: k.map(str::to_string),
        has_session_validator: v,
        reject_on_session_failure: false,
    };
    assert!(!s(None, false).needs_middleware());
    assert!(s(Some(K), false).needs_middleware());
    assert!(s(None, true).needs_middleware());
}
