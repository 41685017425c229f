use tado_auth::error::decimal_string;
use tado_auth::error::AuthError;
use tado_auth::error::ParamName;
use tado_auth::forms::auth_complete_url;
use tado_auth::forms::auth_device_url;
use tado_auth::forms::auth_start_url;
use tado_auth::forms::auth_token_url;
use tado_auth::forms::authorize_form;
use tado_auth::forms::consent_outcome;
use tado_auth::forms::consent_request;
use tado_auth::forms::device_form;
use tado_auth::forms::refresh_form;
use tado_auth::forms::start_form;
use tado_auth::forms::tenant_id_value;
use tado_auth::forms::token_form;
use tado_auth::redirect::extract_redirect_params;
use tado_auth::redirect::location_outcome;
use tado_auth::redirect::parse_redirect;
use tado_auth::redirect::parse_redirect_from;
use tado_auth::redirect::LocationHeader;
use tado_auth::redirect::RedirectParameters;

fn pairs(entries: &[(&str, &str)]) -> Vec<(String, String)> {
    entries.iter().map(|(k, v)| (k.to_string(), v.to_string())).collect()
}

#[test]
fn endpoints_are_the_providers() {
    assert_eq!(auth_start_url(), "https://login.tado.com/oauth2/device_authorize");
    assert_eq!(auth_device_url(), "https://login.tado.com/oauth2/device");
    assert_eq!(auth_complete_url(), "https://login.tado.com/oauth2/authorize");
    assert_eq!(auth_token_url(), "https://login.tado.com/oauth2/token");
}

#[test]
fn start_form_is_exact() {
    let form = start_form("my-client");
    assert_eq!(form, pairs(&[("client_id", "my-client"), ("scope", "offline_access")]));
}

#[test]
fn device_form_sends_user_code_twice() {
    let form = device_form("my-client", "USER1");
    assert_eq!(
        form,
        pairs(&[
            ("client_id", "my-client"),
            ("tenantId", tenant_id_value()),
            ("user_code", "USER1"),
            ("interactive_user_code", "USER1"),
        ])
    );
}

#[test]
fn token_form_uses_device_code_grant() {
    let form = token_form("my-client", "dev-code");
    assert_eq!(
        form,
        pairs(&[
            ("client_id", "my-client"),
            ("device_code", "dev-code"),
            ("grant_type", "urn:ietf:params:oauth:grant-type:device_code"),
        ])
    );
}

#[test]
fn refresh_form_uses_refresh_grant() {
    let form = refresh_form("my-client", "refresh-1");
    assert_eq!(
        form,
        pairs(&[
            ("client_id", "my-client"),
            ("grant_type", "refresh_token"),
            ("refresh_token", "refresh-1"),
        ])
    );
}

fn sample_params() -> RedirectParameters {
    RedirectParameters {
        code_challenge: "cc".to_string(),
        code_challenge_method: "S256".to_string(),
        redirect_uri: "https://example.com/cb".to_string(),
        response_type: "code".to_string(),
        state: "st".to_string(),
        tenant_id: "tn".to_string(),
    }
}

#[test]
fn authorize_form_is_exact() {
    let form = authorize_form("my-client", "USER1", "user@example.com", "pw", &sample_params());
    assert_eq!(
        form,
        pairs(&[
            ("client_id", "my-client"),
            ("code_challenge", "cc"),
            ("code_challenge_method", "S256"),
            ("redirect_uri", "https://example.com/cb"),
            ("response_type", "code"),
            ("state", "st"),
            ("tenantId", "tn"),
            ("user_code", "USER1"),
            ("loginId", "user@example.com"),
            ("password", "pw"),
            ("captcha_token", ""),
            ("metaData.device.name", ""),
            ("metaData.device.type", ""),
            ("nonce", ""),
            ("oauth_context", ""),
            ("pendingIdPLinkId", ""),
            ("response_mode", ""),
            ("scope", ""),
            ("timezone", ""),
            ("userVerifyingPlatformAuthenticatorAvailable", "false"),
        ])
    );
}

#[test]
fn consent_request_replays_cookies_verbatim() {
    let cookies = vec![
        "session=abc; Path=/".to_string(),
        "csrf=xyz; HttpOnly".to_string(),
    ];
    let req = consent_request(
        "my-client",
        "USER1",
        "user@example.com",
        "pw",
        &sample_params(),
        cookies.clone(),
    );
    assert_eq!(req.url, "https://login.tado.com/oauth2/authorize");
    assert_eq!(req.referer, "https://login.tado.com/");
    assert_eq!(req.cookies, cookies);
    assert_eq!(
        req.form,
        authorize_form("my-client", "USER1", "user@example.com", "pw", &sample_params())
    );
}

#[test]
fn consent_outcome_accepts_only_2xx() {
    assert!(consent_outcome(200).is_ok());
    assert!(consent_outcome(204).is_ok());
    for status in [199u16, 302, 400, 403, 500] {
        match consent_outcome(status) {
            Err(AuthError::Http { status: s, message }) => {
                assert_eq!(s, Some(status));
                assert_eq!(message, "");
            }
            _ => panic!("expected an HTTP failure for {status}"),
        }
    }
}

#[test]
fn missing_location_is_unexpected_status() {
    let r = location_outcome(
        LocationHeader::Missing,
        400,
        "https://login.tado.com/oauth2/device".to_string(),
    );
    match r {
        Err(AuthError::UnexpectedStatus(status, url)) => {
            assert_eq!(status, 400);
            assert_eq!(url, "https://login.tado.com/oauth2/device");
        }
        _ => panic!("expected an unexpected-status failure"),
    }
}

#[test]
fn undecodable_location_is_header_failure() {
    let r = location_outcome(LocationHeader::Undecodable, 302, "u".to_string());
    assert!(matches!(r, Err(AuthError::HttpHeader)));
}

#[test]
fn present_location_is_returned() {
    let r = location_outcome(LocationHeader::Value("/path?x=1".to_string()), 302, "u".to_string());
    assert_eq!(r.unwrap(), "/path?x=1");
}

#[test]
fn extract_takes_all_six() {
    let r = extract_redirect_params(&pairs(&[
        ("code_challenge", "cc"),
        ("code_challenge_method", "S256"),
        ("redirect_uri", "https://example.com/cb"),
        ("response_type", "code"),
        ("state", "st"),
        ("tenantId", "tn"),
    ]))
    .unwrap();
    assert_eq!(r.code_challenge, "cc");
    assert_eq!(r.code_challenge_method, "S256");
    assert_eq!(r.redirect_uri, "https://example.com/cb");
    assert_eq!(r.response_type, "code");
    assert_eq!(r.state, "st");
    assert_eq!(r.tenant_id, "tn");
}

#[test]
fn extract_names_first_missing_parameter() {
    // Everything but code_challenge_method and state: the method comes
    // first in the checking order.
    let r = extract_redirect_params(&pairs(&[
        ("code_challenge", "cc"),
        ("redirect_uri", "https://example.com/cb"),
        ("response_type", "code"),
        ("tenantId", "tn"),
    ]));
    match r {
        Err(e) => assert!(e.is_missing_param(ParamName::CodeChallengeMethod)),
        Ok(_) => panic!("extraction must fail"),
    }
}

#[test]
fn parse_redirect_missing_state() {
    // The approval redirect carries five of the six parameters; `state`
    // is absent and is named.
    let location = "/path?code_challenge=x&code_challenge_method=S256&redirect_uri=https%3A%2F%2Fexample.com%2Fcb&response_type=code&tenantId=t";
    match parse_redirect(location) {
        Err(e) => assert!(e.is_missing_param(ParamName::State)),
        Ok(_) => panic!("extraction must fail"),
    }
}

#[test]
fn parse_redirect_decodes_query() {
    let location = "/path?code_challenge=x%20y&code_challenge_method=S256&redirect_uri=https%3A%2F%2Fexample.com%2Fcb&response_type=code&state=s1&tenantId=t";
    let r = parse_redirect(location).unwrap();
    // Percent-escapes are decoded, so the wrapper did real work on the
    // query rather than handing the string back.
    assert_eq!(r.code_challenge, "x y");
    assert_eq!(r.redirect_uri, "https://example.com/cb");
    assert_eq!(r.state, "s1");
    assert_eq!(r.tenant_id, "t");
}

#[test]
fn parse_redirect_duplicate_key_takes_last() {
    let location = "/p?code_challenge=a&code_challenge=b&code_challenge_method=m&redirect_uri=r&response_type=c&state=s&tenantId=t";
    let r = parse_redirect(location).unwrap();
    assert_eq!(r.code_challenge, "b");
}

#[test]
fn error_text_describes_the_failure() {
    assert_eq!(
        AuthError::MissingParam(ParamName::State).text(),
        "missing required parameter state"
    );
    assert_eq!(
        AuthError::Timeout.text(),
        "device auth flow took too long to complete"
    );
    assert_eq!(
        AuthError::Http { status: Some(500), message: "boom".to_string() }.text(),
        "HTTP error: boom"
    );
    assert_eq!(
        AuthError::UnexpectedStatus(503, "x".to_string()).text(),
        "unexpected auth API status 503 for URL x"
    );
}

#[test]
fn decimal_rendering_is_exact() {
    assert_eq!(decimal_string(0), "0");
    assert_eq!(decimal_string(7), "7");
    assert_eq!(decimal_string(42), "42");
    assert_eq!(decimal_string(100), "100");
    assert_eq!(decimal_string(503), "503");
    assert_eq!(decimal_string(65535), "65535");
}

#[test]
fn missing_param_check_distinguishes_parameters() {
    let e = AuthError::MissingParam(ParamName::TenantId);
    assert!(e.is_missing_param(ParamName::TenantId));
    assert!(!e.is_missing_param(ParamName::State));
    assert!(!AuthError::Timeout.is_missing_param(ParamName::TenantId));
}

#[test]
fn unparsable_url_is_reported() {
    match parse_redirect_from("::", "not-a-url") {
        Err(AuthError::UrlParse) => {}
        _ => panic!("expected a URL parse failure"),
    }
}
