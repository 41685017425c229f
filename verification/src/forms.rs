//! The provider's endpoints and the exact form bodies each step sends.

use vstd::prelude::*;

use crate::error::AuthError;
use crate::redirect::RedirectParameters;

verus! {

/// The character sequences of a form body: each entry a key and a value.
pub open spec fn form_view(v: Seq<(String, String)>) -> Seq<(Seq<char>, Seq<char>)> {
    v.map_values(|p: (String, String)| (p.0@, p.1@))
}

/// The grant-start endpoint.
pub fn auth_start_url() -> (r: &'static str)
    ensures
        r@ == "https://login.tado.com/oauth2/device_authorize"@,
{
    "https://login.tado.com/oauth2/device_authorize"
}

/// The device-session endpoint that begins the approval step.
pub fn auth_device_url() -> (r: &'static str)
    ensures
        r@ == "https://login.tado.com/oauth2/device"@,
{
    "https://login.tado.com/oauth2/device"
}

/// The consent endpoint that completes the approval step.
pub fn auth_complete_url() -> (r: &'static str)
    ensures
        r@ == "https://login.tado.com/oauth2/authorize"@,
{
    "https://login.tado.com/oauth2/authorize"
}

/// The token endpoint, used both for polling and for refresh.
pub fn auth_token_url() -> (r: &'static str)
    ensures
        r@ == "https://login.tado.com/oauth2/token"@,
{
    "https://login.tado.com/oauth2/token"
}

/// The login host's origin: redirect locations are resolved against it,
/// and the consent POST names it as referer.
pub fn login_origin() -> (r: &'static str)
    ensures
        r@ == "https://login.tado.com/"@,
{
    "https://login.tado.com/"
}

/// The body of the grant-start request: the client identifier and a
/// fixed scope asking for offline access.
pub open spec fn spec_start_form(client_id: Seq<char>) -> Seq<(Seq<char>, Seq<char>)> {
    seq![("client_id"@, client_id), ("scope"@, "offline_access"@)]
}

/// Build the grant-start form body.
pub fn start_form(client_id: &str) -> (r: Vec<(String, String)>)
    ensures
        form_view(r@) =~= spec_start_form(client_id@),
{
    let mut v: Vec<(String, String)> = Vec::new();
    v.push(("client_id".to_owned(), client_id.to_owned()));
    v.push(("scope".to_owned(), "offline_access".to_owned()));
    v
}

/// The fixed tenant identifier the provider's device-session form expects.
pub fn tenant_id_value() -> (r: &'static str)
    ensures
        r@ == "1d543ad5-a8ac-4704-b9e2-26838b4d6513"@,
{
    "1d543ad5-a8ac-4704-b9e2-26838b4d6513"
}

/// The body of the device-session request: the user code is sent twice,
/// under two parameter names, for compatibility with the provider's form.
pub open spec fn spec_device_form(client_id: Seq<char>, user_code: Seq<char>) -> Seq<
    (Seq<char>, Seq<char>),
> {
    seq![
        ("client_id"@, client_id),
        ("tenantId"@, "1d543ad5-a8ac-4704-b9e2-26838b4d6513"@),
        ("user_code"@, user_code),
        ("interactive_user_code"@, user_code),
    ]
}

/// Build the device-session form body.
pub fn device_form(client_id: &str, user_code: &str) -> (r: Vec<(String, String)>)
    ensures
        form_view(r@) =~= spec_device_form(client_id@, user_code@),
{
    let mut v: Vec<(String, String)> = Vec::new();
    v.push(("client_id".to_owned(), client_id.to_owned()));
    v.push(("tenantId".to_owned(), tenant_id_value().to_owned()));
    v.push(("user_code".to_owned(), user_code.to_owned()));
    v.push(("interactive_user_code".to_owned(), user_code.to_owned()));
    v
}

/// The body of the consent request: the six extracted redirect parameters,
/// the client identifier, the user code, the login credentials, and the
/// fixed auxiliary fields the provider's form shape requires.
pub open spec fn spec_authorize_form(
    client_id: Seq<char>,
    user_code: Seq<char>,
    username: Seq<char>,
    password: Seq<char>,
    params: crate::redirect::RedirectParamsView,
) -> Seq<(Seq<char>, Seq<char>)> {
    seq![
        ("client_id"@, client_id),
        ("code_challenge"@, params.code_challenge),
        ("code_challenge_method"@, params.code_challenge_method),
        ("redirect_uri"@, params.redirect_uri),
        ("response_type"@, params.response_type),
        ("state"@, params.state),
        ("tenantId"@, params.tenant_id),
        ("user_code"@, user_code),
        ("loginId"@, username),
        ("password"@, password),
        ("captcha_token"@, ""@),
        ("metaData.device.name"@, ""@),
        ("metaData.device.type"@, ""@),
        ("nonce"@, ""@),
        ("oauth_context"@, ""@),
        ("pendingIdPLinkId"@, ""@),
        ("response_mode"@, ""@),
        ("scope"@, ""@),
        ("timezone"@, ""@),
        ("userVerifyingPlatformAuthenticatorAvailable"@, "false"@),
    ]
}

/// Build the consent form body.
pub fn authorize_form(
    client_id: &str,
    user_code: &str,
    username: &str,
    password: &str,
    params: &RedirectParameters,
) -> (r: Vec<(String, String)>)
    ensures
        form_view(r@) =~= spec_authorize_form(client_id@, user_code@, username@, password@, params@),
{
    let mut v: Vec<(String, String)> = Vec::new();
    v.push(("client_id".to_owned(), client_id.to_owned()));
    v.push(("code_challenge".to_owned(), params.code_challenge.clone()));
    v.push(("code_challenge_method".to_owned(), params.code_challenge_method.clone()));
    v.push(("redirect_uri".to_owned(), params.redirect_uri.clone()));
    v.push(("response_type".to_owned(), params.response_type.clone()));
    v.push(("state".to_owned(), params.state.clone()));
    v.push(("tenantId".to_owned(), params.tenant_id.clone()));
    v.push(("user_code".to_owned(), user_code.to_owned()));
    v.push(("loginId".to_owned(), username.to_owned()));
    v.push(("password".to_owned(), password.to_owned()));
    v.push(("captcha_token".to_owned(), "".to_owned()));
    v.push(("metaData.device.name".to_owned(), "".to_owned()));
    v.push(("metaData.device.type".to_owned(), "".to_owned()));
    v.push(("nonce".to_owned(), "".to_owned()));
    v.push(("oauth_context".to_owned(), "".to_owned()));
    v.push(("pendingIdPLinkId".to_owned(), "".to_owned()));
    v.push(("response_mode".to_owned(), "".to_owned()));
    v.push(("scope".to_owned(), "".to_owned()));
    v.push(("timezone".to_owned(), "".to_owned()));
    v.push(("userVerifyingPlatformAuthenticatorAvailable".to_owned(), "false".to_owned()));
    v
}

/// The body of a token poll: the device code with the device-code grant
/// type.
pub open spec fn spec_token_form(client_id: Seq<char>, device_code: Seq<char>) -> Seq<
    (Seq<char>, Seq<char>),
> {
    seq![
        ("client_id"@, client_id),
        ("device_code"@, device_code),
        ("grant_type"@, "urn:ietf:params:oauth:grant-type:device_code"@),
    ]
}

/// Build the token-poll form body.
pub fn token_form(client_id: &str, device_code: &str) -> (r: Vec<(String, String)>)
    ensures
        form_view(r@) =~= spec_token_form(client_id@, device_code@),
{
    let mut v: Vec<(String, String)> = Vec::new();
    v.push(("client_id".to_owned(), client_id.to_owned()));
    v.push(("device_code".to_owned(), device_code.to_owned()));
    v.push(("grant_type".to_owned(), "urn:ietf:params:oauth:grant-type:device_code".to_owned()));
    v
}

/// The body of a refresh: the stored refresh token with the refresh grant
/// type.
pub open spec fn spec_refresh_form(client_id: Seq<char>, refresh_token: Seq<char>) -> Seq<
    (Seq<char>, Seq<char>),
> {
    seq![
        ("client_id"@, client_id),
        ("grant_type"@, "refresh_token"@),
        ("refresh_token"@, refresh_token),
    ]
}

/// Build the refresh form body.
pub fn refresh_form(client_id: &str, refresh_token: &str) -> (r: Vec<(String, String)>)
    ensures
        form_view(r@) =~= spec_refresh_form(client_id@, refresh_token@),
{
    let mut v: Vec<(String, String)> = Vec::new();
    v.push(("client_id".to_owned(), client_id.to_owned()));
    v.push(("grant_type".to_owned(), "refresh_token".to_owned()));
    v.push(("refresh_token".to_owned(), refresh_token.to_owned()));
    v
}

/// Everything the consent POST sends: its target, the referer naming the
/// login host, the form body, and the cookies captured from the
/// device-session response, to be replayed verbatim.
#[derive(Debug)]
pub struct ConsentRequest {
    pub url: String,
    pub referer: String,
    pub form: Vec<(String, String)>,
    pub cookies: Vec<String>,
}

/// Assemble the consent request from the extracted redirect parameters,
/// the client's identity, and the captured cookies. The cookies are
/// carried over exactly as captured.
pub fn consent_request(
    client_id: &str,
    user_code: &str,
    username: &str,
    password: &str,
    params: &RedirectParameters,
    cookies: Vec<String>,
) -> (r: ConsentRequest)
    ensures
        r.url@ == "https://login.tado.com/oauth2/authorize"@,
        r.referer@ == "https://login.tado.com/"@,
        form_view(r.form@) =~= spec_authorize_form(client_id@, user_code@, username@, password@, params@),
        r.cookies == cookies,
{
    ConsentRequest {
        url: auth_complete_url().to_owned(),
        referer: login_origin().to_owned(),
        form: authorize_form(client_id, user_code, username, password, params),
        cookies,
    }
}

/// The verdict on the consent response: a 2xx final status means the
/// consent was recorded server-side; any other final status is a hard
/// failure.
pub fn consent_outcome(status: u16) -> (r: Result<(), AuthError>)
    ensures
        r is Ok <==> 200 <= status < 300,
        !(200 <= status < 300) ==> r->Err_0.is_status_failure(status),
{
    if 200 <= status && status < 300 {
        Ok(())
    } else {
        Err(AuthError::Http { status: Some(status), message: String::new() })
    }
}

} // verus!
