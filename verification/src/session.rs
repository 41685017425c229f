//! The data carried through the device-authorization flow.

use vstd::prelude::*;

verus! {

/// One device grant, as issued by the grant-start endpoint.
///
/// Created once per authentication attempt and discarded once tokens are
/// obtained or the flow fails.
#[derive(Debug, Clone)]
pub struct DeviceGrantSession {
    /// The code a human would type in the real flow.
    pub user_code: String,
    /// Opaque code used when polling the token endpoint.
    pub device_code: String,
    /// Informational URL for a manual fallback.
    pub verification_uri_complete: String,
    /// Validity window of the grant, in seconds.
    pub expires_in: u64,
    /// Minimum time between polls, in seconds, dictated by the provider.
    pub interval: u64,
}

impl DeviceGrantSession {
    /// Build a session from the fields of a well-formed grant-start
    /// response; every field is carried over exactly.
    pub fn new(
        device_code: String,
        user_code: String,
        verification_uri_complete: String,
        expires_in: u64,
        interval: u64,
    ) -> (r: DeviceGrantSession)
        ensures
            r.device_code == device_code,
            r.user_code == user_code,
            r.verification_uri_complete == verification_uri_complete,
            r.expires_in == expires_in,
            r.interval == interval,
    {
        DeviceGrantSession { user_code, device_code, verification_uri_complete, expires_in, interval }
    }
}

/// The current access and refresh credentials, replaced wholesale on every
/// successful token or refresh response.
#[derive(Debug, Clone)]
pub struct TokenPair {
    /// Bearer credential attached to authenticated calls.
    pub access_token: String,
    /// Credential used to mint a new access token.
    pub refresh_token: String,
    /// Validity of the access token in seconds, as reported by the server.
    pub expires_in: u64,
}

impl TokenPair {
    /// Build a pair from the fields of a token response; every field is
    /// carried over exactly.
    pub fn new(access_token: String, refresh_token: String, expires_in: u64) -> (r: TokenPair)
        ensures
            r.access_token == access_token,
            r.refresh_token == refresh_token,
            r.expires_in == expires_in,
    {
        TokenPair { access_token, refresh_token, expires_in }
    }
}

} // verus!
