//! The approval step: reading the device-session redirect and extracting
//! the parameters the consent request must echo back.

use vstd::prelude::*;
use vstd::string::StringExecFns;

use crate::error::AuthError;
use crate::error::ParamName;
use crate::forms::form_view;

verus! {

/// Whether `url::Url::parse` accepts the URL string; parsing is a
/// function of the string alone.
pub uninterp spec fn url_parse_ok(s: Seq<char>) -> bool;

/// The form-urlencoded key/value pairs of the URL string's query, in
/// order, percent-decoded; a function of the string alone.
pub uninterp spec fn url_query_pairs(s: Seq<char>) -> Seq<(Seq<char>, Seq<char>)>;

/// Relies on `url::Url::parse` and `url::Url::query_pairs`: whether a URL
/// string parses, and the decoded query pairs it yields, depend on the
/// string alone.
#[verifier::external_body]
fn decode_query_pairs(url: &str) -> (r: Option<Vec<(String, String)>>)
    ensures
        r is Some <==> url_parse_ok(url@),
        r is Some ==> form_view(r->0@) =~= url_query_pairs(url@),
{
    match url::Url::parse(url) {
        Ok(u) => Some(u.query_pairs().into_owned().collect()),
        Err(_) => None,
    }
}

/// Relies on `str`'s `PartialEq`: string slices are equal exactly when
/// their character sequences are.
#[verifier::external_body]
pub(crate) fn str_eq(a: &str, b: &str) -> (r: bool)
    ensures
        r == (a@ == b@),
{
    a == b
}

/// The six mandatory parameters of the approval redirect's query string.
#[derive(Debug, Clone)]
pub struct RedirectParameters {
    pub code_challenge: String,
    pub code_challenge_method: String,
    pub redirect_uri: String,
    pub response_type: String,
    pub state: String,
    pub tenant_id: String,
}

/// The parameters at the specification level: six character sequences.
pub struct RedirectParamsView {
    pub code_challenge: Seq<char>,
    pub code_challenge_method: Seq<char>,
    pub redirect_uri: Seq<char>,
    pub response_type: Seq<char>,
    pub state: Seq<char>,
    pub tenant_id: Seq<char>,
}

impl View for RedirectParameters {
    type V = RedirectParamsView;

    open spec fn view(&self) -> RedirectParamsView {
        RedirectParamsView {
            code_challenge: self.code_challenge@,
            code_challenge_method: self.code_challenge_method@,
            redirect_uri: self.redirect_uri@,
            response_type: self.response_type@,
            state: self.state@,
            tenant_id: self.tenant_id@,
        }
    }
}

/// The value under `key` among the pairs: that of the last entry with
/// that key, as a map built from the pairs would hold it.
pub open spec fn spec_lookup(pairs: Seq<(Seq<char>, Seq<char>)>, key: Seq<char>) -> Option<
    Seq<char>,
>
    decreases pairs.len(),
{
    if pairs.len() == 0 {
        None
    } else if pairs.last().0 == key {
        Some(pairs.last().1)
    } else {
        spec_lookup(pairs.drop_last(), key)
    }
}

/// The looked-up value, or the empty sequence where the key is absent.
pub open spec fn spec_lookup_or_empty(pairs: Seq<(Seq<char>, Seq<char>)>, key: Seq<char>) -> Seq<
    char,
> {
    match spec_lookup(pairs, key) {
        Some(v) => v,
        None => Seq::empty(),
    }
}

/// Find the value under `key`, taking the last entry where the key
/// repeats.
fn lookup(pairs: &Vec<(String, String)>, key: &str) -> (r: Option<String>)
    ensures
        r is Some <==> spec_lookup(form_view(pairs@), key@) is Some,
        r is Some ==> spec_lookup(form_view(pairs@), key@) == Some(r->0@),
{
    let ghost all = form_view(pairs@);
    let mut found: Option<String> = None;
    let mut i: usize = 0;
    while i < pairs.len()
        invariant
            i <= pairs@.len(),
            all == form_view(pairs@),
            found is Some <==> spec_lookup(all.take(i as int), key@) is Some,
            found is Some ==> spec_lookup(all.take(i as int), key@) == Some(found->0@),
        decreases pairs@.len() - i,
    {
        proof {
            assert(all.take(i + 1).drop_last() =~= all.take(i as int));
            assert(all[i as int] == (pairs@[i as int].0@, pairs@[i as int].1@));
        }
        if str_eq(pairs[i].0.as_str(), key) {
            found = Some(pairs[i].1.clone());
        }
        i += 1;
    }
    proof {
        assert(all.take(pairs@.len() as int) =~= all);
    }
    found
}

/// The position of a parameter in the fixed order in which absence is
/// checked.
pub open spec fn spec_check_order(name: ParamName) -> int {
    match name {
        ParamName::CodeChallenge => 0,
        ParamName::CodeChallengeMethod => 1,
        ParamName::RedirectUri => 2,
        ParamName::ResponseType => 3,
        ParamName::State => 4,
        ParamName::TenantId => 5,
    }
}

/// Extraction at the specification level: the first absent parameter, in
/// the fixed checking order, or the six values, each the last entry under
/// its key.
pub open spec fn spec_extract(pairs: Seq<(Seq<char>, Seq<char>)>) -> Result<
    RedirectParamsView,
    ParamName,
> {
    if spec_lookup(pairs, "code_challenge"@) is None {
        Err(ParamName::CodeChallenge)
    } else if spec_lookup(pairs, "code_challenge_method"@) is None {
        Err(ParamName::CodeChallengeMethod)
    } else if spec_lookup(pairs, "redirect_uri"@) is None {
        Err(ParamName::RedirectUri)
    } else if spec_lookup(pairs, "response_type"@) is None {
        Err(ParamName::ResponseType)
    } else if spec_lookup(pairs, "state"@) is None {
        Err(ParamName::State)
    } else if spec_lookup(pairs, "tenantId"@) is None {
        Err(ParamName::TenantId)
    } else {
        Ok(
            RedirectParamsView {
                code_challenge: spec_lookup_or_empty(pairs, "code_challenge"@),
                code_challenge_method: spec_lookup_or_empty(pairs, "code_challenge_method"@),
                redirect_uri: spec_lookup_or_empty(pairs, "redirect_uri"@),
                response_type: spec_lookup_or_empty(pairs, "response_type"@),
                state: spec_lookup_or_empty(pairs, "state"@),
                tenant_id: spec_lookup_or_empty(pairs, "tenantId"@),
            },
        )
    }
}

/// Extract the six mandatory parameters from the redirect's query pairs.
/// The first absent one, in the fixed checking order, is named in the
/// error.
pub fn extract_redirect_params(pairs: &Vec<(String, String)>) -> (r: Result<
    RedirectParameters,
    AuthError,
>)
    ensures
        match spec_extract(form_view(pairs@)) {
            Ok(v) => r is Ok && r->Ok_0@ == v,
            Err(name) => r == Err::<RedirectParameters, AuthError>(AuthError::MissingParam(name)),
        },
{
    let code_challenge = match lookup(pairs, "code_challenge") {
        Some(v) => v,
        None => { return Err(AuthError::MissingParam(ParamName::CodeChallenge)) },
    };
    let code_challenge_method = match lookup(pairs, "code_challenge_method") {
        Some(v) => v,
        None => { return Err(AuthError::MissingParam(ParamName::CodeChallengeMethod)) },
    };
    let redirect_uri = match lookup(pairs, "redirect_uri") {
        Some(v) => v,
        None => { return Err(AuthError::MissingParam(ParamName::RedirectUri)) },
    };
    let response_type = match lookup(pairs, "response_type") {
        Some(v) => v,
        None => { return Err(AuthError::MissingParam(ParamName::ResponseType)) },
    };
    let state = match lookup(pairs, "state") {
        Some(v) => v,
        None => { return Err(AuthError::MissingParam(ParamName::State)) },
    };
    let tenant_id = match lookup(pairs, "tenantId") {
        Some(v) => v,
        None => { return Err(AuthError::MissingParam(ParamName::TenantId)) },
    };
    Ok(
        RedirectParameters {
            code_challenge,
            code_challenge_method,
            redirect_uri,
            response_type,
            state,
            tenant_id,
        },
    )
}

/// How the device-session response presented its `Location` header.
#[derive(Debug)]
pub enum LocationHeader {
    /// No such header: the provider signalled something unexpected.
    Missing,
    /// The header is there but its value is not text.
    Undecodable,
    /// The header's decoded value.
    Value(String),
}

/// The device-session response is expected to be a redirect: a missing
/// `Location` header is an unexpected status carrying the response's
/// status and requested URL, and an undecodable one is a header failure.
pub fn location_outcome(header: LocationHeader, status: u16, url: String) -> (r: Result<
    String,
    AuthError,
>)
    ensures
        match header {
            LocationHeader::Missing => r == Err::<String, AuthError>(
                AuthError::UnexpectedStatus(status, url),
            ),
            LocationHeader::Undecodable => r == Err::<String, AuthError>(AuthError::HttpHeader),
            LocationHeader::Value(loc) => r == Ok::<String, AuthError>(loc),
        },
{
    match header {
        LocationHeader::Missing => Err(AuthError::UnexpectedStatus(status, url)),
        LocationHeader::Undecodable => Err(AuthError::HttpHeader),
        LocationHeader::Value(loc) => Ok(loc),
    }
}

/// Resolve a host-relative redirect location against `base`, parse the
/// absolute URL, and extract the six mandatory query parameters.
pub fn parse_redirect_from(base: &str, location: &str) -> (r: Result<RedirectParameters, AuthError>)
    ensures
        !url_parse_ok(base@ + location@) ==> r == Err::<RedirectParameters, AuthError>(
            AuthError::UrlParse,
        ),
        url_parse_ok(base@ + location@) ==> match spec_extract(url_query_pairs(base@ + location@)) {
            Ok(v) => r is Ok && r->Ok_0@ == v,
            Err(name) => r == Err::<RedirectParameters, AuthError>(AuthError::MissingParam(name)),
        },
{
    let joined = base.to_owned().concat(location);
    match decode_query_pairs(joined.as_str()) {
        None => Err(AuthError::UrlParse),
        Some(pairs) => extract_redirect_params(&pairs),
    }
}

/// Resolve the redirect location against the login origin, as the
/// approval step does, and extract the six mandatory parameters.
pub fn parse_redirect(location: &str) -> (r: Result<RedirectParameters, AuthError>)
    ensures
        !url_parse_ok("https://login.tado.com/"@ + location@) ==> r == Err::<
            RedirectParameters,
            AuthError,
        >(AuthError::UrlParse),
        url_parse_ok("https://login.tado.com/"@ + location@) ==> match spec_extract(
            url_query_pairs("https://login.tado.com/"@ + location@),
        ) {
            Ok(v) => r is Ok && r->Ok_0@ == v,
            Err(name) => r == Err::<RedirectParameters, AuthError>(AuthError::MissingParam(name)),
        },
{
    parse_redirect_from(crate::forms::login_origin(), location)
}

/// An extraction failure names exactly the first parameter, in the fixed
/// checking order, that the query does not carry — every parameter
/// checked before it is present — and extraction succeeds exactly when
/// all six are present.
pub proof fn lemma_first_missing_named(pairs: Seq<(Seq<char>, Seq<char>)>)
    ensures
        spec_extract(pairs) matches Err(name) ==> spec_lookup(pairs, name.spec_text()) is None,
        spec_extract(pairs) matches Err(name) ==> forall|other: ParamName|
            spec_check_order(other) < spec_check_order(name) ==> (#[trigger] spec_lookup(
                pairs,
                other.spec_text(),
            )) is Some,
        spec_extract(pairs) is Ok <==> forall|name: ParamName|
            (#[trigger] spec_lookup(pairs, name.spec_text())) is Some,
{
    assert(ParamName::CodeChallenge.spec_text() == "code_challenge"@);
    assert(ParamName::CodeChallengeMethod.spec_text() == "code_challenge_method"@);
    assert(ParamName::RedirectUri.spec_text() == "redirect_uri"@);
    assert(ParamName::ResponseType.spec_text() == "response_type"@);
    assert(ParamName::State.spec_text() == "state"@);
    assert(ParamName::TenantId.spec_text() == "tenantId"@);
}

} // verus!
