//! The client's static identity and owned authentication state.

use vstd::prelude::*;

use crate::lifecycle::TokenLifecycle;
use crate::session::TokenPair;

verus! {

/// The base URL of the provider's resource API.
pub fn default_base_url() -> (r: &'static str)
    ensures
        r@ == "https://my.tado.com/api/v2/"@,
{
    "https://my.tado.com/api/v2/"
}

/// A client of the provider's API: its static identity, the resource
/// base URL, and the token state it maintains.
///
/// The identity strings are supplied at construction and never change;
/// the token state is mutated only through `set_tokens`, always as a
/// whole-value replacement.
#[derive(Debug)]
pub struct Client {
    /// Base URL for resource calls; overridable for testing.
    pub base_url: String,
    /// Account name used when simulating the browser login.
    pub username: String,
    /// Account password used when simulating the browser login.
    pub password: String,
    /// OAuth2 client identifier sent on every grant request.
    pub client_id: String,
    /// The owned token pair and its refresh deadline.
    pub lifecycle: TokenLifecycle,
    /// The account's home identifier once resolved; zero until then.
    pub home_id: i32,
}

impl Client {
    /// A client against the provider's default resource API.
    pub fn new(username: String, password: String, client_id: String) -> (r: Client)
        ensures
            r.username == username,
            r.password == password,
            r.client_id == client_id,
            r.base_url@ == "https://my.tado.com/api/v2/"@,
            r.lifecycle.wf(),
            r.lifecycle.tokens.access_token@ == Seq::<char>::empty(),
            r.lifecycle.tokens.refresh_token@ == Seq::<char>::empty(),
            r.lifecycle.tokens.expires_in == 0,
            r.lifecycle.refresh_by == 0,
            r.lifecycle.margin == crate::lifecycle::DEFAULT_REFRESH_MARGIN_SECS,
            r.home_id == 0,
    {
        Client::with_base_url(default_base_url().to_owned(), username, password, client_id)
    }

    /// A client against a caller-chosen base URL, for testing.
    pub fn with_base_url(
        base_url: String,
        username: String,
        password: String,
        client_id: String,
    ) -> (r: Client)
        ensures
            r.base_url == base_url,
            r.username == username,
            r.password == password,
            r.client_id == client_id,
            r.lifecycle.wf(),
            r.lifecycle.tokens.access_token@ == Seq::<char>::empty(),
            r.lifecycle.tokens.refresh_token@ == Seq::<char>::empty(),
            r.lifecycle.tokens.expires_in == 0,
            r.lifecycle.refresh_by == 0,
            r.lifecycle.margin == crate::lifecycle::DEFAULT_REFRESH_MARGIN_SECS,
            r.home_id == 0,
    {
        Client {
            base_url,
            username,
            password,
            client_id,
            lifecycle: TokenLifecycle::new(),
            home_id: 0,
        }
    }

    /// Store a freshly issued pair, received at `now`, and derive its
    /// refresh deadline.
    pub fn set_tokens(&mut self, pair: TokenPair, now: u64)
        requires
            old(self).lifecycle.margin <= pair.expires_in,
            now + pair.expires_in - old(self).lifecycle.margin <= u64::MAX,
        ensures
            final(self).lifecycle.tokens == pair,
            final(self).lifecycle.refresh_by == crate::lifecycle::spec_refresh_deadline(
                now,
                pair.expires_in,
                old(self).lifecycle.margin,
            ),
            final(self).lifecycle.margin == old(self).lifecycle.margin,
            final(self).username == old(self).username,
            final(self).password == old(self).password,
            final(self).client_id == old(self).client_id,
            final(self).base_url == old(self).base_url,
            final(self).home_id == old(self).home_id,
    {
        self.lifecycle.set_tokens(pair, now);
    }

    /// Whether the next authenticated call must refresh first.
    pub fn needs_refresh(&self, now: u64) -> (r: bool)
        ensures
            r == (now >= self.lifecycle.refresh_by),
    {
        self.lifecycle.needs_refresh(now)
    }
}

/// The home used for resource calls: the first one the account lists.
/// An account listing no homes yields no identifier instead of a crash.
pub fn select_home(homes: &Vec<i32>) -> (r: Option<i32>)
    ensures
        homes@.len() == 0 ==> r is None,
        homes@.len() > 0 ==> r == Some(homes@[0]),
{
    if homes.len() == 0 {
        None
    } else {
        Some(homes[0])
    }
}

} // verus!
