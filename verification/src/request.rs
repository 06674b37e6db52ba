//! Construction of authenticated requests and of the issuer exchange.
//!
//! A request is described by plain values — method, composed URL, bearer
//! credential — ready to receive a body and be dispatched by the transport.
//! The library also fixes the issuer endpoint and lays out the
//! URL-encoded body of the client-credentials exchange; sending either
//! request over the network happens outside the library.

use vstd::prelude::*;

use crate::cache::TokenCache;
use crate::error::Error;
use crate::token::Token;
use crate::url::{compose_url, spec_composed_url, spec_opt_view};

verus! {

/// HTTP method of a bot API request; only these two are ever issued.
#[derive(Clone, Copy, Debug, PartialEq, Eq, Structural)]
pub enum HttpMethod {
    Post,
    Put,
}

/// An HTTP request pre-populated with a valid bearer credential: ready to
/// receive a body and be dispatched, with the dispatch itself left to the
/// transport.
#[derive(Clone, Debug)]
pub struct AuthenticatedRequest {
    /// Method of the request.
    pub method: HttpMethod,
    /// Fully composed target URL.
    pub url: String,
    /// Credential to be carried in the authorization header, verbatim.
    pub bearer: String,
}

/// Builds the request for `method` and `path` against the effective base
/// URL, carrying `token`'s credential as its bearer.
pub fn build_request(
    method: HttpMethod,
    base_url: Option<&str>,
    path: &str,
    token: &Token,
) -> (r: AuthenticatedRequest)
    ensures
        r.method == method,
        r.url@ == spec_composed_url(spec_opt_view(base_url), path@),
        r.bearer == token.access_token,
{
    AuthenticatedRequest {
        method,
        url: compose_url(base_url, path),
        bearer: token.access_token.clone(),
    }
}

/// The read-decide-refresh step of an authenticated request, run in one
/// piece while the caller holds the cache lock.
///
/// `fetched` is the outcome of the issuer exchange the caller performed —
/// present exactly when [`TokenCache::needs_refresh`] found a refresh due
/// at instant `now`, absent when the cached token was still valid. A fresh
/// token replaces the slot's value before the request is built around its
/// credential; an issuer failure leaves the slot untouched and propagates;
/// a still-valid cached token is reused as it stands. Exactly one request
/// comes out of every run in which the issuer did not fail.
pub fn refresh_and_build(
    cache: &mut TokenCache,
    now: u64,
    fetched: Option<Result<Token, Error>>,
    method: HttpMethod,
    base_url: Option<&str>,
    path: &str,
) -> (r: Result<AuthenticatedRequest, Error>)
    requires
        fetched is Some <==> old(cache).spec_needs_refresh(now as int),
    ensures
        match fetched {
            Option::Some(Result::Ok(tok)) => {
                &&& final(cache).spec_slot() == Option::Some(tok)
                &&& r is Ok
                &&& r->Ok_0.method == method
                &&& r->Ok_0.url@ == spec_composed_url(spec_opt_view(base_url), path@)
                &&& r->Ok_0.bearer == tok.access_token
            },
            Option::Some(Result::Err(e)) => {
                &&& final(cache).spec_slot() == old(cache).spec_slot()
                &&& r == Result::<AuthenticatedRequest, Error>::Err(e)
            },
            Option::None => {
                &&& final(cache).spec_slot() == old(cache).spec_slot()
                &&& old(cache).spec_slot() is Some
                &&& r is Ok
                &&& r->Ok_0.method == method
                &&& r->Ok_0.url@ == spec_composed_url(spec_opt_view(base_url), path@)
                &&& r->Ok_0.bearer == old(cache).spec_slot()->Some_0.access_token
            },
        },
{
    match fetched {
        Option::Some(outcome) => {
            match cache.install(outcome) {
                Result::Ok(()) => {},
                Result::Err(e) => {
                    return Result::Err(e);
                },
            }
        },
        Option::None => {},
    }
    let tok: &Token = cache.cached_token();
    Result::Ok(build_request(method, base_url, path, tok))
}

/// The fixed endpoint of the client-credentials token exchange.
pub open spec fn spec_issuer_endpoint() -> Seq<char> {
    "https://login.microsoftonline.com/botframework.com/oauth2/v2.0/token"@
}

/// The issuer endpoint as a borrowed string.
pub fn issuer_endpoint() -> (r: &'static str)
    ensures
        r@ == spec_issuer_endpoint(),
{
    "https://login.microsoftonline.com/botframework.com/oauth2/v2.0/token"
}

/// The URL-encoded body of the token exchange for the given client
/// identity: grant type, client id, client secret and the fixed scope of
/// the target API's default resource.
pub open spec fn spec_token_request_body(client_id: Seq<char>, client_secret: Seq<char>) -> Seq<
    char,
> {
    "grant_type=client_credentials&client_id="@ + client_id + "&client_secret="@ + client_secret
        + "&scope=https%3A%2F%2Fapi.botframework.com%2F.default"@
}

/// Immutable client identity, captured once at client construction and
/// never mutated.
pub struct ClientIdentity {
    /// OAuth2 client id of the service.
    pub client_id: String,
    /// OAuth2 client secret of the service.
    pub client_secret: String,
}

impl ClientIdentity {
    /// Captures the client identity at construction time.
    pub fn new(client_id: &str, client_secret: &str) -> (r: ClientIdentity)
        ensures
            r.client_id@ == client_id@,
            r.client_secret@ == client_secret@,
    {
        ClientIdentity { client_id: client_id.to_owned(), client_secret: client_secret.to_owned() }
    }

    /// Lays out the URL-encoded body of the client-credentials exchange
    /// for this identity.
    pub fn token_request_body(&self) -> (r: String)
        ensures
            r@ == spec_token_request_body(self.client_id@, self.client_secret@),
    {
        let mut out: String = "grant_type=client_credentials&client_id=".to_owned();
        out.append(self.client_id.as_str());
        out.append("&client_secret=");
        out.append(self.client_secret.as_str());
        out.append("&scope=https%3A%2F%2Fapi.botframework.com%2F.default");
        out
    }
}

} // verus!
