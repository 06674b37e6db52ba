//! The cached-token slot and its refresh protocol.
//!
//! A client holds at most one token in a slot that every concurrent caller
//! shares. The surrounding runtime serializes access to the slot with an
//! asynchronous mutual-exclusion lock; while a caller holds the lock it runs
//! the read-decide-refresh sequence that these functions define:
//!
//! 1. [`TokenCache::needs_refresh`] decides, from the slot and the current
//!    instant, whether the issuer must be contacted.
//! 2. If so, the caller performs the issuer exchange (a network call, made
//!    outside the library) and hands the outcome to
//!    [`TokenCache::install`], which overwrites the slot on success and
//!    leaves it untouched on failure.
//! 3. [`TokenCache::bearer`] reads the credential of the cached token for
//!    request construction, still under the lock.
//!
//! Because the whole sequence runs under one lock, at most one issuer
//! exchange is in flight per client, and every caller that arrives while
//! the freshly installed token is valid reuses it without contacting the
//! issuer again — the proof functions at the end state exactly that.

use vstd::prelude::*;

use crate::error::Error;
use crate::token::Token;

verus! {

/// Share-by-reference slot holding at most one token. Mutation is only ever
/// replacement of the whole value; no field of a held token is ever updated
/// in place.
pub struct TokenCache {
    slot: Option<Token>,
}

impl TokenCache {
    /// The slot's contents.
    pub closed spec fn spec_slot(self) -> Option<Token> {
        self.slot
    }

    /// A refresh is due when the slot is empty or the held token is no
    /// longer valid at instant `now`.
    pub open spec fn spec_needs_refresh(self, now: int) -> bool {
        match self.spec_slot() {
            Option::None => true,
            Option::Some(tok) => !tok.spec_is_valid(now),
        }
    }

    /// Creates the empty cache a client starts with.
    pub fn new() -> (r: TokenCache)
        ensures
            r.spec_slot() is None,
    {
        TokenCache { slot: Option::None }
    }

    /// Decides, under the cache lock, whether the issuer must be contacted
    /// before a request can be built at instant `now`.
    pub fn needs_refresh(&self, now: u64) -> (r: bool)
        ensures
            r == self.spec_needs_refresh(now as int),
    {
        match &self.slot {
            Option::None => true,
            Option::Some(tok) => !tok.is_valid(now),
        }
    }

    /// Applies the outcome of an issuer exchange to the slot: a fresh token
    /// replaces the previous value wholesale, while a failure propagates
    /// unchanged and leaves whatever was cached — possibly a stale token —
    /// exactly as it was, so that the next caller retries the refresh.
    pub fn install(&mut self, fetched: Result<Token, Error>) -> (r: Result<(), Error>)
        ensures
            match fetched {
                Result::Ok(tok) => final(self).spec_slot() == Option::Some(tok) && r is Ok,
                Result::Err(e) => final(self).spec_slot() == old(self).spec_slot() && r
                    == Result::<(), Error>::Err(e),
            },
    {
        match fetched {
            Result::Ok(tok) => {
                self.slot = Option::Some(tok);
                Result::Ok(())
            },
            Result::Err(e) => Result::Err(e),
        }
    }

    /// Reads the cached token itself, for request construction while the
    /// cache lock is still held.
    pub fn cached_token(&self) -> (r: &Token)
        requires
            self.spec_slot() is Some,
        ensures
            r == self.spec_slot()->Some_0,
    {
        match &self.slot {
            Option::Some(tok) => tok,
            Option::None => unreached(),
        }
    }

    /// Reads the credential of the cached token, for attachment as a bearer
    /// header while the cache lock is still held.
    pub fn bearer(&self) -> (r: &String)
        requires
            self.spec_slot() is Some,
        ensures
            r == self.spec_slot()->Some_0.access_token,
    {
        match &self.slot {
            Option::Some(tok) => &tok.access_token,
            Option::None => unreached(),
        }
    }
}

/// One refresh serves every caller: when callers race against an empty
/// cache, the one that wins the lock finds a refresh due; once it installs
/// the fetched token, every caller that takes the lock at an instant where
/// that token is valid finds no refresh due and reads the very same
/// credential — the issuer is contacted exactly once for all of them.
pub proof fn lemma_single_refresh_serves_all(
    empty: TokenCache,
    filled: TokenCache,
    tok: Token,
    t0: int,
    t1: int,
)
    requires
        empty.spec_slot() is None,
        filled.spec_slot() == Option::Some(tok),
        tok.spec_is_valid(t1),
    ensures
        empty.spec_needs_refresh(t0),
        !filled.spec_needs_refresh(t1),
        filled.spec_slot()->Some_0.access_token == tok.access_token,
{
}

/// A cached valid token silences the issuer: as long as the held token is
/// valid at the instant a caller takes the lock, no refresh is due, however
/// many callers arrive.
pub proof fn lemma_valid_token_skips_issuer(cache: TokenCache, tok: Token, now: int)
    requires
        cache.spec_slot() == Option::Some(tok),
        tok.spec_is_valid(now),
    ensures
        !cache.spec_needs_refresh(now),
{
}

/// A failed refresh changes nothing and is retried: the slot keeps its
/// previous value, so a later caller reaches the very same refresh decision
/// it would have reached before the failure.
pub proof fn lemma_failed_refresh_retries(pre: TokenCache, post: TokenCache, now: int)
    requires
        post.spec_slot() == pre.spec_slot(),
    ensures
        post.spec_needs_refresh(now) == pre.spec_needs_refresh(now),
        post.spec_slot() == pre.spec_slot(),
{
}

} // verus!
