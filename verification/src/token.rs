//! Bearer tokens and their validity window.
//!
//! A token carries the opaque credential string, the lifetime the issuer
//! declared for it, and the instant (a monotonic clock reading in seconds)
//! at which it was observed locally. A token counts as valid only while the
//! elapsed time stays under the declared lifetime minus a 60-second safety
//! margin; the margin floors at zero, so a lifetime of 60 seconds or less
//! never yields a valid token.

use vstd::prelude::*;

verus! {

/// Safety margin, in seconds, kept between the last use of a token and its
/// declared expiry, absorbing clock drift and in-flight request latency.
pub const EXPIRY_MARGIN_SECS: u64 = 60;

/// One OAuth2 bearer credential together with its expiry bookkeeping.
#[derive(Clone, Debug)]
pub struct Token {
    /// Opaque credential, passed verbatim on the wire.
    pub access_token: String,
    /// Lifetime in seconds, as declared by the issuer at acquisition.
    pub expires_in: u64,
    /// Monotonic clock reading, in seconds, taken locally the moment the
    /// token value was observed; never copied from issuer-supplied data.
    pub acquired_at: u64,
}

impl Token {
    /// Seconds of use the declared lifetime allows once the safety margin
    /// is subtracted; the subtraction floors at zero.
    pub open spec fn spec_usable_lifetime(self) -> nat {
        if self.expires_in > EXPIRY_MARGIN_SECS {
            (self.expires_in - EXPIRY_MARGIN_SECS) as nat
        } else {
            0
        }
    }

    /// Seconds elapsed since acquisition at instant `now`, floored at zero
    /// as a monotonic clock's elapsed reading is.
    pub open spec fn spec_elapsed(self, now: int) -> nat {
        if now > self.acquired_at {
            (now - self.acquired_at) as nat
        } else {
            0
        }
    }

    /// The validity predicate: the elapsed time is still strictly under the
    /// margin-adjusted lifetime.
    pub open spec fn spec_is_valid(self, now: int) -> bool {
        self.spec_elapsed(now) < self.spec_usable_lifetime()
    }

    /// Builds a token from its observed parts. `acquired_at` is the local
    /// clock reading at the moment the credential was observed.
    pub fn new(access_token: String, expires_in: u64, acquired_at: u64) -> (r: Token)
        ensures
            r.access_token == access_token,
            r.expires_in == expires_in,
            r.acquired_at == acquired_at,
    {
        Token { access_token, expires_in, acquired_at }
    }

    /// Decides whether the token may still be used at instant `now`.
    pub fn is_valid(&self, now: u64) -> (r: bool)
        ensures
            r == self.spec_is_valid(now as int),
    {
        let elapsed: u64 = if now > self.acquired_at {
            now - self.acquired_at
        } else {
            0
        };
        let usable: u64 = if self.expires_in > EXPIRY_MARGIN_SECS {
            self.expires_in - EXPIRY_MARGIN_SECS
        } else {
            0
        };
        elapsed < usable
    }
}

/// A token observed at `now` with a lifetime of at least 61 seconds is valid
/// immediately, stays valid at every instant strictly before
/// `now + expires_in - 60`, and is invalid from that instant on.
pub proof fn lemma_validity_window(tok: Token, now: int, t: int)
    requires
        tok.acquired_at == now,
        tok.expires_in > EXPIRY_MARGIN_SECS,
    ensures
        tok.spec_is_valid(now),
        t < now + tok.expires_in - EXPIRY_MARGIN_SECS ==> tok.spec_is_valid(t),
        t >= now + tok.expires_in - EXPIRY_MARGIN_SECS ==> !tok.spec_is_valid(t),
{
}

/// A token whose declared lifetime does not exceed the safety margin is
/// never valid, at any instant: the margin subtraction floors at zero.
pub proof fn lemma_short_lifetime_never_valid(tok: Token, t: int)
    requires
        tok.expires_in <= EXPIRY_MARGIN_SECS,
    ensures
        !tok.spec_is_valid(t),
{
}

} // verus!
