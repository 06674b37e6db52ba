//! Typed failures of the client.
//!
//! Nothing is retried or recovered internally: every failure is surfaced to
//! the immediate caller as one of these kinds. The error payloads that the
//! issuer and the bot API return on non-2xx responses are opaque JSON
//! documents; they are preserved verbatim for diagnostics, never
//! synthesized.

use vstd::prelude::*;

verus! {

/// One failure of an authenticated operation.
#[derive(Clone, Debug, PartialEq, Eq)]
pub enum Error {
    /// The network transport failed before an HTTP response was obtained;
    /// carries the transport's own description of the failure.
    Transport(String),
    /// The token issuer answered with a non-2xx status; carries the
    /// issuer's error payload verbatim.
    Auth(String),
    /// A bot API endpoint answered with a non-2xx status; carries the
    /// API's error payload verbatim.
    Api(String),
    /// An HTTP response body did not match the expected schema; carries
    /// the decoder's description of the mismatch.
    Deserialization(String),
}

} // verus!
