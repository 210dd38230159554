//! Error taxonomy of the core, by component: transport and decode failures
//! around HTTP exchanges, token-claims validation failures, and callback
//! validation failures. Every variant carries plain values so callers can
//! match on exactly what went wrong.

use vstd::prelude::*;

verus! {

/// Errors from validating an ID token's claims. Each variant carries the
/// expected-versus-actual values, or the offending timestamp in seconds since
/// the Unix epoch (UTC).
#[derive(Debug)]
pub enum TokenError {
    /// The `iss` claim differs from the expected issuer.
    IssuerMismatch { expected: String, actual: String },
    /// No entry of the `aud` claim equals the expected audience; `actual` is
    /// the raw claim value.
    AudienceMismatch { expected: String, actual: String },
    /// The `exp` claim is not in the future; carries the expiry time.
    Expired(i64),
    /// The `iat` claim lies beyond the allowed future skew; carries it.
    IssuedInTheFuture(i64),
    /// The `iat` claim lies further back than the allowed age; carries it.
    IssuedTooFarInThePast(i64),
    /// Wraps an opaque underlying failure.
    Other(String),
}

/// Errors from validating a redirect-callback URI.
#[derive(Debug)]
pub enum CallbackError {
    /// The callback's `state` parameter does not equal the expected one:
    /// `in_uri` is the value taken from the callback, `provided` the
    /// caller-supplied expected value.
    StateMismatch { in_uri: String, provided: String },
    /// The callback URI carries no `code` parameter; carries that URI.
    MissingCode(String),
    /// The callback's scheme, host and path differ from the registered
    /// redirect URI.
    UriMismatch { callback: String, redirect: String },
    /// Wraps an opaque underlying failure.
    Other(String),
}

/// Top-level errors of the core.
#[derive(Debug)]
pub enum Error {
    /// The server answered with a non-success HTTP status.
    Transport { status: u16 },
    /// The server was reached but its answer could not be decoded.
    Decode(String),
    /// A URI needed by the flow is not a valid absolute URI; carries it.
    Uri(String),
    /// A base64url segment could not be decoded.
    Base64(String),
    /// An ID token's claims failed validation.
    Token(TokenError),
    /// A redirect callback failed validation.
    Callback(CallbackError),
    /// Wraps an opaque underlying failure.
    Other(String),
}

} // verus!
