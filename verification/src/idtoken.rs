//! ID-token handling: structural decoding of the compact JWT serialization
//! (three base64url segments joined by dots) and verification of the claims
//! in the documented order — issuer, audience, expiry, future-issued,
//! too-old. Signature verification and JSON claim extraction are capabilities
//! of the caller; the checks here run on already-extracted claim values.

use vstd::prelude::*;

use crate::bytes::split_bytes;
use crate::bytes::split_on;
use crate::challenge::b64url_decode;
use crate::challenge::b64url_nopad_of;
use crate::errors::Error;
use crate::errors::TokenError;
use vstd::string::StrSliceExecFns;
use vstd::string::StringSliceAdditionalSpecFns;

verus! {

/// The claims of an ID token that verification reads, as plain values:
/// `iss`, `sub`, the `aud` entries (one for a single-valued claim), the raw
/// text of the `aud` claim for diagnostics, and `iat` / `exp` as seconds
/// since the Unix epoch (UTC).
#[derive(Debug)]
pub struct IdTokenClaims {
    pub iss: String,
    pub sub: String,
    pub aud: Vec<String>,
    pub aud_raw: String,
    pub iat: i64,
    pub exp: i64,
}

/// The three decoded parts of a compact JWT.
#[derive(Debug)]
pub struct DecodedIdToken {
    pub header: Vec<u8>,
    pub payload: Vec<u8>,
    pub signature: Vec<u8>,
}

/// The token text splits into exactly three base64url segments.
pub open spec fn jwt_segments(token: Seq<u8>) -> Seq<Seq<u8>> {
    split_on(token, 0x2e)
}

/// A byte sequence is canonical unpadded base64url text.
pub open spec fn b64url_decodable(s: Seq<u8>) -> bool {
    exists|b: Seq<u8>| s == b64url_nopad_of(b)
}

/// Splits a compact JWT at its dots and base64url-decodes the three
/// segments. Succeeds exactly when the token has three segments and each is
/// canonical unpadded base64url text; a wrong segment count is a decode
/// error, an undecodable segment a base64 error.
pub fn decode_id_token(token: &str) -> (r: Result<DecodedIdToken, Error>)
    ensures
        ({
            let segs = jwt_segments(token.spec_bytes());
            &&& (r is Ok <==> segs.len() == 3 && b64url_decodable(segs[0]) && b64url_decodable(
                segs[1],
            ) && b64url_decodable(segs[2]))
            &&& match r {
                Ok(d) => segs.len() == 3 && segs[0] == b64url_nopad_of(d.header@) && segs[1]
                    == b64url_nopad_of(d.payload@) && segs[2] == b64url_nopad_of(d.signature@),
                Err(e) => if segs.len() != 3 {
                    e matches Error::Decode(_)
                } else {
                    e matches Error::Base64(_)
                },
            }
        }),
{
    let tb: Vec<u8> = token.as_bytes_vec();
    let segs: Vec<Vec<u8>> = split_bytes(tb.as_slice(), 0x2e);
    let ghost sg = jwt_segments(token.spec_bytes());
    if segs.len() != 3 {
        return Err(Error::Decode("compact JWT must have three dot-separated segments".to_owned()));
    }
    proof {
        assert(sg[0] =~= segs@[0]@);
        assert(sg[1] =~= segs@[1]@);
        assert(sg[2] =~= segs@[2]@);
    }
    let header = match b64url_decode(segs[0].as_slice()) {
        Ok(v) => v,
        Err(m) => {
            return Err(Error::Base64(m));
        },
    };
    let payload = match b64url_decode(segs[1].as_slice()) {
        Ok(v) => v,
        Err(m) => {
            return Err(Error::Base64(m));
        },
    };
    let signature = match b64url_decode(segs[2].as_slice()) {
        Ok(v) => v,
        Err(m) => {
            return Err(Error::Base64(m));
        },
    };
    Ok(DecodedIdToken { header, payload, signature })
}

/// One of the `aud` entries equals the expected audience.
pub open spec fn aud_matches(auds: Seq<Seq<char>>, expected: Seq<char>) -> bool {
    exists|i: int| 0 <= i < auds.len() && auds[i] == expected
}

/// What claims verification decides, in the documented order: issuer first,
/// then audience, then expiry, then issued-in-the-future, then issued too
/// far in the past.
pub ghost enum ClaimsDecision {
    /// The `iss` claim differs from the expected issuer.
    IssuerMismatch,
    /// No `aud` entry equals the expected audience.
    AudienceMismatch,
    /// `exp` is not strictly in the future.
    Expired,
    /// `iat` lies beyond `now` plus the allowed future skew.
    IssuedInTheFuture,
    /// `iat` lies before `now` minus the allowed age.
    IssuedTooFarInThePast,
    /// Every check passed.
    Accept,
}

/// The decision for the given claim values, expectations, current time and
/// skew tolerances (all times in seconds since the Unix epoch, UTC).
pub open spec fn claims_decision(
    iss: Seq<char>,
    auds: Seq<Seq<char>>,
    iat: int,
    exp: int,
    expected_issuer: Seq<char>,
    expected_audience: Seq<char>,
    now: int,
    max_future_skew: int,
    max_age: int,
) -> ClaimsDecision {
    if iss != expected_issuer {
        ClaimsDecision::IssuerMismatch
    } else if !aud_matches(auds, expected_audience) {
        ClaimsDecision::AudienceMismatch
    } else if exp <= now {
        ClaimsDecision::Expired
    } else if iat > now + max_future_skew {
        ClaimsDecision::IssuedInTheFuture
    } else if iat < now - max_age {
        ClaimsDecision::IssuedTooFarInThePast
    } else {
        ClaimsDecision::Accept
    }
}

/// An ID token whose issuer and audience match but whose `exp` is not in the
/// future is rejected as expired, and the offending expiry time is the one
/// reported.
pub proof fn lemma_expired_rejected(
    iss: Seq<char>,
    auds: Seq<Seq<char>>,
    iat: int,
    exp: int,
    expected_issuer: Seq<char>,
    expected_audience: Seq<char>,
    now: int,
    max_future_skew: int,
    max_age: int,
)
    requires
        iss == expected_issuer,
        aud_matches(auds, expected_audience),
        exp <= now,
    ensures
        claims_decision(
            iss,
            auds,
            iat,
            exp,
            expected_issuer,
            expected_audience,
            now,
            max_future_skew,
            max_age,
        ) is Expired,
{
}

/// An ID token whose issuer matches but no entry of whose `aud` claim equals
/// the expected audience is rejected as an audience mismatch, whatever the
/// time-based claims hold — also when `aud` is a list of several audiences.
pub proof fn lemma_audience_mismatch_rejected(
    iss: Seq<char>,
    auds: Seq<Seq<char>>,
    iat: int,
    exp: int,
    expected_issuer: Seq<char>,
    expected_audience: Seq<char>,
    now: int,
    max_future_skew: int,
    max_age: int,
)
    requires
        iss == expected_issuer,
        !aud_matches(auds, expected_audience),
    ensures
        claims_decision(
            iss,
            auds,
            iat,
            exp,
            expected_issuer,
            expected_audience,
            now,
            max_future_skew,
            max_age,
        ) is AudienceMismatch,
{
}

/// Verifies an ID token's claims against the expected issuer and audience,
/// the current time `now`, and the tolerances `max_future_skew` and
/// `max_age` (all in seconds since the Unix epoch, UTC).
///
/// The checks run in the documented order and the first failure is
/// reported: issuer, audience, expiry, future-issued, too-old. The audience
/// error carries the raw `aud` claim text.
pub fn verify_id_token_claims(
    claims: &IdTokenClaims,
    expected_issuer: &str,
    expected_audience: &str,
    now: i64,
    max_future_skew: i64,
    max_age: i64,
) -> (r: Result<(), TokenError>)
    ensures
        ({
            let decision = claims_decision(
                claims.iss@,
                claims.aud.deep_view(),
                claims.iat as int,
                claims.exp as int,
                expected_issuer@,
                expected_audience@,
                now as int,
                max_future_skew as int,
                max_age as int,
            );
            match decision {
                ClaimsDecision::IssuerMismatch => r matches Err(
                    TokenError::IssuerMismatch { expected, actual },
                ) && expected@ == expected_issuer@ && actual@ == claims.iss@,
                ClaimsDecision::AudienceMismatch => r matches Err(
                    TokenError::AudienceMismatch { expected, actual },
                ) && expected@ == expected_audience@ && actual@ == claims.aud_raw@,
                ClaimsDecision::Expired => r matches Err(TokenError::Expired(t)) && t
                    == claims.exp,
                ClaimsDecision::IssuedInTheFuture => r matches Err(
                    TokenError::IssuedInTheFuture(t),
                ) && t == claims.iat,
                ClaimsDecision::IssuedTooFarInThePast => r matches Err(
                    TokenError::IssuedTooFarInThePast(t),
                ) && t == claims.iat,
                ClaimsDecision::Accept => r is Ok,
            }
        }),
{
    let iss_expected: String = expected_issuer.to_owned();
    if !(claims.iss == iss_expected) {
        return Err(TokenError::IssuerMismatch {
            expected: expected_issuer.to_owned(),
            actual: claims.iss.clone(),
        });
    }
    let aud_expected: String = expected_audience.to_owned();
    let n: usize = claims.aud.len();
    let mut found: bool = false;
    let mut i: usize = 0;
    while i < n
        invariant
            0 <= i <= n,
            n == claims.aud@.len(),
            aud_expected@ == expected_audience@,
            found <==> exists|j: int| 0 <= j < i && claims.aud.deep_view()[j] == expected_audience@,
        decreases n - i,
    {
        if !found && claims.aud[i] == aud_expected {
            proof {
                assert(claims.aud.deep_view()[i as int] == claims.aud@[i as int]@);
            }
            found = true;
        }
        i = i + 1;
    }
    if !found {
        proof {
            assert(!aud_matches(claims.aud.deep_view(), expected_audience@));
        }
        return Err(TokenError::AudienceMismatch {
            expected: expected_audience.to_owned(),
            actual: claims.aud_raw.clone(),
        });
    }
    if claims.exp <= now {
        return Err(TokenError::Expired(claims.exp));
    }
    if (claims.iat as i128) > (now as i128) + (max_future_skew as i128) {
        return Err(TokenError::IssuedInTheFuture(claims.iat));
    }
    if (claims.iat as i128) < (now as i128) - (max_age as i128) {
        return Err(TokenError::IssuedTooFarInThePast(claims.iat));
    }
    Ok(())
}

} // verus!
