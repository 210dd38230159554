//! Challenge generation for the authorization flow: random `state` and PKCE
//! `code_verifier` strings drawn from the unreserved character set, and the
//! derived `code_challenge` = base64url-without-padding of the SHA-256 digest
//! of the verifier.

use vstd::prelude::*;

use crate::bytes::ascii_str_of;
use crate::bytes::is_ascii_bytes;
use crate::pct::is_unreserved_byte;
use vstd::string::StrSliceExecFns;
use vstd::string::StringSliceAdditionalSpecFns;

use base64::Engine;
use sha2::Digest;

verus! {

/// The SHA-256 digest of a byte sequence.
pub uninterp spec fn sha256_of(data: Seq<u8>) -> Seq<u8>;

/// Relies on sha2's SHA-256: the digest is a function of the input alone and
/// is exactly 32 bytes long.
#[verifier::external_body]
pub(crate) fn sha256_bytes(data: &[u8]) -> (r: Vec<u8>)
    ensures
        r@ == sha256_of(data@),
        r@.len() == 32,
{
    sha2::Sha256::digest(data).to_vec()
}

/// A byte of the base64url alphabet: `A-Z a-z 0-9 - _`.
pub open spec fn is_b64url_byte(b: u8) -> bool {
    ||| 0x41 <= b <= 0x5a
    ||| 0x61 <= b <= 0x7a
    ||| 0x30 <= b <= 0x39
    ||| b == 0x2d
    ||| b == 0x5f
}

/// The base64url encoding, without padding, of a byte sequence.
pub uninterp spec fn b64url_nopad_of(data: Seq<u8>) -> Seq<u8>;

/// Relies on base64's `URL_SAFE_NO_PAD` engine: the encoding is a function of
/// the bytes alone, four output characters per three input bytes (rounded up
/// per byte), all drawn from the base64url alphabet.
#[verifier::external_body]
pub(crate) fn b64url_encode(data: &[u8]) -> (r: Vec<u8>)
    ensures
        r@ == b64url_nopad_of(data@),
        r@.len() == (4 * data@.len() + 2) / 3,
        forall|i: int| 0 <= i < r@.len() ==> is_b64url_byte(r@[i]),
{
    base64::engine::general_purpose::URL_SAFE_NO_PAD.encode(data).into_bytes()
}

/// Relies on base64's `URL_SAFE_NO_PAD` engine: decoding succeeds exactly on
/// canonical unpadded base64url text, and returns the bytes whose encoding
/// the input is.
#[verifier::external_body]
pub(crate) fn b64url_decode(data: &[u8]) -> (r: Result<Vec<u8>, String>)
    ensures
        match r {
            Ok(b) => data@ == b64url_nopad_of(b@),
            Err(_) => !(exists|b: Seq<u8>| data@ == b64url_nopad_of(b)),
        },
{
    match base64::engine::general_purpose::URL_SAFE_NO_PAD.decode(data) {
        Ok(v) => Ok(v),
        Err(e) => Err(format!("{}", e)),
    }
}

/// Relies on rand's thread-local generator, which rand documents as
/// cryptographically secure: fills a fresh buffer of `n` bytes. Nothing is
/// promised of the values; an exhausted operating-system randomness source
/// aborts, which the flow treats as unrecoverable.
#[verifier::external_body]
pub(crate) fn random_bytes(n: usize) -> (r: Vec<u8>)
    ensures
        r@.len() == n,
{
    let mut v = vec![0u8; n];
    rand::Rng::fill_bytes(&mut rand::rng(), &mut v);
    v
}

/// A character of the unreserved set: `A-Z a-z 0-9 - . _ ~`.
pub open spec fn is_unreserved_char(c: char) -> bool {
    (c as u32) < 0x80 && is_unreserved_byte(c as u8)
}

/// A random string of `len` unreserved characters.
fn random_unreserved_string(len: usize) -> (r: String)
    ensures
        r@.len() == len,
        forall|i: int| 0 <= i < r@.len() ==> is_unreserved_char(r@[i]),
{
    let raw: Vec<u8> = random_bytes(len);
    let mut out: Vec<u8> = Vec::new();
    let mut i: usize = 0;
    while i < len
        invariant
            0 <= i <= len,
            raw@.len() == len,
            out@.len() == i,
            forall|j: int| 0 <= j < i ==> is_unreserved_byte(out@[j]),
        decreases len - i,
    {
        let x: u8 = raw[i] % 66;
        let b: u8 = if x < 26 {
            0x41 + x
        } else if x < 52 {
            0x61 + (x - 26)
        } else if x < 62 {
            0x30 + (x - 52)
        } else if x == 62 {
            0x2d
        } else if x == 63 {
            0x2e
        } else if x == 64 {
            0x5f
        } else {
            0x7e
        };
        out.push(b);
        i = i + 1;
    }
    let r = crate::bytes::bytes_to_string_lossy(out.as_slice());
    proof {
        assert(is_ascii_bytes(out@));
        assert(r@ =~= ascii_str_of(out@));
    }
    r
}

/// Generates an opaque random `state` of `len` unreserved characters; the
/// default entropy floor asks for at least 32.
pub fn generate_state(len: usize) -> (r: String)
    requires
        len >= 32,
    ensures
        r@.len() == len,
        forall|i: int| 0 <= i < r@.len() ==> is_unreserved_char(r@[i]),
{
    random_unreserved_string(len)
}

/// Generates a PKCE `code_verifier` of `len` unreserved characters, with
/// `len` in the range 43 to 128 that PKCE prescribes.
pub fn generate_code_verifier(len: usize) -> (r: String)
    requires
        43 <= len <= 128,
    ensures
        r@.len() == len,
        forall|i: int| 0 <= i < r@.len() ==> is_unreserved_char(r@[i]),
{
    random_unreserved_string(len)
}

/// The code challenge derived from verifier bytes: base64url without padding
/// of the SHA-256 digest.
pub open spec fn code_challenge_of(verifier: Seq<u8>) -> Seq<u8> {
    b64url_nopad_of(sha256_of(verifier))
}

/// Derives the PKCE `code_challenge` from a `code_verifier`:
/// base64url-without-padding of the SHA-256 digest of the verifier's bytes.
pub fn generate_code_challenge(verifier: &str) -> (r: String)
    ensures
        r@ == ascii_str_of(code_challenge_of(verifier.spec_bytes())),
        r@.len() == 43,
{
    let vb: Vec<u8> = verifier.as_bytes_vec();
    let digest: Vec<u8> = sha256_bytes(vb.as_slice());
    let encoded: Vec<u8> = b64url_encode(digest.as_slice());
    let r = crate::bytes::bytes_to_string_lossy(encoded.as_slice());
    proof {
        assert(is_ascii_bytes(encoded@));
    }
    r
}

/// Deriving the code challenge is deterministic: any two derivations from
/// the same verifier bytes agree, so re-deriving it is idempotent.
pub proof fn lemma_code_challenge_deterministic(verifier: Seq<u8>, c1: Seq<u8>, c2: Seq<u8>)
    requires
        c1 == code_challenge_of(verifier),
        c2 == code_challenge_of(verifier),
    ensures
        c1 == c2,
{
}

} // verus!
