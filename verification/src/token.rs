//! Token-endpoint request bodies and the token response shape. Both
//! exchanges POST an `application/x-www-form-urlencoded` body; the bodies
//! are built here, the POST itself is the caller's transport concern, and
//! the HTTP outcome is classified by `interpret_http_response`.

use vstd::prelude::*;

use crate::bytes::ascii_str_of;
use crate::bytes::bytes_to_string_lossy;
use crate::query::build_query;
use crate::query::build_query_exec;
use crate::query::lemma_build_query_ascii;
use vstd::string::StrSliceExecFns;
use vstd::string::StringSliceAdditionalSpecFns;
use vstd::utf8::encode_utf8;

verus! {

/// A token-endpoint answer: the issued tokens, their type and lifetime.
/// Ephemeral: handed to the caller, not retained.
#[derive(Debug)]
pub struct TokenResponse {
    pub access_token: String,
    pub token_type: String,
    pub expires_in: u64,
    pub id_token: Option<String>,
    pub refresh_token: Option<String>,
}

/// The form pairs of an authorization-code exchange, in their documented
/// order.
pub open spec fn code_exchange_pairs(
    code: Seq<u8>,
    redirect_uri: Seq<u8>,
    client_id: Seq<u8>,
    client_secret: Seq<u8>,
    code_verifier: Seq<u8>,
) -> Seq<(Seq<u8>, Seq<u8>)> {
    seq![
        ("grant_type".spec_bytes(), "authorization_code".spec_bytes()),
        ("code".spec_bytes(), code),
        ("redirect_uri".spec_bytes(), redirect_uri),
        ("client_id".spec_bytes(), client_id),
        ("client_secret".spec_bytes(), client_secret),
        ("code_verifier".spec_bytes(), code_verifier),
    ]
}

/// The form pairs of a refresh-token exchange, in their documented order.
pub open spec fn refresh_exchange_pairs(
    refresh_token: Seq<u8>,
    client_id: Seq<u8>,
    client_secret: Seq<u8>,
) -> Seq<(Seq<u8>, Seq<u8>)> {
    seq![
        ("grant_type".spec_bytes(), "refresh_token".spec_bytes()),
        ("refresh_token".spec_bytes(), refresh_token),
        ("client_id".spec_bytes(), client_id),
        ("client_secret".spec_bytes(), client_secret),
    ]
}

/// The form pairs of a revocation call: the token, and the optional
/// `token_type_hint`.
pub open spec fn revocation_pairs(token: Seq<u8>, hint: Option<Seq<u8>>) -> Seq<
    (Seq<u8>, Seq<u8>),
> {
    match hint {
        Option::Some(h) => seq![
            ("token".spec_bytes(), token),
            ("token_type_hint".spec_bytes(), h),
        ],
        Option::None => seq![("token".spec_bytes(), token)],
    }
}

/// Builds the form body that exchanges an authorization code (with its PKCE
/// verifier) for tokens.
pub fn token_request_body_by_authorization_code(
    code: &str,
    redirect_uri: &str,
    client_id: &str,
    client_secret: &str,
    code_verifier: &str,
) -> (r: String)
    ensures
        r@ == ascii_str_of(
            build_query(
                code_exchange_pairs(
                    encode_utf8(code@),
                    encode_utf8(redirect_uri@),
                    encode_utf8(client_id@),
                    encode_utf8(client_secret@),
                    encode_utf8(code_verifier@),
                ),
            ),
        ),
{
    let ghost spec_pairs = code_exchange_pairs(
        encode_utf8(code@),
        encode_utf8(redirect_uri@),
        encode_utf8(client_id@),
        encode_utf8(client_secret@),
        encode_utf8(code_verifier@),
    );
    let mut pairs: Vec<(Vec<u8>, Vec<u8>)> = Vec::new();
    pairs.push(("grant_type".as_bytes_vec(), "authorization_code".as_bytes_vec()));
    pairs.push(("code".as_bytes_vec(), code.as_bytes_vec()));
    pairs.push(("redirect_uri".as_bytes_vec(), redirect_uri.as_bytes_vec()));
    pairs.push(("client_id".as_bytes_vec(), client_id.as_bytes_vec()));
    pairs.push(("client_secret".as_bytes_vec(), client_secret.as_bytes_vec()));
    pairs.push(("code_verifier".as_bytes_vec(), code_verifier.as_bytes_vec()));
    proof {
        assert(pairs.deep_view() =~~= spec_pairs);
        lemma_build_query_ascii(spec_pairs);
    }
    let qb: Vec<u8> = build_query_exec(&pairs);
    bytes_to_string_lossy(qb.as_slice())
}

/// Builds the form body that exchanges a refresh token for fresh tokens.
pub fn token_request_body_by_refresh_token(
    refresh_token: &str,
    client_id: &str,
    client_secret: &str,
) -> (r: String)
    ensures
        r@ == ascii_str_of(
            build_query(
                refresh_exchange_pairs(
                    encode_utf8(refresh_token@),
                    encode_utf8(client_id@),
                    encode_utf8(client_secret@),
                ),
            ),
        ),
{
    let ghost spec_pairs = refresh_exchange_pairs(
        encode_utf8(refresh_token@),
        encode_utf8(client_id@),
        encode_utf8(client_secret@),
    );
    let mut pairs: Vec<(Vec<u8>, Vec<u8>)> = Vec::new();
    pairs.push(("grant_type".as_bytes_vec(), "refresh_token".as_bytes_vec()));
    pairs.push(("refresh_token".as_bytes_vec(), refresh_token.as_bytes_vec()));
    pairs.push(("client_id".as_bytes_vec(), client_id.as_bytes_vec()));
    pairs.push(("client_secret".as_bytes_vec(), client_secret.as_bytes_vec()));
    proof {
        assert(pairs.deep_view() =~~= spec_pairs);
        lemma_build_query_ascii(spec_pairs);
    }
    let qb: Vec<u8> = build_query_exec(&pairs);
    bytes_to_string_lossy(qb.as_slice())
}

/// Builds the form body of a revocation call for a token, with an optional
/// `token_type_hint`.
pub fn revocation_request_body(token: &str, token_type_hint: Option<&str>) -> (r: String)
    ensures
        r@ == ascii_str_of(
            build_query(
                revocation_pairs(
                    encode_utf8(token@),
                    match token_type_hint {
                        Option::Some(h) => Option::Some(encode_utf8(h@)),
                        Option::None => Option::None,
                    },
                ),
            ),
        ),
{
    let ghost spec_pairs = revocation_pairs(
        encode_utf8(token@),
        match token_type_hint {
            Option::Some(h) => Option::Some(encode_utf8(h@)),
            Option::None => Option::None,
        },
    );
    let mut pairs: Vec<(Vec<u8>, Vec<u8>)> = Vec::new();
    pairs.push(("token".as_bytes_vec(), token.as_bytes_vec()));
    match token_type_hint {
        Option::Some(h) => {
            pairs.push(("token_type_hint".as_bytes_vec(), h.as_bytes_vec()));
        },
        Option::None => {},
    }
    proof {
        assert(pairs.deep_view() =~~= spec_pairs);
        lemma_build_query_ascii(spec_pairs);
    }
    let qb: Vec<u8> = build_query_exec(&pairs);
    bytes_to_string_lossy(qb.as_slice())
}

} // verus!
