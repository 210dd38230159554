use base64::Engine;
use logto_core::callback::verify_and_parse_code_from_callback_uri;
use logto_core::challenge::generate_code_challenge;
use logto_core::challenge::generate_code_verifier;
use logto_core::challenge::generate_state;
use logto_core::errors::CallbackError;
use logto_core::errors::Error;
use logto_core::errors::TokenError;
use logto_core::idtoken::decode_id_token;
use logto_core::idtoken::verify_id_token_claims;
use logto_core::idtoken::IdTokenClaims;
use logto_core::oidc_config::interpret_http_response;
use logto_core::oidc_config::interpret_revocation_response;
use logto_core::oidc_config::OidcConfigResponse;
use logto_core::signin::generate_sign_in_uri;
use logto_core::token::revocation_request_body;
use logto_core::token::token_request_body_by_authorization_code;
use logto_core::token::token_request_body_by_refresh_token;

fn is_unreserved(c: char) -> bool {
    c.is_ascii_alphanumeric() || c == '-' || c == '.' || c == '_' || c == '~'
}

#[test]
fn code_challenge_matches_pkce_reference_vector() {
    // the verifier/challenge pair from the PKCE specification's example
    let verifier = "dBjftJeZ4CVP-mB92K27uhbUJU1p1r_wW1gFWFOEjXk";
    let challenge = generate_code_challenge(verifier);
    assert_eq!(challenge, "E9Melhoa2OwvFrEMTJguCHaoeK1t8URWbuGJSstw-cM");
}

#[test]
fn code_challenge_rederivation_is_idempotent() {
    let verifier = generate_code_verifier(43);
    let first = generate_code_challenge(&verifier);
    let second = generate_code_challenge(&verifier);
    assert_eq!(first, second);
    assert_eq!(first.len(), 43);
}

#[test]
fn generated_state_has_length_and_charset() {
    let state = generate_state(32);
    assert_eq!(state.len(), 32);
    assert!(state.chars().all(is_unreserved));
    let other = generate_state(32);
    assert_ne!(state, other);
}

#[test]
fn generated_code_verifier_has_length_and_charset() {
    let verifier = generate_code_verifier(128);
    assert_eq!(verifier.len(), 128);
    assert!(verifier.chars().all(is_unreserved));
}

#[test]
fn callback_accepts_matching_state_and_redirect() {
    let r = verify_and_parse_code_from_callback_uri(
        "https://app.example/cb?code=abc123&state=xyz",
        "xyz",
        "https://app.example/cb",
    );
    assert_eq!(r.unwrap(), "abc123");
}

#[test]
fn callback_percent_decodes_code_and_state() {
    let r = verify_and_parse_code_from_callback_uri(
        "https://app.example/cb?code=a%2Fb%20c&state=a+b",
        "a b",
        "https://app.example/cb",
    );
    assert_eq!(r.unwrap(), "a/b c");
}

#[test]
fn callback_missing_code_rejected_before_state_check() {
    // the state in this callback is wrong too; the missing code is reported
    let r = verify_and_parse_code_from_callback_uri(
        "https://app.example/cb?state=wrong",
        "xyz",
        "https://app.example/cb",
    );
    match r {
        Err(CallbackError::MissingCode(uri)) => {
            assert_eq!(uri, "https://app.example/cb?state=wrong");
        }
        other => panic!("expected MissingCode, got {:?}", other),
    }
}

#[test]
fn callback_state_mismatch_rejected() {
    let r = verify_and_parse_code_from_callback_uri(
        "https://app.example/cb?code=abc&state=evil",
        "xyz",
        "https://app.example/cb",
    );
    match r {
        Err(CallbackError::StateMismatch { in_uri, provided }) => {
            assert_eq!(in_uri, "evil");
            assert_eq!(provided, "xyz");
        }
        other => panic!("expected StateMismatch, got {:?}", other),
    }
}

#[test]
fn callback_absent_state_is_a_mismatch() {
    let r = verify_and_parse_code_from_callback_uri(
        "https://app.example/cb?code=abc",
        "xyz",
        "https://app.example/cb",
    );
    match r {
        Err(CallbackError::StateMismatch { in_uri, provided }) => {
            assert_eq!(in_uri, "");
            assert_eq!(provided, "xyz");
        }
        other => panic!("expected StateMismatch, got {:?}", other),
    }
}

#[test]
fn callback_redirect_mismatch_rejected() {
    let r = verify_and_parse_code_from_callback_uri(
        "https://evil.example/cb?code=abc&state=xyz",
        "xyz",
        "https://app.example/cb",
    );
    match r {
        Err(CallbackError::UriMismatch { callback, redirect }) => {
            assert_eq!(callback, "https://evil.example/cb?code=abc&state=xyz");
            assert_eq!(redirect, "https://app.example/cb");
        }
        other => panic!("expected UriMismatch, got {:?}", other),
    }
}

fn claims(iss: &str, aud: Vec<&str>, aud_raw: &str, iat: i64, exp: i64) -> IdTokenClaims {
    IdTokenClaims {
        iss: iss.to_string(),
        sub: "subject-1".to_string(),
        aud: aud.into_iter().map(|a| a.to_string()).collect(),
        aud_raw: aud_raw.to_string(),
        iat,
        exp,
    }
}

#[test]
fn expired_token_reports_exact_expiry() {
    let c = claims("https://idp.example/oidc", vec!["abc"], "abc", 900, 1000);
    let r = verify_id_token_claims(&c, "https://idp.example/oidc", "abc", 1000, 60, 86400);
    match r {
        Err(TokenError::Expired(t)) => assert_eq!(t, 1000),
        other => panic!("expected Expired, got {:?}", other),
    }
}

#[test]
fn audience_mismatch_reports_raw_multi_valued_claim() {
    let c = claims(
        "https://idp.example/oidc",
        vec!["first", "second"],
        "[\"first\",\"second\"]",
        900,
        2000,
    );
    let r = verify_id_token_claims(&c, "https://idp.example/oidc", "abc", 1000, 60, 86400);
    match r {
        Err(TokenError::AudienceMismatch { expected, actual }) => {
            assert_eq!(expected, "abc");
            assert_eq!(actual, "[\"first\",\"second\"]");
        }
        other => panic!("expected AudienceMismatch, got {:?}", other),
    }
}

#[test]
fn audience_accepts_any_matching_list_entry() {
    let c = claims(
        "https://idp.example/oidc",
        vec!["other", "abc"],
        "[\"other\",\"abc\"]",
        900,
        2000,
    );
    let r = verify_id_token_claims(&c, "https://idp.example/oidc", "abc", 1000, 60, 86400);
    assert!(r.is_ok());
}

#[test]
fn issuer_mismatch_takes_precedence_over_audience() {
    let c = claims("https://rogue.example", vec!["zzz"], "zzz", 900, 100);
    let r = verify_id_token_claims(&c, "https://idp.example/oidc", "abc", 1000, 60, 86400);
    match r {
        Err(TokenError::IssuerMismatch { expected, actual }) => {
            assert_eq!(expected, "https://idp.example/oidc");
            assert_eq!(actual, "https://rogue.example");
        }
        other => panic!("expected IssuerMismatch, got {:?}", other),
    }
}

#[test]
fn token_issued_in_the_future_rejected() {
    let c = claims("https://idp.example/oidc", vec!["abc"], "abc", 1100, 2000);
    let r = verify_id_token_claims(&c, "https://idp.example/oidc", "abc", 1000, 60, 86400);
    match r {
        Err(TokenError::IssuedInTheFuture(t)) => assert_eq!(t, 1100),
        other => panic!("expected IssuedInTheFuture, got {:?}", other),
    }
}

#[test]
fn token_issued_too_far_in_the_past_rejected() {
    let c = claims("https://idp.example/oidc", vec!["abc"], "abc", 100, 2000000);
    let r = verify_id_token_claims(&c, "https://idp.example/oidc", "abc", 1000000, 60, 86400);
    match r {
        Err(TokenError::IssuedTooFarInThePast(t)) => assert_eq!(t, 100),
        other => panic!("expected IssuedTooFarInThePast, got {:?}", other),
    }
}

#[test]
fn fresh_token_with_matching_claims_accepted() {
    let c = claims("https://idp.example/oidc", vec!["abc"], "abc", 990, 2000);
    let r = verify_id_token_claims(&c, "https://idp.example/oidc", "abc", 1000, 60, 86400);
    assert!(r.is_ok());
}

#[test]
fn decode_id_token_round_trips_segments() {
    let engine = &base64::engine::general_purpose::URL_SAFE_NO_PAD;
    let header = b"{\"alg\":\"RS256\",\"kid\":\"k1\"}";
    let payload = b"{\"iss\":\"https://idp.example/oidc\",\"sub\":\"s\"}";
    let signature: &[u8] = &[0xde, 0xad, 0xbe, 0xef];
    let token = format!(
        "{}.{}.{}",
        engine.encode(header),
        engine.encode(payload),
        engine.encode(signature)
    );
    let d = decode_id_token(&token).unwrap();
    assert_eq!(d.header, header.to_vec());
    assert_eq!(d.payload, payload.to_vec());
    assert_eq!(d.signature, signature.to_vec());
}

#[test]
fn decode_id_token_rejects_wrong_segment_count() {
    match decode_id_token("only.two") {
        Err(Error::Decode(_)) => {}
        other => panic!("expected Decode error, got {:?}", other),
    }
}

#[test]
fn decode_id_token_rejects_bad_base64() {
    match decode_id_token("$$$.e30.e30") {
        Err(Error::Base64(_)) => {}
        other => panic!("expected Base64 error, got {:?}", other),
    }
}

#[test]
fn sign_in_uri_carries_documented_parameters() {
    let scopes = vec!["openid".to_string(), "profile".to_string()];
    let extras: Vec<(String, String)> = Vec::new();
    let uri = generate_sign_in_uri(
        "https://idp.example/authorize",
        "abc",
        "https://app.example/cb",
        &scopes,
        "st123",
        "ch456",
        &extras,
    )
    .unwrap();
    assert!(uri.starts_with("https://idp.example/authorize?"));
    assert!(uri.contains("response_type=code&client_id=abc&redirect_uri=https%3A%2F%2Fapp.example%2Fcb&scope=openid%20profile"));
    assert!(uri.contains("code_challenge_method=S256"));
    assert!(uri.contains("state=st123"));
    assert!(uri.contains("code_challenge=ch456"));
}

#[test]
fn sign_in_uri_appends_extra_parameters_and_rejects_bad_endpoint() {
    let scopes = vec!["openid".to_string()];
    let extras = vec![("prompt".to_string(), "consent login".to_string())];
    let uri = generate_sign_in_uri(
        "https://idp.example/authorize",
        "abc",
        "https://app.example/cb",
        &scopes,
        "st",
        "ch",
        &extras,
    )
    .unwrap();
    assert!(uri.ends_with("&prompt=consent%20login"));

    let bad = generate_sign_in_uri(
        "not a uri",
        "abc",
        "https://app.example/cb",
        &scopes,
        "st",
        "ch",
        &extras,
    );
    match bad {
        Err(Error::Uri(m)) => assert_eq!(m, "not a uri"),
        other => panic!("expected Uri error, got {:?}", other),
    }
}

fn discovery_document() -> String {
    [
        "{",
        "\"authorization_endpoint\":\"https://idp.example/oidc/authorize\",",
        "\"token_endpoint\":\"https://idp.example/oidc/token\",",
        "\"end_session_endpoint\":\"https://idp.example/oidc/logout\",",
        "\"revocation_endpoint\":\"https://idp.example/oidc/revoke\",",
        "\"jwks_uri\":\"https://idp.example/oidc/jwks\",",
        "\"issuer\":\"https://idp.example/oidc\"",
        "}",
    ]
    .concat()
}

fn parse_discovery(doc: &str) -> Result<OidcConfigResponse, String> {
    let v: serde_json::Value = serde_json::from_str(doc).map_err(|e| e.to_string())?;
    let field = |name: &str| -> Result<String, String> {
        v.get(name)
            .and_then(|f| f.as_str())
            .map(|s| s.to_string())
            .ok_or_else(|| format!("missing field {}", name))
    };
    OidcConfigResponse::new(
        field("authorization_endpoint")?,
        field("token_endpoint")?,
        field("end_session_endpoint")?,
        field("revocation_endpoint")?,
        field("jwks_uri")?,
        field("issuer")?,
    )
    .map_err(|e| format!("{:?}", e))
}

#[test]
fn discovery_document_round_trips_field_for_field() {
    let cfg = parse_discovery(&discovery_document()).unwrap();
    assert_eq!(cfg.authorization_endpoint, "https://idp.example/oidc/authorize");
    assert_eq!(cfg.token_endpoint, "https://idp.example/oidc/token");
    assert_eq!(cfg.end_session_endpoint, "https://idp.example/oidc/logout");
    assert_eq!(cfg.revocation_endpoint, "https://idp.example/oidc/revoke");
    assert_eq!(cfg.jwks_uri, "https://idp.example/oidc/jwks");
    assert_eq!(cfg.issuer, "https://idp.example/oidc");
}

#[test]
fn discovery_rejects_non_absolute_endpoint() {
    let r = OidcConfigResponse::new(
        "https://idp.example/oidc/authorize".to_string(),
        "not a uri".to_string(),
        "https://idp.example/oidc/logout".to_string(),
        "https://idp.example/oidc/revoke".to_string(),
        "https://idp.example/oidc/jwks".to_string(),
        "https://idp.example/oidc".to_string(),
    );
    match r {
        Err(Error::Uri(m)) => assert_eq!(m, "not a uri"),
        other => panic!("expected Uri error, got {:?}", other),
    }
}

#[test]
fn discovery_status_500_is_a_transport_error() {
    let body: Result<OidcConfigResponse, String> = Err("never decoded".to_string());
    match interpret_http_response(500, body) {
        Err(Error::Transport { status }) => assert_eq!(status, 500),
        other => panic!("expected Transport error, got {:?}", other),
    }
}

#[test]
fn discovery_garbage_body_is_a_decode_error_not_transport() {
    let decode_failure = parse_discovery("not json").unwrap_err();
    let body: Result<OidcConfigResponse, String> = Err(decode_failure);
    match interpret_http_response(200, body) {
        Err(Error::Decode(_)) => {}
        other => panic!("expected Decode error, got {:?}", other),
    }
}

#[test]
fn discovery_success_passes_configuration_through() {
    let cfg = parse_discovery(&discovery_document()).unwrap();
    let expected_issuer = cfg.issuer.clone();
    match interpret_http_response(200, Ok(cfg)) {
        Ok(c) => assert_eq!(c.issuer, expected_issuer),
        other => panic!("expected success, got {:?}", other),
    }
}

#[test]
fn authorization_code_exchange_body_is_exact() {
    let body = token_request_body_by_authorization_code(
        "authcode",
        "https://app.example/cb",
        "abc",
        "s3cr3t",
        "ver123",
    );
    assert_eq!(
        body,
        "grant_type=authorization_code&code=authcode&redirect_uri=https%3A%2F%2Fapp.example%2Fcb&client_id=abc&client_secret=s3cr3t&code_verifier=ver123"
    );
}

#[test]
fn refresh_token_exchange_body_is_exact() {
    let body = token_request_body_by_refresh_token("rt1", "abc", "s3cr3t");
    assert_eq!(body, "grant_type=refresh_token&refresh_token=rt1&client_id=abc&client_secret=s3cr3t");
}

#[test]
fn revocation_body_with_and_without_hint() {
    assert_eq!(
        revocation_request_body("tok", Some("refresh_token")),
        "token=tok&token_type_hint=refresh_token"
    );
    assert_eq!(revocation_request_body("tok", None), "token=tok");
}

#[test]
fn revocation_status_classification() {
    assert!(interpret_revocation_response(200).is_ok());
    match interpret_revocation_response(503) {
        Err(Error::Transport { status }) => assert_eq!(status, 503),
        other => panic!("expected Transport error, got {:?}", other),
    }
}
