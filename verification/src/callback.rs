//! Validation of the redirect callback: extracting the authorization `code`
//! from the callback URI after checking, in a fixed order, that a code is
//! present, that the echoed `state` equals the expected one, and that the
//! callback's scheme, host and path equal the registered redirect URI.
//!
//! Validation is pure: it performs no I/O, and a rejected callback never
//! reaches the token endpoint.

use vstd::prelude::*;

use crate::bytes::bytes_eq;
use crate::bytes::bytes_to_string_lossy;
use crate::bytes::find_byte;
use crate::bytes::find_idx;
use crate::bytes::lemma_find_idx;
use crate::bytes::utf8_lossy_of;
use crate::errors::CallbackError;
use crate::query::lookup_query_param;
use crate::query::query_param;
use vstd::string::StrSliceExecFns;
use vstd::string::StringSliceAdditionalSpecFns;

verus! {

/// The scheme+host+path part of a URI: everything before the first `?`.
pub open spec fn callback_base(u: Seq<u8>) -> Seq<u8> {
    u.take(find_idx(u, 0x3f))
}

/// The query part of a URI: between the first `?` and the following `#`,
/// empty when there is no `?`.
pub open spec fn callback_query(u: Seq<u8>) -> Seq<u8> {
    if find_idx(u, 0x3f) == u.len() {
        Seq::empty()
    } else {
        let rest = u.skip(find_idx(u, 0x3f) + 1);
        rest.take(find_idx(rest, 0x23))
    }
}

/// The bytes of the `code` parameter name.
pub open spec fn code_key() -> Seq<u8> {
    "code".spec_bytes()
}

/// The bytes of the `state` parameter name.
pub open spec fn state_key() -> Seq<u8> {
    "state".spec_bytes()
}

/// What the callback validator decides for a callback URI `u`, an expected
/// `state` and a registered redirect URI, in this order: a missing `code`
/// rejects first, then a `state` mismatch, then a redirect mismatch.
pub ghost enum CallbackDecision {
    /// No `code` parameter is present.
    MissingCode,
    /// The `state` parameter (if any) differs from the expected state.
    StateMismatch(Option<Seq<u8>>),
    /// The callback's scheme+host+path differ from the redirect URI.
    UriMismatch,
    /// The callback is accepted and this authorization code extracted.
    Accept(Seq<u8>),
}

/// The decision for callback URI bytes `u`, expected state bytes
/// `expected_state` and redirect URI bytes `redirect`.
pub open spec fn callback_decision(u: Seq<u8>, expected_state: Seq<u8>, redirect: Seq<u8>) -> CallbackDecision {
    let q = callback_query(u);
    match query_param(q, code_key()) {
        Option::None => CallbackDecision::MissingCode,
        Option::Some(code) => {
            if query_param(q, state_key()) != Option::Some(expected_state) {
                CallbackDecision::StateMismatch(query_param(q, state_key()))
            } else if callback_base(u) != redirect {
                CallbackDecision::UriMismatch
            } else {
                CallbackDecision::Accept(code)
            }
        },
    }
}

/// A callback URI without a `code` parameter is rejected as `MissingCode`,
/// whatever its `state` and redirect parts hold.
pub proof fn lemma_missing_code_rejected_first(u: Seq<u8>, expected_state: Seq<u8>, redirect: Seq<u8>)
    requires
        query_param(callback_query(u), code_key()) is None,
    ensures
        callback_decision(u, expected_state, redirect) is MissingCode,
{
}

/// A callback URI that carries a `code` but echoes a `state` other than the
/// expected one is rejected as `StateMismatch`; it is never accepted, so no
/// authorization code of such a callback ever reaches a token exchange.
pub proof fn lemma_state_mismatch_rejected(u: Seq<u8>, expected_state: Seq<u8>, redirect: Seq<u8>)
    requires
        query_param(callback_query(u), code_key()) is Some,
        query_param(callback_query(u), state_key()) != Option::Some(expected_state),
    ensures
        callback_decision(u, expected_state, redirect) is StateMismatch,
        !(callback_decision(u, expected_state, redirect) is Accept),
{
}

/// Extracts the query part of a URI, as `callback_query` describes it.
fn callback_query_exec(u: &[u8]) -> (r: Vec<u8>)
    ensures
        r@ == callback_query(u@),
{
    proof {
        lemma_find_idx(u@, 0x3f);
    }
    let n: usize = u.len();
    let q: usize = find_byte(u, 0x3f);
    if q == n {
        let r: Vec<u8> = Vec::new();
        proof {
            assert(r@ =~= callback_query(u@));
        }
        r
    } else {
        let rest = vstd::slice::slice_subrange(u, q + 1, n);
        proof {
            assert(rest@ =~= u@.skip(q + 1));
            lemma_find_idx(rest@, 0x23);
        }
        let h: usize = find_byte(rest, 0x23);
        let out = vstd::slice::slice_to_vec(vstd::slice::slice_subrange(rest, 0, h));
        proof {
            assert(rest@.subrange(0, h as int) =~= rest@.take(h as int));
        }
        out
    }
}

/// Extracts the scheme+host+path part of a URI, as `callback_base` describes
/// it.
fn callback_base_exec(u: &[u8]) -> (r: Vec<u8>)
    ensures
        r@ == callback_base(u@),
{
    proof {
        lemma_find_idx(u@, 0x3f);
    }
    let n: usize = u.len();
    let q: usize = find_byte(u, 0x3f);
    let out = vstd::slice::slice_to_vec(vstd::slice::slice_subrange(u, 0, q));
    proof {
        assert(u@.subrange(0, q as int) =~= u@.take(q as int));
    }
    out
}

/// Validates a redirect callback and extracts its authorization code.
///
/// The checks run in the documented order — missing `code`, then `state`
/// equality, then redirect equality — and the first failure rejects the
/// callback. The function is pure: it performs no I/O, so a rejected
/// callback can never have its code exchanged.
pub fn verify_and_parse_code_from_callback_uri(callback_uri: &str, state: &str, redirect_uri: &str) -> (r:
    Result<String, CallbackError>)
    ensures
        ({
            let decision = callback_decision(
                callback_uri.spec_bytes(),
                state.spec_bytes(),
                redirect_uri.spec_bytes(),
            );
            match decision {
                CallbackDecision::MissingCode => r matches Err(CallbackError::MissingCode(m))
                    && m@ == callback_uri@,
                CallbackDecision::StateMismatch(in_uri) => r matches Err(
                    CallbackError::StateMismatch { in_uri: iu, provided },
                ) && iu@ == utf8_lossy_of(
                    match in_uri {
                        Option::Some(v) => v,
                        Option::None => Seq::empty(),
                    },
                ) && provided@ == state@,
                CallbackDecision::UriMismatch => r matches Err(
                    CallbackError::UriMismatch { callback, redirect },
                ) && callback@ == callback_uri@ && redirect@ == redirect_uri@,
                CallbackDecision::Accept(code) => r matches Ok(c) && c@ == utf8_lossy_of(code),
            }
        }),
{
    let cb: Vec<u8> = callback_uri.as_bytes_vec();
    let q: Vec<u8> = callback_query_exec(cb.as_slice());
    let code_name: Vec<u8> = "code".as_bytes_vec();
    let state_name: Vec<u8> = "state".as_bytes_vec();
    match lookup_query_param(q.as_slice(), code_name.as_slice()) {
        Option::None => Err(CallbackError::MissingCode(callback_uri.to_owned())),
        Option::Some(code_bytes) => {
            let expected_state: Vec<u8> = state.as_bytes_vec();
            let st_opt: Option<Vec<u8>> = lookup_query_param(q.as_slice(), state_name.as_slice());
            let state_ok: bool = match &st_opt {
                Option::Some(sv) => bytes_eq(sv.as_slice(), expected_state.as_slice()),
                Option::None => false,
            };
            if !state_ok {
                let in_uri: String = match &st_opt {
                    Option::Some(sv) => bytes_to_string_lossy(sv.as_slice()),
                    Option::None => {
                        let empty: Vec<u8> = Vec::new();
                        bytes_to_string_lossy(empty.as_slice())
                    },
                };
                Err(CallbackError::StateMismatch { in_uri, provided: state.to_owned() })
            } else {
                let base: Vec<u8> = callback_base_exec(cb.as_slice());
                let redirect_bytes: Vec<u8> = redirect_uri.as_bytes_vec();
                if !bytes_eq(base.as_slice(), redirect_bytes.as_slice()) {
                    Err(CallbackError::UriMismatch {
                        callback: callback_uri.to_owned(),
                        redirect: redirect_uri.to_owned(),
                    })
                } else {
                    Ok(bytes_to_string_lossy(code_bytes.as_slice()))
                }
            }
        },
    }
}

} // verus!
