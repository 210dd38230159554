//! Construction of the authorization (sign-in) URI from discovery data,
//! client configuration and generated challenge values. The query carries,
//! in order, `response_type=code`, `client_id`, `redirect_uri`, `scope`
//! (space-joined), `state`, `code_challenge`, `code_challenge_method=S256`,
//! and any extra parameters; every key and value is percent-encoded. No
//! network I/O happens here.

use vstd::prelude::*;

use crate::bytes::ascii_str_of;
use crate::bytes::bytes_to_string_lossy;
use crate::bytes::is_ascii_bytes;
use crate::bytes::push_bytes;
use crate::errors::Error;
use crate::query::build_query;
use crate::query::build_query_exec;
use crate::query::lemma_build_query_ascii;
use crate::uri::check_absolute_uri;
use crate::uri::is_absolute_uri;
use vstd::string::StrSliceExecFns;
use vstd::string::StringSliceAdditionalSpecFns;
use vstd::utf8::encode_utf8;

verus! {

/// Scopes joined with a single space between them.
pub open spec fn join_scopes(scopes: Seq<Seq<u8>>) -> Seq<u8>
    decreases scopes.len(),
{
    if scopes.len() == 0 {
        Seq::empty()
    } else if scopes.len() == 1 {
        scopes[0]
    } else {
        scopes[0] + seq![0x20u8] + join_scopes(scopes.skip(1))
    }
}

/// The UTF-8 bytes of each scope string.
pub open spec fn scopes_bytes(scopes: Seq<Seq<char>>) -> Seq<Seq<u8>> {
    scopes.map_values(|s: Seq<char>| encode_utf8(s))
}

/// The UTF-8 bytes of each key/value pair of strings.
pub open spec fn pairs_bytes(ps: Seq<(Seq<char>, Seq<char>)>) -> Seq<(Seq<u8>, Seq<u8>)> {
    ps.map_values(|p: (Seq<char>, Seq<char>)| (encode_utf8(p.0), encode_utf8(p.1)))
}

/// The decoded query pairs of a sign-in URI, in their documented order,
/// followed by the extra parameters.
pub open spec fn sign_in_pairs(
    client_id: Seq<u8>,
    redirect: Seq<u8>,
    scope: Seq<u8>,
    state: Seq<u8>,
    challenge: Seq<u8>,
    extras: Seq<(Seq<u8>, Seq<u8>)>,
) -> Seq<(Seq<u8>, Seq<u8>)> {
    seq![
        ("response_type".spec_bytes(), "code".spec_bytes()),
        ("client_id".spec_bytes(), client_id),
        ("redirect_uri".spec_bytes(), redirect),
        ("scope".spec_bytes(), scope),
        ("state".spec_bytes(), state),
        ("code_challenge".spec_bytes(), challenge),
        ("code_challenge_method".spec_bytes(), "S256".spec_bytes()),
    ] + extras
}

/// Joins scopes with spaces, as `join_scopes` describes it.
pub fn join_scopes_exec(scopes: &Vec<String>) -> (r: Vec<u8>)
    ensures
        r@ == join_scopes(scopes_bytes(scopes.deep_view())),
{
    let ghost ss = scopes_bytes(scopes.deep_view());
    let n: usize = scopes.len();
    let mut r: Vec<u8> = Vec::new();
    let mut i: usize = 0;
    proof {
        assert(ss.skip(0) =~= ss);
        if n == 0 {
            assert(r@ =~= join_scopes(ss));
        }
    }
    while i < n
        invariant
            0 <= i <= n,
            n == scopes@.len(),
            ss == scopes_bytes(scopes.deep_view()),
            ss.len() == n,
            r@ + join_scopes(ss.skip(i as int)) == join_scopes(ss),
            i == n ==> r@ == join_scopes(ss),
        decreases n - i,
    {
        let ghost r0 = r@;
        let sb: Vec<u8> = scopes[i].as_str().as_bytes_vec();
        push_bytes(&mut r, sb.as_slice());
        proof {
            assert(scopes.deep_view()[i as int] == scopes@[i as int]@);
            assert(ss[i as int] == encode_utf8(scopes.deep_view()[i as int]));
            assert(ss.skip(i as int)[0] == ss[i as int]);
            assert(sb@ == ss[i as int]);
        }
        if i + 1 < n {
            r.push(0x20);
            proof {
                assert(ss.skip(i as int).skip(1) =~= ss.skip(i + 1));
                assert(r@ =~= r0 + (ss[i as int] + seq![0x20u8]));
                assert(r@ + join_scopes(ss.skip(i + 1)) =~= r0 + join_scopes(ss.skip(i as int)));
            }
        } else {
            proof {
                assert(ss.skip(i as int).len() == 1);
                assert(join_scopes(ss.skip(i as int)) == ss.skip(i as int)[0]);
                assert(r@ =~= r0 + join_scopes(ss.skip(i as int)));
                assert(r@ =~= join_scopes(ss));
            }
        }
        i = i + 1;
    }
    r
}

/// Builds the sign-in URI: the authorization endpoint, `?`, and the built
/// query of `sign_in_pairs`. Fails with a URI error, carrying the offending
/// value, exactly when the endpoint is not an absolute URI.
pub fn generate_sign_in_uri(
    authorization_endpoint: &str,
    client_id: &str,
    redirect_uri: &str,
    scopes: &Vec<String>,
    state: &str,
    code_challenge: &str,
    extra_params: &Vec<(String, String)>,
) -> (r: Result<String, Error>)
    ensures
        ({
            let ep = authorization_endpoint.spec_bytes();
            let pairs = sign_in_pairs(
                encode_utf8(client_id@),
                encode_utf8(redirect_uri@),
                join_scopes(scopes_bytes(scopes.deep_view())),
                encode_utf8(state@),
                encode_utf8(code_challenge@),
                pairs_bytes(extra_params.deep_view()),
            );
            if is_absolute_uri(ep) {
                r matches Ok(u) && u@ == ascii_str_of(ep + seq![0x3fu8] + build_query(pairs))
            } else {
                r matches Err(Error::Uri(m)) && m@ == authorization_endpoint@
            }
        }),
{
    let ghost spec_pairs = sign_in_pairs(
        encode_utf8(client_id@),
        encode_utf8(redirect_uri@),
        join_scopes(scopes_bytes(scopes.deep_view())),
        encode_utf8(state@),
        encode_utf8(code_challenge@),
        pairs_bytes(extra_params.deep_view()),
    );
    let epb: Vec<u8> = authorization_endpoint.as_bytes_vec();
    if !check_absolute_uri(epb.as_slice()) {
        return Err(Error::Uri(authorization_endpoint.to_owned()));
    }
    let mut pairs: Vec<(Vec<u8>, Vec<u8>)> = Vec::new();
    pairs.push(("response_type".as_bytes_vec(), "code".as_bytes_vec()));
    pairs.push(("client_id".as_bytes_vec(), client_id.as_bytes_vec()));
    pairs.push(("redirect_uri".as_bytes_vec(), redirect_uri.as_bytes_vec()));
    pairs.push(("scope".as_bytes_vec(), join_scopes_exec(scopes)));
    pairs.push(("state".as_bytes_vec(), state.as_bytes_vec()));
    pairs.push(("code_challenge".as_bytes_vec(), code_challenge.as_bytes_vec()));
    pairs.push(("code_challenge_method".as_bytes_vec(), "S256".as_bytes_vec()));
    let ghost base7 = pairs.deep_view();
    proof {
        assert(base7 =~~= spec_pairs.take(7));
    }
    let ne: usize = extra_params.len();
    let mut i: usize = 0;
    while i < ne
        invariant
            0 <= i <= ne,
            ne == extra_params@.len(),
            base7 == spec_pairs.take(7),
            spec_pairs.len() == 7 + ne,
            spec_pairs == sign_in_pairs(
                encode_utf8(client_id@),
                encode_utf8(redirect_uri@),
                join_scopes(scopes_bytes(scopes.deep_view())),
                encode_utf8(state@),
                encode_utf8(code_challenge@),
                pairs_bytes(extra_params.deep_view()),
            ),
            pairs.deep_view() == spec_pairs.take(7 + i),
        decreases ne - i,
    {
        let ghost pv0 = pairs.deep_view();
        pairs.push((extra_params[i].0.as_str().as_bytes_vec(), extra_params[i].1.as_str().as_bytes_vec()));
        proof {
            assert(extra_params.deep_view()[i as int].0 == extra_params@[i as int].0@);
            assert(extra_params.deep_view()[i as int].1 == extra_params@[i as int].1@);
            assert(spec_pairs[7 + i] == pairs_bytes(extra_params.deep_view())[i as int]);
            assert(pairs.deep_view() =~~= pv0.push(spec_pairs[7 + i]));
            assert(pairs.deep_view() =~~= spec_pairs.take(7 + i + 1));
        }
        i = i + 1;
    }
    proof {
        assert(pairs.deep_view() =~~= spec_pairs);
    }
    let qb: Vec<u8> = build_query_exec(&pairs);
    let mut out: Vec<u8> = Vec::new();
    push_bytes(&mut out, epb.as_slice());
    out.push(0x3f);
    push_bytes(&mut out, qb.as_slice());
    proof {
        assert(out@ =~= epb@ + seq![0x3fu8] + qb@);
        lemma_build_query_ascii(spec_pairs);
        assert forall|k: int| 0 <= k < out@.len() implies out@[k] < 0x80 by {
            if k < epb@.len() {
                assert(0x21 <= epb@[k] <= 0x7e);
            }
        }
        assert(is_ascii_bytes(out@));
    }
    let u = bytes_to_string_lossy(out.as_slice());
    Ok(u)
}

} // verus!
