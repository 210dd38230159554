//! Query strings in `application/x-www-form-urlencoded` shape: parsing a
//! query into key/value pairs, looking a key up, and building a query from
//! pairs with percent-encoding.

use vstd::prelude::*;

use crate::bytes::find_byte;
use crate::bytes::find_idx;
use crate::bytes::lemma_find_idx;
use crate::bytes::split_bytes;
use crate::bytes::split_on;
use crate::bytes::bytes_eq;
use crate::pct::pct_decode;
use crate::pct::pct_decode_bytes;
use crate::pct::pct_encode;
use crate::pct::pct_encode_bytes;
use crate::bytes::push_bytes;

verus! {

/// The decoded key/value pair of one `key=value` segment; a segment without
/// `=` is a key with an empty value.
pub open spec fn parse_pair(seg: Seq<u8>) -> (Seq<u8>, Seq<u8>) {
    let k = find_idx(seg, 0x3d);
    if k == seg.len() {
        (pct_decode(seg), Seq::empty())
    } else {
        (pct_decode(seg.take(k)), pct_decode(seg.skip(k + 1)))
    }
}

/// The decoded key/value pairs of a query string, in order.
pub open spec fn parse_query_pairs(q: Seq<u8>) -> Seq<(Seq<u8>, Seq<u8>)> {
    split_on(q, 0x26).map_values(|seg: Seq<u8>| parse_pair(seg))
}

/// The value of the first pair whose key is `key`, if any.
pub open spec fn pairs_lookup(pairs: Seq<(Seq<u8>, Seq<u8>)>, key: Seq<u8>) -> Option<Seq<u8>>
    decreases pairs.len(),
{
    if pairs.len() == 0 {
        None
    } else if pairs[0].0 == key {
        Some(pairs[0].1)
    } else {
        pairs_lookup(pairs.skip(1), key)
    }
}

/// The decoded value of query parameter `key` in query string `q`, if present.
pub open spec fn query_param(q: Seq<u8>, key: Seq<u8>) -> Option<Seq<u8>> {
    pairs_lookup(parse_query_pairs(q), key)
}

/// Parses one `key=value` segment, as `parse_pair` describes it.
pub fn parse_pair_exec(seg: &[u8]) -> (r: (Vec<u8>, Vec<u8>))
    ensures
        r.0@ == parse_pair(seg@).0,
        r.1@ == parse_pair(seg@).1,
{
    proof {
        lemma_find_idx(seg@, 0x3d);
    }
    let n: usize = seg.len();
    let k: usize = find_byte(seg, 0x3d);
    if k == n {
        let key = pct_decode_bytes(seg);
        let val: Vec<u8> = Vec::new();
        (key, val)
    } else {
        let key = pct_decode_bytes(vstd::slice::slice_subrange(seg, 0, k));
        let val = pct_decode_bytes(vstd::slice::slice_subrange(seg, k + 1, n));
        proof {
            assert(seg@.subrange(0, k as int) =~= seg@.take(k as int));
            assert(seg@.subrange(k + 1, n as int) =~= seg@.skip(k + 1));
        }
        (key, val)
    }
}

/// Looks up the decoded value of query parameter `key` in query string `q`,
/// as `query_param` describes it.
pub fn lookup_query_param(q: &[u8], key: &[u8]) -> (r: Option<Vec<u8>>)
    ensures
        match r {
            Some(v) => query_param(q@, key@) == Some(v@),
            None => query_param(q@, key@) is None,
        },
{
    let segs: Vec<Vec<u8>> = split_bytes(q, 0x26);
    let ghost pairs = parse_query_pairs(q@);
    proof {
        assert(segs.deep_view().map_values(|seg: Seq<u8>| parse_pair(seg)) =~= pairs);
        assert(pairs.skip(0) =~= pairs);
    }
    let n: usize = segs.len();
    let mut i: usize = 0;
    while i < n
        invariant
            0 <= i <= n,
            n == segs@.len(),
            pairs == parse_query_pairs(q@),
            pairs == segs.deep_view().map_values(|seg: Seq<u8>| parse_pair(seg)),
            pairs_lookup(pairs, key@) == pairs_lookup(pairs.skip(i as int), key@),
        decreases n - i,
    {
        let (k, v) = parse_pair_exec(segs[i].as_slice());
        proof {
            assert(segs.deep_view()[i as int] =~= segs@[i as int]@);
            assert(pairs[i as int] == parse_pair(segs.deep_view()[i as int]));
            assert(pairs.skip(i as int)[0] == pairs[i as int]);
        }
        if bytes_eq(k.as_slice(), key) {
            return Some(v);
        }
        proof {
            assert(pairs.skip(i as int).skip(1) =~= pairs.skip(i + 1));
        }
        i = i + 1;
    }
    proof {
        assert(pairs.skip(n as int) =~= Seq::<(Seq<u8>, Seq<u8>)>::empty());
    }
    None
}

/// One encoded `key=value` piece of a query string.
pub open spec fn encode_pair(k: Seq<u8>, v: Seq<u8>) -> Seq<u8> {
    pct_encode(k) + seq![0x3du8] + pct_encode(v)
}

/// A query string built from decoded pairs: each key and value
/// percent-encoded, joined as `key=value` with `&` between pairs.
pub open spec fn build_query(pairs: Seq<(Seq<u8>, Seq<u8>)>) -> Seq<u8>
    decreases pairs.len(),
{
    if pairs.len() == 0 {
        Seq::empty()
    } else if pairs.len() == 1 {
        encode_pair(pairs[0].0, pairs[0].1)
    } else {
        encode_pair(pairs[0].0, pairs[0].1) + seq![0x26u8] + build_query(pairs.skip(1))
    }
}

/// A built query string consists of ASCII bytes alone.
pub proof fn lemma_build_query_ascii(pairs: Seq<(Seq<u8>, Seq<u8>)>)
    ensures
        crate::bytes::is_ascii_bytes(build_query(pairs)),
    decreases pairs.len(),
{
    if pairs.len() != 0 {
        crate::pct::lemma_pct_encode_ascii(pairs[0].0);
        crate::pct::lemma_pct_encode_ascii(pairs[0].1);
        if pairs.len() > 1 {
            lemma_build_query_ascii(pairs.skip(1));
        }
    }
}

/// Builds a query string from pairs, as `build_query` describes it.
pub fn build_query_exec(pairs: &Vec<(Vec<u8>, Vec<u8>)>) -> (r: Vec<u8>)
    ensures
        r@ == build_query(pairs.deep_view()),
{
    let ghost ps = pairs.deep_view();
    let n: usize = pairs.len();
    let mut r: Vec<u8> = Vec::new();
    let mut i: usize = 0;
    proof {
        assert(ps.skip(0) =~= ps);
        if n == 0 {
            assert(r@ =~= build_query(ps));
        }
    }
    while i < n
        invariant
            0 <= i <= n,
            n == pairs@.len(),
            ps == pairs.deep_view(),
            r@ + build_query(ps.skip(i as int)) == build_query(ps),
            i == n ==> r@ == build_query(ps),
        decreases n - i,
    {
        let ghost r0 = r@;
        let ek = pct_encode_bytes(pairs[i].0.as_slice());
        push_bytes(&mut r, ek.as_slice());
        r.push(0x3d);
        let ev = pct_encode_bytes(pairs[i].1.as_slice());
        push_bytes(&mut r, ev.as_slice());
        proof {
            assert(ps[i as int].0 =~= pairs@[i as int].0@);
            assert(ps[i as int].1 =~= pairs@[i as int].1@);
            assert(ps.skip(i as int)[0] == ps[i as int]);
            assert(r@ =~= r0 + encode_pair(ps[i as int].0, ps[i as int].1));
            assert(ps.skip(i as int).skip(1) =~= ps.skip(i + 1));
        }
        if i + 1 < n {
            r.push(0x26);
            proof {
                assert(r@ =~= r0 + (encode_pair(ps[i as int].0, ps[i as int].1) + seq![0x26u8]));
                assert(r@ + build_query(ps.skip(i + 1)) =~= r0 + build_query(ps.skip(i as int)));
            }
        } else {
            proof {
                assert(ps.skip(i as int).len() == 1);
                assert(build_query(ps.skip(i as int)) == encode_pair(
                    ps.skip(i as int)[0].0,
                    ps.skip(i as int)[0].1,
                ));
                assert(r@ =~= r0 + build_query(ps.skip(i as int)));
                assert(r@ =~= build_query(ps));
            }
        }
        i = i + 1;
    }
    r
}

} // verus!
