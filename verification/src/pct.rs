//! Percent-encoding and -decoding of URI query components, over bytes.
//!
//! Encoding keeps unreserved bytes and writes every other byte as `%XY` with
//! upper-case hexadecimal digits. Decoding turns `%XY` back into a byte,
//! treats `+` as a space, and passes anything else through unchanged.

use vstd::prelude::*;

use crate::bytes::hex_digit_upper;
use crate::bytes::hex_digit_upper_exec;
use crate::bytes::hex_digit_val;
use crate::bytes::hex_val;
use crate::bytes::is_hex_digit;

verus! {

/// A byte is in the URI "unreserved" set: `A-Z a-z 0-9 - . _ ~`.
pub open spec fn is_unreserved_byte(b: u8) -> bool {
    ||| 0x41 <= b <= 0x5a
    ||| 0x61 <= b <= 0x7a
    ||| 0x30 <= b <= 0x39
    ||| b == 0x2d
    ||| b == 0x2e
    ||| b == 0x5f
    ||| b == 0x7e
}

/// Whether a byte is unreserved, as `is_unreserved_byte` describes it.
pub fn unreserved_byte(b: u8) -> (r: bool)
    ensures
        r == is_unreserved_byte(b),
{
    (0x41 <= b && b <= 0x5a) || (0x61 <= b && b <= 0x7a) || (0x30 <= b && b <= 0x39) || b == 0x2d
        || b == 0x2e || b == 0x5f || b == 0x7e
}

/// Percent-encoding of a single byte.
pub open spec fn pct_encode_byte(b: u8) -> Seq<u8> {
    if is_unreserved_byte(b) {
        seq![b]
    } else {
        seq![0x25u8, hex_digit_upper(b / 16), hex_digit_upper(b % 16)]
    }
}

/// Percent-encoding of a byte sequence.
pub open spec fn pct_encode(s: Seq<u8>) -> Seq<u8>
    decreases s.len(),
{
    if s.len() == 0 {
        Seq::empty()
    } else {
        pct_encode_byte(s[0]) + pct_encode(s.skip(1))
    }
}

/// Percent-decoding of a byte sequence.
pub open spec fn pct_decode(s: Seq<u8>) -> Seq<u8>
    decreases s.len(),
{
    if s.len() == 0 {
        Seq::empty()
    } else if s[0] == 0x25 && s.len() >= 3 && is_hex_digit(s[1]) && is_hex_digit(s[2]) {
        seq![(hex_val(s[1]) * 16 + hex_val(s[2])) as u8] + pct_decode(s.skip(3))
    } else if s[0] == 0x2b {
        seq![0x20u8] + pct_decode(s.skip(1))
    } else {
        seq![s[0]] + pct_decode(s.skip(1))
    }
}

/// Every byte of a percent-encoded sequence is ASCII.
pub proof fn lemma_pct_encode_ascii(s: Seq<u8>)
    ensures
        crate::bytes::is_ascii_bytes(pct_encode(s)),
    decreases s.len(),
{
    if s.len() != 0 {
        lemma_pct_encode_ascii(s.skip(1));
    }
}

/// Percent-encodes `s`, as `pct_encode` describes it.
pub fn pct_encode_bytes(s: &[u8]) -> (r: Vec<u8>)
    ensures
        r@ == pct_encode(s@),
{
    let n: usize = s.len();
    let mut r: Vec<u8> = Vec::new();
    let mut i: usize = 0;
    proof {
        assert(s@.skip(0) =~= s@);
        assert(r@ + pct_encode(s@) =~= pct_encode(s@));
    }
    while i < n
        invariant
            0 <= i <= n,
            n == s@.len(),
            r@ + pct_encode(s@.skip(i as int)) == pct_encode(s@),
        decreases n - i,
    {
        let b = s[i];
        let ghost r0 = r@;
        proof {
            assert(s@.skip(i as int)[0] == s@[i as int]);
            assert(s@.skip(i as int).skip(1) =~= s@.skip(i + 1));
        }
        if unreserved_byte(b) {
            r.push(b);
        } else {
            r.push(0x25);
            r.push(hex_digit_upper_exec(b / 16));
            r.push(hex_digit_upper_exec(b % 16));
        }
        proof {
            assert(r@ =~= r0 + pct_encode_byte(b));
            assert(r@ + pct_encode(s@.skip(i + 1)) =~= r0 + pct_encode(s@.skip(i as int)));
        }
        i = i + 1;
    }
    proof {
        assert(s@.skip(n as int) =~= Seq::<u8>::empty());
        assert(r@ =~= pct_encode(s@));
    }
    r
}

/// Percent-decodes `s`, as `pct_decode` describes it.
pub fn pct_decode_bytes(s: &[u8]) -> (r: Vec<u8>)
    ensures
        r@ == pct_decode(s@),
{
    let n: usize = s.len();
    let mut r: Vec<u8> = Vec::new();
    let mut i: usize = 0;
    proof {
        assert(s@.skip(0) =~= s@);
        assert(r@ + pct_decode(s@) =~= pct_decode(s@));
    }
    while i < n
        invariant
            0 <= i <= n,
            n == s@.len(),
            r@ + pct_decode(s@.skip(i as int)) == pct_decode(s@),
        decreases n - i,
    {
        let b = s[i];
        proof {
            assert(s@.skip(i as int)[0] == s@[i as int]);
            if n - i >= 3 {
                assert(s@.skip(i as int)[1] == s@[i + 1]);
                assert(s@.skip(i as int)[2] == s@[i + 2]);
                assert(s@.skip(i as int).skip(3) =~= s@.skip(i + 3));
            }
            assert(s@.skip(i as int).skip(1) =~= s@.skip(i + 1));
        }
        if b == 0x25 && n - i > 2 && hex_digit_val(s[i + 1]) < 16 && hex_digit_val(s[i + 2]) < 16 {
            let v: u8 = hex_digit_val(s[i + 1]) * 16 + hex_digit_val(s[i + 2]);
            r.push(v);
            proof {
                assert(r@ + pct_decode(s@.skip(i + 3)) =~= pct_decode(s@));
            }
            i = i + 3;
        } else if b == 0x2b {
            r.push(0x20);
            proof {
                assert(r@ + pct_decode(s@.skip(i + 1)) =~= pct_decode(s@));
            }
            i = i + 1;
        } else {
            r.push(b);
            proof {
                assert(r@ + pct_decode(s@.skip(i + 1)) =~= pct_decode(s@));
            }
            i = i + 1;
        }
    }
    proof {
        assert(s@.skip(n as int) =~= Seq::<u8>::empty());
        assert(r@ =~= pct_decode(s@));
    }
    r
}

/// Decoding undoes encoding: a percent-encoded sequence decodes back to the
/// original bytes.
pub proof fn lemma_pct_round_trip(s: Seq<u8>)
    ensures
        pct_decode(pct_encode(s)) == s,
    decreases s.len(),
{
    if s.len() == 0 {
        assert(pct_decode(pct_encode(s)) =~= s);
    } else {
        lemma_pct_round_trip(s.skip(1));
        let e = pct_encode(s);
        let b = s[0];
        if is_unreserved_byte(b) {
            assert(e[0] == b);
            assert(e.skip(1) =~= pct_encode(s.skip(1)));
            assert(pct_decode(e) =~= seq![b] + s.skip(1));
            assert(seq![b] + s.skip(1) =~= s);
        } else {
            assert(e[0] == 0x25);
            assert(e[1] == hex_digit_upper(b / 16));
            assert(e[2] == hex_digit_upper(b % 16));
            assert(is_hex_digit(e[1]) && hex_val(e[1]) == b / 16);
            assert(is_hex_digit(e[2]) && hex_val(e[2]) == b % 16);
            assert((hex_val(e[1]) * 16 + hex_val(e[2])) as u8 == b);
            assert(e.skip(3) =~= pct_encode(s.skip(1)));
            assert(pct_decode(e) =~= seq![b] + s.skip(1));
            assert(seq![b] + s.skip(1) =~= s);
        }
    }
}

} // verus!
