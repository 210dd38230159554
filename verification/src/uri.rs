//! Absolute-URI checking: a scheme of an ASCII letter followed by letters,
//! digits, `+`, `-` or `.`, then `://`, then a non-empty remainder, all of it
//! printable ASCII.

use vstd::prelude::*;

use crate::bytes::find_byte;
use crate::bytes::find_idx;
use crate::bytes::lemma_find_idx;

verus! {

/// An ASCII letter.
pub open spec fn is_alpha_byte(b: u8) -> bool {
    0x41 <= b <= 0x5a || 0x61 <= b <= 0x7a
}

/// A byte allowed in a URI scheme: a letter, a digit, `+`, `-` or `.`.
pub open spec fn is_scheme_byte(b: u8) -> bool {
    is_alpha_byte(b) || 0x30 <= b <= 0x39 || b == 0x2b || b == 0x2d || b == 0x2e
}

/// The bytes form an absolute URI of the shape `scheme://rest`: printable
/// ASCII throughout, a scheme that starts with a letter and goes on in
/// scheme bytes up to the first `:`, then `//` and a non-empty remainder.
pub open spec fn is_absolute_uri(u: Seq<u8>) -> bool {
    let c = find_idx(u, 0x3a);
    &&& forall|i: int| 0 <= i < u.len() ==> 0x21 <= #[trigger] u[i] <= 0x7e
    &&& 1 <= c
    &&& c < u.len()
    &&& is_alpha_byte(u[0])
    &&& forall|i: int| 0 <= i < c ==> is_scheme_byte(#[trigger] u[i])
    &&& c + 3 < u.len()
    &&& u[c + 1] == 0x2f
    &&& u[c + 2] == 0x2f
}

/// Decides `is_absolute_uri` for a byte slice.
pub fn check_absolute_uri(u: &[u8]) -> (r: bool)
    ensures
        r == is_absolute_uri(u@),
{
    proof {
        lemma_find_idx(u@, 0x3a);
    }
    let n: usize = u.len();
    let mut i: usize = 0;
    while i < n
        invariant
            0 <= i <= n,
            n == u@.len(),
            forall|j: int| 0 <= j < i ==> 0x21 <= #[trigger] u@[j] <= 0x7e,
        decreases n - i,
    {
        let b = u[i];
        if !(0x21 <= b && b <= 0x7e) {
            proof {
                assert(!(0x21 <= u@[i as int] <= 0x7e));
            }
            return false;
        }
        i = i + 1;
    }
    let c: usize = find_byte(u, 0x3a);
    if c < 1 || c >= n {
        return false;
    }
    let b0 = u[0];
    if !((0x41 <= b0 && b0 <= 0x5a) || (0x61 <= b0 && b0 <= 0x7a)) {
        return false;
    }
    let mut k: usize = 0;
    while k < c
        invariant
            0 <= k <= c,
            c < n,
            n == u@.len(),
            c == find_idx(u@, 0x3a),
            1 <= c,
            forall|j: int| 0 <= j < k ==> is_scheme_byte(u@[j]),
        decreases c - k,
    {
        let b = u[k];
        if !((0x41 <= b && b <= 0x5a) || (0x61 <= b && b <= 0x7a) || (0x30 <= b && b <= 0x39) || b
            == 0x2b || b == 0x2d || b == 0x2e) {
            proof {
                assert(!is_scheme_byte(u@[k as int]));
            }
            return false;
        }
        k = k + 1;
    }
    if n - c <= 3 {
        return false;
    }
    u[c + 1] == 0x2f && u[c + 2] == 0x2f
}

} // verus!
