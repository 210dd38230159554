//! Byte-level helpers shared by the URI, query-string and token modules:
//! locating and splitting on separator bytes, hexadecimal digits, and
//! conversions between byte sequences and strings.

use vstd::prelude::*;

verus! {

/// Every byte of the sequence is an ASCII byte.
pub open spec fn is_ascii_bytes(b: Seq<u8>) -> bool {
    forall|i: int| 0 <= i < b.len() ==> b[i] < 0x80
}

/// The characters spelled by a sequence of ASCII bytes.
pub open spec fn ascii_str_of(b: Seq<u8>) -> Seq<char> {
    b.map_values(|x: u8| x as char)
}

/// What `String::from_utf8_lossy` makes of a byte sequence.
pub uninterp spec fn utf8_lossy_of(b: Seq<u8>) -> Seq<char>;

/// Relies on `String::from_utf8_lossy`: the result is a function of the bytes
/// alone, and ASCII input (valid UTF-8) comes through unchanged.
#[verifier::external_body]
pub(crate) fn bytes_to_string_lossy(b: &[u8]) -> (r: String)
    ensures
        r@ == utf8_lossy_of(b@),
        is_ascii_bytes(b@) ==> r@ == ascii_str_of(b@),
{
    String::from_utf8_lossy(b).into_owned()
}

/// Index of the first occurrence of `b` in `s`, or `s.len()` if absent.
pub open spec fn find_idx(s: Seq<u8>, b: u8) -> int
    decreases s.len(),
{
    if s.len() == 0 {
        0
    } else if s[0] == b {
        0
    } else {
        1 + find_idx(s.skip(1), b)
    }
}

/// `find_idx` returns the position of the first occurrence, or the length
/// when the byte does not occur.
pub proof fn lemma_find_idx(s: Seq<u8>, b: u8)
    ensures
        0 <= find_idx(s, b) <= s.len(),
        find_idx(s, b) < s.len() ==> s[find_idx(s, b)] == b,
        forall|j: int| 0 <= j < find_idx(s, b) ==> s[j] != b,
    decreases s.len(),
{
    if s.len() != 0 && s[0] != b {
        lemma_find_idx(s.skip(1), b);
        assert forall|j: int| 0 <= j < find_idx(s, b) implies s[j] != b by {
            if j > 0 {
                assert(s.skip(1)[j - 1] == s[j]);
            }
        }
        if find_idx(s, b) < s.len() {
            assert(s.skip(1)[find_idx(s, b) - 1] == s[find_idx(s, b)]);
        }
    }
}

/// Finds the first occurrence of `b` in `s`, as `find_idx` describes it.
pub fn find_byte(s: &[u8], b: u8) -> (r: usize)
    ensures
        r == find_idx(s@, b),
{
    proof {
        lemma_find_idx(s@, b);
    }
    let n: usize = s.len();
    let mut i: usize = 0;
    while i < n
        invariant
            0 <= i <= n,
            n == s@.len(),
            forall|j: int| 0 <= j < i ==> s@[j] != b,
        decreases n - i,
    {
        if s[i] == b {
            proof {
                // the first occurrence is neither before i (loop invariant)
                // nor after it (i itself is an occurrence)
                lemma_find_idx(s@, b);
                let f = find_idx(s@, b);
                if f < i {
                    assert(s@[f] == b);
                    assert(s@[f] != b);
                } else if f > i {
                    assert(s@[i as int] != b);
                }
            }
            return i;
        }
        i = i + 1;
    }
    proof {
        let f = find_idx(s@, b);
        if f < n {
            assert(s@[f] == b);
            assert(s@[f] != b);
        }
    }
    n
}

/// The segments of `s` between occurrences of the separator `sep`, in order;
/// an empty input yields one empty segment.
pub open spec fn split_on(s: Seq<u8>, sep: u8) -> Seq<Seq<u8>>
    decreases s.len(),
    via split_on_decreases
{
    if find_idx(s, sep) == s.len() {
        seq![s]
    } else {
        seq![s.take(find_idx(s, sep))] + split_on(s.skip(find_idx(s, sep) + 1), sep)
    }
}

#[via_fn]
proof fn split_on_decreases(s: Seq<u8>, sep: u8) {
    lemma_find_idx(s, sep);
}

/// Splits `s` on the separator `sep`, as `split_on` describes it.
pub fn split_bytes(s: &[u8], sep: u8) -> (r: Vec<Vec<u8>>)
    ensures
        r.deep_view() == split_on(s@, sep),
    decreases s@.len(),
{
    proof {
        lemma_find_idx(s@, sep);
    }
    let n: usize = s.len();
    let i: usize = find_byte(s, sep);
    if i == n {
        let mut r: Vec<Vec<u8>> = Vec::new();
        r.push(vstd::slice::slice_to_vec(s));
        proof {
            assert(r.deep_view() =~~= split_on(s@, sep));
        }
        r
    } else {
        let head: Vec<u8> = vstd::slice::slice_to_vec(vstd::slice::slice_subrange(s, 0, i));
        let mut rest: Vec<Vec<u8>> = split_bytes(vstd::slice::slice_subrange(s, i + 1, n), sep);
        let ghost rest_segs = rest.deep_view();
        let mut r: Vec<Vec<u8>> = Vec::new();
        r.push(head);
        r.append(&mut rest);
        proof {
            assert(s@.subrange(0, i as int) =~= s@.take(i as int));
            assert(s@.subrange(i + 1, n as int) =~= s@.skip(i + 1));
            assert(r.deep_view() =~~= seq![s@.take(i as int)] + rest_segs);
            assert(r.deep_view() =~~= split_on(s@, sep));
        }
        r
    }
}

/// Whether two byte slices hold the same bytes.
pub fn bytes_eq(a: &[u8], b: &[u8]) -> (r: bool)
    ensures
        r == (a@ == b@),
{
    let n: usize = a.len();
    if n != b.len() {
        proof {
            assert(a@ != b@);
        }
        return false;
    }
    let mut i: usize = 0;
    while i < n
        invariant
            0 <= i <= n,
            n == a@.len() && n == b@.len(),
            forall|j: int| 0 <= j < i ==> a@[j] == b@[j],
        decreases n - i,
    {
        if a[i] != b[i] {
            proof {
                assert(a@[i as int] != b@[i as int]);
            }
            return false;
        }
        i = i + 1;
    }
    proof {
        assert(a@ =~= b@);
    }
    true
}

/// Appends all bytes of `s` to `out`.
pub fn push_bytes(out: &mut Vec<u8>, s: &[u8])
    ensures
        final(out)@ == old(out)@ + s@,
{
    let n: usize = s.len();
    let mut i: usize = 0;
    while i < n
        invariant
            0 <= i <= n,
            n == s@.len(),
            out@ == old(out)@ + s@.take(i as int),
        decreases n - i,
    {
        out.push(s[i]);
        proof {
            assert(old(out)@ + s@.take(i + 1) =~= (old(out)@ + s@.take(i as int)).push(s@[i as int]));
        }
        i = i + 1;
    }
    proof {
        assert(s@.take(n as int) =~= s@);
    }
}

/// Value of an ASCII hexadecimal digit, or 16 for any other byte.
pub open spec fn hex_val(b: u8) -> u8 {
    if 0x30 <= b <= 0x39 {
        (b - 0x30) as u8
    } else if 0x41 <= b <= 0x46 {
        (b - 0x41 + 10) as u8
    } else if 0x61 <= b <= 0x66 {
        (b - 0x61 + 10) as u8
    } else {
        16
    }
}

/// The byte is an ASCII hexadecimal digit.
pub open spec fn is_hex_digit(b: u8) -> bool {
    hex_val(b) < 16
}

/// Value of an ASCII hexadecimal digit, as `hex_val` describes it.
pub fn hex_digit_val(b: u8) -> (r: u8)
    ensures
        r == hex_val(b),
{
    if 0x30 <= b && b <= 0x39 {
        b - 0x30
    } else if 0x41 <= b && b <= 0x46 {
        b - 0x41 + 10
    } else if 0x61 <= b && b <= 0x66 {
        b - 0x61 + 10
    } else {
        16
    }
}

/// Upper-case hexadecimal digit for a value below 16.
pub open spec fn hex_digit_upper(v: u8) -> u8
    recommends
        v < 16,
{
    if v < 10 {
        (0x30 + v) as u8
    } else {
        (0x41 + v - 10) as u8
    }
}

/// Upper-case hexadecimal digit, as `hex_digit_upper` describes it.
pub fn hex_digit_upper_exec(v: u8) -> (r: u8)
    requires
        v < 16,
    ensures
        r == hex_digit_upper(v),
{
    if v < 10 {
        0x30 + v
    } else {
        0x41 + v - 10
    }
}

} // verus!
