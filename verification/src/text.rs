//! Byte-level string predicates used to classify callee paths.
//!
//! A `&str` pattern matches on the UTF-8 encoding of both strings, so the
//! specifications below are stated over `spec_bytes()`.

use vstd::prelude::*;
use vstd::string::StringSliceAdditionalSpecFns;
use vstd::utf8::encode_utf8;

verus! {

/// `t` is a suffix of `s`.
pub open spec fn bytes_end_with(s: Seq<u8>, t: Seq<u8>) -> bool {
    t.len() <= s.len() && s.subrange(s.len() - t.len(), s.len() as int) == t
}

/// `t` occurs in `s` starting at byte `i`.
pub open spec fn bytes_occur_at(s: Seq<u8>, t: Seq<u8>, i: int) -> bool {
    0 <= i && i + t.len() <= s.len() && s.subrange(i, i + t.len()) == t
}

/// `t` occurs somewhere in `s`.
pub open spec fn bytes_contain(s: Seq<u8>, t: Seq<u8>) -> bool {
    exists|i: int| bytes_occur_at(s, t, i)
}

/// Spec form of `s.ends_with(t)` on the characters of two strings.
pub open spec fn ends_with(s: Seq<char>, t: Seq<char>) -> bool {
    bytes_end_with(encode_utf8(s), encode_utf8(t))
}

/// Spec form of `s.contains(t)`.
pub open spec fn contains(s: Seq<char>, t: Seq<char>) -> bool {
    bytes_contain(encode_utf8(s), encode_utf8(t))
}

/// Spec form of `s == t`.
pub open spec fn same(s: Seq<char>, t: Seq<char>) -> bool {
    encode_utf8(s) == encode_utf8(t)
}

fn bytes_equal_at(s: &[u8], start: usize, t: &[u8]) -> (r: bool)
    requires
        start + t@.len() <= s@.len(),
    ensures
        r == (s@.subrange(start as int, start + t@.len()) == t@),
{
    let n = t.len();
    assert(start + n <= s@.len());
    let mut i: usize = 0;
    while i < n
        invariant
            n == t@.len(),
            start + n <= s@.len(),
            s@.len() == s.len(),
            i <= n,
            forall|j: int| 0 <= j < i ==> s@[start + j] == t@[j],
        decreases n - i,
    {
        if s[start + i] != t[i] {
            assert(s@.subrange(start as int, start + t@.len())[i as int] != t@[i as int]);
            return false;
        }
        i = i + 1;
    }
    assert(s@.subrange(start as int, start + t@.len()) =~= t@);
    true
}

/// `s.ends_with(t)`.
pub fn str_ends_with(s: &str, t: &str) -> (r: bool)
    ensures
        r == ends_with(s@, t@),
{
    let sb = s.as_bytes();
    let tb = t.as_bytes();
    if tb.len() > sb.len() {
        return false;
    }
    bytes_equal_at(sb, sb.len() - tb.len(), tb)
}

/// `s.contains(t)`.
pub fn str_contains(s: &str, t: &str) -> (r: bool)
    ensures
        r == contains(s@, t@),
{
    let sb = s.as_bytes();
    let tb = t.as_bytes();
    if tb.len() > sb.len() {
        assert forall|i: int| !bytes_occur_at(sb@, tb@, i) by {}
        return false;
    }
    let last = sb.len() - tb.len();
    let mut i: usize = 0;
    while i < last
        invariant
            sb@ == s.spec_bytes(),
            tb@ == t.spec_bytes(),
            last + tb@.len() == sb@.len(),
            i <= last,
            forall|j: int| 0 <= j < i ==> !bytes_occur_at(sb@, tb@, j),
        decreases last - i,
    {
        if bytes_equal_at(sb, i, tb) {
            assert(bytes_occur_at(sb@, tb@, i as int));
            return true;
        }
        i = i + 1;
    }
    if bytes_equal_at(sb, last, tb) {
        assert(bytes_occur_at(sb@, tb@, last as int));
        return true;
    }
    assert forall|j: int| !bytes_occur_at(sb@, tb@, j) by {
        if 0 <= j && j + tb@.len() <= sb@.len() {
            assert(j <= last);
        }
    }
    false
}

/// `s == t`.
pub fn str_eq(s: &str, t: &str) -> (r: bool)
    ensures
        r == same(s@, t@),
{
    let sb = s.as_bytes();
    let tb = t.as_bytes();
    if sb.len() != tb.len() {
        return false;
    }
    let r = bytes_equal_at(sb, 0, tb);
    assert(sb@.subrange(0, tb@.len() as int) =~= sb@);
    r
}

/// The decimal digit `d` (`d < 10`).
pub open spec fn digit_text(d: nat) -> Seq<char> {
    if d == 0 { "0"@ } else if d == 1 { "1"@ } else if d == 2 { "2"@ } else if d == 3 { "3"@ }
    else if d == 4 { "4"@ } else if d == 5 { "5"@ } else if d == 6 { "6"@ } else if d == 7 { "7"@ }
    else if d == 8 { "8"@ } else { "9"@ }
}

/// The decimal notation of `n`, without leading zeros.
pub open spec fn decimal(n: nat) -> Seq<char>
    decreases n,
{
    if n < 10 { digit_text(n) } else { decimal(n / 10) + digit_text(n % 10) }
}

fn digit_str(d: u32) -> (r: &'static str)
    requires
        d < 10,
    ensures
        r@ == digit_text(d as nat),
{
    if d == 0 { "0" } else if d == 1 { "1" } else if d == 2 { "2" } else if d == 3 { "3" }
    else if d == 4 { "4" } else if d == 5 { "5" } else if d == 6 { "6" } else if d == 7 { "7" }
    else if d == 8 { "8" } else { "9" }
}

/// `s` followed by the decimal notation of `n`.
pub fn append_decimal(s: String, n: u32) -> (r: String)
    ensures
        r@ == s@ + decimal(n as nat),
    decreases n,
{
    if n < 10 {
        s.concat(digit_str(n))
    } else {
        let head = append_decimal(s, n / 10);
        let r = head.concat(digit_str(n % 10));
        proof { assert(r@ =~= s@ + decimal(n as nat)); }
        r
    }
}

} // verus!
