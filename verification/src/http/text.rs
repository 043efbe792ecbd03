//! Scanning and comparing text, stated over sequences of characters.

use vstd::prelude::*;
use vstd::string::*;
use vstd::utf8::*;

verus! {

/// The position of the first character of `s` that is `a` or `b`, or the
/// length of `s` where there is none.
pub open spec fn first_of(s: Seq<char>, a: char, b: char) -> int
    decreases s.len(),
{
    if s.len() == 0 {
        0
    } else if s[0] == a || s[0] == b {
        0
    } else {
        1 + first_of(s.drop_first(), a, b)
    }
}

/// `first_of` lies within the text, nothing before it is `a` or `b`, and
/// the character at it is, where it is not the end.
pub proof fn lemma_first_of(s: Seq<char>, a: char, b: char)
    ensures
        0 <= first_of(s, a, b) <= s.len(),
        forall|j: int| 0 <= j < first_of(s, a, b) ==> s[j] != a && s[j] != b,
        first_of(s, a, b) < s.len() ==> s[first_of(s, a, b)] == a || s[first_of(s, a, b)] == b,
    decreases s.len(),
{
    if s.len() != 0 && !(s[0] == a || s[0] == b) {
        let t = s.drop_first();
        lemma_first_of(t, a, b);
        assert forall|j: int| 0 <= j < first_of(s, a, b) implies s[j] != a && s[j] != b by {
            if j > 0 {
                assert(s[j] == t[j - 1]);
            }
        }
        assert(first_of(s, a, b) < s.len() ==> s[first_of(s, a, b)] == t[first_of(t, a, b)]);
    }
}

/// A position with nothing that is `a` or `b` before it, which is the end or
/// holds one of the two, is `first_of`.
pub proof fn lemma_first_of_is(s: Seq<char>, a: char, b: char, i: int)
    requires
        0 <= i <= s.len(),
        forall|j: int| 0 <= j < i ==> s[j] != a && s[j] != b,
        i < s.len() ==> s[i] == a || s[i] == b,
    ensures
        first_of(s, a, b) == i,
{
    lemma_first_of(s, a, b);
    let f = first_of(s, a, b);
    if f < i {
        assert(s[f] != a && s[f] != b);
    }
}

/// Finds the first character of `s` that is `a` or `b`.
pub fn find_first(s: &str, a: char, b: char) -> (r: usize)
    ensures
        r == first_of(s@, a, b),
{
    broadcast use vstd::string::group_string_axioms;

    let n: usize = s.unicode_len();
    let mut i: usize = 0;
    for c in iter: s.chars()
        invariant
            n == s@.len(),
            iter.seq() == s@,
            i == iter.index(),
            forall|j: int| 0 <= j < i ==> s@[j] != a && s@[j] != b,
    {
        if c == a || c == b {
            proof {
                lemma_first_of_is(s@, a, b, i as int);
            }
            return i;
        }
        i += 1;
    }
    proof {
        lemma_first_of_is(s@, a, b, i as int);
    }
    i
}

/// Whether two texts hold the same characters.
pub fn same_text(x: &str, y: &str) -> (r: bool)
    ensures
        r == (x@ == y@),
{
    let xb = x.as_bytes();
    let yb = y.as_bytes();
    proof {
        encode_utf8_decode_utf8(x@);
        encode_utf8_decode_utf8(y@);
    }
    if xb.len() != yb.len() {
        return false;
    }
    let mut i: usize = 0;
    while i < xb.len()
        invariant
            xb@.len() == yb@.len(),
            i <= xb@.len(),
            xb@ == encode_utf8(x@),
            yb@ == encode_utf8(y@),
            forall|j: int| 0 <= j < i ==> xb@[j] == yb@[j],
        decreases xb@.len() - i,
    {
        if xb[i] != yb[i] {
            return false;
        }
        i += 1;
    }
    assert(xb@ =~= yb@);
    true
}

} // verus!
