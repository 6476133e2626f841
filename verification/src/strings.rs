//! Facts about character sequences that the path naming convention rests on:
//! concatenation can be stripped from either end, and a concatenation around a
//! separator character splits uniquely when the right-hand part is free of
//! that separator. These carry the collision-freedom of the layout.

use vstd::prelude::*;

verus! {

broadcast use vstd::seq::group_seq_axioms;

/// Equal sequences with a common prefix agree on what follows the prefix.
pub proof fn lemma_strip_prefix(p: Seq<char>, s1: Seq<char>, s2: Seq<char>)
    requires
        p + s1 == p + s2,
    ensures
        s1 == s2,
{
    assert((p + s1).len() == p.len() + s1.len());
    assert((p + s2).len() == p.len() + s2.len());
    assert(s1.len() == s2.len());
    assert forall|i: int| 0 <= i < s1.len() implies s1[i] == s2[i] by {
        assert((p + s1)[p.len() + i] == s1[i]);
        assert((p + s2)[p.len() + i] == s2[i]);
    }
    assert(s1 =~= s2);
}

/// Equal sequences with a common suffix agree on what precedes the suffix.
pub proof fn lemma_strip_suffix(s1: Seq<char>, s2: Seq<char>, q: Seq<char>)
    requires
        s1 + q == s2 + q,
    ensures
        s1 == s2,
{
    assert((s1 + q).len() == s1.len() + q.len());
    assert((s2 + q).len() == s2.len() + q.len());
    assert(s1.len() == s2.len());
    assert forall|i: int| 0 <= i < s1.len() implies s1[i] == s2[i] by {
        assert((s1 + q)[i] == s1[i]);
        assert((s2 + q)[i] == s2[i]);
    }
    assert(s1 =~= s2);
}

/// A concatenation `a + sep + b`, with `sep` a single character that does not
/// occur in `b`, determines `a` and `b` uniquely: the separator before `b` is
/// the last occurrence of that character, so two equal such concatenations
/// agree on both parts.
pub proof fn lemma_split_at_sep(
    a1: Seq<char>,
    b1: Seq<char>,
    a2: Seq<char>,
    b2: Seq<char>,
    sep: Seq<char>,
)
    requires
        sep.len() == 1,
        !b1.contains(sep[0]),
        !b2.contains(sep[0]),
        a1 + sep + b1 == a2 + sep + b2,
    ensures
        a1 == a2,
        b1 == b2,
{
    let s = a1 + sep + b1;
    assert(s.len() == a1.len() + 1 + b1.len());
    assert(s.len() == a2.len() + 1 + b2.len());
    if a1.len() < a2.len() {
        let j = a2.len() as int;
        assert(s[j] == sep[0]);
        let k = j - (a1.len() + 1);
        assert(0 <= k < b1.len());
        assert(s[j] == b1[k]);
        assert(b1.contains(sep[0])) by {
            assert(b1[k] == sep[0]);
        }
        assert(false);
    }
    if a2.len() < a1.len() {
        let j = a1.len() as int;
        assert(s[j] == sep[0]);
        let k = j - (a2.len() + 1);
        assert(0 <= k < b2.len());
        assert(s[j] == b2[k]);
        assert(b2.contains(sep[0])) by {
            assert(b2[k] == sep[0]);
        }
        assert(false);
    }
    assert(a1.len() == a2.len());
    assert forall|i: int| 0 <= i < a1.len() implies a1[i] == a2[i] by {
        assert(s[i] == a1[i]);
        assert(s[i] == a2[i]);
    }
    assert(a1 =~= a2);
    assert forall|i: int| 0 <= i < b1.len() implies b1[i] == b2[i] by {
        assert(s[a1.len() + 1 + i] == b1[i]);
        assert(s[a2.len() + 1 + i] == b2[i]);
    }
    assert(b1 =~= b2);
}

/// Character-by-character string equality, decided against the views.
pub fn str_eq(a: &str, b: &str) -> (r: bool)
    ensures
        r <==> a@ == b@,
{
    let alen = a.unicode_len();
    let blen = b.unicode_len();
    if alen != blen {
        return false;
    }
    let mut i: usize = 0;
    while i < alen
        invariant
            alen == a@.len(),
            blen == b@.len(),
            alen == blen,
            i <= alen,
            forall|j: int| 0 <= j < i ==> a@[j] == b@[j],
        decreases alen - i,
    {
        if a.get_char(i) != b.get_char(i) {
            return false;
        }
        i = i + 1;
    }
    proof {
        assert(a@ =~= b@);
    }
    true
}

} // verus!
