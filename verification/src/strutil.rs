//! Substring and prefix predicates on character sequences, with the
//! executable scans that decide them.

use vstd::prelude::*;

verus! {

/// `n` occurs as a contiguous substring of `h`.
pub open spec fn contains_seq(h: Seq<char>, n: Seq<char>) -> bool {
    exists|i: int|
        0 <= i && i + n.len() <= h.len() && #[trigger] h.skip(i).take(n.len() as int) == n
}

/// `p` is a prefix of `h`.
pub open spec fn starts_with_seq(h: Seq<char>, p: Seq<char>) -> bool {
    p.len() <= h.len() && h.subrange(0, p.len() as int) == p
}

pub proof fn lemma_prefix_contains(h: Seq<char>, p: Seq<char>)
    requires
        starts_with_seq(h, p),
    ensures
        contains_seq(h, p),
{
    assert(h.skip(0).take(p.len() as int) =~= h.subrange(0, p.len() as int));
}

/// A substring of the left part of a concatenation is a substring of the whole.
pub proof fn lemma_contains_concat_left(a: Seq<char>, b: Seq<char>, n: Seq<char>)
    requires
        contains_seq(a, n),
    ensures
        contains_seq(a + b, n),
{
    let i = choose|i: int|
        0 <= i && i + n.len() <= a.len() && #[trigger] a.skip(i).take(n.len() as int) == n;
    assert((a + b).skip(i).take(n.len() as int) =~= a.skip(i).take(n.len() as int));
}

/// A substring of the right part of a concatenation is a substring of the whole.
pub proof fn lemma_contains_concat_right(a: Seq<char>, b: Seq<char>, n: Seq<char>)
    requires
        contains_seq(b, n),
    ensures
        contains_seq(a + b, n),
{
    let i = choose|i: int|
        0 <= i && i + n.len() <= b.len() && #[trigger] b.skip(i).take(n.len() as int) == n;
    assert((a + b).skip(a.len() + i).take(n.len() as int) =~= b.skip(i).take(n.len() as int));
}

/// Character-for-character equality of two string slices.
pub fn str_eq(a: &str, b: &str) -> (r: bool)
    ensures
        r == (a@ == b@),
{
    let alen = a.unicode_len();
    let blen = b.unicode_len();
    if alen != blen {
        proof {
            assert(a@ != b@);
        }
        return false;
    }
    let mut i: usize = 0;
    while i < alen
        invariant
            i <= alen,
            alen == a@.len(),
            alen == b@.len(),
            forall|j: int| 0 <= j < i ==> a@[j] == b@[j],
        decreases alen - i,
    {
        if a.get_char(i) != b.get_char(i) {
            return false;
        }
        i += 1;
    }
    proof {
        assert(a@ =~= b@);
    }
    true
}

/// Decides whether `p` is a prefix of `h`.
pub fn starts_with(h: &str, p: &str) -> (r: bool)
    ensures
        r == starts_with_seq(h@, p@),
{
    let hlen = h.unicode_len();
    let plen = p.unicode_len();
    if plen > hlen {
        return false;
    }
    let mut i: usize = 0;
    while i < plen
        invariant
            i <= plen,
            plen <= hlen,
            hlen == h@.len(),
            plen == p@.len(),
            forall|j: int| 0 <= j < i ==> h@[j] == p@[j],
        decreases plen - i,
    {
        if h.get_char(i) != p.get_char(i) {
            proof {
                assert(h@.subrange(0, p@.len() as int)[i as int] != p@[i as int]);
            }
            return false;
        }
        i += 1;
    }
    proof {
        assert(h@.subrange(0, p@.len() as int) =~= p@);
    }
    true
}

/// Decides whether `n` occurs as a contiguous substring of `h`.
pub fn contains_str(h: &str, n: &str) -> (r: bool)
    ensures
        r == contains_seq(h@, n@),
{
    let hlen = h.unicode_len();
    let nlen = n.unicode_len();
    if nlen > hlen {
        return false;
    }
    if nlen == 0 {
        proof {
            assert(h@.skip(0).take(n@.len() as int) =~= n@);
        }
        return true;
    }
    let mut i: usize = 0;
    while i <= hlen - nlen
        invariant
            hlen == h@.len(),
            nlen == n@.len(),
            1 <= nlen <= hlen,
            i <= hlen - nlen + 1,
            forall|k: int| 0 <= k < i ==> #[trigger] h@.skip(k).take(n@.len() as int) != n@,
        decreases hlen - i,
    {
        let mut j: usize = 0;
        let mut matched = true;
        while j < nlen
            invariant
                j <= nlen,
                i + nlen <= hlen,
                hlen == h@.len(),
                nlen == n@.len(),
                matched ==> forall|k: int| 0 <= k < j ==> h@[i + k] == n@[k],
                !matched ==> h@.skip(i as int).take(n@.len() as int) != n@,
            decreases nlen - j,
        {
            if h.get_char(i + j) != n.get_char(j) {
                proof {
                    assert(h@.skip(i as int).take(n@.len() as int)[j as int] != n@[j as int]);
                }
                matched = false;
                j = nlen;
            } else {
                j += 1;
            }
        }
        if matched {
            proof {
                assert(h@.skip(i as int).take(n@.len() as int) =~= n@);
            }
            return true;
        }
        i += 1;
    }
    proof {
        assert(forall|k: int|
            0 <= k && k + n@.len() <= h@.len() ==> #[trigger] h@.skip(k).take(n@.len() as int)
                != n@);
    }
    false
}

} // verus!
