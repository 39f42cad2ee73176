//! Whitespace splitting of user-supplied argument strings.
//!
//! Extra build-tool and engine arguments arrive in one environment
//! variable each and are split on whitespace.  This does not respect
//! quoting or escaping — a known limitation kept as documented behaviour:
//! arguments containing spaces cannot be passed through this channel.

use vstd::prelude::*;

verus! {

/// Whether a character counts as whitespace for argument splitting.
pub uninterp spec fn is_rust_space(c: char) -> bool;

/// Relies on char::is_whitespace: whether `c` has the Unicode whitespace
/// property, a function of the character alone.
#[verifier::external_body]
fn char_is_space(c: char) -> (r: bool)
    ensures
        r == is_rust_space(c),
{
    c.is_whitespace()
}

/// The maximal whitespace-free runs of `s`, in order.
pub open spec fn split_ws_spec(s: Seq<char>) -> Seq<Seq<char>>
    decreases s.len(),
{
    if s.len() == 0 {
        Seq::<Seq<char>>::empty()
    } else if is_rust_space(s[0]) {
        split_ws_spec(s.drop_first())
    } else {
        let rest = split_ws_spec(s.drop_first());
        if 1 < s.len() && !is_rust_space(s[1]) {
            seq![seq![s[0]] + rest[0]] + rest.drop_first()
        } else {
            seq![seq![s[0]]] + rest
        }
    }
}

/// A leading whitespace-free run of length `k` is the first token.
proof fn lemma_split_leading_token(s: Seq<char>, k: int)
    requires
        1 <= k <= s.len(),
        forall|j: int| 0 <= j < k ==> !is_rust_space(s[j]),
        k < s.len() ==> is_rust_space(s[k]),
    ensures
        split_ws_spec(s) == seq![s.take(k)] + split_ws_spec(s.skip(k)),
    decreases k,
{
    if k == 1 {
        assert(s.take(1) =~= seq![s[0]]);
        assert(s.skip(1) =~= s.drop_first());
        if s.len() == 1 {
            assert(split_ws_spec(s) =~= seq![s.take(1)] + split_ws_spec(s.skip(1)));
        } else {
            assert(is_rust_space(s[1]));
            assert(split_ws_spec(s) =~= seq![s.take(1)] + split_ws_spec(s.skip(1)));
        }
    } else {
        lemma_split_leading_token(s.drop_first(), k - 1);
        let rest = split_ws_spec(s.drop_first());
        assert(rest == seq![s.drop_first().take(k - 1)] + split_ws_spec(s.drop_first().skip(k - 1)));
        assert(rest[0] == s.drop_first().take(k - 1));
        assert(seq![s[0]] + s.drop_first().take(k - 1) =~= s.take(k));
        assert(s.drop_first().skip(k - 1) =~= s.skip(k));
        assert(rest.drop_first() =~= split_ws_spec(s.skip(k)));
        assert(!is_rust_space(s[1]));
        assert(split_ws_spec(s) =~= seq![s.take(k)] + split_ws_spec(s.skip(k)));
    }
}

/// Splits `s` on whitespace into its tokens, in order.
pub fn split_whitespace_args(s: &str) -> (r: Vec<String>)
    ensures
        r.deep_view() == split_ws_spec(s@),
    decreases s@.len(),
{
    let len = s.unicode_len();
    proof {
        assert(s@.skip(0) =~= s@);
    }
    let mut a: usize = 0;
    while a < len && char_is_space(s.get_char(a))
        invariant
            a <= len,
            len == s@.len(),
            split_ws_spec(s@) == split_ws_spec(s@.skip(a as int)),
        decreases len - a,
    {
        proof {
            assert(s@.skip(a as int).drop_first() =~= s@.skip(a + 1));
        }
        a += 1;
    }
    if a == len {
        let r: Vec<String> = Vec::new();
        proof {
            assert(s@.skip(len as int) =~= Seq::<char>::empty());
            assert(r.deep_view() =~= split_ws_spec(s@));
        }
        return r;
    }
    let mut b = a + 1;
    while b < len && !char_is_space(s.get_char(b))
        invariant
            a < b <= len,
            len == s@.len(),
            forall|j: int| a <= j < b ==> !is_rust_space(s@[j]),
        decreases len - b,
    {
        b += 1;
    }
    let token = s.substring_char(a, b).to_owned();
    let tail = s.substring_char(b, len);
    let mut r = split_whitespace_args(tail);
    let ghost tail_toks = r.deep_view();
    r.insert(0, token);
    proof {
        let suffix = s@.skip(a as int);
        assert(forall|j: int| 0 <= j < b - a ==> !is_rust_space(suffix[j]));
        lemma_split_leading_token(suffix, b - a);
        assert(suffix.take(b - a) =~= token@);
        assert(suffix.skip(b - a) =~= tail@);
        assert(r.deep_view() =~= seq![token@] + tail_toks);
    }
    r
}

} // verus!
