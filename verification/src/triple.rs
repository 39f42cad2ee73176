//! Host target-triple extraction.
//!
//! The compiler is invoked (outside the library) with its verbose version
//! flag; its output is scanned line by line for the first line beginning
//! with the fixed `host: ` marker, and the remainder of that line is the
//! host triple used to locate per-architecture build output.  There is no
//! fallback triple: a caller treats `None` as fatal.

use vstd::prelude::*;
use crate::strutil::{starts_with_seq, starts_with};

verus! {

/// The lines of `s`: split on `'\n'`, no line for a trailing newline.
pub open spec fn line_split(s: Seq<char>) -> Seq<Seq<char>>
    decreases s.len(),
{
    if s.len() == 0 {
        Seq::<Seq<char>>::empty()
    } else if s[0] == '\n' {
        seq![Seq::<char>::empty()] + line_split(s.drop_first())
    } else {
        let rest = line_split(s.drop_first());
        if rest.len() == 0 {
            seq![seq![s[0]]]
        } else {
            seq![seq![s[0]] + rest[0]] + rest.drop_first()
        }
    }
}

/// A line with its carriage return stripped, as the line-based scan of the
/// compiler output reads it.
pub open spec fn strip_cr(l: Seq<char>) -> Seq<char> {
    if l.len() > 0 && l[l.len() - 1] == '\r' {
        l.drop_last()
    } else {
        l
    }
}

/// The remainder of the first line that begins with `host: `.
pub open spec fn host_from_lines(lines: Seq<Seq<char>>) -> Option<Seq<char>>
    decreases lines.len(),
{
    if lines.len() == 0 {
        Option::None
    } else if starts_with_seq(strip_cr(lines[0]), "host: "@) {
        Option::Some(strip_cr(lines[0]).skip(6))
    } else {
        host_from_lines(lines.drop_first())
    }
}

/// The host triple the compiler output names, if any.
pub open spec fn host_triple_spec(output: Seq<char>) -> Option<Seq<char>> {
    host_from_lines(line_split(output))
}

/// A string without a newline is one single line.
proof fn lemma_line_split_whole(s: Seq<char>)
    requires
        s.len() > 0,
        forall|j: int| 0 <= j < s.len() ==> s[j] != '\n',
    ensures
        line_split(s) == seq![s],
    decreases s.len(),
{
    if s.len() == 1 {
        assert(s.drop_first().len() == 0);
        assert(line_split(s.drop_first()) == Seq::<Seq<char>>::empty());
        assert(seq![s[0]] =~= s);
        assert(line_split(s) =~= seq![s]);
    } else {
        lemma_line_split_whole(s.drop_first());
        let rest = line_split(s.drop_first());
        assert(rest[0] == s.drop_first());
        assert(rest.drop_first() =~= Seq::<Seq<char>>::empty());
        assert(seq![s[0]] + s.drop_first() =~= s);
        assert(line_split(s) =~= seq![s]);
    }
}

/// Splitting at the first newline peels off the first line.
proof fn lemma_line_split_at(s: Seq<char>, i: int)
    requires
        0 <= i < s.len(),
        s[i] == '\n',
        forall|j: int| 0 <= j < i ==> s[j] != '\n',
    ensures
        line_split(s) == seq![s.take(i)] + line_split(s.skip(i + 1)),
    decreases i,
{
    if i == 0 {
        assert(s.take(0) =~= Seq::<char>::empty());
        assert(s.skip(1) =~= s.drop_first());
        assert(line_split(s) =~= seq![s.take(0)] + line_split(s.skip(1)));
    } else {
        lemma_line_split_at(s.drop_first(), i - 1);
        let rest = line_split(s.drop_first());
        assert(rest == seq![s.drop_first().take(i - 1)] + line_split(s.drop_first().skip(i)));
        assert(rest.len() > 0);
        assert(rest[0] == s.drop_first().take(i - 1));
        assert(seq![s[0]] + s.drop_first().take(i - 1) =~= s.take(i));
        assert(s.drop_first().skip(i) =~= s.skip(i + 1));
        assert(rest.drop_first() =~= line_split(s.skip(i + 1)));
        assert(line_split(s) =~= seq![s.take(i)] + line_split(s.skip(i + 1)));
    }
}

/// Splits `s` into its lines.
fn split_lines(s: &str) -> (r: Vec<String>)
    ensures
        r.deep_view() == line_split(s@),
    decreases s@.len(),
{
    let len = s.unicode_len();
    if len == 0 {
        let r: Vec<String> = Vec::new();
        proof {
            assert(r.deep_view() =~= line_split(s@));
        }
        return r;
    }
    let mut i: usize = 0;
    while i < len && s.get_char(i) != '\n'
        invariant
            i <= len,
            len == s@.len(),
            forall|j: int| 0 <= j < i ==> s@[j] != '\n',
        decreases len - i,
    {
        i += 1;
    }
    if i == len {
        proof {
            lemma_line_split_whole(s@);
        }
        let mut r: Vec<String> = Vec::new();
        r.push(s.to_owned());
        proof {
            assert(r.deep_view() =~= seq![s@]);
        }
        r
    } else {
        let head = s.substring_char(0, i).to_owned();
        let tail = s.substring_char(i + 1, len);
        let mut r = split_lines(tail);
        let ghost tail_lines = r.deep_view();
        r.insert(0, head);
        proof {
            lemma_line_split_at(s@, i as int);
            assert(head@ =~= s@.take(i as int));
            assert(tail@ =~= s@.skip(i + 1));
            assert(r.deep_view() =~= seq![head@] + tail_lines);
        }
        r
    }
}

/// Strips one trailing carriage return, as a line-based read would.
fn strip_cr_part<'a>(l: &'a str) -> (r: &'a str)
    ensures
        r@ == strip_cr(l@),
{
    let len = l.unicode_len();
    if len > 0 && l.get_char(len - 1) == '\r' {
        let r = l.substring_char(0, len - 1);
        proof {
            assert(r@ =~= l@.drop_last());
        }
        r
    } else {
        l
    }
}

/// Scans the compiler's verbose version output for the host triple: the
/// remainder of the first line beginning with `host: `.  `None` means the
/// output named no host, which the caller treats as fatal.
pub fn parse_host_triple(output: &str) -> (r: Option<String>)
    ensures
        r.deep_view() == host_triple_spec(output@),
{
    let lines = split_lines(output);
    let ghost all = lines.deep_view();
    proof {
        assert(all.skip(0) =~= all);
    }
    let mut i: usize = 0;
    while i < lines.len()
        invariant
            i <= lines@.len(),
            all == lines.deep_view(),
            all == line_split(output@),
            all.len() == lines@.len(),
            host_from_lines(all) == host_from_lines(all.skip(i as int)),
            forall|j: int| 0 <= j < lines@.len() ==> all[j] == lines@[j]@,
        decreases lines@.len() - i,
    {
        let stripped = strip_cr_part(lines[i].as_str());
        let matches_host = starts_with(stripped, "host: ");
        proof {
            reveal_strlit("host: ");
            assert(all.skip(i as int)[0] == all[i as int]);
        }
        if matches_host {
            let slen = stripped.unicode_len();
            let t = stripped.substring_char(6, slen).to_owned();
            proof {
                assert(t@ =~= strip_cr(all[i as int]).skip(6));
                assert(host_from_lines(all.skip(i as int)) == Option::Some(
                    strip_cr(all.skip(i as int)[0]).skip(6),
                ));
                assert(host_from_lines(all) == Option::Some(t@));
            }
            return Some(t);
        }
        proof {
            assert(all.skip(i as int).drop_first() =~= all.skip(i + 1));
        }
        i += 1;
    }
    proof {
        assert(all.skip(lines@.len() as int) =~= Seq::<Seq<char>>::empty());
    }
    None
}

} // verus!
