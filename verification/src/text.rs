//! Verified helpers over strings viewed as sequences of characters.

use vstd::prelude::*;
use vstd::string::StrSliceExecFns;
use vstd::string::StringExecFns;

verus! {

/// Character-by-character string equality.
pub fn str_eq(a: &str, b: &str) -> (r: bool)
    ensures
        r == (a@ == b@),
{
    let n = a.unicode_len();
    if n != b.unicode_len() {
        proof {
            assert(a@.len() != b@.len());
        }
        return false;
    }
    let mut i: usize = 0;
    while i < n
        invariant
            i <= n,
            n == a@.len(),
            n == b@.len(),
            forall|j: int| 0 <= j < i ==> a@[j] == b@[j],
        decreases n - i,
    {
        if a.get_char(i) != b.get_char(i) {
            return false;
        }
        i = i + 1;
    }
    proof {
        assert(a@ =~= b@);
    }
    true
}

/// The concatenation of two strings.
pub fn concat2(a: &str, b: &str) -> (r: String)
    ensures
        r@ == a@ + b@,
{
    let mut s = String::from_str(a);
    s.append(b);
    s
}

/// The concatenation of three strings.
pub fn concat3(a: &str, b: &str, c: &str) -> (r: String)
    ensures
        r@ == a@ + b@ + c@,
{
    let mut s = String::from_str(a);
    s.append(b);
    s.append(c);
    s
}

/// Index of the first newline character of `s`, or `s.len()` if there is
/// none.
pub open spec fn first_newline(s: Seq<char>) -> int
    decreases s.len(),
{
    if s.len() == 0 {
        0
    } else if s[0] == '\n' {
        0
    } else {
        1 + first_newline(s.subrange(1, s.len() as int))
    }
}

pub proof fn lemma_first_newline_bounds(s: Seq<char>)
    ensures
        0 <= first_newline(s) <= s.len(),
        forall|j: int| 0 <= j < first_newline(s) ==> s[j] != '\n',
        first_newline(s) < s.len() ==> s[first_newline(s)] == '\n',
    decreases s.len(),
{
    if s.len() == 0 {
    } else if s[0] == '\n' {
    } else {
        let t = s.subrange(1, s.len() as int);
        lemma_first_newline_bounds(t);
        assert forall|j: int| 0 <= j < first_newline(s) implies s[j] != '\n' by {
            if j > 0 {
                assert(t[j - 1] == s[j]);
            }
        }
    }
}

/// A position left of which no newline stands, and which holds a newline or
/// is the end, is the first newline position.
pub proof fn lemma_first_newline_at(s: Seq<char>, i: int)
    requires
        0 <= i <= s.len(),
        forall|j: int| 0 <= j < i ==> s[j] != '\n',
        i < s.len() ==> s[i] == '\n',
    ensures
        first_newline(s) == i,
    decreases s.len(),
{
    if s.len() == 0 {
    } else if s[0] == '\n' {
        assert(i == 0);
    } else {
        let t = s.subrange(1, s.len() as int);
        assert(i >= 1);
        assert forall|j: int| 0 <= j < i - 1 implies t[j] != '\n' by {
            assert(t[j] == s[j + 1]);
        }
        lemma_first_newline_at(t, i - 1);
    }
}

/// The lines of `s`: maximal runs of characters separated by newline
/// characters.  A trailing run without a final newline is itself a line; a
/// trailing newline does not open an extra empty line.
pub open spec fn spec_lines(s: Seq<char>) -> Seq<Seq<char>>
    decreases s.len(),
        via spec_lines_decreases
{
    if s.len() == 0 {
        Seq::empty()
    } else {
        let i = first_newline(s);
        if i == s.len() {
            seq![s]
        } else {
            seq![s.subrange(0, i)] + spec_lines(s.subrange(i + 1, s.len() as int))
        }
    }
}

#[via_fn]
proof fn spec_lines_decreases(s: Seq<char>) {
    lemma_first_newline_bounds(s);
}

/// Splits a string into its lines.
pub fn split_lines(s: &str) -> (r: Vec<String>)
    ensures
        r.deep_view() == spec_lines(s@),
{
    let n = s.unicode_len();
    let mut res: Vec<String> = Vec::new();
    let mut pos: usize = 0;
    proof {
        assert(s@.subrange(0, n as int) =~= s@);
    }
    while pos < n
        invariant
            pos <= n,
            n == s@.len(),
            spec_lines(s@) =~~= res.deep_view() + spec_lines(s@.subrange(pos as int, n as int)),
        decreases n - pos,
    {
        let ghost p = pos as int;
        let ghost rem = s@.subrange(p, n as int);
        let mut j: usize = pos;
        while j < n && s.get_char(j) != '\n'
            invariant
                pos <= j <= n,
                n == s@.len(),
                forall|k: int| pos <= k < j ==> s@[k] != '\n',
            decreases n - j,
        {
            j = j + 1;
        }
        proof {
            assert forall|k: int| 0 <= k < j - p implies rem[k] != '\n' by {
                assert(rem[k] == s@[p + k]);
            }
            if j < n {
                assert(rem[j - p] == s@[j as int]);
            }
            lemma_first_newline_at(rem, j - p);
        }
        let line = s.substring_char(pos, j);
        res.push(String::from_str(line));
        proof {
            assert(line@ =~= rem.subrange(0, j - p));
        }
        if j == n {
            pos = n;
            proof {
                assert(rem =~= rem.subrange(0, j - p));
                assert(spec_lines(rem) =~~= seq![line@]);
                assert(spec_lines(s@) =~~= res.deep_view() + spec_lines(
                    s@.subrange(pos as int, n as int),
                ));
            }
        } else {
            pos = j + 1;
            proof {
                assert(rem.subrange(j - p + 1, rem.len() as int) =~= s@.subrange(
                    pos as int,
                    n as int,
                ));
                assert(spec_lines(rem) =~~= seq![line@] + spec_lines(
                    s@.subrange(pos as int, n as int),
                ));
                assert(spec_lines(s@) =~~= res.deep_view() + spec_lines(
                    s@.subrange(pos as int, n as int),
                ));
            }
        }
    }
    proof {
        assert(s@.subrange(pos as int, n as int) =~= Seq::<char>::empty());
        assert(res.deep_view() =~~= spec_lines(s@));
    }
    res
}

/// The concatenation of `lines`, each followed by one newline character.
pub open spec fn spec_unlines(lines: Seq<Seq<char>>) -> Seq<char>
    decreases lines.len(),
{
    if lines.len() == 0 {
        Seq::empty()
    } else {
        spec_unlines(lines.drop_last()) + lines.last() + seq!['\n']
    }
}

/// Joins lines into one text, each line followed by one newline character.
pub fn join_lines(lines: &Vec<String>) -> (r: String)
    ensures
        r@ == spec_unlines(lines.deep_view()),
{
    let mut out = String::new();
    let mut i: usize = 0;
    while i < lines.len()
        invariant
            i <= lines.len(),
            out@ == spec_unlines(lines.deep_view().take(i as int)),
        decreases lines.len() - i,
    {
        out.append(lines[i].as_str());
        out.append("\n");
        proof {
            let pre = lines.deep_view().take(i + 1);
            assert(pre.drop_last() =~~= lines.deep_view().take(i as int));
            assert(pre.last() == lines.deep_view()[i as int]);
            assert("\n"@ =~= seq!['\n']) by {
                reveal_strlit("\n");
            }
            assert(out@ =~= spec_unlines(pre));
        }
        i = i + 1;
    }
    proof {
        assert(lines.deep_view().take(lines.len() as int) =~~= lines.deep_view());
    }
    out
}

/// Joining re-associates from the front: the joined text opens with the
/// first line, its newline, and the joined rest.
proof fn lemma_unlines_drop_first(lines: Seq<Seq<char>>)
    requires
        lines.len() > 0,
    ensures
        spec_unlines(lines) == lines[0] + seq!['\n'] + spec_unlines(lines.drop_first()),
    decreases lines.len(),
{
    if lines.len() == 1 {
        assert(lines.drop_last() =~~= Seq::<Seq<char>>::empty());
        assert(lines.drop_first() =~~= Seq::<Seq<char>>::empty());
        assert(spec_unlines(lines) =~= lines[0] + seq!['\n'] + spec_unlines(lines.drop_first()));
    } else {
        let dl = lines.drop_last();
        lemma_unlines_drop_first(dl);
        assert(dl[0] == lines[0]);
        assert(dl.drop_first() =~~= lines.drop_first().drop_last());
        assert(lines.drop_first().last() == lines.last());
        assert(spec_unlines(lines.drop_first()) == spec_unlines(lines.drop_first().drop_last())
            + lines.last() + seq!['\n']);
        assert(spec_unlines(lines) =~= lines[0] + seq!['\n'] + spec_unlines(lines.drop_first()));
    }
}

/// Lines that hold no newline themselves are recovered exactly by
/// splitting their joined text.
pub proof fn lemma_unlines_lines_round_trip(lines: Seq<Seq<char>>)
    requires
        forall|i: int| 0 <= i < lines.len() ==> !(#[trigger] lines[i]).contains('\n'),
    ensures
        spec_lines(spec_unlines(lines)) == lines,
    decreases lines.len(),
{
    if lines.len() == 0 {
        assert(spec_lines(spec_unlines(lines)) =~~= lines);
    } else {
        let first = lines[0];
        let rest = lines.drop_first();
        lemma_unlines_drop_first(lines);
        let s = spec_unlines(lines);
        assert(s == first + seq!['\n'] + spec_unlines(rest));
        assert forall|j: int| 0 <= j < first.len() implies s[j] != '\n' by {
            assert(s[j] == first[j]);
            if first[j] == '\n' {
                assert(first.contains('\n'));
            }
        }
        assert(s[first.len() as int] == '\n');
        lemma_first_newline_at(s, first.len() as int);
        assert(s.subrange(0, first.len() as int) =~= first);
        assert(s.subrange(first.len() as int + 1, s.len() as int) =~= spec_unlines(rest));
        assert forall|i: int| 0 <= i < rest.len() implies !(#[trigger] rest[i]).contains(
            '\n',
        ) by {
            assert(rest[i] == lines[i + 1]);
        }
        lemma_unlines_lines_round_trip(rest);
        assert(spec_lines(s) =~~= lines);
    }
}

/// Whether `needle` occurs as a contiguous run inside `hay`.
pub open spec fn contains_seq(hay: Seq<char>, needle: Seq<char>) -> bool {
    exists|i: int|
        0 <= i <= hay.len() - needle.len() && #[trigger] hay.subrange(i, i + needle.len() as int)
            == needle
}

/// Substring search.
pub fn contains_str(hay: &str, needle: &str) -> (r: bool)
    ensures
        r == contains_seq(hay@, needle@),
{
    let n = hay.unicode_len();
    let m = needle.unicode_len();
    if m > n {
        return false;
    }
    let mut i: usize = 0;
    while i <= n - m
        invariant
            m <= n,
            i <= n - m + 1,
            n == hay@.len(),
            m == needle@.len(),
            forall|k: int| 0 <= k < i ==> #[trigger] hay@.subrange(k, k + m as int) != needle@,
        decreases n + 1 - m - i,
    {
        let mut j: usize = 0;
        while j < m && hay.get_char(i + j) == needle.get_char(j)
            invariant
                j <= m,
                i + m <= n,
                n == hay@.len(),
                m == needle@.len(),
                forall|t: int| 0 <= t < j ==> hay@[i + t] == needle@[t],
            decreases m - j,
        {
            j = j + 1;
        }
        if j == m {
            proof {
                assert(hay@.subrange(i as int, i + m as int) =~= needle@);
            }
            return true;
        }
        proof {
            assert(hay@.subrange(i as int, i + m as int)[j as int] == hay@[i + j]);
            assert(hay@.subrange(i as int, i + m as int) != needle@);
        }
        i = i + 1;
    }
    proof {
        assert forall|k: int| 0 <= k <= n - m implies #[trigger] hay@.subrange(k, k + m as int) != needle@ by {
            assert(0 <= k < i);
        }
    }
    false
}

} // verus!
