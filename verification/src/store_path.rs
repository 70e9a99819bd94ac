//! Validated store paths and the parsing of realize output.

use vstd::prelude::*;
use vstd::string::StrSliceExecFns;
use crate::error::HostError;

verus! {

/// A textual store path is valid when it is non-empty and absolute.
pub open spec fn is_valid_store_path(s: Seq<char>) -> bool {
    s.len() > 0 && s[0] == '/'
}

/// An immutable, validated filesystem path identifying a content-addressed
/// build artifact.
#[derive(Debug)]
pub struct StorePath {
    path: String,
}

impl View for StorePath {
    type V = Seq<char>;

    closed spec fn view(&self) -> Seq<char> {
        self.path@
    }
}

impl DeepView for StorePath {
    type V = Seq<char>;

    open spec fn deep_view(&self) -> Seq<char> {
        self.view()
    }
}

impl StorePath {
    /// Every constructed store path satisfies validity.
    pub open spec fn wf(self) -> bool {
        is_valid_store_path(self@)
    }

    /// Parses a string into a store path; invalid input is rejected, never
    /// silently truncated.
    pub fn parse(s: String) -> (r: Result<StorePath, HostError>)
        ensures
            r is Ok <==> is_valid_store_path(s@),
            match r {
                Ok(p) => p@ == s@ && p.wf(),
                Err(e) => e matches HostError::InvalidStorePath(l) && l@ == s@,
            },
    {
        let n = s.as_str().unicode_len();
        if n == 0 {
            return Err(HostError::InvalidStorePath(s));
        }
        if s.as_str().get_char(0) != '/' {
            return Err(HostError::InvalidStorePath(s));
        }
        Ok(StorePath { path: s })
    }

    /// The textual form of the path.
    pub fn as_path(&self) -> (r: &str)
        ensures
            r@ == self@,
    {
        self.path.as_str()
    }
}

/// The list of store paths named by a realize output, one per non-empty
/// line, or nothing if any non-empty line is not a valid store path.
pub open spec fn spec_store_paths(lines: Seq<Seq<char>>) -> Option<Seq<Seq<char>>>
    decreases lines.len(),
{
    if lines.len() == 0 {
        Some(Seq::empty())
    } else {
        match spec_store_paths(lines.drop_last()) {
            Option::None => Option::None,
            Option::Some(ps) => {
                let l = lines.last();
                if l.len() == 0 {
                    Some(ps)
                } else if is_valid_store_path(l) {
                    Some(ps.push(l))
                } else {
                    Option::None
                }
            },
        }
    }
}

/// Once a prefix of the lines fails to parse, the whole output fails.
pub proof fn lemma_store_paths_prefix_none(lines: Seq<Seq<char>>, i: int)
    requires
        0 <= i <= lines.len(),
        spec_store_paths(lines.take(i)) is None,
    ensures
        spec_store_paths(lines) is None,
    decreases lines.len() - i,
{
    if i == lines.len() {
        assert(lines.take(i) =~~= lines);
    } else {
        assert(lines.take(i + 1).drop_last() =~~= lines.take(i));
        lemma_store_paths_prefix_none(lines, i + 1);
    }
}

/// A single malformed non-empty line fails the whole output.
pub proof fn lemma_malformed_line_fails(lines: Seq<Seq<char>>, i: int)
    requires
        0 <= i < lines.len(),
        lines[i].len() > 0,
        !is_valid_store_path(lines[i]),
    ensures
        spec_store_paths(lines) is None,
    decreases lines.len(),
{
    if i == lines.len() - 1 {
    } else {
        lemma_malformed_line_fails(lines.drop_last(), i);
    }
}

/// Parses captured realize output lines: one store path per non-empty line;
/// a line that fails to parse fails the whole call, with no partial list.
pub fn parse_store_paths(lines: Vec<String>) -> (r: Result<Vec<StorePath>, HostError>)
    ensures
        match r {
            Ok(ps) => spec_store_paths(lines.deep_view()) == Some(ps.deep_view()),
            Err(e) => spec_store_paths(lines.deep_view()) is None && e matches
                HostError::InvalidStorePath(_),
        },
{
    let ghost all = lines.deep_view();
    let mut out: Vec<StorePath> = Vec::new();
    let mut i: usize = 0;
    proof {
        assert(all.take(0) =~~= Seq::<Seq<char>>::empty());
        assert(out.deep_view() =~~= Seq::<Seq<char>>::empty());
    }
    while i < lines.len()
        invariant
            i <= lines.len(),
            all == lines.deep_view(),
            spec_store_paths(all.take(i as int)) == Some(out.deep_view()),
        decreases lines.len() - i,
    {
        let line = lines[i].clone();
        proof {
            assert(all.take(i + 1).drop_last() =~~= all.take(i as int));
            assert(all.take(i + 1).last() == line@);
        }
        if line.as_str().unicode_len() > 0 {
            match StorePath::parse(line) {
                Ok(p) => {
                    let ghost prev = out.deep_view();
                    out.push(p);
                    proof {
                        assert(out.deep_view() =~~= prev.push(p@));
                    }
                },
                Err(e) => {
                    proof {
                        lemma_store_paths_prefix_none(all, i + 1);
                    }
                    return Err(e);
                },
            }
        }
        i = i + 1;
    }
    proof {
        assert(all.take(lines.len() as int) =~~= all);
    }
    Ok(out)
}

} // verus!
