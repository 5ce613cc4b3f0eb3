//! Parsing the dependency inventory: the build tool hands over one line of
//! text per dependency, whitespace-separated. A line that splits into
//! exactly two tokens yields a `(name, version)` entry; every other line is
//! discarded. Order is kept.

use vstd::prelude::*;
use crate::model::DependencyRef;

verus! {

/// Whitespace that separates the tokens of a listing line.
pub open spec fn is_space(c: char) -> bool {
    c == ' ' || c == '\t' || c == '\r'
}

/// The character that ends a listing line.
pub open spec fn is_line_break(c: char) -> bool {
    c == '\n'
}

/// One left-to-right scan of `s` for whitespace: the non-space segments
/// completed so far, and the trailing still-open segment.
pub open spec fn scan_spaces(s: Seq<char>) -> (Seq<Seq<char>>, Seq<char>)
    decreases s.len(),
{
    if s.len() == 0 {
        (Seq::empty(), Seq::empty())
    } else {
        let p = scan_spaces(s.drop_last());
        if is_space(s.last()) {
            if p.1.len() > 0 {
                (p.0.push(p.1), Seq::empty())
            } else {
                (p.0, Seq::empty())
            }
        } else {
            (p.0, p.1.push(s.last()))
        }
    }
}

/// The whitespace-separated tokens of `s`, in order, without empties.
pub open spec fn space_tokens(s: Seq<char>) -> Seq<Seq<char>> {
    let p = scan_spaces(s);
    if p.1.len() > 0 {
        p.0.push(p.1)
    } else {
        p.0
    }
}

/// One left-to-right scan of `s` for line breaks: the non-empty lines
/// completed so far, and the trailing still-open line.
pub open spec fn scan_breaks(s: Seq<char>) -> (Seq<Seq<char>>, Seq<char>)
    decreases s.len(),
{
    if s.len() == 0 {
        (Seq::empty(), Seq::empty())
    } else {
        let p = scan_breaks(s.drop_last());
        if is_line_break(s.last()) {
            if p.1.len() > 0 {
                (p.0.push(p.1), Seq::empty())
            } else {
                (p.0, Seq::empty())
            }
        } else {
            (p.0, p.1.push(s.last()))
        }
    }
}

/// The non-empty lines of `s`, in order. An empty line carries no entry
/// anyway, so nothing is lost by leaving it out here.
pub open spec fn text_lines(s: Seq<char>) -> Seq<Seq<char>> {
    let p = scan_breaks(s);
    if p.1.len() > 0 {
        p.0.push(p.1)
    } else {
        p.0
    }
}

/// The views of a vector of strings.
pub open spec fn token_views(toks: Seq<String>) -> Seq<Seq<char>> {
    toks.map_values(|t: String| t@)
}

/// The views of a vector of dependency references.
pub open spec fn dep_views(deps: Seq<DependencyRef>) -> Seq<(Seq<char>, Seq<char>)> {
    deps.map_values(|d: DependencyRef| (d.name@, d.version@))
}

/// The entry of one listing line: its two whitespace-separated tokens as
/// (name, version), or nothing when the line does not split into exactly
/// two tokens.
pub open spec fn line_entry(line: Seq<char>) -> Option<(Seq<char>, Seq<char>)> {
    let toks = space_tokens(line);
    if toks.len() == 2 {
        Some((toks[0], toks[1]))
    } else {
        None
    }
}

/// The entries of a sequence of lines, in order, lines without an entry
/// left out.
pub open spec fn entries_of_lines(lines: Seq<Seq<char>>) -> Seq<(Seq<char>, Seq<char>)>
    decreases lines.len(),
{
    if lines.len() == 0 {
        Seq::empty()
    } else {
        let rest = entries_of_lines(lines.drop_last());
        match line_entry(lines.last()) {
            Some(e) => rest.push(e),
            None => rest,
        }
    }
}

/// The (name, version) pairs of a whole dependency listing: one entry per
/// line that splits into exactly two whitespace-separated tokens, in input
/// order.
pub open spec fn spec_dependency_list(text: Seq<char>) -> Seq<(Seq<char>, Seq<char>)> {
    entries_of_lines(text_lines(text))
}

proof fn lemma_scan_spaces_tokens_nonempty(s: Seq<char>)
    ensures
        forall|i: int|
            0 <= i < scan_spaces(s).0.len() ==> (#[trigger] scan_spaces(s).0[i]).len() > 0,
    decreases s.len(),
{
    if s.len() > 0 {
        lemma_scan_spaces_tokens_nonempty(s.drop_last());
        let p = scan_spaces(s.drop_last());
        assert forall|i: int|
            0 <= i < scan_spaces(s).0.len() implies (#[trigger] scan_spaces(s).0[i]).len()
            > 0 by {
            if i < p.0.len() {
                assert(scan_spaces(s).0[i] == p.0[i]);
            } else {
                assert(scan_spaces(s).0[i] == p.1);
            }
        }
    }
}

/// Every whitespace-separated token of a line is non-empty.
pub proof fn lemma_space_tokens_nonempty(s: Seq<char>)
    ensures
        forall|i: int|
            0 <= i < space_tokens(s).len() ==> (#[trigger] space_tokens(s)[i]).len() > 0,
{
    lemma_scan_spaces_tokens_nonempty(s);
}

proof fn lemma_entries_nonempty(lines: Seq<Seq<char>>)
    ensures
        forall|i: int|
            0 <= i < entries_of_lines(lines).len() ==> (#[trigger] entries_of_lines(
                lines,
            )[i]).0.len() > 0 && entries_of_lines(lines)[i].1.len() > 0,
    decreases lines.len(),
{
    if lines.len() > 0 {
        lemma_entries_nonempty(lines.drop_last());
        let rest = entries_of_lines(lines.drop_last());
        match line_entry(lines.last()) {
            Some(e) => {
                lemma_space_tokens_nonempty(lines.last());
                assert(e.0 == space_tokens(lines.last())[0]);
                assert(e.1 == space_tokens(lines.last())[1]);
                assert forall|i: int|
                    0 <= i < entries_of_lines(lines).len() implies (#[trigger] entries_of_lines(
                    lines,
                )[i]).0.len() > 0 && entries_of_lines(lines)[i].1.len() > 0 by {
                    if i < rest.len() {
                        assert(entries_of_lines(lines)[i] == rest[i]);
                    } else {
                        assert(entries_of_lines(lines)[i] == e);
                    }
                }
            },
            None => {},
        }
    }
}

/// Every entry of a parsed dependency listing has a non-empty name and a
/// non-empty version, so each name is a valid input for the resolver.
pub proof fn lemma_dependency_list_entries_nonempty(text: Seq<char>)
    ensures
        forall|i: int|
            0 <= i < spec_dependency_list(text).len() ==> (#[trigger] spec_dependency_list(
                text,
            )[i]).0.len() > 0 && spec_dependency_list(text)[i].1.len() > 0,
{
    lemma_entries_nonempty(text_lines(text));
}

proof fn lemma_token_views_push(ts: Seq<String>, t: String)
    ensures
        token_views(ts.push(t)) == token_views(ts).push(t@),
{
    assert(token_views(ts.push(t)) =~= token_views(ts).push(t@));
}

proof fn lemma_dep_views_push(ds: Seq<DependencyRef>, d: DependencyRef)
    ensures
        dep_views(ds.push(d)) == dep_views(ds).push((d.name@, d.version@)),
{
    assert(dep_views(ds.push(d)) =~= dep_views(ds).push((d.name@, d.version@)));
}

/// Tests a character for listing whitespace.
fn is_space_char(c: char) -> (b: bool)
    ensures
        b == is_space(c),
{
    c == ' ' || c == '\t' || c == '\r'
}

/// Tests a character for a line break.
fn is_break_char(c: char) -> (b: bool)
    ensures
        b == is_line_break(c),
{
    c == '\n'
}

/// Splits `s` into its whitespace-separated tokens, in order.
pub fn split_space_tokens(s: &str) -> (toks: Vec<String>)
    ensures
        token_views(toks@) == space_tokens(s@),
{
    let n = s.unicode_len();
    let mut toks: Vec<String> = Vec::new();
    let mut start: usize = 0;
    let mut i: usize = 0;
    proof {
        assert(s@.subrange(0, 0) =~= Seq::<char>::empty());
        assert(token_views(toks@) =~= Seq::<Seq<char>>::empty());
    }
    while i < n
        invariant
            i <= n,
            start <= i,
            n == s@.len(),
            scan_spaces(s@.subrange(0, i as int)).0 == token_views(toks@),
            scan_spaces(s@.subrange(0, i as int)).1 == s@.subrange(start as int, i as int),
        decreases n - i,
    {
        let c = s.get_char(i);
        proof {
            let pre = s@.subrange(0, i as int);
            let post = s@.subrange(0, i as int + 1);
            assert(post.drop_last() =~= pre);
            assert(post.last() == s@[i as int]);
        }
        if is_space_char(c) {
            if start < i {
                let tok = String::from_str(s.substring_char(start, i));
                proof {
                    lemma_token_views_push(toks@, tok);
                }
                toks.push(tok);
            }
            proof {
                assert(s@.subrange(i as int + 1, i as int + 1) =~= Seq::<char>::empty());
            }
            start = i + 1;
        } else {
            proof {
                assert(s@.subrange(start as int, i as int + 1) =~= s@.subrange(
                    start as int,
                    i as int,
                ).push(s@[i as int]));
            }
        }
        i += 1;
    }
    proof {
        assert(s@.subrange(0, n as int) =~= s@);
    }
    if start < n {
        let tok = String::from_str(s.substring_char(start, n));
        proof {
            lemma_token_views_push(toks@, tok);
        }
        toks.push(tok);
    }
    toks
}

/// Splits `s` into its non-empty lines, in order.
pub fn split_lines(s: &str) -> (lines: Vec<String>)
    ensures
        token_views(lines@) == text_lines(s@),
{
    let n = s.unicode_len();
    let mut lines: Vec<String> = Vec::new();
    let mut start: usize = 0;
    let mut i: usize = 0;
    proof {
        assert(s@.subrange(0, 0) =~= Seq::<char>::empty());
        assert(token_views(lines@) =~= Seq::<Seq<char>>::empty());
    }
    while i < n
        invariant
            i <= n,
            start <= i,
            n == s@.len(),
            scan_breaks(s@.subrange(0, i as int)).0 == token_views(lines@),
            scan_breaks(s@.subrange(0, i as int)).1 == s@.subrange(start as int, i as int),
        decreases n - i,
    {
        let c = s.get_char(i);
        proof {
            let pre = s@.subrange(0, i as int);
            let post = s@.subrange(0, i as int + 1);
            assert(post.drop_last() =~= pre);
            assert(post.last() == s@[i as int]);
        }
        if is_break_char(c) {
            if start < i {
                let line = String::from_str(s.substring_char(start, i));
                proof {
                    lemma_token_views_push(lines@, line);
                }
                lines.push(line);
            }
            proof {
                assert(s@.subrange(i as int + 1, i as int + 1) =~= Seq::<char>::empty());
            }
            start = i + 1;
        } else {
            proof {
                assert(s@.subrange(start as int, i as int + 1) =~= s@.subrange(
                    start as int,
                    i as int,
                ).push(s@[i as int]));
            }
        }
        i += 1;
    }
    proof {
        assert(s@.subrange(0, n as int) =~= s@);
    }
    if start < n {
        let line = String::from_str(s.substring_char(start, n));
        proof {
            lemma_token_views_push(lines@, line);
        }
        lines.push(line);
    }
    lines
}

/// Parses a dependency listing: one `DependencyRef` per line with exactly
/// two whitespace-separated tokens, name first, version second, in input
/// order; every other line is discarded.
pub fn parse_dependency_list(text: &str) -> (deps: Vec<DependencyRef>)
    ensures
        dep_views(deps@) == spec_dependency_list(text@),
{
    let lines = split_lines(text);
    let mut deps: Vec<DependencyRef> = Vec::new();
    let mut i: usize = 0;
    proof {
        assert(token_views(lines@).subrange(0, 0) =~= Seq::<Seq<char>>::empty());
        assert(dep_views(deps@) =~= Seq::<(Seq<char>, Seq<char>)>::empty());
    }
    while i < lines.len()
        invariant
            i <= lines@.len(),
            token_views(lines@) == text_lines(text@),
            dep_views(deps@) == entries_of_lines(token_views(lines@).subrange(0, i as int)),
        decreases lines@.len() - i,
    {
        proof {
            let pre = token_views(lines@).subrange(0, i as int);
            let post = token_views(lines@).subrange(0, i as int + 1);
            assert(post.drop_last() =~= pre);
            assert(post.last() == token_views(lines@)[i as int]);
        }
        let mut toks = split_space_tokens(lines[i].as_str());
        let ghost toks0 = toks@;
        if toks.len() == 2 {
            let version = toks.pop().unwrap();
            let name = toks.pop().unwrap();
            proof {
                let lv = token_views(lines@)[i as int];
                assert(space_tokens(lv) == token_views(toks0));
                assert(token_views(toks0)[0] == toks0[0]@);
                assert(token_views(toks0)[1] == toks0[1]@);
                assert(line_entry(lv) == Some((name@, version@)));
                lemma_dep_views_push(deps@, DependencyRef { name, version });
            }
            deps.push(DependencyRef { name, version });
        }
        i += 1;
    }
    proof {
        assert(token_views(lines@).subrange(0, lines@.len() as int) =~= token_views(lines@));
    }
    deps
}

} // verus!
