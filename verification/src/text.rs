//! Verified string helpers: prefix tests and the scheme-stripping the
//! scorecard service requires.

use vstd::prelude::*;

verus! {

/// `s` with the prefix `p` removed once if `s` starts with `p`, otherwise
/// `s` unchanged.
pub open spec fn spec_without_prefix(s: Seq<char>, p: Seq<char>) -> Seq<char> {
    if p.len() <= s.len() && s.subrange(0, p.len() as int) == p {
        s.skip(p.len() as int)
    } else {
        s
    }
}

/// A repository URL with a leading `http://` and then a leading `https://`
/// stripped, each exactly once and in that order, non-recursively.
pub open spec fn spec_strip_scheme(s: Seq<char>) -> Seq<char> {
    spec_without_prefix(spec_without_prefix(s, "http://"@), "https://"@)
}

/// Whether `s` starts with `p`, character by character.
pub fn starts_with_str(s: &str, p: &str) -> (b: bool)
    ensures
        b == (p@.len() <= s@.len() && s@.subrange(0, p@.len() as int) == p@),
{
    let sn = s.unicode_len();
    let pn = p.unicode_len();
    if pn > sn {
        return false;
    }
    let mut i: usize = 0;
    while i < pn
        invariant
            i <= pn,
            pn == p@.len(),
            sn == s@.len(),
            pn <= sn,
            forall|j: int| 0 <= j < i ==> s@[j] == p@[j],
        decreases pn - i,
    {
        if s.get_char(i) != p.get_char(i) {
            assert(s@.subrange(0, pn as int)[i as int] != p@[i as int]);
            return false;
        }
        i += 1;
    }
    assert(s@.subrange(0, pn as int) =~= p@);
    true
}

/// `url` with a leading `http://` stripped once, then a leading `https://`
/// stripped once, since the scorecard service addresses projects by bare
/// host and path.
pub fn strip_scheme(url: &str) -> (r: String)
    ensures
        r@ == spec_strip_scheme(url@),
{
    proof {
        reveal_strlit("http://");
        reveal_strlit("https://");
    }
    let s1: &str = if starts_with_str(url, "http://") {
        let rest = url.substring_char(7, url.unicode_len());
        assert(rest@ =~= spec_without_prefix(url@, "http://"@));
        rest
    } else {
        url
    };
    let s2: &str = if starts_with_str(s1, "https://") {
        let rest = s1.substring_char(8, s1.unicode_len());
        assert(rest@ =~= spec_without_prefix(s1@, "https://"@));
        rest
    } else {
        s1
    };
    String::from_str(s2)
}

} // verus!
