//! Version banner handling: trimming a probe's output and comparing it
//! against the banner the required compiler version must print.

use vstd::prelude::*;

verus! {

/// A whitespace character, as the Unicode `White_Space` property lists
/// them; the trim performed before the banner comparison removes exactly
/// these from both ends.
pub open spec fn is_space_char(c: char) -> bool {
    c == '\u{0009}' || c == '\u{000A}' || c == '\u{000B}' || c == '\u{000C}' || c == '\u{000D}'
        || c == '\u{0020}' || c == '\u{0085}' || c == '\u{00A0}' || c == '\u{1680}' || c
        == '\u{2000}' || c == '\u{2001}' || c == '\u{2002}' || c == '\u{2003}' || c == '\u{2004}'
        || c == '\u{2005}' || c == '\u{2006}' || c == '\u{2007}' || c == '\u{2008}' || c
        == '\u{2009}' || c == '\u{200A}' || c == '\u{2028}' || c == '\u{2029}' || c == '\u{202F}'
        || c == '\u{205F}' || c == '\u{3000}'
}

/// Runtime test for [`is_space_char`].
pub fn char_is_space(c: char) -> (b: bool)
    ensures
        b == is_space_char(c),
{
    match c {
        '\u{0009}' | '\u{000A}' | '\u{000B}' | '\u{000C}' | '\u{000D}' | '\u{0020}' | '\u{0085}'
            | '\u{00A0}' | '\u{1680}' | '\u{2000}' | '\u{2001}' | '\u{2002}' | '\u{2003}'
            | '\u{2004}' | '\u{2005}' | '\u{2006}' | '\u{2007}' | '\u{2008}' | '\u{2009}'
            | '\u{200A}' | '\u{2028}' | '\u{2029}' | '\u{202F}' | '\u{205F}' | '\u{3000}' => true,
        _ => false,
    }
}

/// The sequence with its maximal all-whitespace prefix removed.
pub open spec fn drop_leading_spaces(s: Seq<char>) -> Seq<char>
    decreases s.len(),
{
    if s.len() > 0 && is_space_char(s[0]) {
        drop_leading_spaces(s.subrange(1, s.len() as int))
    } else {
        s
    }
}

/// The sequence with its maximal all-whitespace suffix removed.
pub open spec fn drop_trailing_spaces(s: Seq<char>) -> Seq<char>
    decreases s.len(),
{
    if s.len() > 0 && is_space_char(s[s.len() - 1]) {
        drop_trailing_spaces(s.drop_last())
    } else {
        s
    }
}

/// The sequence with whitespace removed from both ends.
pub open spec fn trim_spec(s: Seq<char>) -> Seq<char> {
    drop_trailing_spaces(drop_leading_spaces(s))
}

proof fn lemma_drop_leading_at(s: Seq<char>, i: int)
    requires
        0 <= i <= s.len(),
        forall|k: int| 0 <= k < i ==> is_space_char(s[k]),
        i == s.len() || !is_space_char(s[i]),
    ensures
        drop_leading_spaces(s) == s.subrange(i, s.len() as int),
    decreases i,
{
    if i == 0 {
        assert(s.subrange(0, s.len() as int) =~= s);
    } else {
        let sub = s.subrange(1, s.len() as int);
        lemma_drop_leading_at(sub, i - 1);
        assert(sub.subrange(i - 1, sub.len() as int) =~= s.subrange(i, s.len() as int));
    }
}

proof fn lemma_drop_trailing_at(s: Seq<char>, m: int)
    requires
        0 <= m <= s.len(),
        forall|k: int| m <= k < s.len() ==> is_space_char(s[k]),
        m == 0 || !is_space_char(s[m - 1]),
    ensures
        drop_trailing_spaces(s) == s.subrange(0, m),
    decreases s.len() - m,
{
    if m == s.len() {
        assert(s.subrange(0, m) =~= s);
    } else {
        lemma_drop_trailing_at(s.drop_last(), m);
        assert(s.drop_last().subrange(0, m) =~= s.subrange(0, m));
    }
}

/// A borrowed copy of `s` with whitespace removed from both ends, as the
/// banner comparison performs it.
pub fn trim_str(s: &str) -> (r: &str)
    ensures
        r@ == trim_spec(s@),
{
    let n = s.unicode_len();
    let mut i: usize = 0;
    loop
        invariant
            i <= n,
            n == s@.len(),
            forall|k: int| 0 <= k < i ==> is_space_char(s@[k]),
        ensures
            i <= n,
            forall|k: int| 0 <= k < i ==> is_space_char(s@[k]),
            i == n || !is_space_char(s@[i as int]),
        decreases n - i,
    {
        if i == n {
            break ;
        }
        if !char_is_space(s.get_char(i)) {
            break ;
        }
        i = i + 1;
    }
    let mut j: usize = n;
    loop
        invariant
            i <= j <= n,
            n == s@.len(),
            forall|k: int| j <= k < n ==> is_space_char(s@[k]),
        ensures
            i <= j <= n,
            forall|k: int| j <= k < n ==> is_space_char(s@[k]),
            j == i || !is_space_char(s@[j - 1]),
        decreases j,
    {
        if j == i {
            break ;
        }
        if !char_is_space(s.get_char(j - 1)) {
            break ;
        }
        j = j - 1;
    }
    proof {
        lemma_drop_leading_at(s@, i as int);
        let mid = s@.subrange(i as int, n as int);
        lemma_drop_trailing_at(mid, j - i);
        assert(mid.subrange(0, j - i) =~= s@.subrange(i as int, j as int));
    }
    s.substring_char(i, j)
}

/// The banner a compatible compiler prints on its version flag: the
/// fixed prefix followed by the required version.
pub open spec fn spec_expected_banner(required: Seq<char>) -> Seq<char> {
    "Cap'n Proto version "@ + required
}

/// Runtime construction of [`spec_expected_banner`].
pub fn expected_banner(required: &str) -> (r: String)
    ensures
        r@ == spec_expected_banner(required@),
{
    String::from_str("Cap'n Proto version ").concat(required)
}

/// Whether an observed banner, once trimmed, is exactly the banner a
/// compiler of the required version prints.
pub open spec fn spec_banner_matches(banner: Seq<char>, required: Seq<char>) -> bool {
    trim_spec(banner) == spec_expected_banner(required)
}

/// Runtime test for [`spec_banner_matches`].
pub fn banner_matches(banner: &str, required: &str) -> (b: bool)
    ensures
        b == spec_banner_matches(banner@, required@),
{
    let trimmed = trim_str(banner).to_owned();
    let expected = expected_banner(required);
    trimmed == expected
}

} // verus!
