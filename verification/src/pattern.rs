//! The grammar of a game version.
//!
//! A version is three decimal numbers with dots between them, and after
//! them, where a build is named, an underscore and a fourth number:
//! `1.29.1` or `1.29.1_4886`. A text passes where it ends in a version;
//! what stands before the version is not looked at. As a regular expression
//! the rule reads `[0-9]+\.[0-9]+\.[0-9]+(?:_[0-9]+)?$`.

use vstd::prelude::*;

use crate::text::chars_of;

verus! {

/// One of the ten ASCII digits.
pub open spec fn is_digit(c: char) -> bool {
    '0' <= c && c <= '9'
}

/// The characters of `s` from `lo` up to `hi`, `hi` left out, are digits,
/// and there is at least one.
pub open spec fn digits(s: Seq<char>, lo: int, hi: int) -> bool {
    &&& 0 <= lo < hi <= s.len()
    &&& forall|k: int| lo <= k < hi ==> is_digit(#[trigger] s[k])
}

/// From `from` to the end of `s` stands the last number of a version, alone
/// or followed by an underscore and a build number.
pub open spec fn patch_and_build(s: Seq<char>, from: int) -> bool {
    ||| digits(s, from, s.len() as int)
    ||| exists|underscore: int|
        {
            &&& #[trigger] digits(s, from, underscore)
            &&& underscore < s.len()
            &&& s[underscore] == '_'
            &&& digits(s, underscore + 1, s.len() as int)
        }
}

/// From `start` to the end of `s` stands a version whose dots are at `dot1`
/// and `dot2`.
pub open spec fn version_with_dots(s: Seq<char>, start: int, dot1: int, dot2: int) -> bool {
    &&& digits(s, start, dot1)
    &&& dot1 < s.len()
    &&& s[dot1] == '.'
    &&& digits(s, dot1 + 1, dot2)
    &&& dot2 < s.len()
    &&& s[dot2] == '.'
    &&& patch_and_build(s, dot2 + 1)
}

/// From `start` to the end, `s` is a version and nothing else.
pub open spec fn version_from(s: Seq<char>, start: int) -> bool {
    exists|dot1: int, dot2: int| version_with_dots(s, start, dot1, dot2)
}

/// The whole of `s` is a version.
pub open spec fn is_version(s: Seq<char>) -> bool {
    version_from(s, 0)
}

/// `s` ends in a version.
pub open spec fn ends_in_version(s: Seq<char>) -> bool {
    exists|start: int| version_from(s, start)
}

/// Where the longest run of digits that stops just before `end` begins;
/// `end` itself where no digit stands there.
spec fn run_start(s: Seq<char>, end: int) -> int
    decreases end,
{
    if 0 < end <= s.len() && is_digit(s[end - 1]) {
        run_start(s, end - 1)
    } else {
        end
    }
}

/// Where the third number of a version at the end of `s` has to begin, if
/// the end of `s` can be the end of a version at all.
spec fn patch_start(s: Seq<char>) -> Option<int> {
    let last = run_start(s, s.len() as int);
    if last == s.len() || last == 0 {
        None
    } else if s[last - 1] == '.' {
        Some(last)
    } else if s[last - 1] == '_' {
        let patch = run_start(s, last - 1);
        if patch == last - 1 || patch == 0 || s[patch - 1] != '.' {
            None
        } else {
            Some(patch)
        }
    } else {
        None
    }
}

/// What reading `s` backwards from its end finds: whether a version ends
/// there.
spec fn scan(s: Seq<char>) -> bool {
    match patch_start(s) {
        None => false,
        Some(patch) => {
            let minor = run_start(s, patch - 1);
            &&& minor != patch - 1
            &&& minor >= 2
            &&& s[minor - 1] == '.'
            &&& is_digit(s[minor - 2])
        },
    }
}

/// The run that `run_start` finds lies in `s`, holds digits only, and cannot
/// be made longer.
proof fn lemma_run_start(s: Seq<char>, end: int)
    requires
        0 <= end <= s.len(),
    ensures
        0 <= run_start(s, end) <= end,
        forall|k: int| run_start(s, end) <= k < end ==> is_digit(#[trigger] s[k]),
        run_start(s, end) == 0 || !is_digit(s[run_start(s, end) - 1]),
    decreases end,
{
    if 0 < end && is_digit(s[end - 1]) {
        lemma_run_start(s, end - 1);
    }
}

/// A run of digits with no digit before it is the run that `run_start`
/// finds.
proof fn lemma_run_start_unique(s: Seq<char>, begin: int, end: int)
    requires
        0 <= begin <= end <= s.len(),
        forall|k: int| begin <= k < end ==> is_digit(#[trigger] s[k]),
        begin == 0 || !is_digit(s[begin - 1]),
    ensures
        run_start(s, end) == begin,
    decreases end - begin,
{
    if begin < end {
        assert(is_digit(s[end - 1]));
        lemma_run_start_unique(s, begin, end - 1);
    }
}

/// Reading backwards finds a version exactly where one ends the text.
proof fn lemma_scan_finds_versions(s: Seq<char>)
    ensures
        scan(s) == ends_in_version(s),
{
    let n = s.len() as int;
    if scan(s) {
        let last = run_start(s, n);
        lemma_run_start(s, n);
        let patch = patch_start(s)->Some_0;
        if s[last - 1] == '_' {
            lemma_run_start(s, last - 1);
            assert(digits(s, patch, last - 1));
            assert(digits(s, last, n));
            assert(patch_and_build(s, patch));
        } else {
            assert(digits(s, patch, n));
        }
        let minor = run_start(s, patch - 1);
        lemma_run_start(s, patch - 1);
        assert(digits(s, minor, patch - 1));
        assert(digits(s, minor - 2, minor - 1));
        assert(version_with_dots(s, minor - 2, minor - 1, patch - 1));
        assert(version_from(s, minor - 2));
    }
    if ends_in_version(s) {
        let start = choose|start: int| version_from(s, start);
        let (dot1, dot2) = choose|dot1: int, dot2: int| version_with_dots(s, start, dot1, dot2);
        let patch = dot2 + 1;
        assert(!is_digit('.'));
        assert(!is_digit('_'));
        if digits(s, patch, n) {
            lemma_run_start_unique(s, patch, n);
        } else {
            let underscore = choose|underscore: int|
                {
                    &&& #[trigger] digits(s, patch, underscore)
                    &&& underscore < s.len()
                    &&& s[underscore] == '_'
                    &&& digits(s, underscore + 1, n)
                };
            lemma_run_start_unique(s, underscore + 1, n);
            lemma_run_start_unique(s, patch, underscore);
        }
        assert(patch_start(s) == Some(patch));
        lemma_run_start_unique(s, dot1 + 1, dot2);
        assert(is_digit(s[dot1 - 1]));
    }
}

/// Cutting `cut` characters off the front of `s` moves a version that begins
/// at or after the cut, and changes nothing else about it.
proof fn lemma_version_survives_cut(s: Seq<char>, cut: int, start: int, dot1: int, dot2: int)
    requires
        0 <= cut <= start,
        cut <= s.len(),
    ensures
        version_with_dots(s, start, dot1, dot2) == version_with_dots(
            s.skip(cut),
            start - cut,
            dot1 - cut,
            dot2 - cut,
        ),
{
    let t = s.skip(cut);
    let n = s.len() as int;
    assert forall|lo: int, hi: int| cut <= lo implies digits(s, lo, hi) == digits(
        t,
        lo - cut,
        hi - cut,
    ) by {
        if digits(s, lo, hi) {
            assert forall|k: int| lo - cut <= k < hi - cut implies is_digit(#[trigger] t[k]) by {
                assert(t[k] == s[k + cut]);
            }
        }
        if digits(t, lo - cut, hi - cut) {
            assert forall|k: int| lo <= k < hi implies is_digit(#[trigger] s[k]) by {
                assert(s[k] == t[k - cut]);
            }
        }
    }
    if version_with_dots(s, start, dot1, dot2) {
        assert(t[dot1 - cut] == s[dot1]);
        assert(t[dot2 - cut] == s[dot2]);
        if !digits(s, dot2 + 1, n) {
            let underscore = choose|underscore: int|
                {
                    &&& #[trigger] digits(s, dot2 + 1, underscore)
                    &&& underscore < s.len()
                    &&& s[underscore] == '_'
                    &&& digits(s, underscore + 1, n)
                };
            assert(digits(t, dot2 + 1 - cut, underscore - cut));
            assert(t[underscore - cut] == s[underscore]);
            assert(digits(t, underscore - cut + 1, t.len() as int));
        } else {
            assert(digits(t, dot2 + 1 - cut, t.len() as int));
        }
    }
    if version_with_dots(t, start - cut, dot1 - cut, dot2 - cut) {
        assert(t[dot1 - cut] == s[dot1]);
        assert(t[dot2 - cut] == s[dot2]);
        if !digits(t, dot2 - cut + 1, t.len() as int) {
            let underscore = choose|underscore: int|
                {
                    &&& #[trigger] digits(t, dot2 - cut + 1, underscore)
                    &&& underscore < t.len()
                    &&& t[underscore] == '_'
                    &&& digits(t, underscore + 1, t.len() as int)
                };
            assert(digits(s, dot2 + 1, underscore + cut));
            assert(t[underscore] == s[underscore + cut]);
            assert(digits(s, underscore + cut + 1, n));
        } else {
            assert(digits(s, dot2 + 1, n));
        }
    }
}

/// A text ends in a version exactly where cutting some number of characters
/// off its front leaves a version and nothing else.
pub proof fn lemma_ends_in_version_means_suffix(s: Seq<char>)
    ensures
        ends_in_version(s) <==> exists|cut: int|
            0 <= cut <= s.len() && is_version(#[trigger] s.skip(cut)),
{
    if ends_in_version(s) {
        let start = choose|start: int| version_from(s, start);
        let (dot1, dot2) = choose|dot1: int, dot2: int| version_with_dots(s, start, dot1, dot2);
        lemma_version_survives_cut(s, start, start, dot1, dot2);
        assert(version_with_dots(s.skip(start), 0, dot1 - start, dot2 - start));
        assert(is_version(s.skip(start)));
    }
    if exists|cut: int| 0 <= cut <= s.len() && is_version(#[trigger] s.skip(cut)) {
        let cut = choose|cut: int| 0 <= cut <= s.len() && is_version(#[trigger] s.skip(cut));
        let (dot1, dot2) = choose|dot1: int, dot2: int|
            version_with_dots(s.skip(cut), 0, dot1, dot2);
        lemma_version_survives_cut(s, cut, cut, dot1 + cut, dot2 + cut);
        assert(version_with_dots(s, cut, dot1 + cut, dot2 + cut));
        assert(version_from(s, cut));
    }
}

/// A version is accepted, and so is a version with any text in front of it.
pub proof fn lemma_version_after_any_prefix(prefix: Seq<char>, version: Seq<char>)
    requires
        is_version(version),
    ensures
        ends_in_version(version),
        ends_in_version(prefix + version),
{
    let s = prefix + version;
    assert(s.skip(prefix.len() as int) =~= version);
    lemma_ends_in_version_means_suffix(s);
    assert(version.skip(0) =~= version);
    lemma_ends_in_version_means_suffix(version);
}

/// Whether `c` is one of the ten ASCII digits.
pub fn is_ascii_digit(c: char) -> (yes: bool)
    ensures
        yes == is_digit(c),
{
    '0' <= c && c <= '9'
}

/// Walks back from `end` over digits and says where they begin.
fn find_run_start(text: &Vec<char>, end: usize) -> (begin: usize)
    requires
        end <= text.len(),
    ensures
        begin == run_start(text@, end as int),
        begin <= end,
{
    let mut begin: usize = end;
    while begin > 0 && is_ascii_digit(text[begin - 1])
        invariant
            begin <= end <= text.len(),
            run_start(text@, end as int) == run_start(text@, begin as int),
        decreases begin,
    {
        begin = begin - 1;
    }
    begin
}

/// Whether `text` ends in a game version: three decimal numbers with dots
/// between them and, optionally, an underscore and a fourth.
///
/// Only the end is held to the grammar. `1.2.3` and `1.2.3_4` pass, and so
/// does every text that ends in one of them.
pub fn is_bs_version(text: &str) -> (accepted: bool)
    ensures
        accepted == ends_in_version(text@),
{
    let chars = chars_of(text);
    proof {
        lemma_scan_finds_versions(chars@);
    }
    let n: usize = chars.len();
    let last: usize = find_run_start(&chars, n);
    if last == n || last == 0 {
        return false;
    }
    let separator: char = chars[last - 1];
    let patch: usize = if separator == '.' {
        last
    } else if separator == '_' {
        let patch: usize = find_run_start(&chars, last - 1);
        if patch == last - 1 || patch == 0 || chars[patch - 1] != '.' {
            return false;
        }
        patch
    } else {
        return false;
    };
    let minor: usize = find_run_start(&chars, patch - 1);
    minor != patch - 1 && minor >= 2 && chars[minor - 1] == '.' && is_ascii_digit(chars[minor - 2])
}

} // verus!
