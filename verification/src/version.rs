//! Version strings: the token a tool prints, and the tag a release carries.

use vstd::prelude::*;
use vstd::string::StrSliceExecFns;
use crate::text::{is_space, is_digit, char_is_space, char_is_digit, chars_of};

verus! {

/// `w` without its leading `v`, if it has one. A second `v` stays.
pub open spec fn without_v(w: Seq<char>) -> Seq<char> {
    if w.len() > 0 && w[0] == 'v' {
        w.skip(1)
    } else {
        w
    }
}

/// The version a release tag stands for: the tag without one leading `v`.
pub open spec fn tag_version(tag: Seq<char>) -> Seq<char> {
    without_v(tag)
}

/// The first position at or after `i` that holds no whitespace.
pub open spec fn skip_spaces(s: Seq<char>, i: int) -> int
    decreases s.len() - i,
{
    if 0 <= i < s.len() && is_space(s[i]) {
        skip_spaces(s, i + 1)
    } else {
        i
    }
}

/// The first position at or after `i` that holds whitespace, or the end.
pub open spec fn word_end(s: Seq<char>, i: int) -> int
    decreases s.len() - i,
{
    if 0 <= i < s.len() && !is_space(s[i]) {
        word_end(s, i + 1)
    } else {
        i
    }
}

/// A word reads as a version number when it begins with a decimal digit and
/// has a dot somewhere.
pub open spec fn looks_like_version(w: Seq<char>) -> bool {
    w.len() > 0 && is_digit(w[0]) && w.contains('.')
}

/// Scanning the words of `s` from position `i`: the first one that, without
/// its leading `v`, reads as a version number.
pub open spec fn first_version_from(s: Seq<char>, i: int) -> Option<Seq<char>>
    decreases s.len() - i,
{
    let a = skip_spaces(s, i);
    if 0 <= i <= a < s.len() {
        let b = word_end(s, a);
        let w = without_v(s.subrange(a, b));
        if looks_like_version(w) {
            Some(w)
        } else if a < b <= s.len() {
            first_version_from(s, b)
        } else {
            None
        }
    } else {
        None
    }
}

/// The version token of a line of tool output; the line itself when no word
/// of it reads as a version number.
pub open spec fn version_token(s: Seq<char>) -> Seq<char> {
    match first_version_from(s, 0) {
        Some(w) => w,
        None => s,
    }
}

proof fn lemma_skip_spaces_bounds(s: Seq<char>, i: int)
    requires
        0 <= i <= s.len(),
    ensures
        i <= skip_spaces(s, i) <= s.len(),
        forall|k: int| i <= k < skip_spaces(s, i) ==> is_space(#[trigger] s[k]),
        skip_spaces(s, i) < s.len() ==> !is_space(s[skip_spaces(s, i)]),
    decreases s.len() - i,
{
    if i < s.len() && is_space(s[i]) {
        lemma_skip_spaces_bounds(s, i + 1);
    }
}

proof fn lemma_word_end_bounds(s: Seq<char>, i: int)
    requires
        0 <= i <= s.len(),
    ensures
        i <= word_end(s, i) <= s.len(),
        forall|k: int| i <= k < word_end(s, i) ==> !is_space(#[trigger] s[k]),
        word_end(s, i) < s.len() ==> is_space(s[word_end(s, i)]),
        i < s.len() && !is_space(s[i]) ==> i < word_end(s, i),
    decreases s.len() - i,
{
    if i < s.len() && !is_space(s[i]) {
        lemma_word_end_bounds(s, i + 1);
    }
}

fn skip_spaces_at(chars: &Vec<char>, i: usize) -> (a: usize)
    requires
        i <= chars.len(),
    ensures
        a == skip_spaces(chars@, i as int),
        i <= a <= chars.len(),
{
    let mut a: usize = i;
    while a < chars.len() && char_is_space(chars[a])
        invariant
            i <= a <= chars.len(),
            skip_spaces(chars@, i as int) == skip_spaces(chars@, a as int),
        decreases chars.len() - a,
    {
        a += 1;
    }
    a
}

fn word_end_at(chars: &Vec<char>, i: usize) -> (b: usize)
    requires
        i <= chars.len(),
    ensures
        b == word_end(chars@, i as int),
        i <= b <= chars.len(),
{
    let mut b: usize = i;
    while b < chars.len() && !char_is_space(chars[b])
        invariant
            i <= b <= chars.len(),
            word_end(chars@, i as int) == word_end(chars@, b as int),
        decreases chars.len() - b,
    {
        b += 1;
    }
    b
}

/// Where the word `chars[a..b]` begins once its leading `v` is dropped.
fn without_v_at(chars: &Vec<char>, a: usize, b: usize) -> (t: usize)
    requires
        a <= b <= chars.len(),
    ensures
        a <= t <= b,
        chars@.subrange(t as int, b as int) == without_v(chars@.subrange(a as int, b as int)),
{
    if a < b && chars[a] == 'v' {
        assert(chars@.subrange(a as int, b as int).skip(1) =~= chars@.subrange(a + 1, b as int));
        a + 1
    } else {
        a
    }
}

fn has_dot(chars: &Vec<char>, t: usize, b: usize) -> (found: bool)
    requires
        t <= b <= chars.len(),
    ensures
        found == chars@.subrange(t as int, b as int).contains('.'),
{
    let ghost w = chars@.subrange(t as int, b as int);
    let mut k: usize = t;
    while k < b
        invariant
            t <= k <= b <= chars.len(),
            w == chars@.subrange(t as int, b as int),
            forall|j: int| 0 <= j < k - t ==> w[j] != '.',
        decreases b - k,
    {
        if chars[k] == '.' {
            assert(w[k - t] == '.');
            return true;
        }
        k += 1;
    }
    false
}

/// Picks the version number out of what a tool prints for `--version`.
///
/// The line is split at whitespace. Each word loses one leading `v`; the
/// first that then begins with a decimal digit and has a dot is the answer.
/// When no word qualifies the line comes back as it was.
pub fn extract_version_number(version_str: &str) -> (version: String)
    ensures
        version@ == version_token(version_str@),
{
    let chars = chars_of(version_str);
    let n = chars.len();
    let mut i: usize = 0;
    while i < n
        invariant
            chars@ == version_str@,
            n == chars.len(),
            i <= n,
            first_version_from(chars@, 0) == first_version_from(chars@, i as int),
        decreases n - i,
    {
        let a = skip_spaces_at(&chars, i);
        if a >= n {
            return version_str.to_owned();
        }
        let b = word_end_at(&chars, a);
        proof {
            lemma_skip_spaces_bounds(chars@, i as int);
            lemma_word_end_bounds(chars@, a as int);
        }
        let t = without_v_at(&chars, a, b);
        if t < b && char_is_digit(chars[t]) && has_dot(&chars, t, b) {
            return version_str.substring_char(t, b).to_owned();
        }
        i = b;
    }
    version_str.to_owned()
}

/// The display version of a release tag: the tag without one leading `v`.
/// Nothing else about the tag is examined.
pub fn normalize_tag(tag: &str) -> (version: String)
    ensures
        version@ == tag_version(tag@),
{
    let n = tag.unicode_len();
    if n > 0 && tag.get_char(0) == 'v' {
        tag.substring_char(1, n).to_owned()
    } else {
        tag.to_owned()
    }
}

/// Whether `s[a..b]` is a word of `s`: a longest stretch without whitespace.
pub open spec fn is_word(s: Seq<char>, a: int, b: int) -> bool {
    &&& 0 <= a < b <= s.len()
    &&& forall|k: int| a <= k < b ==> !is_space(#[trigger] s[k])
    &&& (a == 0 || is_space(s[a - 1]))
    &&& (b == s.len() || is_space(s[b]))
}

/// The word `s[a..b]` without its leading `v`.
pub open spec fn word_version(s: Seq<char>, a: int, b: int) -> Seq<char> {
    without_v(s.subrange(a, b))
}

/// Whether no word of `s` that begins in `from..to` reads as a version
/// number once its leading `v` is removed.
pub open spec fn no_version_between(s: Seq<char>, from: int, to: int) -> bool {
    forall|a: int, b: int|
        from <= a < to && #[trigger] is_word(s, a, b) ==> !looks_like_version(
            word_version(s, a, b),
        )
}

/// Whether `w` is what the first word of `s` at or after `from` that reads
/// as a version number reads.
pub open spec fn is_first_version(s: Seq<char>, from: int, w: Seq<char>) -> bool {
    exists|a: int, b: int|
        from <= a && #[trigger] is_word(s, a, b) && w == word_version(s, a, b)
            && looks_like_version(w) && no_version_between(s, from, a)
}

proof fn lemma_first_version_from(s: Seq<char>, i: int)
    requires
        0 <= i <= s.len(),
        i == 0 || i == s.len() || is_space(s[i]),
    ensures
        match first_version_from(s, i) {
            Some(w) => is_first_version(s, i, w),
            None => no_version_between(s, i, s.len() as int),
        },
    decreases s.len() - i,
{
    lemma_skip_spaces_bounds(s, i);
    let a = skip_spaces(s, i);
    if a >= s.len() {
        assert forall|a2: int, b2: int|
            i <= a2 < s.len() && #[trigger] is_word(s, a2, b2) implies !looks_like_version(
            word_version(s, a2, b2),
        ) by {
            assert(is_space(s[a2]));
        }
    } else {
        lemma_word_end_bounds(s, a);
        let b = word_end(s, a);
        assert(is_word(s, a, b)) by {
            if a > i {
                assert(is_space(s[a - 1]));
            }
        }
        // Every word from `i` on is the word at `a` or begins at `b` or later.
        assert forall|a2: int, b2: int| i <= a2 && #[trigger] is_word(s, a2, b2) implies (a2 == a
            && b2 == b) || b <= a2 by {
            if a2 < a {
                assert(is_space(s[a2]));
            } else if a2 == a {
                if b2 < b {
                    assert(!is_space(s[b2]));
                } else if b2 > b {
                    assert(!is_space(s[b]));
                }
            } else if a2 < b {
                assert(!is_space(s[a2 - 1]));
            }
        }
        let w = word_version(s, a, b);
        if looks_like_version(w) {
            assert(no_version_between(s, i, a));
            assert(is_first_version(s, i, w));
        } else {
            lemma_first_version_from(s, b);
            match first_version_from(s, b) {
                Some(found) => {
                    let (a3, b3) = choose|a3: int, b3: int|
                        b <= a3 && #[trigger] is_word(s, a3, b3) && found == word_version(
                            s,
                            a3,
                            b3,
                        ) && looks_like_version(found) && no_version_between(s, b, a3);
                    assert(no_version_between(s, i, a3));
                    assert(i <= a3 && is_word(s, a3, b3));
                    assert(is_first_version(s, i, found));
                },
                None => {
                    assert(no_version_between(s, i, s.len() as int));
                },
            }
        }
    }
}

/// The version token of a line is what its first word that begins with a
/// decimal digit and has a dot, one leading `v` aside, reads without it.
/// When no word qualifies, the token is the whole line.
pub proof fn lemma_version_token_is_first_version_word(s: Seq<char>)
    ensures
        no_version_between(s, 0, s.len() as int) ==> version_token(s) == s,
        !no_version_between(s, 0, s.len() as int) ==> is_first_version(s, 0, version_token(s)),
{
    lemma_first_version_from(s, 0);
    if first_version_from(s, 0) is Some {
        let w = first_version_from(s, 0).unwrap();
        let (a, b) = choose|a: int, b: int|
            0 <= a && #[trigger] is_word(s, a, b) && w == word_version(s, a, b)
                && looks_like_version(w) && no_version_between(s, 0, a);
        assert(!no_version_between(s, 0, s.len() as int));
    }
}

/// A word that begins with a decimal digit and has a dot is returned as it
/// stands, provided that no word before it reads as a version number.
pub proof fn lemma_version_token_of_plain_word(s: Seq<char>, a: int, b: int)
    requires
        is_word(s, a, b),
        is_digit(s[a]),
        s.subrange(a, b).contains('.'),
        no_version_between(s, 0, a),
    ensures
        version_token(s) == s.subrange(a, b),
{
    lemma_first_version_from(s, 0);
    assert(s.subrange(a, b)[0] == s[a]);
    assert(word_version(s, a, b) == s.subrange(a, b));
    match first_version_from(s, 0) {
        Some(w) => {
            let (a2, b2) = choose|a2: int, b2: int|
                0 <= a2 && #[trigger] is_word(s, a2, b2) && w == word_version(s, a2, b2)
                    && looks_like_version(w) && no_version_between(s, 0, a2);
            if a2 < a {
                assert(false);
            } else if a < a2 {
                assert(false);
            } else {
                if b2 < b {
                    assert(!is_space(s[b2]));
                } else if b < b2 {
                    assert(!is_space(s[b]));
                }
            }
        },
        None => {
            assert(false);
        },
    }
}

/// Taking the version of a tag a second time changes nothing, unless the
/// tag begins with two `v`s.
pub proof fn lemma_tag_version_idempotent(tag: Seq<char>)
    requires
        !(tag.len() >= 2 && tag[0] == 'v' && tag[1] == 'v'),
    ensures
        tag_version(tag_version(tag)) == tag_version(tag),
{
    if tag.len() > 0 && tag[0] == 'v' && tag.len() >= 2 {
        assert(tag.skip(1)[0] == tag[1]);
    }
}

} // verus!
