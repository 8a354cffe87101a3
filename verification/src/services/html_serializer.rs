//! Turning stored note content (which may hold HTML tags) into plain text.

use vstd::prelude::*;
use crate::text::copy_str;

verus! {

/// The pattern that matches one HTML tag.
pub const TAG_PATTERN: &'static str = "<[^>]+>";

/// What `regex::Regex::new(pattern)` followed by `replace_all(text, rep)`
/// returns, or `None` when the pattern does not compile.
pub uninterp spec fn regex_replace_all(
    pattern: Seq<char>,
    text: Seq<char>,
    rep: Seq<char>,
) -> Option<Seq<char>>;

/// The first `>` at or after `i` (the length of `s` when there is none).
pub open spec fn next_gt(s: Seq<char>, i: int) -> int
    decreases s.len() - i,
{
    if i < 0 || i >= s.len() {
        s.len() as int
    } else if s[i] == '>' {
        i
    } else {
        next_gt(s, i + 1)
    }
}

pub proof fn lemma_next_gt(s: Seq<char>, i: int)
    requires
        0 <= i <= s.len(),
    ensures
        i <= next_gt(s, i) <= s.len(),
        next_gt(s, i) < s.len() ==> s[next_gt(s, i)] == '>',
        forall|k: int| i <= k < next_gt(s, i) ==> s[k] != '>',
    decreases s.len() - i,
{
    if i < s.len() && s[i] != '>' {
        lemma_next_gt(s, i + 1);
    }
}

/// Whether a match of [`TAG_PATTERN`] starts at `i`: a `<`, then one or
/// more characters other than `>`, then the first `>` after them.
pub open spec fn tag_at(s: Seq<char>, i: int) -> bool {
    &&& 0 <= i < s.len()
    &&& s[i] == '<'
    &&& i + 1 < next_gt(s, i + 1) < s.len()
}

/// `s[i..]` with every match of [`TAG_PATTERN`] replaced by `rep`, the
/// matches taken from left to right without overlapping, as `replace_all`
/// takes them: at each position, a tag that starts there is replaced and
/// the scan goes on after its `>`; otherwise the character is kept.
pub open spec fn replace_tags_from(s: Seq<char>, i: int, rep: Seq<char>) -> Seq<char>
    decreases s.len() - i,
    via replace_tags_from_decreases
{
    if i < 0 || i >= s.len() {
        Seq::empty()
    } else if tag_at(s, i) {
        rep + replace_tags_from(s, next_gt(s, i + 1) + 1, rep)
    } else {
        seq![s[i]] + replace_tags_from(s, i + 1, rep)
    }
}

#[via_fn]
proof fn replace_tags_from_decreases(s: Seq<char>, i: int, rep: Seq<char>) {
    if 0 <= i < s.len() && tag_at(s, i) {
        lemma_next_gt(s, i + 1);
    }
}

/// `s` with every HTML tag replaced by `rep`.
pub open spec fn replace_tags(s: Seq<char>, rep: Seq<char>) -> Seq<char> {
    replace_tags_from(s, 0, rep)
}

/// Text without a `<` holds no tag, so replacing tags leaves it as it is.
pub proof fn lemma_no_tags_kept(s: Seq<char>, i: int, rep: Seq<char>)
    requires
        0 <= i <= s.len(),
        forall|k: int| 0 <= k < s.len() ==> s[k] != '<',
    ensures
        replace_tags_from(s, i, rep) == s.subrange(i, s.len() as int),
    decreases s.len() - i,
{
    if i < s.len() {
        lemma_no_tags_kept(s, i + 1, rep);
        assert(s.subrange(i, s.len() as int) =~= seq![s[i]] + s.subrange(i + 1, s.len() as int));
    } else {
        assert(s.subrange(i, s.len() as int) =~= Seq::<char>::empty());
    }
}

/// Compiles `pattern` with the `regex` crate and replaces every match in
/// `text` with `rep`. The result is named `regex_replace_all`. For the one
/// pattern this library uses, [`TAG_PATTERN`], and a replacement without
/// `$` (which `replace_all` would expand as a group reference), the
/// contract also states what the regex crate's documented leftmost-first,
/// non-overlapping matching gives: the pattern compiles, and the result is
/// `replace_tags(text, rep)`.
#[verifier::external_body]
pub(crate) fn replace_all_matches(pattern: &str, text: &str, rep: &str) -> (r: Option<String>)
    ensures
        match r {
            Some(s) => {
                &&& regex_replace_all(pattern@, text@, rep@) == Some(s@)
                &&& pattern@ == TAG_PATTERN@ && !rep@.contains('$') ==> s@ == replace_tags(
                    text@,
                    rep@,
                )
            },
            None => {
                &&& regex_replace_all(pattern@, text@, rep@) is None
                &&& !(pattern@ == TAG_PATTERN@ && !rep@.contains('$'))
            },
        },
{
    match regex::Regex::new(pattern) {
        Ok(re) => Some(re.replace_all(text, rep).into_owned()),
        Err(_) => None,
    }
}

/// The content with its HTML tags removed.
pub open spec fn stripped(html: Seq<char>) -> Seq<char> {
    replace_tags(html, Seq::empty())
}

/// Strips HTML tags for plain text preview.
pub fn strip_html(html: &str) -> (r: String)
    ensures
        r@ == stripped(html@),
{
    proof {
        reveal_strlit("");
    }
    assert(""@ =~= Seq::<char>::empty());
    match replace_all_matches(TAG_PATTERN, html, "") {
        Some(s) => s,
        None => copy_str(html),
    }
}

} // verus!
