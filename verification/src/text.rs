//! Character-level string helpers shared by the rest of the library.
//!
//! Strings are modelled by their `Seq<char>` views. The spec functions here
//! give the meaning of the handful of `str` operations the library relies on
//! (trimming, prefixes, lines, words, joining, decimal numbers); the exec
//! functions compute them over `Vec<char>` copies of the input.

use vstd::prelude::*;

verus! {

// ---------------------------------------------------------------------------
// Building strings
// ---------------------------------------------------------------------------

/// Appends one character to a `String` (std's `String::push`).
#[verifier::external_body]
pub(crate) fn push_char(s: &mut String, c: char)
    ensures
        final(s)@ == old(s)@.push(c),
{
    s.push(c);
}

/// The characters of `s`, in order.
pub fn chars_of(s: &str) -> (r: Vec<char>)
    ensures
        r@ == s@,
{
    let mut r: Vec<char> = Vec::new();
    for c in it: s.chars()
        invariant
            r@ == it.seq().take(it.index()),
            it.seq() == s@,
    {
        r.push(c);
    }
    r
}

/// Appends the characters `v[i..j]` to `s`.
pub fn push_range(s: &mut String, v: &Vec<char>, i: usize, j: usize)
    requires
        i <= j <= v@.len(),
    ensures
        final(s)@ == old(s)@ + v@.subrange(i as int, j as int),
{
    let ghost start = s@;
    let mut k = i;
    while k < j
        invariant
            i <= k <= j <= v@.len(),
            s@ == start + v@.subrange(i as int, k as int),
        decreases j - k,
    {
        push_char(s, v[k]);
        k = k + 1;
        assert(v@.subrange(i as int, k as int) =~= v@.subrange(i as int, (k - 1) as int).push(
            v@[k - 1],
        ));
    }
}

/// Appends all of `t` to `s`.
pub fn push_str(s: &mut String, t: &str)
    ensures
        final(s)@ == old(s)@ + t@,
{
    let v = chars_of(t);
    push_range(s, &v, 0, v.len());
    assert(v@.subrange(0, v@.len() as int) =~= v@);
}

/// A new `String` holding `v[i..j]`.
pub fn string_from_range(v: &Vec<char>, i: usize, j: usize) -> (r: String)
    requires
        i <= j <= v@.len(),
    ensures
        r@ == v@.subrange(i as int, j as int),
{
    let mut r = String::new();
    push_range(&mut r, v, i, j);
    assert(Seq::<char>::empty() + v@.subrange(i as int, j as int) =~= v@.subrange(
        i as int,
        j as int,
    ));
    r
}

/// A copy of `s` as a `String`.
pub fn copy_str(s: &str) -> (r: String)
    ensures
        r@ == s@,
{
    let mut r = String::new();
    push_str(&mut r, s);
    assert(Seq::<char>::empty() + s@ =~= s@);
    r
}

/// Whether `a` and `b` hold the same characters.
pub fn str_eq(a: &str, b: &str) -> (r: bool)
    ensures
        r == (a@ == b@),
{
    let va = chars_of(a);
    let vb = chars_of(b);
    if va.len() != vb.len() {
        return false;
    }
    let mut k: usize = 0;
    while k < va.len()
        invariant
            va@.len() == vb@.len(),
            k <= va@.len(),
            va@ == a@,
            vb@ == b@,
            forall|m: int| 0 <= m < k ==> va@[m] == vb@[m],
        decreases va.len() - k,
    {
        if va[k] != vb[k] {
            return false;
        }
        k = k + 1;
    }
    assert(va@ =~= vb@);
    true
}

// ---------------------------------------------------------------------------
// White space and trimming
// ---------------------------------------------------------------------------

/// Unicode `White_Space`, the set `char::is_whitespace` tests for.
pub open spec fn is_white_space(c: char) -> bool {
    ||| ('\u{9}' <= c && c <= '\u{d}')
    ||| c == ' '
    ||| c == '\u{85}'
    ||| c == '\u{a0}'
    ||| c == '\u{1680}'
    ||| ('\u{2000}' <= c && c <= '\u{200a}')
    ||| c == '\u{2028}'
    ||| c == '\u{2029}'
    ||| c == '\u{202f}'
    ||| c == '\u{205f}'
    ||| c == '\u{3000}'
}

/// Whether `c` is white space.
pub fn white_space(c: char) -> (r: bool)
    ensures
        r == is_white_space(c),
{
    ('\u{9}' <= c && c <= '\u{d}') || c == ' ' || c == '\u{85}' || c == '\u{a0}' || c
        == '\u{1680}' || ('\u{2000}' <= c && c <= '\u{200a}') || c == '\u{2028}' || c
        == '\u{2029}' || c == '\u{202f}' || c == '\u{205f}' || c == '\u{3000}'
}

/// The first index at or after `i` that does not hold white space (or the length).
pub open spec fn skip_white(s: Seq<char>, i: int) -> int
    decreases s.len() - i,
{
    if 0 <= i < s.len() && is_white_space(s[i]) {
        skip_white(s, i + 1)
    } else {
        i
    }
}

/// The end of `s[..j]` once its trailing white space is dropped.
pub open spec fn skip_white_back(s: Seq<char>, j: int) -> int
    decreases j,
{
    if 0 < j <= s.len() && is_white_space(s[j - 1]) {
        skip_white_back(s, j - 1)
    } else {
        j
    }
}

/// `s` without its leading and trailing white space (`str::trim`).
pub open spec fn trim(s: Seq<char>) -> Seq<char> {
    let i = skip_white(s, 0);
    let j = skip_white_back(s, s.len() as int);
    if i < j {
        s.subrange(i, j)
    } else {
        Seq::empty()
    }
}

pub proof fn lemma_skip_white_bounds(s: Seq<char>, i: int)
    requires
        0 <= i <= s.len(),
    ensures
        i <= skip_white(s, i) <= s.len(),
        forall|k: int| i <= k < skip_white(s, i) ==> is_white_space(#[trigger] s[k]),
        skip_white(s, i) < s.len() ==> !is_white_space(s[skip_white(s, i)]),
    decreases s.len() - i,
{
    if i < s.len() && is_white_space(s[i]) {
        lemma_skip_white_bounds(s, i + 1);
    }
}

pub proof fn lemma_skip_white_back_bounds(s: Seq<char>, j: int)
    requires
        0 <= j <= s.len(),
    ensures
        0 <= skip_white_back(s, j) <= j,
        forall|k: int| skip_white_back(s, j) <= k < j ==> is_white_space(#[trigger] s[k]),
        skip_white_back(s, j) > 0 ==> !is_white_space(s[skip_white_back(s, j) - 1]),
    decreases j,
{
    if 0 < j && is_white_space(s[j - 1]) {
        lemma_skip_white_back_bounds(s, j - 1);
    }
}

/// The bounds of `trim(v)` inside `v`.
pub fn trim_bounds(v: &Vec<char>) -> (r: (usize, usize))
    ensures
        r.0 <= r.1 <= v@.len(),
        v@.subrange(r.0 as int, r.1 as int) == trim(v@),
{
    let mut i: usize = 0;
    while i < v.len() && white_space(v[i])
        invariant
            i <= v@.len(),
            skip_white(v@, i as int) == skip_white(v@, 0),
        decreases v.len() - i,
    {
        i = i + 1;
    }
    let mut j: usize = v.len();
    while j > 0 && white_space(v[j - 1])
        invariant
            j <= v@.len(),
            skip_white_back(v@, j as int) == skip_white_back(v@, v@.len() as int),
        decreases j,
    {
        j = j - 1;
    }
    if i < j {
        (i, j)
    } else {
        assert(v@.subrange(i as int, i as int) =~= Seq::<char>::empty());
        (i, i)
    }
}

/// `s` with leading and trailing white space removed.
pub fn trim_str(s: &str) -> (r: String)
    ensures
        r@ == trim(s@),
{
    let v = chars_of(s);
    let (i, j) = trim_bounds(&v);
    string_from_range(&v, i, j)
}

proof fn lemma_skip_white_newline(x: Seq<char>, i: int)
    requires
        0 <= i <= x.len(),
    ensures
        skip_white(x.push('\n'), i) == if skip_white(x, i) < x.len() {
            skip_white(x, i)
        } else {
            (x.len() + 1) as int
        },
    decreases x.len() - i,
{
    let y = x.push('\n');
    if i < x.len() {
        assert(y[i] == x[i]);
        if is_white_space(x[i]) {
            lemma_skip_white_newline(x, i + 1);
        }
    } else {
        assert(is_white_space(y[i]));
        assert(skip_white(y, i + 1) == y.len());
    }
}

proof fn lemma_skip_white_back_newline(x: Seq<char>, j: int)
    requires
        0 <= j <= x.len(),
    ensures
        skip_white_back(x.push('\n'), j) == skip_white_back(x, j),
    decreases j,
{
    if j > 0 {
        assert(x.push('\n')[j - 1] == x[j - 1]);
        lemma_skip_white_back_newline(x, j - 1);
    }
}

/// A final line feed makes no difference to the trimmed text.
pub proof fn lemma_trim_newline(x: Seq<char>)
    ensures
        trim(x.push('\n')) == trim(x),
{
    let y = x.push('\n');
    lemma_skip_white_newline(x, 0);
    lemma_skip_white_back_newline(x, x.len() as int);
    lemma_skip_white_bounds(x, 0);
    lemma_skip_white_back_bounds(x, x.len() as int);
    assert(is_white_space(y[x.len() as int]));
    assert(skip_white_back(y, y.len() as int) == skip_white_back(y, x.len() as int));
    let i = skip_white(x, 0);
    let j = skip_white_back(x, x.len() as int);
    if i < j {
        assert(y.subrange(i, j) =~= x.subrange(i, j));
    }
}

/// Whether every character of `s` is white space.
pub open spec fn blank(s: Seq<char>) -> bool {
    forall|k: int| 0 <= k < s.len() ==> is_white_space(#[trigger] s[k])
}

/// A string trims to nothing exactly when it is all white space.
pub proof fn lemma_trim_empty_iff_blank(s: Seq<char>)
    ensures
        trim(s).len() == 0 <==> blank(s),
{
    lemma_skip_white_bounds(s, 0);
    lemma_skip_white_back_bounds(s, s.len() as int);
    if !blank(s) {
        let m = choose|m: int| 0 <= m < s.len() && !is_white_space(s[m]);
        assert(skip_white(s, 0) <= m);
        assert(m < skip_white_back(s, s.len() as int));
    }
}

/// Whether `v[a..b]` is all white space.
pub fn is_blank_range(v: &Vec<char>, a: usize, b: usize) -> (r: bool)
    requires
        a <= b <= v@.len(),
    ensures
        r == blank(v@.subrange(a as int, b as int)),
        r == (trim(v@.subrange(a as int, b as int)).len() == 0),
{
    proof {
        lemma_trim_empty_iff_blank(v@.subrange(a as int, b as int));
    }
    let mut k = a;
    while k < b
        invariant
            a <= k <= b <= v@.len(),
            forall|m: int| a <= m < k ==> is_white_space(#[trigger] v@[m]),
        decreases b - k,
    {
        if !white_space(v[k]) {
            assert(!is_white_space(v@.subrange(a as int, b as int)[k - a]));
            proof {
                lemma_trim_empty_iff_blank(v@.subrange(a as int, b as int));
            }
            return false;
        }
        k = k + 1;
    }
    assert forall|m: int| 0 <= m < b - a implies is_white_space(
        #[trigger] v@.subrange(a as int, b as int)[m],
    ) by {
        assert(v@.subrange(a as int, b as int)[m] == v@[a + m]);
    }
    true
}

// ---------------------------------------------------------------------------
// Prefixes
// ---------------------------------------------------------------------------

/// Whether `s` begins with `p`.
pub open spec fn starts_with(s: Seq<char>, p: Seq<char>) -> bool {
    p.len() <= s.len() && s.subrange(0, p.len() as int) == p
}

/// Whether `v[i..]` begins with `p`.
pub fn has_prefix_at(v: &Vec<char>, i: usize, p: &str) -> (r: bool)
    requires
        i <= v@.len(),
    ensures
        r == starts_with(v@.subrange(i as int, v@.len() as int), p@),
{
    let ghost rest = v@.subrange(i as int, v@.len() as int);
    let pv = chars_of(p);
    let vlen = v.len();
    if pv.len() > vlen - i {
        return false;
    }
    let mut k: usize = 0;
    while k < pv.len()
        invariant
            vlen == v@.len(),
            pv@ == p@,
            rest == v@.subrange(i as int, v@.len() as int),
            i + pv@.len() <= v@.len(),
            k <= pv@.len(),
            forall|m: int| 0 <= m < k ==> v@[i + m] == pv@[m],
        decreases pv.len() - k,
    {
        if v[i + k] != pv[k] {
            assert(rest.subrange(0, pv@.len() as int)[k as int] != p@[k as int]);
            return false;
        }
        k = k + 1;
    }
    assert(rest.subrange(0, pv@.len() as int) =~= p@);
    true
}

/// Whether `v` begins with `p`.
pub fn has_prefix(v: &Vec<char>, p: &str) -> (r: bool)
    ensures
        r == starts_with(v@, p@),
{
    assert(v@.subrange(0, v@.len() as int) =~= v@);
    has_prefix_at(v, 0, p)
}

/// `s` with every leading copy of `p` removed (`str::trim_start_matches`).
pub open spec fn trim_start_matches(s: Seq<char>, p: Seq<char>) -> Seq<char>
    decreases s.len(),
{
    if p.len() > 0 && starts_with(s, p) {
        trim_start_matches(s.subrange(p.len() as int, s.len() as int), p)
    } else {
        s
    }
}


// ---------------------------------------------------------------------------
// Spans, lines, words and joining
// ---------------------------------------------------------------------------

/// The index in `v` where `trim_start_matches(v[i..], p)` begins.
pub fn skip_prefixes(v: &Vec<char>, p: &str) -> (r: usize)
    ensures
        r <= v@.len(),
        v@.subrange(r as int, v@.len() as int) == trim_start_matches(v@, p@),
{
    let plen = chars_of(p).len();
    let mut i: usize = 0;
    assert(v@.subrange(0, v@.len() as int) =~= v@);
    while plen > 0 && i <= v.len() && has_prefix_at(v, i, p)
        invariant
            i <= v@.len(),
            plen == p@.len(),
            trim_start_matches(v@.subrange(i as int, v@.len() as int), p@) == trim_start_matches(
                v@,
                p@,
            ),
        decreases v.len() - i,
    {
        let ghost rest = v@.subrange(i as int, v@.len() as int);
        assert(rest.subrange(plen as int, rest.len() as int) =~= v@.subrange(
            (i + plen) as int,
            v@.len() as int,
        ));
        i = i + plen;
    }
    i
}

/// Integer view of a list of `(start, end)` index pairs.
pub open spec fn spans_view(r: Seq<(usize, usize)>) -> Seq<(int, int)> {
    r.map_values(|p: (usize, usize)| (p.0 as int, p.1 as int))
}

/// The pieces of `s` that a list of spans marks out.
pub open spec fn span_texts(s: Seq<char>, spans: Seq<(int, int)>) -> Seq<Seq<char>> {
    spans.map_values(|p: (int, int)| s.subrange(p.0, p.1))
}

/// The parts joined with `sep` between each neighbouring pair (`[&str]::join`).
pub open spec fn join(parts: Seq<Seq<char>>, sep: Seq<char>) -> Seq<char>
    decreases parts.len(),
{
    if parts.len() == 0 {
        Seq::empty()
    } else if parts.len() == 1 {
        parts[0]
    } else {
        join(parts.drop_last(), sep) + sep + parts.last()
    }
}

/// Joining a first part onto more parts puts the separator between them.
pub proof fn lemma_join_cons(x: Seq<char>, parts: Seq<Seq<char>>, sep: Seq<char>)
    ensures
        join(seq![x] + parts, sep) == if parts.len() == 0 {
            x
        } else {
            x + sep + join(parts, sep)
        },
    decreases parts.len(),
{
    let all = seq![x] + parts;
    if parts.len() == 0 {
        assert(all =~= seq![x]);
    } else if parts.len() == 1 {
        assert(all.drop_last() =~= seq![x]);
        assert(all.last() == parts[0]);
        assert(join(seq![x], sep) == x);
        assert(join(parts, sep) == parts[0]);
        assert(join(all, sep) == x + sep + parts[0]);
    } else {
        assert(all.drop_last() =~= seq![x] + parts.drop_last());
        lemma_join_cons(x, parts.drop_last(), sep);
        assert(all.last() == parts.last());
        assert(join(parts, sep) == join(parts.drop_last(), sep) + sep + parts.last());
        assert(join(all, sep) == join(all.drop_last(), sep) + sep + all.last());
        assert(join(all, sep) =~= x + sep + join(parts, sep));
    }
}

/// The first index at or after `i` holding a line feed (or the length).
pub open spec fn next_newline(s: Seq<char>, i: int) -> int
    decreases s.len() - i,
{
    if i < 0 || i >= s.len() {
        s.len() as int
    } else if s[i] == '\n' {
        i
    } else {
        next_newline(s, i + 1)
    }
}

pub proof fn lemma_next_newline(s: Seq<char>, i: int)
    requires
        0 <= i <= s.len(),
    ensures
        i <= next_newline(s, i) <= s.len(),
        next_newline(s, i) < s.len() ==> s[next_newline(s, i)] == '\n',
        forall|k: int| i <= k < next_newline(s, i) ==> s[k] != '\n',
    decreases s.len() - i,
{
    if i < s.len() && s[i] != '\n' {
        lemma_next_newline(s, i + 1);
    }
}

/// The spans of the lines of `s[i..]`: split at each line feed, with a
/// carriage return just before that line feed dropped, and no empty line
/// after a final line feed (`str::lines`).
pub open spec fn line_spans_from(s: Seq<char>, i: int) -> Seq<(int, int)>
    decreases s.len() + 1 - i,
    via line_spans_from_decreases
{
    if i < 0 || i >= s.len() {
        Seq::empty()
    } else {
        let j = next_newline(s, i);
        let e = if j < s.len() && j > i && s[j - 1] == '\r' {
            j - 1
        } else {
            j
        };
        seq![(i, e)] + line_spans_from(s, j + 1)
    }
}

#[via_fn]
proof fn line_spans_from_decreases(s: Seq<char>, i: int) {
    if 0 <= i < s.len() {
        lemma_next_newline(s, i);
    }
}

/// The lines of `s` (`str::lines`).
pub open spec fn lines(s: Seq<char>) -> Seq<Seq<char>> {
    span_texts(s, line_spans_from(s, 0))
}

/// Joining the lines of `s[i..]` with line feeds gives `s[i..]` back, but
/// for a final line feed, when the text has no carriage return.
pub proof fn lemma_lines_rejoin(s: Seq<char>, i: int)
    requires
        0 <= i <= s.len(),
        forall|k: int| 0 <= k < s.len() ==> s[k] != '\r',
    ensures
        join(span_texts(s, line_spans_from(s, i)), "\n"@) + (if i < s.len() && s.last() == '\n' {
            "\n"@
        } else {
            Seq::empty()
        }) == s.subrange(i, s.len() as int),
    decreases s.len() - i,
{
    reveal_strlit("\n");
    let nl = "\n"@;
    assert(nl =~= seq!['\n']);
    if i == s.len() {
        assert(span_texts(s, line_spans_from(s, i)) =~= Seq::<Seq<char>>::empty());
        assert(s.subrange(i, s.len() as int) =~= Seq::<char>::empty());
    } else {
        lemma_next_newline(s, i);
        let j = next_newline(s, i);
        let x = s.subrange(i, j);
        let rest = line_spans_from(s, j + 1);
        assert(line_spans_from(s, i) == seq![(i, j)] + rest);
        assert(span_texts(s, line_spans_from(s, i)) =~= seq![x] + span_texts(s, rest));
        lemma_join_cons(x, span_texts(s, rest), nl);
        if j == s.len() {
            assert(rest =~= Seq::<(int, int)>::empty());
            assert(s.last() == s[s.len() - 1]);
            assert(x =~= s.subrange(i, s.len() as int));
        } else if j + 1 == s.len() {
            assert(rest =~= Seq::<(int, int)>::empty());
            assert(s.last() == '\n');
            assert(x + nl =~= s.subrange(i, s.len() as int));
        } else {
            lemma_lines_rejoin(s, j + 1);
            assert(rest.len() > 0);
            assert(span_texts(s, rest).len() > 0);
            assert(x + nl + s.subrange(j + 1, s.len() as int) =~= s.subrange(i, s.len() as int));
        }
    }
}

/// The spans of the lines of `v`.
pub fn line_spans(v: &Vec<char>) -> (r: Vec<(usize, usize)>)
    ensures
        spans_view(r@) == line_spans_from(v@, 0),
        forall|k: int| 0 <= k < r@.len() ==> (#[trigger] r@[k]).0 <= r@[k].1 <= v@.len(),
{
    let mut r: Vec<(usize, usize)> = Vec::new();
    let mut i: usize = 0;
    while i < v.len()
        invariant
            i <= v@.len(),
            spans_view(r@) + line_spans_from(v@, i as int) == line_spans_from(v@, 0),
            forall|k: int| 0 <= k < r@.len() ==> (#[trigger] r@[k]).0 <= r@[k].1 <= v@.len(),
        decreases v.len() - i,
    {
        let mut j = i;
        while j < v.len() && v[j] != '\n'
            invariant
                i <= j <= v@.len(),
                next_newline(v@, j as int) == next_newline(v@, i as int),
            decreases v.len() - j,
        {
            j = j + 1;
        }
        proof {
            lemma_next_newline(v@, i as int);
        }
        let e = if j < v.len() && j > i && v[j - 1] == '\r' {
            j - 1
        } else {
            j
        };
        let ghost before = r@;
        r.push((i, e));
        assert(spans_view(r@) =~= spans_view(before) + seq![(i as int, e as int)]);
        if j >= v.len() {
            assert(line_spans_from(v@, (j + 1) as int) =~= Seq::<(int, int)>::empty());
            assert(spans_view(r@) =~= line_spans_from(v@, 0));
            return r;
        }
        i = j + 1;
    }
    assert(line_spans_from(v@, i as int) =~= Seq::<(int, int)>::empty());
    assert(spans_view(r@) =~= line_spans_from(v@, 0));
    r
}

/// The first index at or after `i` holding white space (or the length).
pub open spec fn next_white(s: Seq<char>, i: int) -> int
    decreases s.len() - i,
{
    if i < 0 || i >= s.len() {
        s.len() as int
    } else if is_white_space(s[i]) {
        i
    } else {
        next_white(s, i + 1)
    }
}

pub proof fn lemma_next_white(s: Seq<char>, i: int)
    requires
        0 <= i <= s.len(),
    ensures
        i <= next_white(s, i) <= s.len(),
        next_white(s, i) < s.len() ==> is_white_space(s[next_white(s, i)]),
        forall|k: int| i <= k < next_white(s, i) ==> !is_white_space(#[trigger] s[k]),
    decreases s.len() - i,
{
    if i < s.len() && !is_white_space(s[i]) {
        lemma_next_white(s, i + 1);
    }
}

/// The spans of the maximal runs of non-white-space characters of `s[i..]`.
pub open spec fn word_spans_from(s: Seq<char>, i: int) -> Seq<(int, int)>
    decreases s.len() - i,
    via word_spans_from_decreases
{
    if i < 0 || i > s.len() {
        Seq::empty()
    } else {
        let k = skip_white(s, i);
        if k >= s.len() {
            Seq::empty()
        } else {
            let e = next_white(s, k);
            seq![(k, e)] + word_spans_from(s, e)
        }
    }
}

#[via_fn]
proof fn word_spans_from_decreases(s: Seq<char>, i: int) {
    if 0 <= i <= s.len() {
        lemma_skip_white_bounds(s, i);
        let k = skip_white(s, i);
        if k < s.len() {
            lemma_next_white(s, k);
        }
    }
}

/// The words of `s`: its maximal runs of non-white-space characters
/// (`str::split_whitespace`).
pub open spec fn words(s: Seq<char>) -> Seq<Seq<char>> {
    span_texts(s, word_spans_from(s, 0))
}

/// The spans of the words of `v`.
pub fn word_spans(v: &Vec<char>) -> (r: Vec<(usize, usize)>)
    ensures
        spans_view(r@) == word_spans_from(v@, 0),
        forall|k: int| 0 <= k < r@.len() ==> (#[trigger] r@[k]).0 <= r@[k].1 <= v@.len(),
{
    let mut r: Vec<(usize, usize)> = Vec::new();
    let mut i: usize = 0;
    loop
        invariant
            i <= v@.len(),
            spans_view(r@) + word_spans_from(v@, i as int) == word_spans_from(v@, 0),
            forall|k: int| 0 <= k < r@.len() ==> (#[trigger] r@[k]).0 <= r@[k].1 <= v@.len(),
        decreases v.len() - i,
    {
        let mut k = i;
        while k < v.len() && white_space(v[k])
            invariant
                i <= k <= v@.len(),
                skip_white(v@, k as int) == skip_white(v@, i as int),
            decreases v.len() - k,
        {
            k = k + 1;
        }
        if k >= v.len() {
            assert(word_spans_from(v@, i as int) =~= Seq::<(int, int)>::empty());
            assert(spans_view(r@) =~= word_spans_from(v@, 0));
            return r;
        }
        let mut e = k;
        while e < v.len() && !white_space(v[e])
            invariant
                k <= e <= v@.len(),
                next_white(v@, e as int) == next_white(v@, k as int),
            decreases v.len() - e,
        {
            e = e + 1;
        }
        proof {
            lemma_skip_white_bounds(v@, i as int);
            lemma_next_white(v@, k as int);
        }
        let ghost before = r@;
        r.push((k, e));
        assert(spans_view(r@) =~= spans_view(before) + seq![(k as int, e as int)]);
        i = e;
    }
}

/// The pieces that `spans` marks out of `v`, joined with `sep`.
pub fn join_spans(v: &Vec<char>, spans: &Vec<(usize, usize)>, from: usize, sep: &str) -> (r: String)
    requires
        from <= spans@.len(),
        forall|k: int| 0 <= k < spans@.len() ==> (#[trigger] spans@[k]).0 <= spans@[k].1 <= v@.len(),
    ensures
        r@ == join(span_texts(v@, spans_view(spans@)).subrange(from as int, spans@.len() as int), sep@),
{
    let ghost parts = span_texts(v@, spans_view(spans@));
    let mut r = String::new();
    let mut m = from;
    while m < spans.len()
        invariant
            from <= m <= spans@.len(),
            forall|k: int| 0 <= k < spans@.len() ==> (#[trigger] spans@[k]).0 <= spans@[k].1 <= v@.len(),
            parts == span_texts(v@, spans_view(spans@)),
            r@ == join(parts.subrange(from as int, m as int), sep@),
        decreases spans.len() - m,
    {
        let ghost prev = r@;
        if m > from {
            push_str(&mut r, sep);
        }
        let (a, b) = spans[m];
        push_range(&mut r, v, a, b);
        let ghost next = parts.subrange(from as int, m + 1);
        assert(next.drop_last() =~= parts.subrange(from as int, m as int));
        assert(next.last() == v@.subrange(a as int, b as int));
        if m == from {
            assert(prev =~= Seq::<char>::empty());
            assert(r@ =~= join(next, sep@));
        } else {
            assert(r@ =~= join(next, sep@));
        }
        m = m + 1;
    }
    r
}


// ---------------------------------------------------------------------------
// Decimal numbers
// ---------------------------------------------------------------------------

/// Whether `c` is one of `0`..`9`.
pub open spec fn is_ascii_digit(c: char) -> bool {
    '0' <= c && c <= '9'
}

/// Whether every character of `s` is an ASCII digit.
pub open spec fn all_digits(s: Seq<char>) -> bool {
    forall|k: int| 0 <= k < s.len() ==> is_ascii_digit(#[trigger] s[k])
}

/// The value of one decimal digit.
pub open spec fn digit_value(c: char) -> int {
    c as int - '0' as int
}

/// The value of a string of decimal digits, most significant first.
pub open spec fn digits_value(s: Seq<char>) -> int
    decreases s.len(),
{
    if s.len() == 0 {
        0
    } else {
        digits_value(s.drop_last()) * 10 + digit_value(s.last())
    }
}

/// The character for a digit value `0..=9`.
pub open spec fn digit_char(d: int) -> char {
    if d == 0 {
        '0'
    } else if d == 1 {
        '1'
    } else if d == 2 {
        '2'
    } else if d == 3 {
        '3'
    } else if d == 4 {
        '4'
    } else if d == 5 {
        '5'
    } else if d == 6 {
        '6'
    } else if d == 7 {
        '7'
    } else if d == 8 {
        '8'
    } else {
        '9'
    }
}

/// The decimal representation of `n`, without leading zeros.
pub open spec fn decimal(n: nat) -> Seq<char>
    decreases n,
{
    if n < 10 {
        seq![digit_char(n as int)]
    } else {
        decimal(n / 10).push(digit_char((n % 10) as int))
    }
}

/// The decimal representation of a signed number, with a leading `-` when negative.
pub open spec fn signed_decimal(n: int) -> Seq<char> {
    if n < 0 {
        seq!['-'] + decimal((-n) as nat)
    } else {
        decimal(n as nat)
    }
}

fn digit_to_char(d: u64) -> (c: char)
    requires
        d < 10,
    ensures
        c == digit_char(d as int),
{
    if d == 0 {
        '0'
    } else if d == 1 {
        '1'
    } else if d == 2 {
        '2'
    } else if d == 3 {
        '3'
    } else if d == 4 {
        '4'
    } else if d == 5 {
        '5'
    } else if d == 6 {
        '6'
    } else if d == 7 {
        '7'
    } else if d == 8 {
        '8'
    } else {
        '9'
    }
}

/// Appends the decimal representation of `n`.
pub fn push_decimal(s: &mut String, n: u64)
    ensures
        final(s)@ == old(s)@ + decimal(n as nat),
    decreases n,
{
    if n >= 10 {
        push_decimal(s, n / 10);
        push_char(s, digit_to_char(n % 10));
        assert(decimal(n as nat) == decimal((n / 10) as nat).push(digit_char((n % 10) as int)));
    } else {
        push_char(s, digit_to_char(n));
    }
}

/// Appends the decimal representation of a signed number.
pub fn push_signed_decimal(s: &mut String, n: i64)
    requires
        n > i64::MIN,
    ensures
        final(s)@ == old(s)@ + signed_decimal(n as int),
{
    if n < 0 {
        push_char(s, '-');
        push_decimal(s, (-n) as u64);
        assert(old(s)@.push('-') + decimal((-n) as nat) =~= old(s)@ + (seq!['-'] + decimal(
            (-n) as nat,
        )));
    } else {
        push_decimal(s, n as u64);
    }
}

/// A digit string's value never drops when more digits follow.
pub proof fn lemma_digits_prefix_le(s: Seq<char>, m: int, n: int)
    requires
        0 <= m <= n <= s.len(),
        all_digits(s),
    ensures
        0 <= digits_value(s.subrange(0, m)) <= digits_value(s.subrange(0, n)),
    decreases n - m,
{
    lemma_digits_nonneg(s.subrange(0, n));
    if m < n {
        lemma_digits_prefix_le(s, m, n - 1);
        assert(s.subrange(0, n).drop_last() =~= s.subrange(0, n - 1));
        lemma_digits_nonneg(s.subrange(0, n - 1));
    }
}

/// A digit string's value is not negative.
pub proof fn lemma_digits_nonneg(s: Seq<char>)
    requires
        all_digits(s),
    ensures
        digits_value(s) >= 0,
    decreases s.len(),
{
    if s.len() > 0 {
        assert(all_digits(s.drop_last()));
        lemma_digits_nonneg(s.drop_last());
    }
}

/// The value of the digits `v[a..b]`, or `None` when it exceeds `u64::MAX`.
pub fn parse_digits(v: &Vec<char>, a: usize, b: usize) -> (r: Option<u64>)
    requires
        a <= b <= v@.len(),
        all_digits(v@.subrange(a as int, b as int)),
    ensures
        match r {
            Some(n) => n == digits_value(v@.subrange(a as int, b as int)),
            None => digits_value(v@.subrange(a as int, b as int)) > u64::MAX,
        },
{
    let ghost d = v@.subrange(a as int, b as int);
    let mut acc: u64 = 0;
    let mut k = a;
    while k < b
        invariant
            a <= k <= b <= v@.len(),
            d == v@.subrange(a as int, b as int),
            all_digits(d),
            acc == digits_value(d.subrange(0, k - a)),
        decreases b - k,
    {
        assert(is_ascii_digit(d[k - a]));
        let dv = (v[k] as u32 - '0' as u32) as u64;
        assert(d.subrange(0, k - a + 1).drop_last() =~= d.subrange(0, k - a));
        match acc.checked_mul(10) {
            Some(t) => match t.checked_add(dv) {
                Some(u) => {
                    acc = u;
                },
                None => {
                    proof {
                        lemma_digits_prefix_le(d, k - a + 1, d.len() as int);
                    }
                    assert(d.subrange(0, d.len() as int) =~= d);
                    return None;
                },
            },
            None => {
                proof {
                    lemma_digits_prefix_le(d, k - a + 1, d.len() as int);
                }
                assert(d.subrange(0, d.len() as int) =~= d);
                return None;
            },
        }
        k = k + 1;
    }
    assert(d.subrange(0, (b - a) as int) =~= d);
    Some(acc)
}

/// Whether every character of `v[a..b]` is an ASCII digit.
pub fn digits_only(v: &Vec<char>, a: usize, b: usize) -> (r: bool)
    requires
        a <= b <= v@.len(),
    ensures
        r == all_digits(v@.subrange(a as int, b as int)),
{
    let mut k = a;
    while k < b
        invariant
            a <= k <= b <= v@.len(),
            forall|m: int| a <= m < k ==> is_ascii_digit(#[trigger] v@[m]),
        decreases b - k,
    {
        if !('0' <= v[k] && v[k] <= '9') {
            assert(!is_ascii_digit(v@.subrange(a as int, b as int)[k - a]));
            return false;
        }
        k = k + 1;
    }
    assert forall|m: int| 0 <= m < b - a implies is_ascii_digit(
        #[trigger] v@.subrange(a as int, b as int)[m],
    ) by {
        assert(v@.subrange(a as int, b as int)[m] == v@[a + m]);
    }
    true
}

/// What `str::parse::<i32>` gives for `s`: an optional `+` or `-`, then one
/// or more ASCII digits, whose value must fit in an `i32`.
pub open spec fn parse_i32(s: Seq<char>) -> Option<int> {
    let neg = s.len() > 0 && s[0] == '-';
    let body = if s.len() > 0 && (s[0] == '-' || s[0] == '+') {
        s.drop_first()
    } else {
        s
    };
    if body.len() > 0 && all_digits(body) {
        let v = if neg {
            -digits_value(body)
        } else {
            digits_value(body)
        };
        if i32::MIN <= v <= i32::MAX {
            Some(v)
        } else {
            None
        }
    } else {
        None
    }
}

/// Parses `v[a..b]` as an `i32`, as `str::parse::<i32>` does.
pub fn parse_i32_range(v: &Vec<char>, a: usize, b: usize) -> (r: Option<i32>)
    requires
        a <= b <= v@.len(),
    ensures
        match r {
            Some(n) => parse_i32(v@.subrange(a as int, b as int)) == Some(n as int),
            None => parse_i32(v@.subrange(a as int, b as int)) is None,
        },
{
    let ghost s = v@.subrange(a as int, b as int);
    let neg = a < b && v[a] == '-';
    let start = if a < b && (v[a] == '-' || v[a] == '+') {
        a + 1
    } else {
        a
    };
    assert(v@.subrange(start as int, b as int) =~= if a < b && (v@[a as int] == '-' || v@[
        a as int] == '+') {
        s.drop_first()
    } else {
        s
    });
    if start >= b || !digits_only(v, start, b) {
        return None;
    }
    match parse_digits(v, start, b) {
        None => None,
        Some(m) => {
            if neg {
                if m <= 2147483648 {
                    Some((0 - (m as i64)) as i32)
                } else {
                    None
                }
            } else {
                if m <= 2147483647 {
                    Some(m as i32)
                } else {
                    None
                }
            }
        },
    }
}

} // verus!
