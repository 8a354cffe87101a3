//! The editing rules of the note editor: list and checklist prefixes, what
//! Enter does on a list line, keyboard shortcuts, and link detection.
//!
//! The text buffer itself is the application's; these functions decide,
//! from the text of the current line, what edit to make.

use vstd::prelude::*;
use crate::text::{
    all_digits, chars_of, copy_str, digits_only, digits_value, decimal, has_prefix, parse_digits,
    parse_i32, parse_i32_range, push_char, push_decimal, push_signed_decimal, push_str,
    signed_decimal, starts_with, string_from_range, trim, trim_bounds, is_blank_range,
    digit_char, is_ascii_digit, lemma_trim_empty_iff_blank, spans_view, next_newline, is_white_space,
};

verus! {

/// Formatting actions that the editor supports.
#[derive(Debug, Clone, Copy, PartialEq, Eq, Structural)]
pub enum FormatAction {
    Bold,
    Italic,
    Underline,
    Strikethrough,
    BulletList,
    NumberedList,
    Checklist,
    Heading,
}

/// The name of the text tag that a formatting action toggles, if it toggles one.
pub open spec fn tag_of(action: FormatAction) -> Option<Seq<char>> {
    match action {
        FormatAction::Bold => Some("bold"@),
        FormatAction::Italic => Some("italic"@),
        FormatAction::Underline => Some("underline"@),
        FormatAction::Strikethrough => Some("strikethrough"@),
        FormatAction::Heading => Some("heading"@),
        _ => None,
    }
}

impl FormatAction {
    /// The text tag this action toggles: over the selection for the inline
    /// styles, over the whole line for `Heading`; `None` for the list actions.
    pub fn tag_name(&self) -> (r: Option<&'static str>)
        ensures
            match r {
                Some(t) => tag_of(*self) == Some(t@),
                None => tag_of(*self) is None,
            },
    {
        match self {
            FormatAction::Bold => Some("bold"),
            FormatAction::Italic => Some("italic"),
            FormatAction::Underline => Some("underline"),
            FormatAction::Strikethrough => Some("strikethrough"),
            FormatAction::Heading => Some("heading"),
            _ => None,
        }
    }
}

// ---------------------------------------------------------------------------
// Line prefixes
// ---------------------------------------------------------------------------

/// The prefix of an unchecked checklist item.
pub open spec fn unchecked_prefix() -> Seq<char> {
    "☐ "@
}

/// The prefix of a checked checklist item.
pub open spec fn checked_prefix() -> Seq<char> {
    "☑ "@
}

/// The prefix of a bulleted list item.
pub open spec fn bullet_prefix() -> Seq<char> {
    "• "@
}

/// Whether a line is a checklist item, and then whether it is checked.
pub open spec fn checkbox_state(line: Seq<char>) -> Option<bool> {
    if starts_with(line, unchecked_prefix()) {
        Some(false)
    } else if starts_with(line, checked_prefix()) {
        Some(true)
    } else {
        None
    }
}

/// Tells whether a line is an unchecked (`Some(false)`) or checked
/// (`Some(true)`) checklist item, or neither.
pub fn checkbox_line_state(line: &str) -> (r: Option<bool>)
    ensures
        r == checkbox_state(line@),
{
    let v = chars_of(line);
    if has_prefix(&v, "☐ ") {
        Some(false)
    } else if has_prefix(&v, "☑ ") {
        Some(true)
    } else {
        None
    }
}

/// The first index `k` at or after `i` where `s` holds `". "`.
pub open spec fn dot_space_from(s: Seq<char>, i: int) -> Option<int>
    decreases s.len() - i,
{
    if i < 0 || i + 1 >= s.len() {
        None
    } else if s[i] == '.' && s[i + 1] == ' ' {
        Some(i)
    } else {
        dot_space_from(s, i + 1)
    }
}

/// Where `". "` first occurs in `s` (`str::find(". ")`).
pub open spec fn find_dot_space(s: Seq<char>) -> Option<int> {
    dot_space_from(s, 0)
}

fn find_dot_space_exec(v: &Vec<char>) -> (r: Option<usize>)
    ensures
        match r {
            Some(k) => find_dot_space(v@) == Some(k as int) && k + 1 < v@.len(),
            None => find_dot_space(v@) is None,
        },
{
    let n = v.len();
    if n < 2 {
        return None;
    }
    let mut i: usize = 0;
    while i < n - 1
        invariant
            n == v@.len(),
            n >= 2,
            dot_space_from(v@, i as int) == find_dot_space(v@),
        decreases v.len() - i,
    {
        if v[i] == '.' && v[i + 1] == ' ' {
            return Some(i);
        }
        i = i + 1;
    }
    None
}

// ---------------------------------------------------------------------------
// Enter on a list line
// ---------------------------------------------------------------------------

/// What pressing Enter does.
pub enum EnterAction {
    /// Let the text view insert a plain line break.
    Default,
    /// The item is empty: delete the whole line to leave list mode.
    ClearLine,
    /// Insert this text at the cursor to start the next item.
    Continue(String),
}

/// The mathematical value of an [`EnterAction`].
pub enum EnterPlan {
    Default,
    ClearLine,
    Continue(Seq<char>),
}

impl View for EnterAction {
    type V = EnterPlan;

    open spec fn view(&self) -> EnterPlan {
        match self {
            EnterAction::Default => EnterPlan::Default,
            EnterAction::ClearLine => EnterPlan::ClearLine,
            EnterAction::Continue(s) => EnterPlan::Continue(s@),
        }
    }
}

/// The item after a `n. ` item starts with `n + 1`.
pub open spec fn next_number_item(n: nat) -> Seq<char> {
    "\n"@ + decimal(n + 1) + ". "@
}

/// What Enter does on `line` when the cursor is not at the start of the line:
/// a checklist or bulleted item continues with a fresh unchecked box or
/// bullet, a numbered item (`<digits>. `) with the next number, and an item
/// with nothing but white space after its prefix is cleared instead. Other
/// lines, and numbers too large to read, get a plain line break.
pub open spec fn enter_plan(line: Seq<char>, at_line_start: bool) -> EnterPlan {
    if at_line_start {
        EnterPlan::Default
    } else if checkbox_state(line) is Some {
        if trim(line.subrange(2, line.len() as int)).len() == 0 {
            EnterPlan::ClearLine
        } else {
            EnterPlan::Continue("\n☐ "@)
        }
    } else if starts_with(line, bullet_prefix()) {
        if trim(line.subrange(2, line.len() as int)).len() == 0 {
            EnterPlan::ClearLine
        } else {
            EnterPlan::Continue("\n• "@)
        }
    } else {
        match find_dot_space(line) {
            Some(d) => {
                let prefix = line.subrange(0, d);
                if d > 0 && all_digits(prefix) {
                    if trim(line.subrange(d + 2, line.len() as int)).len() == 0 {
                        EnterPlan::ClearLine
                    } else if digits_value(prefix) <= u64::MAX {
                        EnterPlan::Continue(next_number_item(digits_value(prefix) as nat))
                    } else {
                        EnterPlan::Default
                    }
                } else {
                    EnterPlan::Default
                }
            },
            None => EnterPlan::Default,
        }
    }
}

/// Whether continuing a numbered item would need a number past `u64::MAX`.
pub open spec fn enter_overflows(line: Seq<char>, at_line_start: bool) -> bool {
    &&& !at_line_start
    &&& checkbox_state(line) is None
    &&& !starts_with(line, bullet_prefix())
    &&& find_dot_space(line) matches Some(d)
    &&& d > 0
    &&& all_digits(line.subrange(0, d))
    &&& trim(line.subrange(d + 2, line.len() as int)).len() != 0
    &&& digits_value(line.subrange(0, d)) == u64::MAX
}

/// Whether pressing Enter on `line` would need a list number past `u64::MAX`
/// (the one case `enter_key_action` does not take).
pub fn enter_key_overflows(line: &str, at_line_start: bool) -> (r: bool)
    ensures
        r == enter_overflows(line@, at_line_start),
{
    if at_line_start {
        return false;
    }
    let v = chars_of(line);
    let n = v.len();
    if checkbox_line_state(line).is_some() || has_prefix(&v, "• ") {
        return false;
    }
    match find_dot_space_exec(&v) {
        Some(d) => {
            if d > 0 && digits_only(&v, 0, d) && !is_blank_range(&v, d + 2, n) {
                match parse_digits(&v, 0, d) {
                    Some(num) => num == u64::MAX,
                    None => false,
                }
            } else {
                false
            }
        },
        None => false,
    }
}

/// Handles the Enter key on a line for continuing or exiting lists and checklists.
pub fn enter_key_action(line: &str, at_line_start: bool) -> (r: EnterAction)
    requires
        !enter_overflows(line@, at_line_start),
    ensures
        r@ == enter_plan(line@, at_line_start),
{
    if at_line_start {
        return EnterAction::Default;
    }
    let v = chars_of(line);
    let n = v.len();
    if has_prefix(&v, "☐ ") || has_prefix(&v, "☑ ") {
        proof {
            reveal_strlit("☐ ");
            reveal_strlit("☑ ");
        }
        if is_blank_range(&v, 2, n) {
            return EnterAction::ClearLine;
        }
        return EnterAction::Continue(copy_str("\n☐ "));
    }
    if has_prefix(&v, "• ") {
        proof {
            reveal_strlit("• ");
        }
        if is_blank_range(&v, 2, n) {
            return EnterAction::ClearLine;
        }
        return EnterAction::Continue(copy_str("\n• "));
    }
    match find_dot_space_exec(&v) {
        Some(d) => {
            if d > 0 && digits_only(&v, 0, d) {
                if is_blank_range(&v, d + 2, n) {
                    return EnterAction::ClearLine;
                }
                match parse_digits(&v, 0, d) {
                    Some(num) => {
                        let mut r = copy_str("\n");
                        push_decimal(&mut r, num + 1);
                        push_str(&mut r, ". ");
                        EnterAction::Continue(r)
                    },
                    None => EnterAction::Default,
                }
            } else {
                EnterAction::Default
            }
        },
        None => EnterAction::Default,
    }
}

/// A decimal numeral is a non-empty run of ASCII digits.
proof fn lemma_decimal_digits(n: nat)
    ensures
        decimal(n).len() >= 1,
        all_digits(decimal(n)),
    decreases n,
{
    if n >= 10 {
        lemma_decimal_digits(n / 10);
        let d = decimal(n / 10).push(digit_char((n % 10) as int));
        assert forall|k: int| 0 <= k < d.len() implies is_ascii_digit(#[trigger] d[k]) by {
            if k < d.len() - 1 {
                assert(d[k] == decimal(n / 10)[k]);
            }
        }
    }
}

/// In digits followed by `". "` and any text, the first `". "` comes right
/// after the digits.
proof fn lemma_dot_space_after_digits(s: Seq<char>, rest: Seq<char>, i: int)
    requires
        all_digits(s),
        0 <= i <= s.len(),
    ensures
        dot_space_from(s + ". "@ + rest, i) == Some(s.len() as int),
    decreases s.len() - i,
{
    reveal_strlit(". ");
    let x = s + ". "@ + rest;
    if i < s.len() {
        assert(x[i] == s[i]);
        assert(is_ascii_digit(s[i]));
        lemma_dot_space_after_digits(s, rest, i + 1);
    } else {
        assert(x[i] == '.' && x[i + 1] == ' ');
    }
}

/// With the cursor at the start of a line, Enter only breaks the line,
/// whatever list prefix the line carries: a checklist, bulleted or
/// numbered item is neither continued nor cleared from there.
pub proof fn lemma_enter_at_line_start(line: Seq<char>)
    ensures
        enter_plan(line, true) == EnterPlan::Default,
{
}

/// Pressing Enter on a list item that continues the list opens an empty
/// item, and pressing Enter again on that empty item leaves the list: the
/// text that Enter inserts is a line break followed by a line on which
/// Enter clears the line.
pub proof fn lemma_continued_item_ends_list(line: Seq<char>)
    requires
        enter_plan(line, false) is Continue,
    ensures
        ({
            let t = enter_plan(line, false)->Continue_0;
            &&& t.len() >= 1
            &&& t[0] == '\n'
            &&& enter_plan(t.drop_first(), false) == EnterPlan::ClearLine
        }),
{
    reveal_strlit("\n");
    reveal_strlit("\n☐ ");
    reveal_strlit("\n• ");
    reveal_strlit("☐ ");
    reveal_strlit("☑ ");
    reveal_strlit("• ");
    reveal_strlit(". ");
    let t = enter_plan(line, false)->Continue_0;
    let next = t.drop_first();
    lemma_trim_empty_iff_blank(Seq::<char>::empty());
    if checkbox_state(line) is Some {
        assert(next =~= unchecked_prefix());
        assert(next.subrange(0, 2) =~= unchecked_prefix());
        assert(checkbox_state(next) is Some);
        assert(next.subrange(2, next.len() as int) =~= Seq::<char>::empty());
    } else if starts_with(line, bullet_prefix()) {
        assert(next =~= bullet_prefix());
        assert(next.subrange(0, 2) =~= bullet_prefix());
        assert(next[0] == '•' && unchecked_prefix()[0] == '☐' && checked_prefix()[0] == '☑');
        assert(next.subrange(0, 2)[0] == next[0]);
        assert(checkbox_state(next) is None);
        assert(next.subrange(2, next.len() as int) =~= Seq::<char>::empty());
    } else {
        let d = find_dot_space(line)->0;
        let v = digits_value(line.subrange(0, d)) as nat;
        let digits = decimal(v + 1);
        lemma_decimal_digits(v + 1);
        assert(t == next_number_item(v));
        assert(t =~= "\n"@ + (digits + ". "@));
        assert(next =~= digits + ". "@);
        assert(next.len() >= 2);
        assert(is_ascii_digit(next[0]));
        assert(next.subrange(0, 2)[0] == next[0]);
        assert(unchecked_prefix()[0] == '☐' && checked_prefix()[0] == '☑');
        assert(bullet_prefix()[0] == '•');
        assert(!starts_with(next, unchecked_prefix()));
        assert(!starts_with(next, checked_prefix()));
        assert(!starts_with(next, bullet_prefix()));
        lemma_dot_space_after_digits(digits, Seq::empty(), 0);
        assert(digits + ". "@ + Seq::<char>::empty() =~= next);
        let k = digits.len() as int;
        assert(find_dot_space(next) == Some(k));
        assert(next.subrange(0, k) =~= digits);
        assert(k > 0 && all_digits(next.subrange(0, k)));
        assert(next.subrange(k + 2, next.len() as int) =~= Seq::<char>::empty());
    }
}

// ---------------------------------------------------------------------------
// Toggling list prefixes
// ---------------------------------------------------------------------------

/// An edit at the start of the current line.
pub enum LineEdit {
    /// Delete this many characters from the start of the line.
    RemovePrefix(usize),
    /// Insert this text at the start of the line.
    InsertPrefix(String),
}

/// The mathematical value of a [`LineEdit`].
pub enum LineEditPlan {
    RemovePrefix(nat),
    InsertPrefix(Seq<char>),
}

impl View for LineEdit {
    type V = LineEditPlan;

    open spec fn view(&self) -> LineEditPlan {
        match self {
            LineEdit::RemovePrefix(n) => LineEditPlan::RemovePrefix(*n as nat),
            LineEdit::InsertPrefix(s) => LineEditPlan::InsertPrefix(s@),
        }
    }
}

/// Toggling a bullet removes the `• ` of a bulleted line and adds one otherwise.
pub open spec fn bullet_edit(line: Seq<char>) -> LineEditPlan {
    if starts_with(line, bullet_prefix()) {
        LineEditPlan::RemovePrefix(2)
    } else {
        LineEditPlan::InsertPrefix(bullet_prefix())
    }
}

/// Toggling a checklist item removes the box of a checklist line and adds an
/// unchecked box otherwise.
pub open spec fn checklist_edit(line: Seq<char>) -> LineEditPlan {
    if checkbox_state(line) is Some {
        LineEditPlan::RemovePrefix(2)
    } else {
        LineEditPlan::InsertPrefix(unchecked_prefix())
    }
}

/// The text before the first `.` of `s` (all of `s` without one).
pub open spec fn before_first_dot(s: Seq<char>) -> Seq<char>
    decreases s.len(),
{
    if s.len() == 0 {
        s
    } else if s[0] == '.' {
        Seq::empty()
    } else {
        seq![s[0]] + before_first_dot(s.drop_first())
    }
}

/// The number a new numbered item gets: one more than the number that the
/// previous line starts with (its text before the first `.`, trimmed, read
/// as an `i32`), or 1 when there is no previous line or it has no number.
pub open spec fn next_item_number(prev: Option<Seq<char>>) -> int {
    match prev {
        Some(p) => match parse_i32(trim(before_first_dot(p))) {
            Some(n) => n + 1,
            None => 1,
        },
        None => 1,
    }
}

/// Toggling a numbered item removes the `<digits>. ` prefix of a numbered
/// line (the digits may be absent) and otherwise adds `<n>. ` with the next
/// item number.
pub open spec fn numbered_edit(line: Seq<char>, prev: Option<Seq<char>>) -> LineEditPlan {
    match find_dot_space(line) {
        Some(d) if all_digits(line.subrange(0, d)) => LineEditPlan::RemovePrefix((d + 2) as nat),
        _ => LineEditPlan::InsertPrefix(signed_decimal(next_item_number(prev)) + ". "@),
    }
}

/// Whether the previous line's number is `i32::MAX`, which has no successor.
pub open spec fn numbered_overflows(prev: Option<Seq<char>>) -> bool {
    match prev {
        Some(p) => parse_i32(trim(before_first_dot(p))) == Some(i32::MAX as int),
        None => false,
    }
}

/// Whether the number that the previous line starts with is `i32::MAX` (the
/// one case `numbered_item_edit` does not take).
pub fn numbered_item_overflows(prev_line: Option<&str>) -> (r: bool)
    ensures
        r == numbered_overflows(
            match prev_line {
                Some(p) => Some(p@),
                None => None,
            },
        ),
{
    match prev_line {
        Some(p) => {
            let pv = chars_of(p);
            let end = before_first_dot_end(&pv);
            let head = string_from_range(&pv, 0, end);
            let hv = chars_of(head.as_str());
            let (a, b) = trim_bounds(&hv);
            match parse_i32_range(&hv, a, b) {
                Some(n) => n == i32::MAX,
                None => false,
            }
        },
        None => false,
    }
}

/// Inserts or removes the bullet of the current line.
pub fn bullet_item_edit(line: &str) -> (r: LineEdit)
    ensures
        r@ == bullet_edit(line@),
{
    let v = chars_of(line);
    if has_prefix(&v, "• ") {
        LineEdit::RemovePrefix(2)
    } else {
        LineEdit::InsertPrefix(copy_str("• "))
    }
}

/// Inserts or removes the checkbox of the current line.
pub fn checklist_item_edit(line: &str) -> (r: LineEdit)
    ensures
        r@ == checklist_edit(line@),
{
    match checkbox_line_state(line) {
        Some(_) => LineEdit::RemovePrefix(2),
        None => LineEdit::InsertPrefix(copy_str("☐ ")),
    }
}

fn before_first_dot_end(v: &Vec<char>) -> (r: usize)
    ensures
        r <= v@.len(),
        v@.subrange(0, r as int) == before_first_dot(v@),
{
    let mut k: usize = 0;
    while k < v.len() && v[k] != '.'
        invariant
            k <= v@.len(),
            forall|m: int| 0 <= m < k ==> v@[m] != '.',
        decreases v.len() - k,
    {
        k = k + 1;
    }
    proof {
        lemma_before_first_dot(v@, k as int);
    }
    k
}

proof fn lemma_before_first_dot(s: Seq<char>, k: int)
    requires
        0 <= k <= s.len(),
        forall|m: int| 0 <= m < k ==> s[m] != '.',
        k == s.len() || s[k] == '.',
    ensures
        s.subrange(0, k) == before_first_dot(s),
    decreases s.len(),
{
    if s.len() > 0 && s[0] != '.' {
        lemma_before_first_dot(s.drop_first(), k - 1);
        assert(s.subrange(0, k) =~= seq![s[0]] + s.drop_first().subrange(0, k - 1));
    } else if s.len() > 0 {
        assert(s.subrange(0, k) =~= Seq::<char>::empty());
    }
}

/// Inserts or removes the number of the current line; `prev_line` is the
/// text of the line above, if there is one.
pub fn numbered_item_edit(line: &str, prev_line: Option<&str>) -> (r: LineEdit)
    requires
        !numbered_overflows(
            match prev_line {
                Some(p) => Some(p@),
                None => None,
            },
        ),
    ensures
        r@ == numbered_edit(
            line@,
            match prev_line {
                Some(p) => Some(p@),
                None => None,
            },
        ),
{
    let v = chars_of(line);
    let n = v.len();
    match find_dot_space_exec(&v) {
        Some(d) => {
            assert(d + 2 <= n);
            if digits_only(&v, 0, d) {
                return LineEdit::RemovePrefix(d + 2);
            }
        },
        None => {},
    }
    let count: i64 = match prev_line {
        Some(p) => {
            let pv = chars_of(p);
            let end = before_first_dot_end(&pv);
            let head = string_from_range(&pv, 0, end);
            let hv = chars_of(head.as_str());
            let (a, b) = trim_bounds(&hv);
            match parse_i32_range(&hv, a, b) {
                Some(n) => n as i64 + 1,
                None => 1,
            }
        },
        None => 1,
    };
    let mut r = String::new();
    push_signed_decimal(&mut r, count);
    push_str(&mut r, ". ");
    LineEdit::InsertPrefix(r)
}

/// The line after an edit at its start.
pub open spec fn apply_line_edit(line: Seq<char>, e: LineEditPlan) -> Seq<char> {
    match e {
        LineEditPlan::RemovePrefix(n) => if n <= line.len() {
            line.subrange(n as int, line.len() as int)
        } else {
            Seq::empty()
        },
        LineEditPlan::InsertPrefix(p) => p + line,
    }
}

/// Toggling the bullet twice gives the line back (unless the line carries
/// two bullets, where the second toggle removes the second one too).
pub proof fn lemma_bullet_toggle_twice(line: Seq<char>)
    requires
        starts_with(line, bullet_prefix()) ==> !starts_with(
            line.subrange(2, line.len() as int),
            bullet_prefix(),
        ),
    ensures
        ({
            let once = apply_line_edit(line, bullet_edit(line));
            apply_line_edit(once, bullet_edit(once)) == line
        }),
{
    reveal_strlit("• ");
    let p = bullet_prefix();
    assert(p.len() == 2);
    if starts_with(line, p) {
        let rest = line.subrange(2, line.len() as int);
        assert(p + rest =~= line);
    } else {
        let once = p + line;
        assert(once.subrange(0, 2) =~= p);
        assert(once.subrange(2, once.len() as int) =~= line);
    }
}

/// Toggling the checklist box twice gives an unchecked item or a plain line
/// back (unless it carries two boxes).
pub proof fn lemma_checklist_toggle_twice(line: Seq<char>)
    requires
        checkbox_state(line) != Some(true),
        checkbox_state(line) is Some ==> checkbox_state(line.subrange(2, line.len() as int)) is None,
    ensures
        ({
            let once = apply_line_edit(line, checklist_edit(line));
            apply_line_edit(once, checklist_edit(once)) == line
        }),
{
    reveal_strlit("☐ ");
    reveal_strlit("☑ ");
    let p = unchecked_prefix();
    assert(p.len() == 2);
    if checkbox_state(line) is Some {
        let rest = line.subrange(2, line.len() as int);
        assert(p + rest =~= line);
    } else {
        let once = p + line;
        assert(once.subrange(0, 2) =~= p);
        assert(once.subrange(2, once.len() as int) =~= line);
    }
}

/// Toggling the numbered-list prefix twice gives the line back, whatever
/// line comes before it the second time, when the number that the first
/// toggle inserts is not negative.
pub proof fn lemma_numbered_toggle_twice(
    line: Seq<char>,
    prev: Option<Seq<char>>,
    later_prev: Option<Seq<char>>,
)
    requires
        numbered_edit(line, prev) is InsertPrefix,
        next_item_number(prev) >= 0,
    ensures
        ({
            let once = apply_line_edit(line, numbered_edit(line, prev));
            apply_line_edit(once, numbered_edit(once, later_prev)) == line
        }),
{
    reveal_strlit(". ");
    let n = next_item_number(prev);
    let digits = decimal(n as nat);
    lemma_decimal_digits(n as nat);
    let once = apply_line_edit(line, numbered_edit(line, prev));
    assert(once =~= digits + ". "@ + line);
    lemma_dot_space_after_digits(digits, line, 0);
    let k = digits.len() as int;
    assert(find_dot_space(once) == Some(k));
    assert(once.subrange(0, k) =~= digits);
    assert(once.subrange(k + 2, once.len() as int) =~= line);
}

/// A checklist line with its box flipped between unchecked and checked.
pub open spec fn toggled_line(line: Seq<char>) -> Option<Seq<char>> {
    match checkbox_state(line) {
        Some(false) => Some(seq!['☑'] + line.subrange(1, line.len() as int)),
        Some(true) => Some(seq!['☐'] + line.subrange(1, line.len() as int)),
        None => None,
    }
}

/// The box character that clicking the box of `line` puts in place of the
/// current one: checked for an unchecked item, unchecked for a checked one.
pub fn toggled_box(line: &str) -> (r: Option<char>)
    ensures
        r == match checkbox_state(line@) {
            Some(false) => Some('☑'),
            Some(true) => Some('☐'),
            None => None::<char>,
        },
        match r {
            Some(c) => toggled_line(line@) == Some(seq![c] + line@.subrange(1, line@.len() as int)),
            None => toggled_line(line@) is None,
        },
{
    match checkbox_line_state(line) {
        Some(false) => Some('☑'),
        Some(true) => Some('☐'),
        None => None,
    }
}

/// Clicking a box twice gives the line back.
pub proof fn lemma_checkbox_toggle_twice(line: Seq<char>)
    requires
        toggled_line(line) is Some,
    ensures
        toggled_line(toggled_line(line)->0) == Some(line),
{
    reveal_strlit("☐ ");
    reveal_strlit("☑ ");
    assert(unchecked_prefix() =~= seq!['☐', ' ']);
    assert(checked_prefix() =~= seq!['☑', ' ']);
    let once = toggled_line(line)->0;
    let rest = line.subrange(1, line.len() as int);
    assert(line.len() >= 2);
    assert(line.subrange(0, 2)[0] == line[0] && line.subrange(0, 2)[1] == line[1]);
    assert(line[1] == ' ');
    assert(once.len() == line.len());
    assert(once.subrange(1, once.len() as int) =~= rest);
    assert(once[1] == ' ');
    if checkbox_state(line) == Some(false) {
        assert(line[0] == '☐');
        assert(once.subrange(0, 2) =~= checked_prefix());
        assert(!starts_with(once, unchecked_prefix()));
        assert(seq!['☐'] + rest =~= line);
    } else {
        assert(line[0] == '☑');
        assert(once.subrange(0, 2) =~= unchecked_prefix());
        assert(seq!['☑'] + rest =~= line);
    }
}

/// Where line `n` of the text starts, looking from offset `i`, with lines
/// counted as the text buffer counts them: each line feed ends a line, and
/// what follows the last line feed is one more line, empty or not.
pub open spec fn line_start_from(s: Seq<char>, i: int, n: int) -> Option<int>
    decreases n,
{
    if n < 0 {
        None
    } else if n == 0 {
        Some(i)
    } else {
        let j = next_newline(s, i);
        if 0 <= i && j < s.len() {
            line_start_from(s, j + 1, n - 1)
        } else {
            None
        }
    }
}

/// Where line `n` of the text starts, if the text has such a line.
pub open spec fn line_start(s: Seq<char>, n: int) -> Option<int> {
    line_start_from(s, 0, n)
}

/// The line of `s` that starts at offset `o`, without its line feed.
pub open spec fn line_at(s: Seq<char>, o: int) -> Seq<char> {
    s.subrange(o, next_newline(s, o))
}

/// The text with the checkbox of line `n` flipped, when line `n` is a
/// checklist item: only the box character changes.
pub open spec fn toggled_text(s: Seq<char>, n: int) -> Option<Seq<char>> {
    match line_start(s, n) {
        Some(o) => match toggled_line(line_at(s, o)) {
            Some(l) => Some(s.update(o, l[0])),
            None => None,
        },
        None => None,
    }
}

/// The first line feed at or after `i` (the length of `v` when none).
fn next_newline_exec(v: &Vec<char>, i: usize) -> (r: usize)
    requires
        i <= v@.len(),
    ensures
        r == next_newline(v@, i as int),
        i <= r <= v@.len(),
{
    let mut k = i;
    while k < v.len() && v[k] != '\n'
        invariant
            i <= k <= v@.len(),
            next_newline(v@, k as int) == next_newline(v@, i as int),
        decreases v.len() - k,
    {
        k = k + 1;
    }
    k
}

/// Where to click a checkbox in the text: for line `line_num` of `text`,
/// the offset of its box and the box character that replaces it, or `None`
/// when that line does not exist or is not a checklist item.
pub fn checkbox_toggle_in_text(text: &str, line_num: i32) -> (r: Option<(usize, char)>)
    ensures
        match r {
            Some((o, c)) => line_start(text@, line_num as int) == Some(o as int)
                && toggled_text(text@, line_num as int) == Some(text@.update(o as int, c)),
            None => toggled_text(text@, line_num as int) is None,
        },
{
    if line_num < 0 {
        return None;
    }
    let v = chars_of(text);
    let n = v.len();
    let mut i: usize = 0;
    let mut m: i32 = 0;
    while m < line_num
        invariant
            n == v@.len(),
            v@ == text@,
            0 <= m <= line_num,
            i <= n,
            line_start_from(v@, i as int, (line_num - m) as int) == line_start(
                v@,
                line_num as int,
            ),
        decreases line_num - m,
    {
        let j = next_newline_exec(&v, i);
        if j >= n {
            return None;
        }
        i = j + 1;
        m = m + 1;
    }
    let e = next_newline_exec(&v, i);
    let line = string_from_range(&v, i, e);
    match toggled_box(line.as_str()) {
        Some(c) => {
            proof {
                reveal_strlit("☐ ");
                reveal_strlit("☑ ");
                assert(unchecked_prefix().len() == 2 && checked_prefix().len() == 2);
            }
            Some((i, c))
        },
        None => None,
    }
}

/// Changing one character that is not a line feed into another that is not
/// leaves every line feed where it was.
proof fn lemma_next_newline_update(s: Seq<char>, o: int, c: char, i: int)
    requires
        0 <= o < s.len(),
        s[o] != '\n',
        c != '\n',
    ensures
        next_newline(s.update(o, c), i) == next_newline(s, i),
    decreases s.len() - i,
{
    if 0 <= i < s.len() && s[i] != '\n' {
        lemma_next_newline_update(s, o, c, i + 1);
    }
}

/// ... and so every line starts where it did.
proof fn lemma_line_start_update(s: Seq<char>, o: int, c: char, i: int, n: int)
    requires
        0 <= o < s.len(),
        s[o] != '\n',
        c != '\n',
    ensures
        line_start_from(s.update(o, c), i, n) == line_start_from(s, i, n),
    decreases n,
{
    if n > 0 {
        lemma_next_newline_update(s, o, c, i);
        let j = next_newline(s, i);
        if 0 <= i && j < s.len() {
            lemma_line_start_update(s, o, c, j + 1, n - 1);
        }
    }
}

/// A line starts inside the text, at or after where the search began.
proof fn lemma_line_start_bounds(s: Seq<char>, i: int, n: int)
    requires
        0 <= i <= s.len(),
    ensures
        line_start_from(s, i, n) matches Some(o) ==> i <= o <= s.len(),
    decreases n,
{
    if n > 0 {
        crate::text::lemma_next_newline(s, i);
        let j = next_newline(s, i);
        if j < s.len() {
            lemma_line_start_bounds(s, j + 1, n - 1);
        }
    }
}

/// Clicking the same checkbox twice gives the text back, and a click
/// changes nothing but that box: every other character, on every line,
/// stays as it was.
pub proof fn lemma_text_checkbox_toggle_twice(s: Seq<char>, n: int)
    requires
        toggled_text(s, n) is Some,
    ensures
        toggled_text(toggled_text(s, n)->0, n) == Some(s),
        ({
            let t = toggled_text(s, n)->0;
            let o = line_start(s, n)->0;
            &&& t.len() == s.len()
            &&& forall|k: int| 0 <= k < s.len() && k != o ==> t[k] == s[k]
        }),
{
    reveal_strlit("☐ ");
    reveal_strlit("☑ ");
    let o = line_start(s, n)->0;
    let e = next_newline(s, o);
    let line = line_at(s, o);
    let l2 = toggled_line(line)->0;
    let c = l2[0];
    let t = s.update(o, c);
    assert(unchecked_prefix() =~= seq!['☐', ' ']);
    assert(checked_prefix() =~= seq!['☑', ' ']);
    assert(line.len() >= 2);
    assert(line.subrange(0, 2)[0] == line[0]);
    lemma_line_start_bounds(s, 0, n);
    crate::text::lemma_next_newline(s, o);
    assert(0 <= o <= e <= s.len());
    assert(o + 2 <= e);
    assert(line[0] == s[o]);
    assert(s[o] == '☐' || s[o] == '☑');
    assert(c == '☐' || c == '☑');
    lemma_line_start_update(s, o, c, 0, n);
    lemma_next_newline_update(s, o, c, o);
    assert(line_at(t, o) =~= l2);
    lemma_checkbox_toggle_twice(line);
    assert(toggled_line(l2)->0[0] == line[0]);
    assert(t.update(o, s[o]) =~= s);
}

// ---------------------------------------------------------------------------
// Clicks, links and keys
// ---------------------------------------------------------------------------

/// Whether a click toggles the checkbox of the clicked line: the line must
/// be a checklist item and the click near the left edge, or on one of the
/// first two characters when the click falls on text.
pub open spec fn hits_checkbox(line: Seq<char>, near_left_edge: bool, click_offset: Option<i32>) -> bool {
    checkbox_state(line) is Some && match click_offset {
        Some(o) => near_left_edge || o <= 1,
        None => near_left_edge,
    }
}

/// Decides whether a click at the start of a checklist line toggles its box.
pub fn click_hits_checkbox(line: &str, near_left_edge: bool, click_offset: Option<i32>) -> (r: bool)
    ensures
        r == hits_checkbox(line@, near_left_edge, click_offset),
{
    match checkbox_line_state(line) {
        Some(_) => match click_offset {
            Some(o) => near_left_edge || o <= 1,
            None => near_left_edge,
        },
        None => false,
    }
}

/// The address a clicked link opens: the link text trimmed, when it starts
/// with `http://` or `https://`.
pub open spec fn link_target(text: Seq<char>) -> Option<Seq<char>> {
    let t = trim(text);
    if starts_with(t, "http://"@) || starts_with(t, "https://"@) {
        Some(t)
    } else {
        None
    }
}

/// The address to open for the text of a clicked link, if it is a web address.
pub fn url_to_open(text: &str) -> (r: Option<String>)
    ensures
        match r {
            Some(u) => link_target(text@) == Some(u@),
            None => link_target(text@) is None,
        },
{
    let v = chars_of(text);
    let (a, b) = trim_bounds(&v);
    let t = string_from_range(&v, a, b);
    let tv = chars_of(t.as_str());
    if has_prefix(&tv, "http://") || has_prefix(&tv, "https://") {
        Some(t)
    } else {
        None
    }
}

/// The pattern that marks web addresses as links.
pub const URL_PATTERN: &'static str = "https?://[^\\s<]+";

/// What `regex::Regex::new(pattern)` followed by `find_iter(text)` returns,
/// as the byte offsets `(start, end)` of each match, or `None` when the
/// pattern does not compile.
pub uninterp spec fn regex_match_spans(pattern: Seq<char>, text: Seq<char>) -> Option<Seq<(int, int)>>;

/// How long the `http://` or `https://` that starts at `i` is (0 when none
/// does). `https?` tries the `s` first, and a match needs `://` after it.
pub open spec fn url_scheme_len(s: Seq<char>, i: int) -> int {
    if 0 <= i <= s.len() && starts_with(s.subrange(i, s.len() as int), "https://"@) {
        8
    } else if 0 <= i <= s.len() && starts_with(s.subrange(i, s.len() as int), "http://"@) {
        7
    } else {
        0
    }
}

/// The end of the run of characters from `j` on that are neither white
/// space nor `<` (`[^\s<]+` taken as far as it goes).
pub open spec fn url_end(s: Seq<char>, j: int) -> int
    decreases s.len() - j,
{
    if j < 0 || j >= s.len() {
        s.len() as int
    } else if is_white_space(s[j]) || s[j] == '<' {
        j
    } else {
        url_end(s, j + 1)
    }
}

pub proof fn lemma_url_end(s: Seq<char>, j: int)
    requires
        0 <= j <= s.len(),
    ensures
        j <= url_end(s, j) <= s.len(),
        forall|k: int| j <= k < url_end(s, j) ==> !is_white_space(#[trigger] s[k]) && s[k] != '<',
    decreases s.len() - j,
{
    if j < s.len() && !is_white_space(s[j]) && s[j] != '<' {
        lemma_url_end(s, j + 1);
    }
}

/// Whether a match of [`URL_PATTERN`] starts at `i`: a scheme, then at
/// least one character that is neither white space nor `<`.
pub open spec fn url_starts_at(s: Seq<char>, i: int) -> bool {
    let l = url_scheme_len(s, i);
    l > 0 && url_end(s, i + l) > i + l
}

/// The matches of [`URL_PATTERN`] in `s[i..]`, as character spans, taken
/// from left to right without overlapping, as `find_iter` takes them: at
/// each position a URL that starts there runs as far as it can, and the
/// scan goes on at its end; otherwise the scan moves one character on.
pub open spec fn url_spans_from(s: Seq<char>, i: int) -> Seq<(int, int)>
    decreases s.len() - i,
    via url_spans_from_decreases
{
    if i < 0 || i >= s.len() {
        Seq::empty()
    } else if url_starts_at(s, i) {
        let e = url_end(s, i + url_scheme_len(s, i));
        seq![(i, e)] + url_spans_from(s, e)
    } else {
        url_spans_from(s, i + 1)
    }
}

#[via_fn]
proof fn url_spans_from_decreases(s: Seq<char>, i: int) {
    reveal_strlit("https://");
    reveal_strlit("http://");
    if 0 <= i < s.len() && url_starts_at(s, i) {
        lemma_url_end(s, i + url_scheme_len(s, i));
    }
}

/// The character spans of the web addresses in `s`.
pub open spec fn url_spans(s: Seq<char>) -> Seq<(int, int)> {
    url_spans_from(s, 0)
}

/// Every URL span lies in the text, after where the scan began, and is
/// not empty.
pub proof fn lemma_url_spans_bounds(s: Seq<char>, i: int)
    requires
        0 <= i <= s.len(),
    ensures
        forall|k: int|
            0 <= k < url_spans_from(s, i).len() ==> i <= (#[trigger] url_spans_from(s, i)[k]).0
                < url_spans_from(s, i)[k].1 <= s.len(),
    decreases s.len() - i,
{
    reveal_strlit("https://");
    reveal_strlit("http://");
    if i < s.len() {
        if url_starts_at(s, i) {
            let l = url_scheme_len(s, i);
            assert(i + l <= s.len());
            let e = url_end(s, i + l);
            lemma_url_end(s, i + l);
            lemma_url_spans_bounds(s, e);
            let rest = url_spans_from(s, e);
            assert(url_spans_from(s, i) == seq![(i, e)] + rest);
            assert forall|k: int| 0 <= k < url_spans_from(s, i).len() implies i <= (
            #[trigger] url_spans_from(s, i)[k]).0 < url_spans_from(s, i)[k].1 <= s.len() by {
                if k > 0 {
                    assert(url_spans_from(s, i)[k] == rest[k - 1]);
                }
            }
        } else {
            lemma_url_spans_bounds(s, i + 1);
            assert(url_spans_from(s, i) == url_spans_from(s, i + 1));
        }
    }
}

/// The number of bytes of UTF-8 before character `k` of `s`.
pub open spec fn byte_offset(s: Seq<char>, k: int) -> int {
    vstd::utf8::encode_utf8(s.subrange(0, k)).len() as int
}

/// Character spans of `s` as byte spans.
pub open spec fn byte_spans(s: Seq<char>, spans: Seq<(int, int)>) -> Seq<(int, int)> {
    spans.map_values(|p: (int, int)| (byte_offset(s, p.0), byte_offset(s, p.1)))
}

/// Compiles `pattern` with the `regex` crate and lists the byte offsets of
/// every match in `text`. The result is named `regex_match_spans`. For the
/// one pattern this library uses, [`URL_PATTERN`], the contract also states
/// what the regex crate's documented leftmost-first, non-overlapping
/// matching gives (`\s` being Unicode white space, as `char::is_whitespace`
/// has it): the pattern compiles, and the matches are `url_spans(text)`,
/// in bytes.
#[verifier::external_body]
fn find_all_matches(pattern: &str, text: &str) -> (r: Option<Vec<(usize, usize)>>)
    ensures
        match r {
            Some(v) => {
                &&& regex_match_spans(pattern@, text@) == Some(spans_view(v@))
                &&& pattern@ == URL_PATTERN@ ==> spans_view(v@) == byte_spans(
                    text@,
                    url_spans(text@),
                )
            },
            None => {
                &&& regex_match_spans(pattern@, text@) is None
                &&& pattern@ != URL_PATTERN@
            },
        },
{
    match regex::Regex::new(pattern) {
        Ok(re) => Some(re.find_iter(text).map(|m| (m.start(), m.end())).collect()),
        Err(_) => None,
    }
}

/// The byte spans of the web addresses in `text` that get the link style.
pub fn link_spans(text: &str) -> (r: Vec<(usize, usize)>)
    ensures
        spans_view(r@) == byte_spans(text@, url_spans(text@)),
{
    match find_all_matches(URL_PATTERN, text) {
        Some(v) => v,
        None => Vec::new(),
    }
}

/// The number of bytes that `c` takes in UTF-8.
pub open spec fn utf8_width(c: char) -> nat {
    vstd::utf8::encode_scalar(c as u32).len()
}

/// How many whole characters at the start of `s` fit in `b` bytes of UTF-8.
pub open spec fn chars_within(s: Seq<char>, b: int) -> int
    decreases s.len(),
{
    if s.len() == 0 || utf8_width(s[0]) > b {
        0
    } else {
        1 + chars_within(s.drop_first(), b - utf8_width(s[0]))
    }
}

/// Counting the characters that fit in a prefix's bytes gives back the
/// prefix's length: on a character boundary, a byte offset and a
/// character offset name the same place.
pub proof fn lemma_chars_within_prefix(s: Seq<char>, k: int)
    requires
        0 <= k <= s.len(),
    ensures
        chars_within(s, vstd::utf8::encode_utf8(s.subrange(0, k)).len() as int) == k,
    decreases k,
{
    if k == 0 {
        assert(s.subrange(0, 0) =~= Seq::<char>::empty());
    } else {
        let p = s.subrange(0, k);
        assert(p.drop_first() =~= s.drop_first().subrange(0, k - 1));
        lemma_chars_within_prefix(s.drop_first(), k - 1);
    }
}

/// A character offset found from a byte offset lies within the text.
pub proof fn lemma_chars_within_bounds(s: Seq<char>, b: int)
    ensures
        0 <= chars_within(s, b) <= s.len(),
    decreases s.len(),
{
    if s.len() > 0 {
        lemma_chars_within_bounds(s.drop_first(), b - utf8_width(s[0]));
    }
}

/// The UTF-8 width of a character.
fn char_width(c: char) -> (r: usize)
    ensures
        r == utf8_width(c),
        1 <= r <= 4,
{
    proof {
        vstd::utf8::char_is_scalar(c);
    }
    let u = c as u32;
    if u < 0x80 {
        1
    } else if u < 0x800 {
        2
    } else if u < 0x10000 {
        3
    } else {
        4
    }
}

/// The character offset in `v` of the byte offset `b`.
fn char_index_of_byte(v: &Vec<char>, b: usize) -> (r: usize)
    ensures
        r == chars_within(v@, b as int),
{
    let n = v.len();
    let mut k: usize = 0;
    let mut rest: usize = b;
    assert(v@.subrange(0, n as int) =~= v@);
    while k < n && char_width(v[k]) <= rest
        invariant
            n == v@.len(),
            k <= n,
            k + chars_within(v@.subrange(k as int, n as int), rest as int) == chars_within(
                v@,
                b as int,
            ),
        decreases n - k,
    {
        assert(v@.subrange(k as int, n as int).drop_first() =~= v@.subrange(k + 1, n as int));
        rest = rest - char_width(v[k]);
        k = k + 1;
    }
    if k < n {
        assert(v@.subrange(k as int, n as int)[0] == v@[k as int]);
    }
    k
}

/// Byte spans turned into character spans of `text`.
pub open spec fn char_spans_of(text: Seq<char>, spans: Seq<(int, int)>) -> Seq<(int, int)> {
    spans.map_values(|p: (int, int)| (chars_within(text, p.0), chars_within(text, p.1)))
}

/// The URLs in a note's text, as character offsets, which is how the text
/// buffer counts.
pub fn link_char_spans(text: &str) -> (r: Vec<(usize, usize)>)
    ensures
        spans_view(r@) == url_spans(text@),
{
    let spans = link_spans(text);
    let v = chars_of(text);
    let mut r: Vec<(usize, usize)> = Vec::new();
    let mut k: usize = 0;
    while k < spans.len()
        invariant
            k <= spans@.len(),
            v@ == text@,
            spans_view(r@) == char_spans_of(text@, spans_view(spans@)).subrange(0, k as int),
        decreases spans.len() - k,
    {
        let (a, b) = spans[k];
        let ca = char_index_of_byte(&v, a);
        let cb = char_index_of_byte(&v, b);
        let ghost before = r@;
        r.push((ca, cb));
        proof {
            let full = char_spans_of(text@, spans_view(spans@));
            assert(spans_view(spans@)[k as int] == (a as int, b as int));
            assert(full[k as int] == (ca as int, cb as int));
            assert(spans_view(r@) =~= spans_view(before).push((ca as int, cb as int)));
            assert(full.subrange(0, k + 1) =~= full.subrange(0, k as int).push(full[k as int]));
        }
        k = k + 1;
    }
    assert(char_spans_of(text@, spans_view(spans@)).subrange(0, k as int) =~= char_spans_of(
        text@,
        spans_view(spans@),
    ));
    proof {
        let us = url_spans(text@);
        lemma_url_spans_bounds(text@, 0);
        assert forall|m: int| 0 <= m < us.len() implies #[trigger] char_spans_of(
            text@,
            byte_spans(text@, us),
        )[m] == us[m] by {
            lemma_chars_within_prefix(text@, us[m].0);
            lemma_chars_within_prefix(text@, us[m].1);
        }
        assert(char_spans_of(text@, byte_spans(text@, us)) =~= us);
    }
    r
}

/// The first span, from position `i` on, that holds the character offset `o`.
pub open spec fn first_span_at(spans: Seq<(int, int)>, o: int, i: int) -> Option<(int, int)>
    decreases spans.len() - i,
{
    if i < 0 || i >= spans.len() {
        None
    } else if spans[i].0 <= o < spans[i].1 {
        Some(spans[i])
    } else {
        first_span_at(spans, o, i + 1)
    }
}

/// The web address to open when the character at offset `o` is clicked:
/// the link that holds it, if that link is an `http://` or `https://` URL.
pub open spec fn url_under(text: Seq<char>, spans: Seq<(int, int)>, o: int) -> Option<Seq<char>> {
    match first_span_at(spans, o, 0) {
        Some(p) => link_target(text.subrange(p.0, p.1)),
        None => None,
    }
}

/// The web address to open for a click on the character at `offset` of the
/// note's text.
pub fn url_at(text: &str, offset: usize) -> (r: Option<String>)
    ensures
        match r {
            Some(u) => url_under(text@, url_spans(text@), offset as int) == Some(u@),
            None => url_under(text@, url_spans(text@), offset as int) is None,
        },
{
    let spans = link_char_spans(text);
    let v = chars_of(text);
    let ghost sv = spans_view(spans@);
    proof {
        lemma_url_spans_bounds(text@, 0);
        assert forall|m: int| 0 <= m < spans@.len() implies (#[trigger] sv[m]).1 <= v@.len() by {
            assert(sv[m] == url_spans(text@)[m]);
        }
    }
    let mut k: usize = 0;
    while k < spans.len()
        invariant
            k <= spans@.len(),
            sv == spans_view(spans@),
            v@ == text@,
            first_span_at(sv, offset as int, k as int) == first_span_at(sv, offset as int, 0),
            sv == url_spans(text@),
            forall|m: int| 0 <= m < spans@.len() ==> (#[trigger] sv[m]).1 <= v@.len(),
        decreases spans.len() - k,
    {
        let (a, b) = spans[k];
        if a <= offset && offset < b {
            assert(sv[k as int] == (a as int, b as int));
            assert(first_span_at(sv, offset as int, k as int) == Some((a as int, b as int)));
            let link = string_from_range(&v, a, b);
            return url_to_open(link.as_str());
        }
        assert(sv[k as int] == (a as int, b as int));
        k = k + 1;
    }
    None
}

/// The keys the editor reacts to.
#[derive(Debug, Clone, Copy, PartialEq, Eq, Structural)]
pub enum EditorKey {
    /// `b` or `B`.
    B,
    /// `i` or `I`.
    I,
    /// `u` or `U`.
    U,
    /// `7` or `&`.
    Seven,
    /// `8` or `*`.
    Eight,
    /// `9` or `(`.
    Nine,
    /// Return or keypad Enter.
    Enter,
    /// Any other key.
    Other,
}

/// What a key press in the editor does.
#[derive(Debug, Clone, Copy, PartialEq, Eq, Structural)]
pub enum KeyDecision {
    /// Apply a formatting action and stop the event.
    Format(FormatAction),
    /// Run the list-aware Enter handling.
    Enter,
    /// Let the text view handle the key.
    Pass,
}

/// The editor's shortcuts: Ctrl+B/I/U toggle bold, italic and underline;
/// Ctrl+Shift+7/8/9 toggle a numbered item, bullet and checklist item;
/// Enter with no modifier goes to the list-aware Enter handling.
pub open spec fn key_decision_of(ctrl: bool, shift: bool, alt: bool, key: EditorKey) -> KeyDecision {
    if ctrl && !shift {
        match key {
            EditorKey::B => KeyDecision::Format(FormatAction::Bold),
            EditorKey::I => KeyDecision::Format(FormatAction::Italic),
            EditorKey::U => KeyDecision::Format(FormatAction::Underline),
            _ => KeyDecision::Pass,
        }
    } else if ctrl && shift {
        match key {
            EditorKey::Seven => KeyDecision::Format(FormatAction::NumberedList),
            EditorKey::Eight => KeyDecision::Format(FormatAction::BulletList),
            EditorKey::Nine => KeyDecision::Format(FormatAction::Checklist),
            _ => KeyDecision::Pass,
        }
    } else if !ctrl && !shift && !alt && key == EditorKey::Enter {
        KeyDecision::Enter
    } else {
        KeyDecision::Pass
    }
}

/// Decides what a key press does, given the modifier keys held.
pub fn key_decision(ctrl: bool, shift: bool, alt: bool, key: EditorKey) -> (r: KeyDecision)
    ensures
        r == key_decision_of(ctrl, shift, alt, key),
{
    if ctrl && !shift {
        match key {
            EditorKey::B => KeyDecision::Format(FormatAction::Bold),
            EditorKey::I => KeyDecision::Format(FormatAction::Italic),
            EditorKey::U => KeyDecision::Format(FormatAction::Underline),
            _ => KeyDecision::Pass,
        }
    } else if ctrl && shift {
        match key {
            EditorKey::Seven => KeyDecision::Format(FormatAction::NumberedList),
            EditorKey::Eight => KeyDecision::Format(FormatAction::BulletList),
            EditorKey::Nine => KeyDecision::Format(FormatAction::Checklist),
            _ => KeyDecision::Pass,
        }
    } else if !ctrl && !shift && !alt && key == EditorKey::Enter {
        KeyDecision::Enter
    } else {
        KeyDecision::Pass
    }
}

/// The style rule that sets the editor's font size.
pub open spec fn font_size_rule(size: u32) -> Seq<char> {
    "textview.note-body { font-size: "@ + decimal(size as nat) + "px; }"@
}

/// Builds the style rule for the editor's font size in pixels.
pub fn font_size_css(size: u32) -> (r: String)
    ensures
        r@ == font_size_rule(size),
{
    let mut r = copy_str("textview.note-body { font-size: ");
    push_decimal(&mut r, size as u64);
    push_str(&mut r, "px; }");
    r
}

} // verus!
