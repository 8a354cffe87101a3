//! Colors in `#rrggbb` notation and the style sheet of the wallpaper theme.
//!
//! Reading the desktop background setting and the hue arithmetic (which is
//! floating point) are the application's part.

use vstd::prelude::*;
use vstd::string::StringSliceAdditionalSpecFns;
use vstd::utf8::{encode_utf8, is_ascii_chars, is_char_boundary};
use crate::text::{
    chars_of, copy_str, push_char, push_str, skip_prefixes, string_from_range, trim,
    trim_bounds, trim_start_matches,
};

verus! {

/// Represents an RGB color with values in 0..=255.
#[derive(Debug, Clone, Copy, PartialEq, Eq, Structural)]
pub struct Rgb(pub u8, pub u8, pub u8);

/// The lowercase hexadecimal digit for `0..16`.
pub open spec fn hex_digit_char(d: int) -> char {
    if d < 10 {
        crate::text::digit_char(d)
    } else if d == 10 {
        'a'
    } else if d == 11 {
        'b'
    } else if d == 12 {
        'c'
    } else if d == 13 {
        'd'
    } else if d == 14 {
        'e'
    } else {
        'f'
    }
}

/// The two lowercase hexadecimal digits of a byte.
pub open spec fn hex_byte(b: u8) -> Seq<char> {
    seq![hex_digit_char(b as int / 16), hex_digit_char(b as int % 16)]
}

/// A color written as `#rrggbb` with lowercase digits.
pub open spec fn hex_text(c: Rgb) -> Seq<char> {
    "#"@ + hex_byte(c.0) + hex_byte(c.1) + hex_byte(c.2)
}

/// The value of a hexadecimal digit (either case), if `c` is one.
pub open spec fn hex_value(c: char) -> Option<int> {
    if '0' <= c && c <= '9' {
        Some(c as int - '0' as int)
    } else if 'a' <= c && c <= 'f' {
        Some(c as int - 'a' as int + 10)
    } else if 'A' <= c && c <= 'F' {
        Some(c as int - 'A' as int + 10)
    } else {
        None
    }
}

/// What `u8::from_str_radix(p, 16)` gives for a one- or two-character `p`:
/// an optional leading `+` followed by at least one hexadecimal digit.
pub open spec fn radix16_byte(p: Seq<char>) -> Option<int> {
    if p.len() == 2 && p[0] == '+' {
        hex_value(p[1])
    } else if p.len() == 2 {
        match (hex_value(p[0]), hex_value(p[1])) {
            (Some(h), Some(l)) => Some(h * 16 + l),
            _ => None,
        }
    } else if p.len() == 1 {
        hex_value(p[0])
    } else {
        None
    }
}

/// The byte length of `s`, as `str::len` reports it.
pub open spec fn byte_len(s: Seq<char>) -> nat {
    (encode_utf8(s).len() as usize) as nat
}

/// The text `from_hex` reads digits from: trimmed, then without leading `#`s.
pub open spec fn hex_body(s: Seq<char>) -> Seq<char> {
    trim_start_matches(trim(s), "#"@)
}

/// Whether `from_hex` would cut a character in two: its text is six bytes
/// long but not split into three two-byte pieces at character boundaries
/// (which an ASCII text always is).
pub open spec fn hex_cut_mid_char(s: Seq<char>) -> bool {
    let b = hex_body(s);
    byte_len(b) == 6 && !is_ascii_chars(b) && !(is_char_boundary(encode_utf8(b), 2)
        && is_char_boundary(encode_utf8(b), 4))
}

/// The color a `#rrggbb` (or `rrggbb`) string stands for. The text must be
/// six bytes, each two-byte piece read as by `u8::from_str_radix(_, 16)`.
/// A six-byte text that is not ASCII never gives a color: when its pieces
/// fall on character boundaries, some piece is a single two-byte character,
/// which is not a digit.
pub open spec fn hex_color(s: Seq<char>) -> Option<Rgb> {
    let b = hex_body(s);
    if byte_len(b) == 6 && is_ascii_chars(b) {
        match (
            radix16_byte(b.subrange(0, 2)),
            radix16_byte(b.subrange(2, 4)),
            radix16_byte(b.subrange(4, 6)),
        ) {
            (Some(r), Some(g), Some(bl)) => Some(Rgb(r as u8, g as u8, bl as u8)),
            _ => None,
        }
    } else {
        None
    }
}

fn hex_digit(d: u8) -> (c: char)
    requires
        d < 16,
    ensures
        c == hex_digit_char(d as int),
{
    if d == 0 {
        '0'
    } else if d == 1 {
        '1'
    } else if d == 2 {
        '2'
    } else if d == 3 {
        '3'
    } else if d == 4 {
        '4'
    } else if d == 5 {
        '5'
    } else if d == 6 {
        '6'
    } else if d == 7 {
        '7'
    } else if d == 8 {
        '8'
    } else if d == 9 {
        '9'
    } else if d == 10 {
        'a'
    } else if d == 11 {
        'b'
    } else if d == 12 {
        'c'
    } else if d == 13 {
        'd'
    } else if d == 14 {
        'e'
    } else {
        'f'
    }
}

fn hex_value_exec(c: char) -> (r: Option<u8>)
    ensures
        match r {
            Some(v) => hex_value(c) == Some(v as int) && v < 16,
            None => hex_value(c) is None,
        },
{
    if '0' <= c && c <= '9' {
        Some((c as u32 - '0' as u32) as u8)
    } else if 'a' <= c && c <= 'f' {
        Some((c as u32 - 'a' as u32 + 10) as u8)
    } else if 'A' <= c && c <= 'F' {
        Some((c as u32 - 'A' as u32 + 10) as u8)
    } else {
        None
    }
}

fn push_hex_byte(s: &mut String, b: u8)
    ensures
        final(s)@ == old(s)@ + hex_byte(b),
{
    push_char(s, hex_digit(b / 16));
    push_char(s, hex_digit(b % 16));
    assert(final(s)@ =~= old(s)@ + hex_byte(b));
}

/// Reads the two characters `v[i..i + 2]` as `u8::from_str_radix(_, 16)` does.
fn radix16_pair(v: &Vec<char>, i: usize) -> (r: Option<u8>)
    requires
        i + 2 <= v@.len(),
    ensures
        match r {
            Some(x) => radix16_byte(v@.subrange(i as int, i + 2)) == Some(x as int),
            None => radix16_byte(v@.subrange(i as int, i + 2)) is None,
        },
{
    let n = v.len();
    assert(i + 2 <= n);
    let ghost p = v@.subrange(i as int, i + 2);
    assert(p.len() == 2 && p[0] == v@[i as int] && p[1] == v@[i + 1]);
    if v[i] == '+' {
        hex_value_exec(v[i + 1])
    } else {
        match (hex_value_exec(v[i]), hex_value_exec(v[i + 1])) {
            (Some(h), Some(l)) => Some(h * 16 + l),
            _ => None,
        }
    }
}

/// The characters of `s` once trimmed and stripped of leading `#`s.
fn hex_body_text(s: &str) -> (r: String)
    ensures
        r@ == hex_body(s@),
{
    let v = chars_of(s);
    let (a, b) = trim_bounds(&v);
    let t = string_from_range(&v, a, b);
    let tv = chars_of(t.as_str());
    let k = skip_prefixes(&tv, "#");
    string_from_range(&tv, k, tv.len())
}

impl Rgb {
    /// The color in `#rrggbb` notation with lowercase digits.
    pub fn to_hex(&self) -> (r: String)
        ensures
            r@ == hex_text(*self),
    {
        let mut r = copy_str("#");
        push_hex_byte(&mut r, self.0);
        push_hex_byte(&mut r, self.1);
        push_hex_byte(&mut r, self.2);
        assert(r@ =~= hex_text(*self));
        r
    }

    /// Whether `from_hex` would have to cut a character of `s` in two.
    pub fn hex_cuts_character(s: &str) -> (r: bool)
        ensures
            r == hex_cut_mid_char(s@),
    {
        let body = hex_body_text(s);
        let b = body.as_str();
        b.len() == 6 && !b.is_ascii() && !(b.is_char_boundary(2) && b.is_char_boundary(4))
    }

    /// Parse hex color string e.g. "#26a269" or "26a269"
    pub fn from_hex(s: &str) -> (r: Option<Rgb>)
        requires
            !hex_cut_mid_char(s@),
        ensures
            r == hex_color(s@),
    {
        let body = hex_body_text(s);
        if body.as_str().len() != 6 {
            return None;
        }
        if !body.as_str().is_ascii() {
            return None;
        }
        let v = chars_of(body.as_str());
        assert(is_ascii_chars(v@));
        proof {
            vstd::utf8::is_ascii_chars_encode_utf8(v@);
        }
        assert(v@.len() == 6);
        match (radix16_pair(&v, 0), radix16_pair(&v, 2), radix16_pair(&v, 4)) {
            (Some(r), Some(g), Some(b)) => Some(Rgb(r, g, b)),
            _ => None,
        }
    }
}

/// The background color assumed when the desktop names none (Adwaita green).
pub open spec fn fallback_base() -> Rgb {
    Rgb(38, 162, 105)
}

/// The base color of the wallpaper theme: the desktop's primary background
/// color when it is set and readable, the fallback otherwise.
pub open spec fn base_color(primary: Option<Seq<char>>) -> Rgb {
    match primary {
        Some(p) => match hex_color(p) {
            Some(c) => c,
            None => fallback_base(),
        },
        None => fallback_base(),
    }
}

/// Picks the wallpaper base color from the desktop's primary background
/// color setting (`None` when the setting does not exist).
pub fn wallpaper_base_color(primary: Option<&str>) -> (r: Rgb)
    requires
        primary matches Some(p) ==> !hex_cut_mid_char(p@),
    ensures
        r == base_color(
            match primary {
                Some(p) => Some(p@),
                None => None,
            },
        ),
{
    match primary {
        Some(p) => match Rgb::from_hex(p) {
            Some(c) => c,
            None => Rgb(38, 162, 105),
        },
        None => Rgb(38, 162, 105),
    }
}

proof fn lemma_hex_digit(d: int)
    requires
        0 <= d < 16,
    ensures
        hex_value(hex_digit_char(d)) == Some(d),
        '0' <= hex_digit_char(d) <= 'f',
        !crate::text::is_white_space(hex_digit_char(d)),
{
}

proof fn lemma_hex_pair(b: u8)
    ensures
        radix16_byte(hex_byte(b)) == Some(b as int),
        vstd::utf8::is_ascii_chars(hex_byte(b)),
        hex_byte(b).len() == 2,
        hex_byte(b)[0] != '#',
{
    lemma_hex_digit(b as int / 16);
    lemma_hex_digit(b as int % 16);
}

/// A color written with `to_hex` reads back as the same color, and reading
/// it never cuts a character.
pub proof fn lemma_hex_round_trip(c: Rgb)
    ensures
        !hex_cut_mid_char(hex_text(c)),
        hex_color(hex_text(c)) == Some(c),
{
    reveal_strlit("#");
    lemma_hex_pair(c.0);
    lemma_hex_pair(c.1);
    lemma_hex_pair(c.2);
    let t = hex_text(c);
    let body = hex_byte(c.0) + hex_byte(c.1) + hex_byte(c.2);
    assert(t =~= seq!['#'] + body);
    assert(t.len() == 7);
    assert(t[6] == hex_byte(c.2)[1]);
    lemma_hex_digit(c.2 as int % 16);
    assert(crate::text::skip_white(t, 0) == 0);
    assert(crate::text::skip_white_back(t, 7) == 7);
    assert(trim(t) =~= t);
    assert("#"@ =~= seq!['#']);
    assert(t.subrange(0, 1) =~= "#"@);
    assert(crate::text::starts_with(t, "#"@));
    assert(t.subrange(1, 7) =~= body);
    assert(body[0] == hex_byte(c.0)[0]);
    assert(!crate::text::starts_with(body, "#"@));
    assert(trim_start_matches(body, "#"@) == body);
    assert(hex_body(t) == body);
    assert(is_ascii_chars(body));
    vstd::utf8::is_ascii_chars_encode_utf8(body);
    assert(body.subrange(0, 2) =~= hex_byte(c.0));
    assert(body.subrange(2, 4) =~= hex_byte(c.1));
    assert(body.subrange(4, 6) =~= hex_byte(c.2));
}

/// The style sheet of the wallpaper theme: header, body, toolbar and card
/// backgrounds in the light palette, then the same in the dark palette.
pub open spec fn wallpaper_style(
    light_header: Seq<char>,
    light_body: Seq<char>,
    dark_header: Seq<char>,
    dark_body: Seq<char>,
) -> Seq<char> {
    "/* Dynamic Wallpaper Adaptive Note Colors */\n.note-color-wallpaper .note-header { background-color: "@ + light_header + "; color: #2e3436; }\n.note-color-wallpaper .note-body { background-color: "@ + light_body + "; color: #2e3436; }\n.note-color-wallpaper .formatting-toolbar { background-color: "@ + light_header + "; color: #2e3436; }\n.note-color-wallpaper.note-grid-card { background-color: "@ + light_body + "; color: #2e3436; }\n\n.dark.note-color-wallpaper .note-header, .dark .note-color-wallpaper .note-header { background-color: "@ + dark_header + "; color: #f6f5f4; }\n.dark.note-color-wallpaper .note-body, .dark .note-color-wallpaper .note-body { background-color: "@ + dark_body + "; color: #f6f5f4; }\n.dark.note-color-wallpaper .formatting-toolbar, .dark .note-color-wallpaper .formatting-toolbar { background-color: "@ + dark_header + "; color: #f6f5f4; }\n.dark.note-color-wallpaper.note-grid-card, .dark .note-color-wallpaper.note-grid-card { background-color: "@ + dark_body + "; color: #f6f5f4; }\n"@
}

/// The text between two colors of the style sheet, taken apart into the
/// end of one rule and the start of the next.
proof fn lemma_style_piece_0()
    ensures
        "/* Dynamic Wallpaper Adaptive Note Colors */\n.note-color-wallpaper .note-header { background-color: "@ == "/* Dynamic Wallpaper Adaptive Note Colors */\n"@ + ".note-color-wallpaper .note-header"@ + " { background-color: "@,
{
    reveal_strlit(" { background-color: ");
    reveal_strlit(".note-color-wallpaper .note-header");
    reveal_strlit("/* Dynamic Wallpaper Adaptive Note Colors */\n");
    reveal_strlit("/* Dynamic Wallpaper Adaptive Note Colors */\n.note-color-wallpaper .note-header { background-color: ");
    assert("/* Dynamic Wallpaper Adaptive Note Colors */\n.note-color-wallpaper .note-header { background-color: "@ =~= "/* Dynamic Wallpaper Adaptive Note Colors */\n"@ + ".note-color-wallpaper .note-header"@ + " { background-color: "@);
}

proof fn lemma_style_piece_1()
    ensures
        "; color: #2e3436; }\n.note-color-wallpaper .note-body { background-color: "@ == "; color: "@ + "#2e3436"@ + "; }\n"@ + ".note-color-wallpaper .note-body"@ + " { background-color: "@,
{
    reveal_strlit(" { background-color: ");
    reveal_strlit("#2e3436");
    reveal_strlit(".note-color-wallpaper .note-body");
    reveal_strlit("; color: ");
    reveal_strlit("; color: #2e3436; }\n.note-color-wallpaper .note-body { background-color: ");
    reveal_strlit("; }\n");
    assert("; color: #2e3436; }\n.note-color-wallpaper .note-body { background-color: "@ =~= "; color: "@ + "#2e3436"@ + "; }\n"@ + ".note-color-wallpaper .note-body"@ + " { background-color: "@);
}

proof fn lemma_style_piece_2()
    ensures
        "; color: #2e3436; }\n.note-color-wallpaper .formatting-toolbar { background-color: "@ == "; color: "@ + "#2e3436"@ + "; }\n"@ + ".note-color-wallpaper .formatting-toolbar"@ + " { background-color: "@,
{
    reveal_strlit(" { background-color: ");
    reveal_strlit("#2e3436");
    reveal_strlit(".note-color-wallpaper .formatting-toolbar");
    reveal_strlit("; color: ");
    reveal_strlit("; color: #2e3436; }\n.note-color-wallpaper .formatting-toolbar { background-color: ");
    reveal_strlit("; }\n");
    assert("; color: #2e3436; }\n.note-color-wallpaper .formatting-toolbar { background-color: "@ =~= "; color: "@ + "#2e3436"@ + "; }\n"@ + ".note-color-wallpaper .formatting-toolbar"@ + " { background-color: "@);
}

proof fn lemma_style_piece_3()
    ensures
        "; color: #2e3436; }\n.note-color-wallpaper.note-grid-card { background-color: "@ == "; color: "@ + "#2e3436"@ + "; }\n"@ + ".note-color-wallpaper.note-grid-card"@ + " { background-color: "@,
{
    reveal_strlit(" { background-color: ");
    reveal_strlit("#2e3436");
    reveal_strlit(".note-color-wallpaper.note-grid-card");
    reveal_strlit("; color: ");
    reveal_strlit("; color: #2e3436; }\n.note-color-wallpaper.note-grid-card { background-color: ");
    reveal_strlit("; }\n");
    assert("; color: #2e3436; }\n.note-color-wallpaper.note-grid-card { background-color: "@ =~= "; color: "@ + "#2e3436"@ + "; }\n"@ + ".note-color-wallpaper.note-grid-card"@ + " { background-color: "@);
}

proof fn lemma_style_piece_4()
    ensures
        "; color: #2e3436; }\n\n.dark.note-color-wallpaper .note-header, .dark .note-color-wallpaper .note-header { background-color: "@ == "; color: "@ + "#2e3436"@ + "; }\n"@ + "\n"@ + ".dark.note-color-wallpaper .note-header, .dark .note-color-wallpaper .note-header"@ + " { background-color: "@,
{
    reveal_strlit(" { background-color: ");
    reveal_strlit("#2e3436");
    reveal_strlit(".dark.note-color-wallpaper .note-header, .dark .note-color-wallpaper .note-header");
    reveal_strlit("; color: ");
    reveal_strlit("; color: #2e3436; }\n\n.dark.note-color-wallpaper .note-header, .dark .note-color-wallpaper .note-header { background-color: ");
    reveal_strlit("; }\n");
    reveal_strlit("\n");
    assert("; color: #2e3436; }\n\n.dark.note-color-wallpaper .note-header, .dark .note-color-wallpaper .note-header { background-color: "@ =~= "; color: "@ + "#2e3436"@ + "; }\n"@ + "\n"@ + ".dark.note-color-wallpaper .note-header, .dark .note-color-wallpaper .note-header"@ + " { background-color: "@);
}

proof fn lemma_style_piece_5()
    ensures
        "; color: #f6f5f4; }\n.dark.note-color-wallpaper .note-body, .dark .note-color-wallpaper .note-body { background-color: "@ == "; color: "@ + "#f6f5f4"@ + "; }\n"@ + ".dark.note-color-wallpaper .note-body, .dark .note-color-wallpaper .note-body"@ + " { background-color: "@,
{
    reveal_strlit(" { background-color: ");
    reveal_strlit("#f6f5f4");
    reveal_strlit(".dark.note-color-wallpaper .note-body, .dark .note-color-wallpaper .note-body");
    reveal_strlit("; color: ");
    reveal_strlit("; color: #f6f5f4; }\n.dark.note-color-wallpaper .note-body, .dark .note-color-wallpaper .note-body { background-color: ");
    reveal_strlit("; }\n");
    assert("; color: #f6f5f4; }\n.dark.note-color-wallpaper .note-body, .dark .note-color-wallpaper .note-body { background-color: "@ =~= "; color: "@ + "#f6f5f4"@ + "; }\n"@ + ".dark.note-color-wallpaper .note-body, .dark .note-color-wallpaper .note-body"@ + " { background-color: "@);
}

proof fn lemma_style_piece_6()
    ensures
        "; color: #f6f5f4; }\n.dark.note-color-wallpaper .formatting-toolbar, .dark .note-color-wallpaper .formatting-toolbar { background-color: "@ == "; color: "@ + "#f6f5f4"@ + "; }\n"@ + ".dark.note-color-wallpaper .formatting-toolbar, .dark .note-color-wallpaper .formatting-toolbar"@ + " { background-color: "@,
{
    reveal_strlit(" { background-color: ");
    reveal_strlit("#f6f5f4");
    reveal_strlit(".dark.note-color-wallpaper .formatting-toolbar, .dark .note-color-wallpaper .formatting-toolbar");
    reveal_strlit("; color: ");
    reveal_strlit("; color: #f6f5f4; }\n.dark.note-color-wallpaper .formatting-toolbar, .dark .note-color-wallpaper .formatting-toolbar { background-color: ");
    reveal_strlit("; }\n");
    assert("; color: #f6f5f4; }\n.dark.note-color-wallpaper .formatting-toolbar, .dark .note-color-wallpaper .formatting-toolbar { background-color: "@ =~= "; color: "@ + "#f6f5f4"@ + "; }\n"@ + ".dark.note-color-wallpaper .formatting-toolbar, .dark .note-color-wallpaper .formatting-toolbar"@ + " { background-color: "@);
}

proof fn lemma_style_piece_7()
    ensures
        "; color: #f6f5f4; }\n.dark.note-color-wallpaper.note-grid-card, .dark .note-color-wallpaper.note-grid-card { background-color: "@ == "; color: "@ + "#f6f5f4"@ + "; }\n"@ + ".dark.note-color-wallpaper.note-grid-card, .dark .note-color-wallpaper.note-grid-card"@ + " { background-color: "@,
{
    reveal_strlit(" { background-color: ");
    reveal_strlit("#f6f5f4");
    reveal_strlit(".dark.note-color-wallpaper.note-grid-card, .dark .note-color-wallpaper.note-grid-card");
    reveal_strlit("; color: ");
    reveal_strlit("; color: #f6f5f4; }\n.dark.note-color-wallpaper.note-grid-card, .dark .note-color-wallpaper.note-grid-card { background-color: ");
    reveal_strlit("; }\n");
    assert("; color: #f6f5f4; }\n.dark.note-color-wallpaper.note-grid-card, .dark .note-color-wallpaper.note-grid-card { background-color: "@ =~= "; color: "@ + "#f6f5f4"@ + "; }\n"@ + ".dark.note-color-wallpaper.note-grid-card, .dark .note-color-wallpaper.note-grid-card"@ + " { background-color: "@);
}

proof fn lemma_style_piece_8()
    ensures
        "; color: #f6f5f4; }\n"@ == "; color: "@ + "#f6f5f4"@ + "; }\n"@,
{
    reveal_strlit("#f6f5f4");
    reveal_strlit("; color: ");
    reveal_strlit("; color: #f6f5f4; }\n");
    reveal_strlit("; }\n");
    assert("; color: #f6f5f4; }\n"@ =~= "; color: "@ + "#f6f5f4"@ + "; }\n"@);
}

/// One CSS rule: a selector whose background and text colors are given.
pub open spec fn css_rule(selector: Seq<char>, background: Seq<char>, text_color: Seq<char>) -> Seq<char> {
    selector + " { background-color: "@ + background + "; color: "@ + text_color + "; }\n"@
}

/// The wallpaper style sheet is eight rules, each painting its part with
/// its own color argument: in the light palette the note header and the
/// formatting toolbar take the header color and the note body and the
/// overview card take the body color, on dark text; the dark palette does
/// the same with its two colors on light text.
#[verifier::rlimit(60)]
pub proof fn lemma_wallpaper_style_rules(
    light_header: Seq<char>,
    light_body: Seq<char>,
    dark_header: Seq<char>,
    dark_body: Seq<char>,
)
    ensures
        wallpaper_style(light_header, light_body, dark_header, dark_body) == (
            "/* Dynamic Wallpaper Adaptive Note Colors */\n"@
            + css_rule(
                ".note-color-wallpaper .note-header"@,
                light_header,
                "#2e3436"@,
            )
            + css_rule(
                ".note-color-wallpaper .note-body"@,
                light_body,
                "#2e3436"@,
            )
            + css_rule(
                ".note-color-wallpaper .formatting-toolbar"@,
                light_header,
                "#2e3436"@,
            )
            + css_rule(
                ".note-color-wallpaper.note-grid-card"@,
                light_body,
                "#2e3436"@,
            )
            + "\n"@
            + css_rule(
                ".dark.note-color-wallpaper .note-header, .dark .note-color-wallpaper .note-header"@,
                dark_header,
                "#f6f5f4"@,
            )
            + css_rule(
                ".dark.note-color-wallpaper .note-body, .dark .note-color-wallpaper .note-body"@,
                dark_body,
                "#f6f5f4"@,
            )
            + css_rule(
                ".dark.note-color-wallpaper .formatting-toolbar, .dark .note-color-wallpaper .formatting-toolbar"@,
                dark_header,
                "#f6f5f4"@,
            )
            + css_rule(
                ".dark.note-color-wallpaper.note-grid-card, .dark .note-color-wallpaper.note-grid-card"@,
                dark_body,
                "#f6f5f4"@,
            )
        ),
{
    lemma_style_piece_0();
    lemma_style_piece_1();
    lemma_style_piece_2();
    lemma_style_piece_3();
    lemma_style_piece_4();
    lemma_style_piece_5();
    lemma_style_piece_6();
    lemma_style_piece_7();
    lemma_style_piece_8();
    let s0 = "/* Dynamic Wallpaper Adaptive Note Colors */\n.note-color-wallpaper .note-header { background-color: "@ + light_header;
    let p0 = "/* Dynamic Wallpaper Adaptive Note Colors */\n"@;
    assert(s0 =~= p0 + ".note-color-wallpaper .note-header"@ + " { background-color: "@ + light_header);
    let s1 = s0 + "; color: #2e3436; }\n.note-color-wallpaper .note-body { background-color: "@ + light_body;
    let p1 = p0 + css_rule(".note-color-wallpaper .note-header"@, light_header, "#2e3436"@);
    assert(s1 =~= p1 + ".note-color-wallpaper .note-body"@ + " { background-color: "@ + light_body);
    let s2 = s1 + "; color: #2e3436; }\n.note-color-wallpaper .formatting-toolbar { background-color: "@ + light_header;
    let p2 = p1 + css_rule(".note-color-wallpaper .note-body"@, light_body, "#2e3436"@);
    assert(s2 =~= p2 + ".note-color-wallpaper .formatting-toolbar"@ + " { background-color: "@ + light_header);
    let s3 = s2 + "; color: #2e3436; }\n.note-color-wallpaper.note-grid-card { background-color: "@ + light_body;
    let p3 = p2 + css_rule(".note-color-wallpaper .formatting-toolbar"@, light_header, "#2e3436"@);
    assert(s3 =~= p3 + ".note-color-wallpaper.note-grid-card"@ + " { background-color: "@ + light_body);
    let s4 = s3 + "; color: #2e3436; }\n\n.dark.note-color-wallpaper .note-header, .dark .note-color-wallpaper .note-header { background-color: "@ + dark_header;
    let p4 = p3 + css_rule(".note-color-wallpaper.note-grid-card"@, light_body, "#2e3436"@) + "\n"@;
    assert(s4 =~= p4 + ".dark.note-color-wallpaper .note-header, .dark .note-color-wallpaper .note-header"@ + " { background-color: "@ + dark_header);
    let s5 = s4 + "; color: #f6f5f4; }\n.dark.note-color-wallpaper .note-body, .dark .note-color-wallpaper .note-body { background-color: "@ + dark_body;
    let p5 = p4 + css_rule(".dark.note-color-wallpaper .note-header, .dark .note-color-wallpaper .note-header"@, dark_header, "#f6f5f4"@);
    assert(s5 =~= p5 + ".dark.note-color-wallpaper .note-body, .dark .note-color-wallpaper .note-body"@ + " { background-color: "@ + dark_body);
    let s6 = s5 + "; color: #f6f5f4; }\n.dark.note-color-wallpaper .formatting-toolbar, .dark .note-color-wallpaper .formatting-toolbar { background-color: "@ + dark_header;
    let p6 = p5 + css_rule(".dark.note-color-wallpaper .note-body, .dark .note-color-wallpaper .note-body"@, dark_body, "#f6f5f4"@);
    assert(s6 =~= p6 + ".dark.note-color-wallpaper .formatting-toolbar, .dark .note-color-wallpaper .formatting-toolbar"@ + " { background-color: "@ + dark_header);
    let s7 = s6 + "; color: #f6f5f4; }\n.dark.note-color-wallpaper.note-grid-card, .dark .note-color-wallpaper.note-grid-card { background-color: "@ + dark_body;
    let p7 = p6 + css_rule(".dark.note-color-wallpaper .formatting-toolbar, .dark .note-color-wallpaper .formatting-toolbar"@, dark_header, "#f6f5f4"@);
    assert(s7 =~= p7 + ".dark.note-color-wallpaper.note-grid-card, .dark .note-color-wallpaper.note-grid-card"@ + " { background-color: "@ + dark_body);
    let s8 = s7 + "; color: #f6f5f4; }\n"@;
    assert(s8 =~= p7 + css_rule(".dark.note-color-wallpaper.note-grid-card, .dark .note-color-wallpaper.note-grid-card"@, dark_body, "#f6f5f4"@));
    assert(wallpaper_style(light_header, light_body, dark_header, dark_body) == s8);
}

/// Generates the CSS rules for the `.note-color-wallpaper` theme from its
/// four colors (in `#rrggbb` notation).
pub fn wallpaper_css(light_header: &str, light_body: &str, dark_header: &str, dark_body: &str) -> (r: String)
    ensures
        r@ == wallpaper_style(light_header@, light_body@, dark_header@, dark_body@),
{
    let mut r = String::new();
        push_str(&mut r, "/* Dynamic Wallpaper Adaptive Note Colors */\n.note-color-wallpaper .note-header { background-color: ");
        push_str(&mut r, light_header);
        push_str(&mut r, "; color: #2e3436; }\n.note-color-wallpaper .note-body { background-color: ");
        push_str(&mut r, light_body);
        push_str(&mut r, "; color: #2e3436; }\n.note-color-wallpaper .formatting-toolbar { background-color: ");
        push_str(&mut r, light_header);
        push_str(&mut r, "; color: #2e3436; }\n.note-color-wallpaper.note-grid-card { background-color: ");
        push_str(&mut r, light_body);
        push_str(&mut r, "; color: #2e3436; }\n\n.dark.note-color-wallpaper .note-header, .dark .note-color-wallpaper .note-header { background-color: ");
        push_str(&mut r, dark_header);
        push_str(&mut r, "; color: #f6f5f4; }\n.dark.note-color-wallpaper .note-body, .dark .note-color-wallpaper .note-body { background-color: ");
        push_str(&mut r, dark_body);
        push_str(&mut r, "; color: #f6f5f4; }\n.dark.note-color-wallpaper .formatting-toolbar, .dark .note-color-wallpaper .formatting-toolbar { background-color: ");
        push_str(&mut r, dark_header);
        push_str(&mut r, "; color: #f6f5f4; }\n.dark.note-color-wallpaper.note-grid-card, .dark .note-color-wallpaper.note-grid-card { background-color: ");
        push_str(&mut r, dark_body);
        push_str(&mut r, "; color: #f6f5f4; }\n");
    assert(r@ =~= wallpaper_style(light_header@, light_body@, dark_header@, dark_body@));
    r
}

} // verus!
