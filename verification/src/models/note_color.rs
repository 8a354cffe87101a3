//! The palette of note colors and their names.

use vstd::prelude::*;
use crate::text::{copy_str, push_str, str_eq};

verus! {

/// Represents the available note colors.
#[derive(Debug, Clone, Copy, PartialEq, Eq, Structural)]
pub enum NoteColor {
    Default,
    Yellow,
    Cream,
    Blue,
    Green,
    Purple,
    Pink,
    Orange,
    Gray,
    /// Pastel shades derived from the desktop wallpaper's color.
    Wallpaper,
}

impl Default for NoteColor {
    fn default() -> (r: Self)
        ensures
            r == NoteColor::Default,
    {
        NoteColor::Default
    }
}

/// The palette in display order.
pub open spec fn palette() -> Seq<NoteColor> {
    seq![
        NoteColor::Default,
        NoteColor::Yellow,
        NoteColor::Cream,
        NoteColor::Blue,
        NoteColor::Green,
        NoteColor::Purple,
        NoteColor::Pink,
        NoteColor::Orange,
        NoteColor::Gray,
        NoteColor::Wallpaper,
    ]
}

/// The lowercase name under which a color is stored.
pub open spec fn color_name(c: NoteColor) -> Seq<char> {
    match c {
        NoteColor::Default => "default"@,
        NoteColor::Yellow => "yellow"@,
        NoteColor::Cream => "cream"@,
        NoteColor::Blue => "blue"@,
        NoteColor::Green => "green"@,
        NoteColor::Purple => "purple"@,
        NoteColor::Pink => "pink"@,
        NoteColor::Orange => "orange"@,
        NoteColor::Gray => "gray"@,
        NoteColor::Wallpaper => "wallpaper"@,
    }
}

/// The CSS class that paints a note in a color.
pub open spec fn css_class_of(c: NoteColor) -> Seq<char> {
    match c {
        NoteColor::Default => "note-color-default"@,
        NoteColor::Yellow => "note-color-yellow"@,
        NoteColor::Cream => "note-color-cream"@,
        NoteColor::Blue => "note-color-blue"@,
        NoteColor::Green => "note-color-green"@,
        NoteColor::Purple => "note-color-purple"@,
        NoteColor::Pink => "note-color-pink"@,
        NoteColor::Orange => "note-color-orange"@,
        NoteColor::Gray => "note-color-gray"@,
        NoteColor::Wallpaper => "note-color-wallpaper"@,
    }
}

/// The name shown to the user for a color.
pub open spec fn display_name_of(c: NoteColor) -> Seq<char> {
    match c {
        NoteColor::Default => "Default"@,
        NoteColor::Yellow => "Yellow"@,
        NoteColor::Cream => "Cream"@,
        NoteColor::Blue => "Blue"@,
        NoteColor::Green => "Green"@,
        NoteColor::Purple => "Purple"@,
        NoteColor::Pink => "Pink"@,
        NoteColor::Orange => "Orange"@,
        NoteColor::Gray => "Gray"@,
        NoteColor::Wallpaper => "Wallpaper (Auto)"@,
    }
}

/// The swatch shown for a color in the color picker (light mode); the
/// wallpaper theme shows the base color it falls back to.
pub open spec fn swatch_of(c: NoteColor) -> Seq<char> {
    match c {
        NoteColor::Default => "#f6f5f4"@,
        NoteColor::Yellow => "#f5e642"@,
        NoteColor::Cream => "#e8dcc8"@,
        NoteColor::Blue => "#8bb8ea"@,
        NoteColor::Green => "#7ee096"@,
        NoteColor::Purple => "#b98fd0"@,
        NoteColor::Pink => "#e882a0"@,
        NoteColor::Orange => "#f0a840"@,
        NoteColor::Gray => "#b8b7b4"@,
        NoteColor::Wallpaper => "#26a269"@,
    }
}

/// The color a lowercase name stands for; unknown names stand for `Default`.
pub open spec fn color_named(l: Seq<char>) -> NoteColor {
    if l == "yellow"@ {
        NoteColor::Yellow
    } else if l == "cream"@ {
        NoteColor::Cream
    } else if l == "blue"@ {
        NoteColor::Blue
    } else if l == "green"@ {
        NoteColor::Green
    } else if l == "purple"@ {
        NoteColor::Purple
    } else if l == "pink"@ {
        NoteColor::Pink
    } else if l == "orange"@ {
        NoteColor::Orange
    } else if l == "gray"@ || l == "grey"@ {
        NoteColor::Gray
    } else if l == "wallpaper"@ {
        NoteColor::Wallpaper
    } else {
        NoteColor::Default
    }
}

/// `c` with `A`..`Z` mapped to `a`..`z`.
pub open spec fn ascii_lower_char(c: char) -> char {
    if 'A' <= c && c <= 'Z' {
        ((c as int) + 32) as char
    } else {
        c
    }
}

/// `s` with each ASCII capital letter made lowercase.
pub open spec fn ascii_lowercase(s: Seq<char>) -> Seq<char> {
    s.map_values(|c: char| ascii_lower_char(c))
}

/// What `str::to_lowercase` returns for a string.
pub uninterp spec fn unicode_lowercase(s: Seq<char>) -> Seq<char>;

/// The lowercase form of a string, as `str::to_lowercase` computes it.
pub open spec fn lowercase(s: Seq<char>) -> Seq<char> {
    if vstd::utf8::is_ascii_chars(s) {
        ascii_lowercase(s)
    } else {
        unicode_lowercase(s)
    }
}

/// The color a stored name stands for, compared without regard to case.
pub open spec fn decode_color(s: Seq<char>) -> NoteColor {
    color_named(lowercase(s))
}

/// std's `str::to_lowercase`. Its result is named `unicode_lowercase`; on a
/// string of ASCII characters the contract also says what the documented
/// Unicode mapping gives there: each of `A`..`Z` becomes `a`..`z` and every
/// other character stays. Nothing is said of other inputs.
#[verifier::external_body]
fn to_lowercase(s: &str) -> (r: String)
    ensures
        r@ == unicode_lowercase(s@),
        vstd::utf8::is_ascii_chars(s@) ==> r@ == ascii_lowercase(s@),
{
    s.to_lowercase()
}

impl NoteColor {
    /// Returns all available colors for the color picker.
    pub fn all() -> (r: Vec<NoteColor>)
        ensures
            r@ == palette(),
    {
        let r = vec![
            NoteColor::Default,
            NoteColor::Yellow,
            NoteColor::Cream,
            NoteColor::Blue,
            NoteColor::Green,
            NoteColor::Purple,
            NoteColor::Pink,
            NoteColor::Orange,
            NoteColor::Gray,
            NoteColor::Wallpaper,
        ];
        assert(r@ =~= palette());
        r
    }

    /// Returns the CSS class name for this color.
    pub fn css_class(&self) -> (r: &'static str)
        ensures
            r@ == css_class_of(*self),
    {
        match self {
            NoteColor::Default => "note-color-default",
            NoteColor::Yellow => "note-color-yellow",
            NoteColor::Cream => "note-color-cream",
            NoteColor::Blue => "note-color-blue",
            NoteColor::Green => "note-color-green",
            NoteColor::Purple => "note-color-purple",
            NoteColor::Pink => "note-color-pink",
            NoteColor::Orange => "note-color-orange",
            NoteColor::Gray => "note-color-gray",
            NoteColor::Wallpaper => "note-color-wallpaper",
        }
    }

    /// Returns the display name for this color.
    pub fn display_name(&self) -> (r: &'static str)
        ensures
            r@ == display_name_of(*self),
    {
        match self {
            NoteColor::Default => "Default",
            NoteColor::Yellow => "Yellow",
            NoteColor::Cream => "Cream",
            NoteColor::Blue => "Blue",
            NoteColor::Green => "Green",
            NoteColor::Purple => "Purple",
            NoteColor::Pink => "Pink",
            NoteColor::Orange => "Orange",
            NoteColor::Gray => "Gray",
            NoteColor::Wallpaper => "Wallpaper (Auto)",
        }
    }

    /// Returns the swatch color for the color picker (light mode).
    pub fn swatch_color(&self) -> (r: &'static str)
        ensures
            r@ == swatch_of(*self),
    {
        match self {
            NoteColor::Default => "#f6f5f4",
            NoteColor::Yellow => "#f5e642",
            NoteColor::Cream => "#e8dcc8",
            NoteColor::Blue => "#8bb8ea",
            NoteColor::Green => "#7ee096",
            NoteColor::Purple => "#b98fd0",
            NoteColor::Pink => "#e882a0",
            NoteColor::Orange => "#f0a840",
            NoteColor::Gray => "#b8b7b4",
            NoteColor::Wallpaper => "#26a269",
        }
    }

    /// The lowercase name under which this color is stored and exported.
    pub fn as_str(&self) -> (r: &'static str)
        ensures
            r@ == color_name(*self),
    {
        match self {
            NoteColor::Default => "default",
            NoteColor::Yellow => "yellow",
            NoteColor::Cream => "cream",
            NoteColor::Blue => "blue",
            NoteColor::Green => "green",
            NoteColor::Purple => "purple",
            NoteColor::Pink => "pink",
            NoteColor::Orange => "orange",
            NoteColor::Gray => "gray",
            NoteColor::Wallpaper => "wallpaper",
        }
    }

    /// The lowercase name of this color as a `String`.
    pub fn to_string(&self) -> (r: String)
        ensures
            r@ == color_name(*self),
    {
        copy_str(self.as_str())
    }

    /// The CSS class of this color's swatch button in the color picker.
    pub fn swatch_class(&self) -> (r: String)
        ensures
            r@ == "swatch-color-"@ + color_name(*self),
    {
        let mut r = copy_str("swatch-color-");
        push_str(&mut r, self.as_str());
        r
    }

    /// Convert from a string stored in the database.
    pub fn from_str_lossy(s: &str) -> (r: NoteColor)
        ensures
            r == decode_color(s@),
    {
        let lower = to_lowercase(s);
        Self::from_lowercase_name(lower.as_str())
    }

    /// The color a lowercase name stands for: `grey` is a second name for
    /// gray, and an unknown name stands for `Default`.
    pub fn from_lowercase_name(l: &str) -> (r: NoteColor)
        ensures
            r == color_named(l@),
    {
        if str_eq(l, "yellow") {
            NoteColor::Yellow
        } else if str_eq(l, "cream") {
            NoteColor::Cream
        } else if str_eq(l, "blue") {
            NoteColor::Blue
        } else if str_eq(l, "green") {
            NoteColor::Green
        } else if str_eq(l, "purple") {
            NoteColor::Purple
        } else if str_eq(l, "pink") {
            NoteColor::Pink
        } else if str_eq(l, "orange") {
            NoteColor::Orange
        } else if str_eq(l, "gray") || str_eq(l, "grey") {
            NoteColor::Gray
        } else if str_eq(l, "wallpaper") {
            NoteColor::Wallpaper
        } else {
            NoteColor::Default
        }
    }
}

/// Every color's stored name is ASCII and lowercase, and reading it back
/// gives the same color: a color survives being written out and read in.
pub proof fn lemma_color_name_round_trip(c: NoteColor)
    ensures
        vstd::utf8::is_ascii_chars(color_name(c)),
        ascii_lowercase(color_name(c)) == color_name(c),
        decode_color(color_name(c)) == c,
{
    reveal_strlit("default");
    reveal_strlit("yellow");
    reveal_strlit("cream");
    reveal_strlit("blue");
    reveal_strlit("green");
    reveal_strlit("purple");
    reveal_strlit("pink");
    reveal_strlit("orange");
    reveal_strlit("gray");
    reveal_strlit("grey");
    reveal_strlit("wallpaper");
    assert(ascii_lowercase(color_name(c)) =~= color_name(c));
    assert(vstd::utf8::is_ascii_chars(color_name(c)));
    assert(lowercase(color_name(c)) == color_name(c));
    let n = color_name(c);
    assert(n.len() == 7 ==> n[0] == 'd');
    assert("yellow"@[0] == 'y' && "cream"@[0] == 'c' && "blue"@[0] == 'b' && "green"@[0] == 'g');
    assert("purple"@[0] == 'p' && "pink"@[0] == 'p' && "orange"@[0] == 'o' && "gray"@[0] == 'g');
    assert("grey"@[0] == 'g' && "purple"@[1] == 'u' && "pink"@[1] == 'i' && "gray"@[2] == 'a');
    assert("green"@.len() == 5 && "grey"@[2] == 'e' && "wallpaper"@[0] == 'w');
    assert(color_named(n) == c);
}

/// A stored color name reads back as its color whatever the case of its
/// letters: any ASCII text whose lowercase form is the name (`"YELLOW"`,
/// `"Yellow"`, ...) stands for that color.
pub proof fn lemma_color_name_any_case(c: NoteColor, s: Seq<char>)
    requires
        vstd::utf8::is_ascii_chars(s),
        ascii_lowercase(s) == color_name(c),
    ensures
        decode_color(s) == c,
{
    lemma_color_name_round_trip(c);
}

/// The palette lists each color exactly once.
pub proof fn lemma_palette_complete(c: NoteColor)
    ensures
        palette().contains(c),
        palette().len() == 10,
        palette().no_duplicates(),
{
    let p = palette();
    match c {
        NoteColor::Default => assert(p[0] == c),
        NoteColor::Yellow => assert(p[1] == c),
        NoteColor::Cream => assert(p[2] == c),
        NoteColor::Blue => assert(p[3] == c),
        NoteColor::Green => assert(p[4] == c),
        NoteColor::Purple => assert(p[5] == c),
        NoteColor::Pink => assert(p[6] == c),
        NoteColor::Orange => assert(p[7] == c),
        NoteColor::Gray => assert(p[8] == c),
        NoteColor::Wallpaper => assert(p[9] == c),
    }
}

} // verus!
