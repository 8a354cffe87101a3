//! The color scheme choices of the Preferences dialog and the theme buttons.

use vstd::prelude::*;

verus! {

/// The application color schemes (libadwaita's `ColorScheme`).
#[derive(Debug, Clone, Copy, PartialEq, Eq, Structural)]
pub enum ColorScheme {
    Default,
    ForceLight,
    PreferLight,
    PreferDark,
    ForceDark,
}

/// The position shown in the "Color Scheme" menu (System, Light, Dark) for
/// the current scheme.
pub open spec fn scheme_position(s: ColorScheme) -> u32 {
    match s {
        ColorScheme::PreferDark | ColorScheme::ForceDark => 2,
        ColorScheme::PreferLight | ColorScheme::ForceLight => 1,
        _ => 0,
    }
}

/// The scheme that choosing a menu position applies.
pub open spec fn scheme_at(position: u32) -> ColorScheme {
    if position == 1 {
        ColorScheme::ForceLight
    } else if position == 2 {
        ColorScheme::ForceDark
    } else {
        ColorScheme::Default
    }
}

/// The menu position for the current color scheme.
pub fn scheme_index(s: ColorScheme) -> (r: u32)
    ensures
        r == scheme_position(s),
{
    match s {
        ColorScheme::PreferDark | ColorScheme::ForceDark => 2,
        ColorScheme::PreferLight | ColorScheme::ForceLight => 1,
        _ => 0,
    }
}

/// The color scheme for a menu position.
pub fn scheme_for_index(position: u32) -> (r: ColorScheme)
    ensures
        r == scheme_at(position),
{
    if position == 1 {
        ColorScheme::ForceLight
    } else if position == 2 {
        ColorScheme::ForceDark
    } else {
        ColorScheme::Default
    }
}

/// The labels of the color scheme menu.
pub fn scheme_labels() -> (r: Vec<&'static str>)
    ensures
        r@.len() == 3,
        r@[0]@ == "System"@,
        r@[1]@ == "Light"@,
        r@[2]@ == "Dark"@,
{
    vec!["System", "Light", "Dark"]
}

/// Choosing a menu position and reopening the dialog shows that position again.
pub proof fn lemma_scheme_menu_round_trip(position: u32)
    requires
        position < 3,
    ensures
        scheme_position(scheme_at(position)) == position,
{
}

/// The scheme the theme button switches to: light when the style is dark,
/// dark otherwise.
pub fn toggled_scheme(is_dark: bool) -> (r: ColorScheme)
    ensures
        r == if is_dark {
            ColorScheme::ForceLight
        } else {
            ColorScheme::ForceDark
        },
{
    if is_dark {
        ColorScheme::ForceLight
    } else {
        ColorScheme::ForceDark
    }
}

/// The icon of the theme button: a sun in dark mode, a moon otherwise.
pub fn theme_button_icon(is_dark: bool) -> (r: &'static str)
    ensures
        r@ == if is_dark {
            "weather-clear-symbolic"@
        } else {
            "weather-clear-night-symbolic"@
        },
{
    if is_dark {
        "weather-clear-symbolic"
    } else {
        "weather-clear-night-symbolic"
    }
}

/// The tooltip of the theme button.
pub fn theme_button_tooltip(is_dark: bool) -> (r: &'static str)
    ensures
        r@ == if is_dark {
            "Switch to Light Mode"@
        } else {
            "Switch to Dark Mode"@
        },
{
    if is_dark {
        "Switch to Light Mode"
    } else {
        "Switch to Dark Mode"
    }
}

} // verus!
