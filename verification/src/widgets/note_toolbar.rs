//! The choices offered by the formatting toolbar: font sizes and families.

use vstd::prelude::*;
use crate::text::{copy_str, str_eq};

verus! {

/// The index of the font size selected before a note chooses one (26px).
pub const DEFAULT_FONT_SIZE_INDEX: u32 = 6;

/// The font sizes offered, in pixels, in menu order.
pub open spec fn font_size_choices() -> Seq<u32> {
    seq![14, 16, 18, 20, 22, 24, 26, 28, 32, 36, 48]
}

/// The font families offered before the system font picker is used.
pub open spec fn base_font_families() -> Seq<Seq<char>> {
    seq![
        "Default"@,
        "Adwaita Sans"@,
        "Adwaita Mono"@,
        "JetBrainsMono Nerd Font"@,
        "DejaVu Sans"@,
        "DejaVu Serif"@,
        "Liberation Sans"@,
        "Liberation Serif"@,
        "Noto Sans"@,
        "Noto Serif"@,
    ]
}

/// The font sizes offered, in menu order.
pub fn font_sizes() -> (r: Vec<u32>)
    ensures
        r@ == font_size_choices(),
{
    let r = vec![14, 16, 18, 20, 22, 24, 26, 28, 32, 36, 48];
    assert(r@ =~= font_size_choices());
    r
}

/// The font families offered before the system font picker is used.
pub fn font_families() -> (r: Vec<&'static str>)
    ensures
        r@.len() == base_font_families().len(),
        forall|i: int| 0 <= i < r@.len() ==> (#[trigger] r@[i])@ == base_font_families()[i],
{
    vec![
        "Default",
        "Adwaita Sans",
        "Adwaita Mono",
        "JetBrainsMono Nerd Font",
        "DejaVu Sans",
        "DejaVu Serif",
        "Liberation Sans",
        "Liberation Serif",
        "Noto Sans",
        "Noto Serif",
    ]
}

/// The font size at a position of the size menu, if there is one.
pub fn font_size_at(index: u32) -> (r: Option<u32>)
    ensures
        match r {
            Some(s) => index < font_size_choices().len() && s == font_size_choices()[index as int],
            None => index >= font_size_choices().len(),
        },
{
    let sizes = font_sizes();
    if (index as usize) < sizes.len() {
        Some(sizes[index as usize])
    } else {
        None
    }
}

/// The position of a font size in the size menu, if it is offered.
pub fn font_size_index(size: u32) -> (r: Option<u32>)
    ensures
        match r {
            Some(i) => i < font_size_choices().len() && font_size_choices()[i as int] == size
                && forall|j: int| 0 <= j < i ==> font_size_choices()[j] != size,
            None => forall|j: int|
                0 <= j < font_size_choices().len() ==> font_size_choices()[j] != size,
        },
{
    let sizes = font_sizes();
    let mut i: usize = 0;
    while i < sizes.len()
        invariant
            sizes@ == font_size_choices(),
            i <= sizes@.len(),
            forall|j: int| 0 <= j < i ==> sizes@[j] != size,
        decreases sizes.len() - i,
    {
        if sizes[i] == size {
            return Some(i as u32);
        }
        i = i + 1;
    }
    None
}

/// The size menu opens on the default font size of a note.
pub proof fn lemma_default_font_size_selected()
    ensures
        font_size_choices()[DEFAULT_FONT_SIZE_INDEX as int] == crate::config::DEFAULT_FONT_SIZE,
{
}

/// The family name the menu shows for a note's font family: `Default` for
/// an empty name.
pub open spec fn family_target(family: Seq<char>) -> Seq<char> {
    if family.len() == 0 {
        "Default"@
    } else {
        family
    }
}

/// The family name to select in the menu for a note's font family.
pub fn font_family_target(family: &str) -> (r: String)
    ensures
        r@ == family_target(family@),
{
    if family.is_empty() {
        copy_str("Default")
    } else {
        copy_str(family)
    }
}

/// The first position in `list` holding `target`, if any.
pub fn find_font_family(list: &Vec<String>, target: &str) -> (r: Option<usize>)
    ensures
        match r {
            Some(i) => i < list@.len() && list@[i as int]@ == target@ && forall|j: int|
                0 <= j < i ==> (#[trigger] list@[j])@ != target@,
            None => forall|j: int| 0 <= j < list@.len() ==> (#[trigger] list@[j])@ != target@,
        },
{
    let mut i: usize = 0;
    while i < list.len()
        invariant
            i <= list@.len(),
            forall|j: int| 0 <= j < i ==> (#[trigger] list@[j])@ != target@,
        decreases list.len() - i,
    {
        if str_eq(list[i].as_str(), target) {
            return Some(i);
        }
        i = i + 1;
    }
    None
}

/// Where `target` stands in the family list: the position of its first
/// occurrence, the list left as it is; or, when it is missing, the end of
/// the list, after appending it as the one new entry.
pub fn font_family_position(list: &mut Vec<String>, target: &str) -> (r: usize)
    ensures
        r <= old(list)@.len(),
        forall|j: int| 0 <= j < r ==> (#[trigger] old(list)@[j])@ != target@,
        r < old(list)@.len() ==> final(list)@ == old(list)@ && old(list)@[r as int]@ == target@,
        r == old(list)@.len() ==> {
            &&& final(list)@.len() == r + 1
            &&& final(list)@.subrange(0, r as int) == old(list)@
            &&& final(list)@[r as int]@ == target@
        },
{
    match find_font_family(list, target) {
        Some(i) => i,
        None => {
            let n = list.len();
            list.push(copy_str(target));
            assert(list@.subrange(0, n as int) =~= old(list)@);
            n
        },
    }
}

/// Whether the system font picker should be set to show `family`: every
/// family but the `Default` placeholder.
pub fn shows_in_font_picker(family: &str) -> (r: bool)
    ensures
        r == (family@ != "Default"@),
{
    !str_eq(family, "Default")
}

} // verus!
