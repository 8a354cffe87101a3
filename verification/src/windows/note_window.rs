//! The rules of a note window: its size, what saving records, closing, and
//! the name proposed for an export.

use vstd::prelude::*;
use crate::config::{MIN_NOTE_HEIGHT, MIN_NOTE_WIDTH};
use crate::database::models::{Note, NoteView};
use crate::text::{chars_of, push_char, push_str};

verus! {

/// The size a note window opens at: the stored size, raised to the minimum.
pub open spec fn opening_size(width: i32, height: i32) -> (i32, i32) {
    (
        if width >= MIN_NOTE_WIDTH {
            width
        } else {
            MIN_NOTE_WIDTH
        },
        if height >= MIN_NOTE_HEIGHT {
            height
        } else {
            MIN_NOTE_HEIGHT
        },
    )
}

/// The size a note window opens at.
pub fn initial_window_size(width: i32, height: i32) -> (r: (i32, i32))
    ensures
        r == opening_size(width, height),
{
    let w = if width >= MIN_NOTE_WIDTH {
        width
    } else {
        MIN_NOTE_WIDTH
    };
    let h = if height >= MIN_NOTE_HEIGHT {
        height
    } else {
        MIN_NOTE_HEIGHT
    };
    (w, h)
}

/// What the editor holds when a note is saved.
pub struct EditorState {
    pub title: String,
    pub content: String,
    pub font_family: String,
    pub font_size: u32,
    pub window_width: i32,
    pub window_height: i32,
    pub now: String,
}

/// The note after saving the editor state: title, content and font taken
/// from the editor, the window size recorded only when it is at least the
/// minimum, the modification time set, and every other field unchanged.
pub open spec fn saved_note(n: NoteView, e: EditorState) -> NoteView {
    let keep_size = e.window_width >= MIN_NOTE_WIDTH && e.window_height >= MIN_NOTE_HEIGHT;
    NoteView {
        title: e.title@,
        content: e.content@,
        font_family: e.font_family@,
        font_size: e.font_size,
        width: if keep_size {
            e.window_width
        } else {
            n.width
        },
        height: if keep_size {
            e.window_height
        } else {
            n.height
        },
        updated_at: e.now@,
        ..n
    }
}

/// Saving the editor state records what the editor shows: the title,
/// the content, the font family and the font size become the editor's,
/// the modification time becomes the save time, and the note keeps its
/// identity, color, position, flags and creation time. The window size is
/// recorded exactly when it is at least the minimum in both directions.
pub proof fn lemma_save_records_editor(n: NoteView, e: EditorState)
    ensures
        ({
            let s = saved_note(n, e);
            &&& s.title == e.title@
            &&& s.content == e.content@
            &&& s.font_family == e.font_family@
            &&& s.font_size == e.font_size
            &&& s.updated_at == e.now@
            &&& s.id == n.id && s.color == n.color && s.created_at == n.created_at
            &&& s.x_bits == n.x_bits && s.y_bits == n.y_bits
            &&& s.pinned == n.pinned && s.always_on_top == n.always_on_top
            &&& s.is_visible == n.is_visible && s.is_archived == n.is_archived
            &&& (e.window_width >= MIN_NOTE_WIDTH && e.window_height >= MIN_NOTE_HEIGHT ==> s.width
                == e.window_width && s.height == e.window_height)
            &&& (!(e.window_width >= MIN_NOTE_WIDTH && e.window_height >= MIN_NOTE_HEIGHT)
                ==> s.width == n.width && s.height == n.height)
        }),
{
}

/// Records what the editor holds into the note before it is saved.
pub fn record_editor_state(note: &mut Note, state: EditorState)
    ensures
        final(note)@ == saved_note(old(note)@, state),
{
    let keep_size = state.window_width >= MIN_NOTE_WIDTH && state.window_height
        >= MIN_NOTE_HEIGHT;
    note.title = state.title;
    note.content = state.content;
    note.font_family = state.font_family;
    note.font_size = state.font_size;
    if keep_size {
        note.width = state.window_width;
        note.height = state.window_height;
    }
    note.updated_at = state.now;
}

/// Closing a note window hides the note and sets its modification time.
pub fn mark_closed(note: &mut Note, now: String)
    ensures
        final(note)@ == (NoteView { is_visible: false, updated_at: now@, ..old(note)@ }),
{
    note.is_visible = false;
    note.updated_at = now;
}

/// The file name proposed when exporting: the title with each `/` replaced
/// by `-`, then `.md`.
pub open spec fn export_name(title: Seq<char>) -> Seq<char> {
    title.map_values(|c: char| if c == '/' { '-' } else { c }) + ".md"@
}

/// The file name proposed when exporting a note with this title.
pub fn export_file_name(title: &str) -> (r: String)
    ensures
        r@ == export_name(title@),
{
    let v = chars_of(title);
    let mut r = String::new();
    let mut k: usize = 0;
    while k < v.len()
        invariant
            k <= v@.len(),
            v@ == title@,
            r@ == v@.subrange(0, k as int).map_values(|c: char| if c == '/' { '-' } else { c }),
        decreases v.len() - k,
    {
        let c = if v[k] == '/' {
            '-'
        } else {
            v[k]
        };
        push_char(&mut r, c);
        k = k + 1;
        assert(v@.subrange(0, k as int).map_values(|c: char| if c == '/' { '-' } else { c })
            =~= v@.subrange(0, (k - 1) as int).map_values(
            |c: char| if c == '/' { '-' } else { c },
        ).push(c));
    }
    assert(v@.subrange(0, v@.len() as int) =~= v@);
    push_str(&mut r, ".md");
    r
}

} // verus!
