//! The decisions the application makes when it is launched or activated.

use vstd::prelude::*;
use crate::database::models::{Note, NoteView};
use crate::text::str_eq;

verus! {

/// The command-line flag that starts the application without windows.
pub const BACKGROUND_FLAG: &'static str = "--background";

/// Whether the command line asks for a background start.
pub fn is_background_launch(args: &Vec<String>) -> (r: bool)
    ensures
        r == exists|i: int| 0 <= i < args@.len() && (#[trigger] args@[i])@ == BACKGROUND_FLAG@,
{
    let mut i: usize = 0;
    while i < args.len()
        invariant
            i <= args@.len(),
            forall|j: int| 0 <= j < i ==> (#[trigger] args@[j])@ != BACKGROUND_FLAG@,
        decreases args.len() - i,
    {
        if str_eq(args[i].as_str(), BACKGROUND_FLAG) {
            return true;
        }
        i = i + 1;
    }
    false
}

/// What activating the application does.
#[derive(Debug, Clone, Copy, PartialEq, Eq, Structural)]
pub enum ActivationPlan {
    /// Note windows are open: show the overview and bring a note to the front.
    ShowOpenNotes,
    /// Note windows are open and this is a background start: do nothing.
    KeepHidden,
    /// No note windows yet, background start: reopen the visible notes only.
    RestoreHidden,
    /// No note windows yet: reopen the visible notes, show the overview, and
    /// create a note when none was reopened.
    RestoreAndShow,
}

/// The activation plan for whether note windows are open and whether this is
/// a background start.
pub open spec fn plan_for(has_open_windows: bool, background: bool) -> ActivationPlan {
    if has_open_windows {
        if background {
            ActivationPlan::KeepHidden
        } else {
            ActivationPlan::ShowOpenNotes
        }
    } else if background {
        ActivationPlan::RestoreHidden
    } else {
        ActivationPlan::RestoreAndShow
    }
}

/// Decides what activating the application does.
pub fn activation_plan(has_open_windows: bool, background: bool) -> (r: ActivationPlan)
    ensures
        r == plan_for(has_open_windows, background),
{
    if has_open_windows {
        if background {
            ActivationPlan::KeepHidden
        } else {
            ActivationPlan::ShowOpenNotes
        }
    } else if background {
        ActivationPlan::RestoreHidden
    } else {
        ActivationPlan::RestoreAndShow
    }
}

/// Whether a note's window is reopened at start: pinned notes always are,
/// and so are notes whose window was open when the application last ran;
/// archived notes never are.
pub open spec fn reopens(n: NoteView) -> bool {
    !n.is_archived && (n.pinned || n.is_visible)
}

/// The positions, in order, of the notes whose windows are reopened at start.
pub fn notes_to_restore(notes: &Vec<Note>) -> (r: Vec<usize>)
    ensures
        forall|k: int|
            0 <= k < r@.len() ==> (#[trigger] r@[k]) < notes@.len() && reopens(notes@[r@[k] as int]@),
        forall|i: int| 0 <= i < notes@.len() && reopens(notes@[i]@) ==> r@.contains(i as usize),
        forall|k: int, m: int| 0 <= k < m < r@.len() ==> r@[k] < r@[m],
{
    let mut r: Vec<usize> = Vec::new();
    let mut i: usize = 0;
    while i < notes.len()
        invariant
            i <= notes@.len(),
            forall|k: int|
                0 <= k < r@.len() ==> (#[trigger] r@[k]) < i && reopens(notes@[r@[k] as int]@),
            forall|j: int| 0 <= j < i && reopens(notes@[j]@) ==> r@.contains(j as usize),
            forall|k: int, m: int| 0 <= k < m < r@.len() ==> r@[k] < r@[m],
        decreases notes.len() - i,
    {
        let n = &notes[i];
        if !n.is_archived && (n.pinned || n.is_visible) {
            let ghost before = r@;
            r.push(i);
            assert(r@[r@.len() - 1] == i);
            assert forall|j: int| 0 <= j <= i && reopens(notes@[j]@) implies r@.contains(
                j as usize,
            ) by {
                if j < i {
                    let k = choose|k: int| 0 <= k < before.len() && before[k] == j as usize;
                    assert(r@[k] == j as usize);
                }
            }
        }
        i = i + 1;
    }
    r
}

} // verus!
