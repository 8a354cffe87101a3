//! The rules of the notes overview: importing by file type and the delete prompt.

use vstd::prelude::*;
use crate::text::{copy_str, push_str, str_eq};

verus! {

/// How an imported file is read.
#[derive(Debug, Clone, Copy, PartialEq, Eq, Structural)]
pub enum ImportKind {
    /// A Markdown note whose `# ` heading becomes the title.
    Markdown,
    /// A JSON backup holding many notes.
    JsonBackup,
    /// A plain text note titled after the file.
    PlainText,
}

/// The import kind for a file name extension: `md`/`markdown` is Markdown,
/// `json` a backup, anything else plain text.
pub open spec fn import_kind_of(ext: Option<Seq<char>>) -> ImportKind {
    match ext {
        Some(e) => if e == "md"@ || e == "markdown"@ {
            ImportKind::Markdown
        } else if e == "json"@ {
            ImportKind::JsonBackup
        } else {
            ImportKind::PlainText
        },
        None => ImportKind::PlainText,
    }
}

/// Picks how to import a file from its extension.
pub fn import_kind_for_extension(ext: Option<&str>) -> (r: ImportKind)
    ensures
        r == import_kind_of(
            match ext {
                Some(e) => Some(e@),
                None => None,
            },
        ),
{
    match ext {
        Some(e) => {
            if str_eq(e, "md") || str_eq(e, "markdown") {
                ImportKind::Markdown
            } else if str_eq(e, "json") {
                ImportKind::JsonBackup
            } else {
                ImportKind::PlainText
            }
        },
        None => ImportKind::PlainText,
    }
}

/// The body of the dialog that confirms deleting a note.
pub open spec fn delete_prompt_text(title: Seq<char>) -> Seq<char> {
    "\""@ + title + "\" will be permanently deleted."@
}

/// The question asked before deleting the note with this title.
pub fn delete_prompt(title: &str) -> (r: String)
    ensures
        r@ == delete_prompt_text(title@),
{
    let mut r = copy_str("\"");
    push_str(&mut r, title);
    push_str(&mut r, "\" will be permanently deleted.");
    r
}

} // verus!
