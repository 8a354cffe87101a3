//! Export functionality for notes: the text each export format writes.
//!
//! The JSON format is produced by serializing the note itself, which the
//! application does; the other formats are built here.

use vstd::prelude::*;
use vstd::string::StringSliceAdditionalSpecFns;
use crate::database::models::{Note, NoteView};
use crate::services::html_serializer::{lemma_no_tags_kept, replace_tags, strip_html, stripped};
use crate::text::{push_char, push_str};

verus! {

/// Export format options.
#[derive(Debug, Clone, Copy, PartialEq, Eq, Structural)]
pub enum ExportFormat {
    PlainText,
    Markdown,
    Html,
    Json,
}

/// The number of bytes of the UTF-8 encoding of `s`, as `str::len` reports it.
pub open spec fn utf8_len(s: Seq<char>) -> nat {
    (vstd::utf8::encode_utf8(s).len() as usize) as nat
}

/// `n` equals signs.
pub open spec fn equals_line(n: nat) -> Seq<char> {
    Seq::new(n, |i: int| '=')
}

/// The plain text export: the title, underlined with one `=` per byte of
/// the title, a blank line, and the content without its HTML tags.
pub open spec fn plain_text_export(n: NoteView) -> Seq<char> {
    n.title + "\n"@ + equals_line(utf8_len(n.title)) + "\n\n"@ + stripped(n.content)
}

/// The Markdown export: a level-one heading with the title, the content
/// without its HTML tags, and a footer with the two timestamps.
pub open spec fn markdown_export(n: NoteView) -> Seq<char> {
    "# "@ + n.title + "\n\n"@ + stripped(n.content) + "\n\n---\n*Created: "@ + n.created_at
        + "*\n*Modified: "@ + n.updated_at + "*\n"@
}

/// The HTML export: a standalone page with the title, the content as it is
/// stored, and a footer with the two timestamps.
pub open spec fn html_export(n: NoteView) -> Seq<char> {
    "<!DOCTYPE html>\n<html>\n<head><title>"@ + n.title + "</title>\n<meta charset=\"utf-8\">\n<style>body { font-family: sans-serif; max-width: 600px; margin: 2em auto; }</style>\n</head>\n<body>\n<h1>"@
        + n.title + "</h1>\n"@ + n.content + "\n<footer><small>Created: "@ + n.created_at
        + " | Modified: "@ + n.updated_at + "</small></footer>\n</body>\n</html>"@
}

/// The text an export in `format` writes; `None` for JSON, which is the
/// serialized note.
pub open spec fn export_text(n: NoteView, format: ExportFormat) -> Option<Seq<char>> {
    match format {
        ExportFormat::PlainText => Some(plain_text_export(n)),
        ExportFormat::Markdown => Some(markdown_export(n)),
        ExportFormat::Html => Some(html_export(n)),
        ExportFormat::Json => None,
    }
}

/// The plain text export is the title, a line feed, an underline of `=`
/// as long as the title is in bytes, a blank line, and then the whole
/// content with its HTML tags removed and nothing else changed: no white
/// space is collapsed and nothing is cut. Content without a `<` ends the
/// export exactly as it was written.
pub proof fn lemma_plain_text_export_shape(n: NoteView)
    ensures
        ({
            let t = plain_text_export(n);
            let body = replace_tags(n.content, Seq::empty());
            let u = utf8_len(n.title) as int;
            let head = n.title.len() + 1 + u + 2;
            &&& t.len() == head + body.len()
            &&& t.subrange(0, n.title.len() as int) == n.title
            &&& t[n.title.len() as int] == '\n'
            &&& (forall|k: int| n.title.len() + 1 <= k < n.title.len() + 1 + u ==> t[k] == '=')
            &&& t[head - 2] == '\n' && t[head - 1] == '\n'
            &&& t.subrange(head, t.len() as int) == body
        }),
        (forall|k: int| 0 <= k < n.content.len() ==> n.content[k] != '<') ==> ({
            let t = plain_text_export(n);
            t.subrange(t.len() - n.content.len(), t.len() as int) == n.content
        }),
{
    reveal_strlit("\n");
    reveal_strlit("\n\n");
    let t = plain_text_export(n);
    let body = replace_tags(n.content, Seq::empty());
    let u = utf8_len(n.title) as int;
    let l = n.title.len() as int;
    let head = l + 1 + u + 2;
    assert(stripped(n.content) == body);
    assert(t =~= n.title + "\n"@ + equals_line(u as nat) + "\n\n"@ + body);
    assert(t.subrange(0, l) =~= n.title);
    assert(t.subrange(head, t.len() as int) =~= body);
    assert forall|k: int| l + 1 <= k < l + 1 + u implies t[k] == '=' by {
        assert(t[k] == equals_line(u as nat)[k - l - 1]);
    }
    if forall|k: int| 0 <= k < n.content.len() ==> n.content[k] != '<' {
        lemma_no_tags_kept(n.content, 0, Seq::empty());
        assert(n.content.subrange(0, n.content.len() as int) =~= n.content);
        assert(t.subrange(t.len() - n.content.len(), t.len() as int) =~= n.content);
    }
}

/// The plain text form of a note.
pub fn note_to_plain_text(note: &Note) -> (r: String)
    ensures
        r@ == plain_text_export(note@),
{
    let mut r = note.title.clone();
    push_str(&mut r, "\n");
    let n = note.title.as_str().len();
    let ghost before = r@;
    let mut k: usize = 0;
    while k < n
        invariant
            k <= n,
            n == utf8_len(note.title@),
            r@ == before + equals_line(k as nat),
        decreases n - k,
    {
        push_char(&mut r, '=');
        k = k + 1;
        assert(equals_line(k as nat) =~= equals_line((k - 1) as nat).push('='));
    }
    push_str(&mut r, "\n\n");
    let body = strip_html(note.content.as_str());
    push_str(&mut r, body.as_str());
    r
}

/// The Markdown form of a note.
pub fn note_to_markdown(note: &Note) -> (r: String)
    ensures
        r@ == markdown_export(note@),
{
    let mut r = String::new();
    push_str(&mut r, "# ");
    push_str(&mut r, note.title.as_str());
    push_str(&mut r, "\n\n");
    let body = strip_html(note.content.as_str());
    push_str(&mut r, body.as_str());
    push_str(&mut r, "\n\n---\n*Created: ");
    push_str(&mut r, note.created_at.as_str());
    push_str(&mut r, "*\n*Modified: ");
    push_str(&mut r, note.updated_at.as_str());
    push_str(&mut r, "*\n");
    assert(r@ =~= markdown_export(note@));
    r
}

/// The HTML form of a note.
pub fn note_to_html(note: &Note) -> (r: String)
    ensures
        r@ == html_export(note@),
{
    let mut r = String::new();
    push_str(&mut r, "<!DOCTYPE html>\n<html>\n<head><title>");
    push_str(&mut r, note.title.as_str());
    push_str(
        &mut r,
        "</title>\n<meta charset=\"utf-8\">\n<style>body { font-family: sans-serif; max-width: 600px; margin: 2em auto; }</style>\n</head>\n<body>\n<h1>",
    );
    push_str(&mut r, note.title.as_str());
    push_str(&mut r, "</h1>\n");
    push_str(&mut r, note.content.as_str());
    push_str(&mut r, "\n<footer><small>Created: ");
    push_str(&mut r, note.created_at.as_str());
    push_str(&mut r, " | Modified: ");
    push_str(&mut r, note.updated_at.as_str());
    push_str(&mut r, "</small></footer>\n</body>\n</html>");
    assert(r@ =~= html_export(note@));
    r
}

/// The text that exporting `note` in `format` writes, or `None` for JSON.
pub fn export_content(note: &Note, format: ExportFormat) -> (r: Option<String>)
    ensures
        match r {
            Some(s) => export_text(note@, format) == Some(s@),
            None => export_text(note@, format) is None,
        },
{
    match format {
        ExportFormat::PlainText => Some(note_to_plain_text(note)),
        ExportFormat::Markdown => Some(note_to_markdown(note)),
        ExportFormat::Html => Some(note_to_html(note)),
        ExportFormat::Json => None,
    }
}

/// The export format a file name extension asks for: `html`/`htm` give
/// HTML, `txt` plain text, `json` JSON, and anything else Markdown.
pub open spec fn format_for_extension(ext: Option<Seq<char>>) -> ExportFormat {
    match ext {
        Some(e) => if e == "html"@ || e == "htm"@ {
            ExportFormat::Html
        } else if e == "txt"@ {
            ExportFormat::PlainText
        } else if e == "json"@ {
            ExportFormat::Json
        } else {
            ExportFormat::Markdown
        },
        None => ExportFormat::Markdown,
    }
}

/// Picks the export format from the extension of the chosen file name.
pub fn export_format_for_extension(ext: Option<&str>) -> (r: ExportFormat)
    ensures
        r == format_for_extension(
            match ext {
                Some(e) => Some(e@),
                None => None,
            },
        ),
{
    match ext {
        Some(e) => {
            if crate::text::str_eq(e, "html") || crate::text::str_eq(e, "htm") {
                ExportFormat::Html
            } else if crate::text::str_eq(e, "txt") {
                ExportFormat::PlainText
            } else if crate::text::str_eq(e, "json") {
                ExportFormat::Json
            } else {
                ExportFormat::Markdown
            }
        },
        None => ExportFormat::Markdown,
    }
}

} // verus!
