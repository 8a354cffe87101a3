//! Import functionality for notes: the note that a file's text becomes.
//!
//! Reading the file (and parsing JSON backups) is the application's part.

use vstd::prelude::*;
use crate::database::models::{
    default_title_prefix, fresh_note, is_day_month_text, is_v4_uuid_text, Note, NoteView,
};
use crate::text::{
    chars_of, copy_str, has_prefix, join, join_spans, line_spans, lines, skip_prefixes,
    span_texts, spans_view, starts_with, string_from_range, trim, trim_start_matches, trim_str,
};

verus! {

/// The title given to an imported note when nothing better is known.
pub open spec fn fallback_title() -> Seq<char> {
    "Imported Note"@
}

/// The file stem, or the fallback title when there is none.
pub open spec fn stem_or_fallback(stem: Option<Seq<char>>) -> Seq<char> {
    match stem {
        Some(s) => s,
        None => fallback_title(),
    }
}

/// The title and body of an imported Markdown file. When the first line is
/// a `# ` heading, the title is that line without its leading `# ` markers
/// and the body is the remaining lines joined by line feeds and trimmed;
/// otherwise the title is the file stem and the body the whole text. An
/// empty file gives the fallback title and an empty body.
pub open spec fn markdown_parts(content: Seq<char>, stem: Option<Seq<char>>) -> (
    Seq<char>,
    Seq<char>,
) {
    let ls = lines(content);
    if ls.len() == 0 {
        (fallback_title(), content)
    } else if starts_with(ls[0], "# "@) {
        (
            trim_start_matches(ls[0], "# "@),
            trim(join(ls.subrange(1, ls.len() as int), "\n"@)),
        )
    } else {
        (stem_or_fallback(stem), content)
    }
}

/// A newly created note that holds the given title and content.
pub open spec fn imported_note(n: NoteView, title: Seq<char>, content: Seq<char>) -> bool {
    &&& is_v4_uuid_text(n.id)
    &&& n == NoteView { title, content, ..fresh_note(n.id, title, n.created_at) }
}

fn stem_or_fallback_text(stem: Option<&str>) -> (r: String)
    ensures
        r@ == stem_or_fallback(
            match stem {
                Some(s) => Some(s@),
                None => None,
            },
        ),
{
    match stem {
        Some(s) => copy_str(s),
        None => copy_str("Imported Note"),
    }
}

/// Splits the text of a Markdown file into a title and a body.
pub fn markdown_title_and_body(content: &str, stem: Option<&str>) -> (r: (String, String))
    ensures
        (r.0@, r.1@) == markdown_parts(
            content@,
            match stem {
                Some(s) => Some(s@),
                None => None,
            },
        ),
{
    let v = chars_of(content);
    let spans = line_spans(&v);
    assert(lines(v@) == span_texts(v@, spans_view(spans@)));
    if spans.len() == 0 {
        return (copy_str("Imported Note"), copy_str(content));
    }
    let (a, b) = spans[0];
    let first = string_from_range(&v, a, b);
    let fv = chars_of(first.as_str());
    if has_prefix(&fv, "# ") {
        let k = skip_prefixes(&fv, "# ");
        let title = string_from_range(&fv, k, fv.len());
        let rest = join_spans(&v, &spans, 1, "\n");
        let body = trim_str(rest.as_str());
        (title, body)
    } else {
        (stem_or_fallback_text(stem), copy_str(content))
    }
}

/// A new note from the text of a Markdown file and the file's stem.
pub fn note_from_markdown(content: &str, stem: Option<&str>) -> (r: Note)
    ensures
        imported_note(
            r@,
            markdown_parts(
                content@,
                match stem {
                    Some(s) => Some(s@),
                    None => None,
                },
            ).0,
            markdown_parts(
                content@,
                match stem {
                    Some(s) => Some(s@),
                    None => None,
                },
            ).1,
        ),
{
    let (title, body) = markdown_title_and_body(content, stem);
    let mut note = Note::new();
    note.title = title;
    note.content = body;
    note
}

/// A new note from the text of a plain text file, titled after the file's stem.
pub fn note_from_plain_text(content: &str, stem: Option<&str>) -> (r: Note)
    ensures
        imported_note(
            r@,
            stem_or_fallback(
                match stem {
                    Some(s) => Some(s@),
                    None => None,
                },
            ),
            content@,
        ),
{
    let title = stem_or_fallback_text(stem);
    let mut note = Note::new();
    note.title = title;
    note.content = copy_str(content);
    note
}

/// A Markdown file that opens with a `# ` heading line becomes a note titled
/// by the heading (without its `# ` markers) whose body is everything after
/// that line, trimmed: no later line is dropped or changed. This holds for
/// text with line-feed line ends (no carriage return).
pub proof fn lemma_markdown_heading_body(
    heading: Seq<char>,
    rest: Seq<char>,
    stem: Option<Seq<char>>,
)
    requires
        starts_with(heading, "# "@),
        forall|k: int| 0 <= k < heading.len() ==> heading[k] != '\n' && heading[k] != '\r',
        forall|k: int| 0 <= k < rest.len() ==> rest[k] != '\r',
    ensures
        markdown_parts(heading + "\n"@ + rest, stem) == (
            trim_start_matches(heading, "# "@),
            trim(rest),
        ),
{
    reveal_strlit("\n");
    reveal_strlit("# ");
    let c = heading + "\n"@ + rest;
    let h = heading.len() as int;
    assert(c[h] == '\n');
    assert forall|k: int| 0 <= k < c.len() implies c[k] != '\r' by {
        if k < h {
            assert(c[k] == heading[k]);
        } else if k > h {
            assert(c[k] == rest[k - h - 1]);
        }
    }
    crate::text::lemma_next_newline(c, 0);
    let j = crate::text::next_newline(c, 0);
    if j < h {
        assert(c[j] == heading[j]);
    }
    assert(j == h);
    let spans = crate::text::line_spans_from(c, h + 1);
    assert(crate::text::line_spans_from(c, 0) == seq![(0int, h)] + spans);
    let ls = lines(c);
    assert(ls =~= seq![c.subrange(0, h)] + span_texts(c, spans));
    assert(c.subrange(0, h) =~= heading);
    assert(ls.subrange(1, ls.len() as int) =~= span_texts(c, spans));
    crate::text::lemma_lines_rejoin(c, h + 1);
    assert(c.subrange(h + 1, c.len() as int) =~= rest);
    let joined = join(span_texts(c, spans), "\n"@);
    if h + 1 < c.len() && c.last() == '\n' {
        assert(rest =~= joined.push('\n'));
        crate::text::lemma_trim_newline(joined);
    } else {
        assert(joined + Seq::<char>::empty() =~= joined);
    }
}

/// Importing the Markdown export of a note gives back its title, as long as
/// the title is one line (no line feed, no carriage return at its end) and
/// does not itself start with `# `.
pub proof fn lemma_markdown_title_round_trip(n: NoteView, stem: Option<Seq<char>>)
    requires
        forall|k: int| 0 <= k < n.title.len() ==> n.title[k] != '\n',
        n.title.len() == 0 || n.title.last() != '\r',
        !starts_with(n.title, "# "@),
    ensures
        markdown_parts(crate::services::export::markdown_export(n), stem).0 == n.title,
{
    reveal_strlit("# ");
    reveal_strlit("\n\n");
    let s = crate::services::export::markdown_export(n);
    let t = n.title;
    let l = t.len() as int;
    let head = "# "@ + t;
    assert(s.subrange(0, l + 2) =~= head);
    assert(s[0] == '#' && s[1] == ' ');
    assert(s[l + 2] == '\n');
    assert forall|k: int| 0 <= k < l + 2 implies s[k] != '\n' by {
        if k >= 2 {
            assert(s[k] == t[k - 2]);
        }
    }
    crate::text::lemma_next_newline(s, 0);
    let j = crate::text::next_newline(s, 0);
    if j < l + 2 {
        assert(s[j] == '\n');
    }
    if j > l + 2 {
        assert(s[l + 2] != '\n');
    }
    assert(j == l + 2);
    if l > 0 {
        assert(s[j - 1] == t[l - 1]);
    }
    assert(crate::text::line_spans_from(s, 0)[0] == (0int, l + 2));
    assert(lines(s).len() > 0);
    assert(lines(s)[0] == head);
    assert(head.subrange(0, 2) =~= "# "@);
    assert(head.subrange(2, head.len() as int) =~= t);
    assert("# "@.len() == 2);
    assert(starts_with(head, "# "@));
    assert(trim_start_matches(head, "# "@) == trim_start_matches(t, "# "@));
    assert(trim_start_matches(t, "# "@) == t);
}

} // verus!
