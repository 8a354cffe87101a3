use jotlet::database::models::Note;
use jotlet::models::note_color::NoteColor;
use jotlet::services::export::{
    export_content, export_format_for_extension, note_to_markdown, note_to_plain_text,
    ExportFormat,
};
use jotlet::services::html_serializer::strip_html;
use jotlet::services::import::{markdown_title_and_body, note_from_markdown, note_from_plain_text};

// Writing and reading the files is the application's part; these scenarios
// follow an export through the text it writes and the import of that text.

#[test]
fn test_export_and_import_plain_text() {
    let mut note = Note::new();
    note.title = "Shopping List".to_string();
    note.content = "Apples\nBananas\nMilk".to_string();

    let text = export_content(&note, ExportFormat::PlainText).expect("Export failed");

    let imported = note_from_plain_text(&text, Some("test_note"));
    assert_eq!(imported.title, "test_note");
    assert!(imported.content.contains("Shopping List"));
    assert!(imported.content.contains("Apples"));
}

#[test]
fn test_export_and_import_markdown() {
    let mut note = Note::new();
    note.title = "DevOps Learning".to_string();
    note.content = "## Kubernetes\n- Pods\n- Services".to_string();

    let text = export_content(&note, ExportFormat::Markdown).expect("Export failed");

    let imported = note_from_markdown(&text, Some("devops_notes"));
    assert_eq!(imported.title, "DevOps Learning");
    assert!(imported.content.contains("Kubernetes"));
}

#[test]
fn test_export_html() {
    let mut note = Note::new();
    note.title = "HTML Note".to_string();
    note.content = "<b>Bold text</b> and <i>italic text</i>".to_string();

    let html_content = export_content(&note, ExportFormat::Html).expect("Export failed");
    assert!(html_content.contains("<!DOCTYPE html>"));
    assert!(html_content.contains("HTML Note"));
    assert!(html_content.contains("<b>Bold text</b>"));
}

#[test]
fn test_export_and_import_checklist() {
    let mut note = Note::new();
    note.title = "Tasks".to_string();
    note.content = "☐ Todo item\n☑ Done item".to_string();

    let text = export_content(&note, ExportFormat::Markdown).expect("Export failed");

    let imported = note_from_markdown(&text, Some("checklist"));
    assert_eq!(imported.title, "Tasks");
    assert!(imported.content.contains("Todo item"));
    assert!(imported.content.contains("Done item"));
}

#[test]
fn plain_text_export_exact() {
    let mut note = Note::new();
    note.title = "Café".to_string();
    note.content = "<p>Hi</p> there".to_string();
    // The underline has one '=' per byte of the title ("é" is two bytes).
    assert_eq!(note_to_plain_text(&note), "Café\n=====\n\nHi there");
}

#[test]
fn markdown_export_exact() {
    let mut note = Note::new();
    note.title = "T".to_string();
    note.content = "<i>body</i>".to_string();
    note.created_at = "C".to_string();
    note.updated_at = "M".to_string();
    assert_eq!(note_to_markdown(&note), "# T\n\nbody\n\n---\n*Created: C*\n*Modified: M*\n");
}

#[test]
fn html_export_exact() {
    let mut note = Note::new();
    note.title = "T".to_string();
    note.content = "<b>x</b>".to_string();
    note.created_at = "C".to_string();
    note.updated_at = "M".to_string();
    let expected = "<!DOCTYPE html>\n<html>\n<head><title>T</title>\n<meta charset=\"utf-8\">\n<style>body { font-family: sans-serif; max-width: 600px; margin: 2em auto; }</style>\n</head>\n<body>\n<h1>T</h1>\n<b>x</b>\n<footer><small>Created: C | Modified: M</small></footer>\n</body>\n</html>";
    assert_eq!(export_content(&note, ExportFormat::Html).as_deref(), Some(expected));
}

#[test]
fn json_export_is_left_to_serialization() {
    let note = Note::new();
    assert!(export_content(&note, ExportFormat::Json).is_none());
}

#[test]
fn export_formats_by_extension() {
    assert_eq!(export_format_for_extension(Some("html")), ExportFormat::Html);
    assert_eq!(export_format_for_extension(Some("htm")), ExportFormat::Html);
    assert_eq!(export_format_for_extension(Some("txt")), ExportFormat::PlainText);
    assert_eq!(export_format_for_extension(Some("json")), ExportFormat::Json);
    assert_eq!(export_format_for_extension(Some("md")), ExportFormat::Markdown);
    assert_eq!(export_format_for_extension(Some("HTML")), ExportFormat::Markdown);
    assert_eq!(export_format_for_extension(None), ExportFormat::Markdown);
}

#[test]
fn strip_html_removes_tags() {
    assert_eq!(strip_html("<b>Bold</b> text"), "Bold text");
    assert_eq!(strip_html("a <> b < c"), "a <> b < c");
    assert_eq!(strip_html("no tags"), "no tags");
}

#[test]
fn markdown_import_edge_cases() {
    let (t, b) = markdown_title_and_body("", Some("stem"));
    assert_eq!((t.as_str(), b.as_str()), ("Imported Note", ""));
    let (t, b) = markdown_title_and_body("plain first line\nmore", Some("stem"));
    assert_eq!((t.as_str(), b.as_str()), ("stem", "plain first line\nmore"));
    let (t, _) = markdown_title_and_body("plain", None);
    assert_eq!(t, "Imported Note");
    let (t, b) = markdown_title_and_body("# # Title\r\n\r\n  body line\r\nlast  \n\n", None);
    assert_eq!((t.as_str(), b.as_str()), ("Title", "body line\nlast"));
    let (t, b) = markdown_title_and_body("#NoSpace\nx", Some("s"));
    assert_eq!((t.as_str(), b.as_str()), ("s", "#NoSpace\nx"));
}

#[test]
fn markdown_title_survives_export_and_import() {
    for title in ["Groceries", "", "Q3 — plans", "a # b"] {
        let mut note = Note::new();
        note.title = title.to_string();
        note.content = "x".to_string();
        let imported = note_from_markdown(&note_to_markdown(&note), None);
        assert_eq!(imported.title, title);
        assert_eq!(imported.color, NoteColor::Default);
    }
}

#[test]
fn plain_text_import_without_stem() {
    let note = note_from_plain_text("body", None);
    assert_eq!(note.title, "Imported Note");
    assert_eq!(note.content, "body");
    assert!(note.is_visible);
}
