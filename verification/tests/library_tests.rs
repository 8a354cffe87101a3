use jotlet::application::{activation_plan, is_background_launch, notes_to_restore, ActivationPlan};
use jotlet::database::models::Note;
use jotlet::models::note_color::NoteColor;
use jotlet::services::html_serializer::strip_html;
use jotlet::services::autostart::{autostart_entry, autostart_file_name};
use jotlet::services::wallpaper::{wallpaper_base_color, wallpaper_css, Rgb};
use jotlet::text::{chars_of, trim_str};
use jotlet::widgets::color_picker::swatch_cell;
use jotlet::widgets::note_editor::{
    bullet_item_edit, checkbox_line_state, checkbox_toggle_in_text, link_char_spans, url_at, checklist_item_edit, click_hits_checkbox,
    enter_key_action, enter_key_overflows, font_size_css, key_decision, link_spans, numbered_item_edit, numbered_item_overflows, toggled_box,
    url_to_open, EditorKey, EnterAction, FormatAction, KeyDecision, LineEdit,
};
use jotlet::widgets::note_toolbar::{
    font_family_position,
    find_font_family, font_families, font_family_target, font_size_at, font_size_index,
    font_sizes, shows_in_font_picker, DEFAULT_FONT_SIZE_INDEX,
};
use jotlet::windows::note_window::{
    export_file_name, initial_window_size, mark_closed, record_editor_state, EditorState,
};
use jotlet::windows::notes_overview::{delete_prompt, import_kind_for_extension, ImportKind};
use jotlet::windows::preferences::{
    scheme_for_index, scheme_index, scheme_labels, theme_button_icon, theme_button_tooltip,
    toggled_scheme, ColorScheme,
};

fn continued(a: EnterAction) -> Option<String> {
    match a {
        EnterAction::Continue(s) => Some(s),
        _ => None,
    }
}

fn inserted(e: LineEdit) -> Option<String> {
    match e {
        LineEdit::InsertPrefix(s) => Some(s),
        LineEdit::RemovePrefix(_) => None,
    }
}

fn removed(e: LineEdit) -> Option<usize> {
    match e {
        LineEdit::RemovePrefix(n) => Some(n),
        LineEdit::InsertPrefix(_) => None,
    }
}

#[test]
fn color_names_and_classes() {
    let all = NoteColor::all();
    assert_eq!(all.len(), 10);
    assert_eq!(all[0], NoteColor::Default);
    assert_eq!(all[8], NoteColor::Gray);
    assert_eq!(all[9], NoteColor::Wallpaper);
    assert_eq!(NoteColor::Wallpaper.css_class(), "note-color-wallpaper");
    assert_eq!(NoteColor::Wallpaper.display_name(), "Wallpaper (Auto)");
    assert_eq!(NoteColor::Wallpaper.to_string(), "wallpaper");
    assert_eq!(NoteColor::Wallpaper.swatch_class(), "swatch-color-wallpaper");
    assert_eq!(NoteColor::from_str_lossy("Wallpaper"), NoteColor::Wallpaper);
    assert_eq!(NoteColor::Blue.css_class(), "note-color-blue");
    assert_eq!(NoteColor::Pink.display_name(), "Pink");
    assert_eq!(NoteColor::Yellow.swatch_color(), "#f5e642");
    assert_eq!(NoteColor::Gray.to_string(), "gray");
    assert_eq!(NoteColor::Cream.swatch_class(), "swatch-color-cream");
    assert_eq!(NoteColor::default(), NoteColor::Default);
    for c in all {
        assert_eq!(NoteColor::from_str_lossy(&c.to_string()), c);
    }
}

#[test]
fn color_from_stored_text() {
    assert_eq!(NoteColor::from_str_lossy("YELLOW"), NoteColor::Yellow);
    assert_eq!(NoteColor::from_str_lossy("Grey"), NoteColor::Gray);
    assert_eq!(NoteColor::from_str_lossy("gray"), NoteColor::Gray);
    assert_eq!(NoteColor::from_str_lossy("unknown"), NoteColor::Default);
    assert_eq!(NoteColor::from_str_lossy(""), NoteColor::Default);
    assert_eq!(NoteColor::from_str_lossy(" blue"), NoteColor::Default);
    // The Kelvin sign lowercases to an ASCII 'k'.
    assert_eq!(NoteColor::from_str_lossy("PIN\u{212A}"), NoteColor::Pink);
}

#[test]
fn enter_continues_and_ends_lists() {
    assert_eq!(continued(enter_key_action("☐ buy milk", false)).as_deref(), Some("\n☐ "));
    assert_eq!(continued(enter_key_action("☑ done", false)).as_deref(), Some("\n☐ "));
    assert!(matches!(enter_key_action("☐   ", false), EnterAction::ClearLine));
    assert_eq!(continued(enter_key_action("• item", false)).as_deref(), Some("\n• "));
    assert!(matches!(enter_key_action("• ", false), EnterAction::ClearLine));
    assert_eq!(continued(enter_key_action("3. third", false)).as_deref(), Some("\n4. "));
    assert_eq!(continued(enter_key_action("09. x", false)).as_deref(), Some("\n10. "));
    assert!(matches!(enter_key_action("12.  ", false), EnterAction::ClearLine));
    assert!(matches!(enter_key_action("Hello. World", false), EnterAction::Default));
    assert!(matches!(enter_key_action(". x", false), EnterAction::Default));
    assert!(matches!(enter_key_action("plain", false), EnterAction::Default));
    assert!(matches!(enter_key_action("☐ task", true), EnterAction::Default));
    assert!(matches!(
        enter_key_action("99999999999999999999. x", false),
        EnterAction::Default
    ));
}

#[test]
fn list_prefix_toggles() {
    assert_eq!(inserted(bullet_item_edit("item")).as_deref(), Some("• "));
    assert_eq!(removed(bullet_item_edit("• item")), Some(2));
    assert_eq!(inserted(checklist_item_edit("task")).as_deref(), Some("☐ "));
    assert_eq!(removed(checklist_item_edit("☑ task")), Some(2));
    assert_eq!(removed(numbered_item_edit("12. x", None)), Some(4));
    assert_eq!(removed(numbered_item_edit(". x", None)), Some(2));
    assert_eq!(inserted(numbered_item_edit("x", None)).as_deref(), Some("1. "));
    assert_eq!(inserted(numbered_item_edit("x", Some("4. y"))).as_deref(), Some("5. "));
    assert_eq!(inserted(numbered_item_edit("x", Some(" 7 . y"))).as_deref(), Some("8. "));
    assert_eq!(inserted(numbered_item_edit("x", Some("-3. y"))).as_deref(), Some("-2. "));
    assert_eq!(inserted(numbered_item_edit("x", Some("abc"))).as_deref(), Some("1. "));
    assert_eq!(inserted(numbered_item_edit("Hi. x", Some("+9"))).as_deref(), Some("10. "));
}

#[test]
fn checkboxes() {
    assert_eq!(checkbox_line_state("☐ a"), Some(false));
    assert_eq!(checkbox_line_state("☑ a"), Some(true));
    assert_eq!(checkbox_line_state("☐a"), None);
    assert_eq!(toggled_box("☐ a"), Some('☑'));
    assert_eq!(toggled_box("☑ a"), Some('☐'));
    assert_eq!(toggled_box("a"), None);
    assert!(click_hits_checkbox("☐ a", true, None));
    assert!(click_hits_checkbox("☐ a", false, Some(1)));
    assert!(!click_hits_checkbox("☐ a", false, Some(2)));
    assert!(!click_hits_checkbox("☐ a", false, None));
    assert!(!click_hits_checkbox("a", true, Some(0)));
}

#[test]
fn links() {
    assert_eq!(url_to_open("  https://gnome.org \n").as_deref(), Some("https://gnome.org"));
    assert_eq!(url_to_open("http://x").as_deref(), Some("http://x"));
    assert_eq!(url_to_open("ftp://x"), None);
    assert_eq!(link_spans("see https://x.org now"), vec![(4, 17)]);
    assert_eq!(link_spans("a http://b<c https://d"), vec![(2, 10), (13, 22)]);
    assert!(link_spans("nothing here").is_empty());
}

#[test]
fn editor_keys() {
    assert_eq!(key_decision(true, false, false, EditorKey::B), KeyDecision::Format(FormatAction::Bold));
    assert_eq!(key_decision(true, false, true, EditorKey::U), KeyDecision::Format(FormatAction::Underline));
    assert_eq!(key_decision(true, true, false, EditorKey::Seven), KeyDecision::Format(FormatAction::NumberedList));
    assert_eq!(key_decision(true, true, false, EditorKey::Nine), KeyDecision::Format(FormatAction::Checklist));
    assert_eq!(key_decision(true, true, false, EditorKey::B), KeyDecision::Pass);
    assert_eq!(key_decision(false, false, false, EditorKey::Enter), KeyDecision::Enter);
    assert_eq!(key_decision(false, false, true, EditorKey::Enter), KeyDecision::Pass);
    assert_eq!(key_decision(false, true, false, EditorKey::Enter), KeyDecision::Pass);
    assert_eq!(FormatAction::Heading.tag_name(), Some("heading"));
    assert_eq!(FormatAction::Strikethrough.tag_name(), Some("strikethrough"));
    assert_eq!(FormatAction::BulletList.tag_name(), None);
}

#[test]
fn font_controls() {
    assert_eq!(font_size_css(26), "textview.note-body { font-size: 26px; }");
    assert_eq!(font_size_css(0), "textview.note-body { font-size: 0px; }");
    assert_eq!(font_sizes().len(), 11);
    assert_eq!(font_size_at(DEFAULT_FONT_SIZE_INDEX), Some(26));
    assert_eq!(font_size_at(10), Some(48));
    assert_eq!(font_size_at(11), None);
    assert_eq!(font_size_index(32), Some(8));
    assert_eq!(font_size_index(15), None);
    assert_eq!(font_families()[3], "JetBrainsMono Nerd Font");
    assert_eq!(font_family_target(""), "Default");
    assert_eq!(font_family_target("Noto Sans"), "Noto Sans");
    let list: Vec<String> = font_families().iter().map(|s| s.to_string()).collect();
    assert_eq!(find_font_family(&list, "DejaVu Serif"), Some(5));
    assert_eq!(find_font_family(&list, "Comic Sans"), None);
    assert!(!shows_in_font_picker("Default"));
    assert!(shows_in_font_picker("Noto Sans"));
}

#[test]
fn note_window_rules() {
    assert_eq!(initial_window_size(100, 500), (220, 500));
    assert_eq!(initial_window_size(320, 10), (320, 180));
    assert_eq!(export_file_name("a/b/c"), "a-b-c.md");
    let mut note = Note::new();
    record_editor_state(
        &mut note,
        EditorState {
            title: "T".to_string(),
            content: "C".to_string(),
            font_family: "Noto Sans".to_string(),
            font_size: 18,
            window_width: 100,
            window_height: 400,
            now: "later".to_string(),
        },
    );
    assert_eq!((note.title.as_str(), note.content.as_str()), ("T", "C"));
    assert_eq!((note.width, note.height), (320, 300));
    assert_eq!(note.updated_at, "later");
    record_editor_state(
        &mut note,
        EditorState {
            title: "T".to_string(),
            content: "C".to_string(),
            font_family: String::new(),
            font_size: 26,
            window_width: 500,
            window_height: 180,
            now: "later".to_string(),
        },
    );
    assert_eq!((note.width, note.height), (500, 180));
    mark_closed(&mut note, "closed".to_string());
    assert!(!note.is_visible);
    assert_eq!(note.updated_at, "closed");
}

#[test]
fn overview_rules() {
    assert_eq!(import_kind_for_extension(Some("md")), ImportKind::Markdown);
    assert_eq!(import_kind_for_extension(Some("markdown")), ImportKind::Markdown);
    assert_eq!(import_kind_for_extension(Some("json")), ImportKind::JsonBackup);
    assert_eq!(import_kind_for_extension(Some("txt")), ImportKind::PlainText);
    assert_eq!(import_kind_for_extension(None), ImportKind::PlainText);
    assert_eq!(delete_prompt("Groceries"), "\"Groceries\" will be permanently deleted.");
}

#[test]
fn preferences_rules() {
    assert_eq!(scheme_index(ColorScheme::PreferDark), 2);
    assert_eq!(scheme_index(ColorScheme::ForceLight), 1);
    assert_eq!(scheme_index(ColorScheme::Default), 0);
    assert_eq!(scheme_for_index(1), ColorScheme::ForceLight);
    assert_eq!(scheme_for_index(2), ColorScheme::ForceDark);
    assert_eq!(scheme_for_index(5), ColorScheme::Default);
    for i in 0..3 {
        assert_eq!(scheme_index(scheme_for_index(i)), i);
    }
    assert_eq!(scheme_labels(), vec!["System", "Light", "Dark"]);
    assert_eq!(toggled_scheme(true), ColorScheme::ForceLight);
    assert_eq!(toggled_scheme(false), ColorScheme::ForceDark);
    assert_eq!(theme_button_icon(true), "weather-clear-symbolic");
    assert_eq!(theme_button_tooltip(false), "Switch to Dark Mode");
}

#[test]
fn application_rules() {
    assert_eq!(activation_plan(true, false), ActivationPlan::ShowOpenNotes);
    assert_eq!(activation_plan(true, true), ActivationPlan::KeepHidden);
    assert_eq!(activation_plan(false, true), ActivationPlan::RestoreHidden);
    assert_eq!(activation_plan(false, false), ActivationPlan::RestoreAndShow);
    let args: Vec<String> = vec!["jotlet".to_string(), "--background".to_string()];
    assert!(is_background_launch(&args));
    assert!(!is_background_launch(&vec!["jotlet".to_string()]));
    let mut a = Note::new();
    let b = Note::new();
    let mut c = Note::new();
    a.is_visible = true;
    c.is_visible = false;
    let mut d = Note::new();
    d.is_visible = false;
    d.pinned = true;
    let mut e = Note::new();
    e.pinned = true;
    e.is_archived = true;
    let notes = vec![a, b, c, d, e];
    assert_eq!(notes_to_restore(&notes), vec![0, 1, 3]);
}

#[test]
fn autostart_entry_text() {
    assert_eq!(autostart_file_name(), "com.example.Jotlet.desktop");
    assert_eq!(
        autostart_entry(),
        "[Desktop Entry]\nType=Application\nName=Jotlet\nExec=jotlet --background\nIcon=com.example.Jotlet\nComment=A lightweight, native GNOME Sticky Notes application\nTerminal=false\nX-GNOME-Autostart-enabled=true\nHidden=false\n"
    );
}

#[test]
fn hex_colors() {
    assert_eq!(Rgb(38, 162, 105).to_hex(), "#26a269");
    assert_eq!(Rgb(0, 15, 255).to_hex(), "#000fff");
    assert_eq!(Rgb::from_hex("#26a269"), Some(Rgb(38, 162, 105)));
    assert_eq!(Rgb::from_hex("  26A269 \n"), Some(Rgb(38, 162, 105)));
    assert_eq!(Rgb::from_hex("##ffffff"), Some(Rgb(255, 255, 255)));
    assert_eq!(Rgb::from_hex("+f+f+f"), Some(Rgb(15, 15, 15)));
    assert_eq!(Rgb::from_hex("#12345"), None);
    assert_eq!(Rgb::from_hex("zz0000"), None);
    assert_eq!(Rgb::from_hex("-10000"), None);
    assert_eq!(Rgb::from_hex("éé00"), None);
    assert!(Rgb::hex_cuts_character("aé123"));
    assert!(!Rgb::hex_cuts_character("éé00"));
    assert!(!Rgb::hex_cuts_character("#26a269"));
    for c in [Rgb(0, 0, 0), Rgb(1, 2, 3), Rgb(250, 128, 9)] {
        assert_eq!(Rgb::from_hex(&c.to_hex()), Some(c));
    }
    assert_eq!(wallpaper_base_color(None), Rgb(38, 162, 105));
    assert_eq!(wallpaper_base_color(Some("bogus")), Rgb(38, 162, 105));
    assert_eq!(wallpaper_base_color(Some("#102030")), Rgb(16, 32, 48));
}

#[test]
fn wallpaper_style_sheet() {
    let css = wallpaper_css("#aaaaaa", "#bbbbbb", "#cccccc", "#dddddd");
    assert!(css.starts_with("/* Dynamic Wallpaper Adaptive Note Colors */\n"));
    assert!(css.contains(".note-color-wallpaper .note-header { background-color: #aaaaaa; color: #2e3436; }\n"));
    assert!(css.contains(".note-color-wallpaper.note-grid-card { background-color: #bbbbbb; color: #2e3436; }\n\n"));
    assert!(css.ends_with(".dark.note-color-wallpaper.note-grid-card, .dark .note-color-wallpaper.note-grid-card { background-color: #dddddd; color: #f6f5f4; }\n"));
    assert_eq!(css.lines().count(), 10);
}

#[test]
fn color_picker_layout() {
    assert_eq!(swatch_cell(0), (0, 0));
    assert_eq!(swatch_cell(4), (0, 4));
    assert_eq!(swatch_cell(5), (1, 0));
    assert_eq!(swatch_cell(8), (1, 3));
}

#[test]
fn text_helpers() {
    assert_eq!(trim_str("\u{3000} a b \u{85}"), "a b");
    assert_eq!(trim_str("   "), "");
    assert_eq!(chars_of("añ"), vec!['a', 'ñ']);
}

#[test]
fn list_number_overflow_checks() {
    assert!(enter_key_overflows("18446744073709551615. x", false));
    assert!(!enter_key_overflows("18446744073709551614. x", false));
    assert!(!enter_key_overflows("18446744073709551615. x", true));
    assert!(!enter_key_overflows("18446744073709551615.  ", false));
    assert!(!enter_key_overflows("99999999999999999999. x", false));
    assert!(!enter_key_overflows("• 18446744073709551615. x", false));
    assert_eq!(
        continued(enter_key_action("18446744073709551614. x", false)),
        Some("\n18446744073709551615. ".to_string())
    );
    assert!(matches!(
        enter_key_action("99999999999999999999. x", false),
        EnterAction::Default
    ));

    assert!(numbered_item_overflows(Some("2147483647. top")));
    assert!(numbered_item_overflows(Some("  2147483647 . top")));
    assert!(!numbered_item_overflows(Some("2147483646. top")));
    assert!(!numbered_item_overflows(Some("2147483648. top")));
    assert!(!numbered_item_overflows(None));
    assert_eq!(
        inserted(numbered_item_edit("next", Some("2147483646. top"))),
        Some("2147483647. ".to_string())
    );
    assert_eq!(
        inserted(numbered_item_edit("next", Some("-5. top"))),
        Some("-4. ".to_string())
    );
}

#[test]
fn second_enter_leaves_the_list() {
    for line in ["☐ buy milk", "☑ done", "• item", "3. third", "09. x"] {
        let next = continued(enter_key_action(line, false)).expect("list continues");
        assert!(next.starts_with('\n'));
        assert!(matches!(enter_key_action(&next[1..], false), EnterAction::ClearLine));
    }
}

#[test]
fn numbered_prefix_toggles_back() {
    let line = "buy 2. eggs";
    let prefix = inserted(numbered_item_edit(line, Some("6. milk"))).expect("inserts a number");
    assert_eq!(prefix, "7. ");
    let once = format!("{}{}", prefix, line);
    assert_eq!(removed(numbered_item_edit(&once, None)), Some(3));
    assert_eq!(&once[3..], line);
}

#[test]
fn links_in_character_offsets() {
    let text = "café https://a.example/x and http://b.example";
    assert_eq!(link_char_spans(text), vec![(5, 24), (29, 45)]);
    assert_eq!(link_char_spans("no links"), Vec::<(usize, usize)>::new());
    assert_eq!(url_at(text, 5).as_deref(), Some("https://a.example/x"));
    assert_eq!(url_at(text, 23).as_deref(), Some("https://a.example/x"));
    assert_eq!(url_at(text, 24), None);
    assert_eq!(url_at(text, 40).as_deref(), Some("http://b.example"));
    assert_eq!(url_at(text, 0), None);
}

#[test]
fn checkbox_toggles_in_text() {
    let text = "Tasks\n☐ milk\n☑ eggs\nplain";
    assert_eq!(checkbox_toggle_in_text(text, 1), Some((6, '☑')));
    assert_eq!(checkbox_toggle_in_text(text, 2), Some((13, '☐')));
    assert_eq!(checkbox_toggle_in_text(text, 0), None);
    assert_eq!(checkbox_toggle_in_text(text, 3), None);
    assert_eq!(checkbox_toggle_in_text(text, 4), None);
    assert_eq!(checkbox_toggle_in_text(text, -1), None);
    let mut chars: Vec<char> = text.chars().collect();
    let (o, c) = checkbox_toggle_in_text(text, 1).unwrap();
    chars[o] = c;
    let once: String = chars.iter().collect();
    assert_eq!(once, "Tasks\n☑ milk\n☑ eggs\nplain");
    let (o2, c2) = checkbox_toggle_in_text(&once, 1).unwrap();
    chars[o2] = c2;
    let twice: String = chars.iter().collect();
    assert_eq!(twice, text);
}

#[test]
fn font_family_positions() {
    let mut list: Vec<String> = vec!["Default".to_string(), "Noto Sans".to_string()];
    assert_eq!(font_family_position(&mut list, "Noto Sans"), 1);
    assert_eq!(list.len(), 2);
    assert_eq!(font_family_position(&mut list, "Fira Code"), 2);
    assert_eq!(list, vec!["Default".to_string(), "Noto Sans".to_string(), "Fira Code".to_string()]);
    assert_eq!(font_family_position(&mut list, "Fira Code"), 2);
    assert_eq!(list.len(), 3);
}

#[test]
fn tags_and_urls_exactly() {
    assert_eq!(strip_html("<b>Bold</b> text"), "Bold text");
    assert_eq!(strip_html("a <> b < c > d"), "a <> b  d");
    assert_eq!(strip_html("x<y"), "x<y");
    assert_eq!(strip_html("<<a>>"), ">");
    assert_eq!(link_char_spans("https:// x http://y"), vec![(11, 19)]);
    assert_eq!(link_char_spans("httpss://a https://b<c"), vec![(11, 20)]);
}

#[test]
fn color_names_in_any_case() {
    for c in NoteColor::all() {
        assert_eq!(NoteColor::from_str_lossy(&c.to_string().to_uppercase()), c);
    }
}
