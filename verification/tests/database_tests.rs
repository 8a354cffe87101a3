use jotlet::database::migrations::{migration_sql, pending_migrations, SCHEMA_VERSION};
use jotlet::database::models::{
    bool_setting_text, bool_setting_value, preview_text, search_pattern, string_setting_value, Note, NoteRecord,
    DELETE_NOTE_SQL, INSERT_NOTE_SQL, SEARCH_NOTES_SQL, SELECT_ACTIVE_NOTES_SQL,
    SELECT_ALL_NOTES_SQL, SELECT_NOTE_SQL, SELECT_SETTING_SQL, UPDATE_NOTE_SQL,
    UPSERT_SETTING_SQL,
};
use jotlet::models::note_color::NoteColor;
use rusqlite::{Connection, OptionalExtension, Row};

// The database side of these scenarios runs the library's migration plan and
// SQL statements against an in-memory SQLite database, with notes going in and
// out through the library's row form.

fn setup_test_db() -> Connection {
    let conn = Connection::open_in_memory().expect("Failed to open in-memory database");
    let current: u32 = conn
        .pragma_query_value(None, "user_version", |row| row.get(0))
        .expect("Failed to query user_version");
    for version in pending_migrations(current) {
        conn.execute_batch(migration_sql(version)).expect("Failed to run migrations");
    }
    conn.pragma_update(None, "user_version", SCHEMA_VERSION)
        .expect("Failed to set user_version");
    conn
}

fn insert_note(conn: &Connection, note: &Note) {
    let r = note.to_record();
    conn.execute(
        INSERT_NOTE_SQL,
        (
            r.id,
            r.title,
            r.content,
            r.color,
            f64::from_bits(r.x_bits),
            f64::from_bits(r.y_bits),
            r.width,
            r.height,
            r.pinned,
            r.always_on_top,
            r.is_visible,
            r.is_archived,
            r.font_family,
            r.font_size,
            r.created_at,
            r.updated_at,
        ),
    )
    .expect("Failed to insert note");
}

fn update_note(conn: &Connection, note: &Note) {
    let r = note.to_record();
    conn.execute(
        UPDATE_NOTE_SQL,
        (
            r.id,
            r.title,
            r.content,
            r.color,
            f64::from_bits(r.x_bits),
            f64::from_bits(r.y_bits),
            r.width,
            r.height,
            r.pinned,
            r.always_on_top,
            r.is_visible,
            r.is_archived,
            r.font_family,
            r.font_size,
            r.updated_at,
        ),
    )
    .expect("Failed to update note");
}

fn note_from_row(row: &Row) -> rusqlite::Result<Note> {
    let x: f64 = row.get("x")?;
    let y: f64 = row.get("y")?;
    Ok(Note::from_record(NoteRecord {
        id: row.get("id")?,
        title: row.get("title")?,
        content: row.get("content")?,
        color: row.get("color")?,
        x_bits: x.to_bits(),
        y_bits: y.to_bits(),
        width: row.get("width")?,
        height: row.get("height")?,
        pinned: row.get("pinned")?,
        always_on_top: row.get("always_on_top")?,
        is_visible: row.get("is_visible")?,
        is_archived: row.get("is_archived")?,
        font_family: row.get::<_, Option<String>>("font_family").unwrap_or(None),
        font_size: row.get::<_, Option<u32>>("font_size").unwrap_or(None),
        created_at: row.get("created_at")?,
        updated_at: row.get("updated_at")?,
    }))
}

fn query_notes(conn: &Connection, sql: &str, arg: Option<&str>) -> Vec<Note> {
    let mut stmt = conn.prepare(sql).expect("Failed to prepare");
    let rows = match arg {
        Some(a) => stmt.query_map([a], note_from_row),
        None => stmt.query_map([], note_from_row),
    }
    .expect("Failed to query");
    rows.collect::<Result<Vec<_>, _>>().expect("Failed to read rows")
}

fn search_notes(conn: &Connection, query: &str) -> Vec<Note> {
    query_notes(conn, SEARCH_NOTES_SQL, Some(&search_pattern(query)))
}

fn get_note(conn: &Connection, id: &str) -> Option<Note> {
    query_notes(conn, SELECT_NOTE_SQL, Some(id)).pop()
}

fn stored_setting(conn: &Connection, key: &str) -> Option<String> {
    conn.query_row(SELECT_SETTING_SQL, [key], |row| row.get::<_, String>(0))
        .optional()
        .unwrap_or(None)
}

fn get_bool_setting(conn: &Connection, key: &str, default: bool) -> bool {
    let stored = stored_setting(conn, key);
    bool_setting_value(stored.as_deref(), default)
}

fn get_string_setting(conn: &Connection, key: &str, default: &str) -> String {
    string_setting_value(stored_setting(conn, key), default)
}

fn set_setting(conn: &Connection, key: &str, value: &str) {
    conn.execute(UPSERT_SETTING_SQL, (key, value)).expect("Failed to set setting");
}

#[test]
fn test_database_creation_and_migration() {
    let conn = setup_test_db();
    let version: u32 = conn
        .pragma_query_value(None, "user_version", |row| row.get(0))
        .expect("Failed to query user_version");
    assert_eq!(version, 3);

    // Test settings table
    assert!(get_bool_setting(&conn, "confirm_delete", true));
    set_setting(&conn, "confirm_delete", bool_setting_text(false));
    assert!(!get_bool_setting(&conn, "confirm_delete", true));

    assert_eq!(get_string_setting(&conn, "overview_view", "list"), "list");
    set_setting(&conn, "overview_view", "grid");
    assert_eq!(get_string_setting(&conn, "overview_view", "list"), "grid");
}

#[test]
fn test_note_insert_and_get() {
    let conn = setup_test_db();
    let mut note = Note::new();
    note.title = "Test Note".to_string();
    note.content = "Some content".to_string();
    note.color = NoteColor::Blue;
    note.font_family = "JetBrainsMono Nerd Font".to_string();
    note.font_size = 22;

    insert_note(&conn, &note);

    let retrieved = get_note(&conn, &note.id).expect("Note not found");

    assert_eq!(retrieved.id, note.id);
    assert_eq!(retrieved.title, "Test Note");
    assert_eq!(retrieved.content, "Some content");
    assert_eq!(retrieved.color, NoteColor::Blue);
    assert_eq!(retrieved.font_family, "JetBrainsMono Nerd Font");
    assert_eq!(retrieved.font_size, 22);
}

#[test]
fn test_note_update() {
    let conn = setup_test_db();
    let mut note = Note::new();
    note.title = "Original Title".to_string();
    note.content = "Original Content".to_string();

    insert_note(&conn, &note);

    note.title = "Updated Title".to_string();
    note.content = "Updated Content".to_string();
    note.color = NoteColor::Green;
    note.pinned = true;
    note.width = 450;
    note.height = 400;
    note.font_family = "DejaVu Serif".to_string();
    note.font_size = 32;

    update_note(&conn, &note);

    let retrieved = get_note(&conn, &note.id).expect("Note not found");

    assert_eq!(retrieved.title, "Updated Title");
    assert_eq!(retrieved.content, "Updated Content");
    assert_eq!(retrieved.color, NoteColor::Green);
    assert!(retrieved.pinned);
    assert_eq!(retrieved.width, 450);
    assert_eq!(retrieved.height, 400);
    assert_eq!(retrieved.font_family, "DejaVu Serif");
    assert_eq!(retrieved.font_size, 32);
}

#[test]
fn test_note_delete() {
    let conn = setup_test_db();
    let note = Note::new();
    insert_note(&conn, &note);

    conn.execute(DELETE_NOTE_SQL, [&note.id]).expect("Failed to delete note");

    let retrieved = get_note(&conn, &note.id);
    assert!(retrieved.is_none());
}

#[test]
fn test_note_search() {
    let conn = setup_test_db();

    let mut note1 = Note::new();
    note1.title = "Linux Kernel Notes".to_string();
    note1.content = "Arch Linux setup and pacman tips".to_string();
    insert_note(&conn, &note1);

    let mut note2 = Note::new();
    note2.title = "Docker Containers".to_string();
    note2.content = "DevOps learning and Dockerfiles".to_string();
    insert_note(&conn, &note2);

    let results = search_notes(&conn, "pacman");
    assert_eq!(results.len(), 1);
    assert_eq!(results[0].id, note1.id);

    let results2 = search_notes(&conn, "Docker");
    assert_eq!(results2.len(), 1);
    assert_eq!(results2[0].id, note2.id);

    let results3 = search_notes(&conn, "Nonexistent");
    assert_eq!(results3.len(), 0);
}

#[test]
fn test_get_all_notes_and_archived() {
    let conn = setup_test_db();

    let mut note1 = Note::new();
    note1.title = "Active Note".to_string();
    insert_note(&conn, &note1);

    let mut note2 = Note::new();
    note2.title = "Archived Note".to_string();
    note2.is_archived = true;
    insert_note(&conn, &note2);

    let active = query_notes(&conn, SELECT_ACTIVE_NOTES_SQL, None);
    assert_eq!(active.len(), 1);
    assert_eq!(active[0].title, "Active Note");

    let all = query_notes(&conn, SELECT_ALL_NOTES_SQL, None);
    assert_eq!(all.len(), 2);
}

#[test]
fn record_round_trip_keeps_every_field() {
    let mut note = Note::new();
    note.title = "Round trip".to_string();
    note.content = "☐ one\n☑ two".to_string();
    note.color = NoteColor::Orange;
    note.x_bits = 1.5f64.to_bits();
    note.y_bits = (-3.25f64).to_bits();
    note.pinned = true;
    note.always_on_top = true;
    note.is_visible = false;
    note.is_archived = true;
    note.font_family = "Noto Serif".to_string();
    note.font_size = 48;
    let back = Note::from_record(note.to_record());
    assert_eq!(back.id, note.id);
    assert_eq!(back.title, note.title);
    assert_eq!(back.content, note.content);
    assert_eq!(back.color, note.color);
    assert_eq!(f64::from_bits(back.x_bits), 1.5);
    assert_eq!(f64::from_bits(back.y_bits), -3.25);
    assert!(back.pinned && back.always_on_top && !back.is_visible && back.is_archived);
    assert_eq!(back.font_family, "Noto Serif");
    assert_eq!(back.font_size, 48);
    assert_eq!(back.created_at, note.created_at);
    assert_eq!(back.updated_at, note.updated_at);
}

#[test]
fn record_defaults_for_unreadable_columns() {
    let rec = NoteRecord {
        id: "id".to_string(),
        title: "t".to_string(),
        content: String::new(),
        color: "GREY".to_string(),
        x_bits: 0,
        y_bits: 0,
        width: 320,
        height: 300,
        pinned: 7,
        always_on_top: 0,
        is_visible: -1,
        is_archived: 0,
        font_family: None,
        font_size: None,
        created_at: "c".to_string(),
        updated_at: "u".to_string(),
    };
    let note = Note::from_record(rec);
    assert_eq!(note.color, NoteColor::Gray);
    assert!(note.pinned);
    assert!(!note.always_on_top);
    assert!(note.is_visible);
    assert_eq!(note.font_family, "");
    assert_eq!(note.font_size, 26);
}

#[test]
fn note_record_flags_and_color_name() {
    let mut note = Note::new();
    note.color = NoteColor::Purple;
    note.pinned = true;
    let rec = note.to_record();
    assert_eq!(rec.color, "purple");
    assert_eq!(rec.pinned, 1);
    assert_eq!(rec.always_on_top, 0);
    assert_eq!(rec.is_visible, 1);
    assert_eq!(rec.font_family.as_deref(), Some(""));
    assert_eq!(rec.font_size, Some(26));
}

#[test]
fn settings_values() {
    assert!(bool_setting_value(Some("true"), false));
    assert!(bool_setting_value(Some("1"), false));
    assert!(!bool_setting_value(Some("yes"), true));
    assert!(!bool_setting_value(Some("false"), true));
    assert!(bool_setting_value(None, true));
    assert!(!bool_setting_value(None, false));
    assert_eq!(bool_setting_text(true), "true");
    assert_eq!(bool_setting_text(false), "false");
    for v in [true, false] {
        for d in [true, false] {
            assert_eq!(bool_setting_value(Some(bool_setting_text(v)), d), v);
        }
    }
    assert_eq!(string_setting_value(Some("grid".to_string()), "list"), "grid");
    assert_eq!(string_setting_value(None, "list"), "list");
}

#[test]
fn migration_plan() {
    assert_eq!(pending_migrations(0), vec![1, 2, 3]);
    assert_eq!(pending_migrations(1), vec![2, 3]);
    assert_eq!(pending_migrations(2), vec![3]);
    assert_eq!(pending_migrations(3), Vec::<u32>::new());
    assert_eq!(pending_migrations(7), Vec::<u32>::new());
    assert!(migration_sql(1).starts_with("CREATE TABLE IF NOT EXISTS notes"));
    assert!(migration_sql(2).starts_with("CREATE TABLE IF NOT EXISTS settings"));
    assert!(migration_sql(3).starts_with("ALTER TABLE notes ADD COLUMN font_family"));
}

#[test]
fn new_note_defaults() {
    let note = Note::new();
    let id: Vec<char> = note.id.chars().collect();
    assert_eq!(id.len(), 36);
    assert_eq!(id[8], '-');
    assert_eq!(id[14], '4');
    assert!(note.title.starts_with("Note – "));
    assert_eq!(note.title.chars().count(), 13);
    assert_eq!(note.content, "");
    assert_eq!(note.color, NoteColor::Default);
    assert_eq!(note.width, 320);
    assert_eq!(note.height, 300);
    assert!(!note.pinned && !note.always_on_top && note.is_visible && !note.is_archived);
    assert_eq!(note.font_family, "");
    assert_eq!(note.font_size, 26);
    assert_eq!(note.created_at, note.updated_at);
    assert_ne!(Note::new().id, note.id);
}

#[test]
fn plain_text_previews() {
    let mut note = Note::new();
    note.content = "<p>Hello   <b>world</b></p>\n\tagain".to_string();
    assert_eq!(note.plain_text_preview(), "Hello world again");
    note.content = "word ".repeat(30);
    let preview = note.plain_text_preview();
    assert_eq!(preview, format!("{}…", "word ".repeat(16).trim()));
    assert!(preview.chars().count() <= 81);
    note.content = String::new();
    assert_eq!(note.plain_text_preview(), "");
}

#[test]
fn preview_of_plain_text() {
    assert_eq!(preview_text("  a\n\tb   c  "), "a b c");
    assert_eq!(preview_text("<b>kept</b>"), "<b>kept</b>");
    assert_eq!(preview_text(&"x".repeat(80)), "x".repeat(80));
    assert_eq!(preview_text(&"x".repeat(81)), format!("{}…", "x".repeat(80)));
    assert_eq!(
        preview_text(&format!("{} tail", "y".repeat(79))),
        format!("{}…", "y".repeat(79))
    );
    assert_eq!(preview_text(""), "");
}

#[test]
fn colors_from_lowercase_names() {
    assert_eq!(NoteColor::from_lowercase_name("grey"), NoteColor::Gray);
    assert_eq!(NoteColor::from_lowercase_name("pink"), NoteColor::Pink);
    assert_eq!(NoteColor::from_lowercase_name("Pink"), NoteColor::Default);
    assert_eq!(NoteColor::from_lowercase_name(""), NoteColor::Default);
}

#[test]
fn search_patterns() {
    assert_eq!(search_pattern("pacman"), "%pacman%");
    assert_eq!(search_pattern(""), "%%");
}

#[test]
fn new_note_times_are_utc() {
    let note = Note::new();
    assert!(note.created_at.ends_with("+00:00"));
    assert_eq!(note.created_at, note.updated_at);
}
