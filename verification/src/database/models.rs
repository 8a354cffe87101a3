//! The note model, its database row form, and the stored settings.

use vstd::prelude::*;
use crate::config::{DEFAULT_FONT_SIZE, DEFAULT_NOTE_HEIGHT, DEFAULT_NOTE_WIDTH};
use crate::models::note_color::{
    color_name, decode_color, lemma_color_name_round_trip, NoteColor,
};
use crate::services::html_serializer::{replace_all_matches, replace_tags, TAG_PATTERN};
use crate::text::{
    chars_of, copy_str, join, join_spans, push_str, span_texts, spans_view, string_from_range,
    trim, trim_str, word_spans, words,
};

verus! {

// ---------------------------------------------------------------------------
// The note
// ---------------------------------------------------------------------------

/// Represents a sticky note in the database.
///
/// The window position is kept as the IEEE-754 bit pattern of the `f64`
/// coordinate that the database and JSON backups hold.
#[derive(Debug, Clone)]
pub struct Note {
    pub id: String,
    pub title: String,
    pub content: String,
    pub color: NoteColor,
    pub x_bits: u64,
    pub y_bits: u64,
    pub width: i32,
    pub height: i32,
    pub pinned: bool,
    pub always_on_top: bool,
    pub is_visible: bool,
    pub is_archived: bool,
    pub font_family: String,
    pub font_size: u32,
    pub created_at: String,
    pub updated_at: String,
}

/// The mathematical value of a [`Note`].
pub struct NoteView {
    pub id: Seq<char>,
    pub title: Seq<char>,
    pub content: Seq<char>,
    pub color: NoteColor,
    pub x_bits: u64,
    pub y_bits: u64,
    pub width: i32,
    pub height: i32,
    pub pinned: bool,
    pub always_on_top: bool,
    pub is_visible: bool,
    pub is_archived: bool,
    pub font_family: Seq<char>,
    pub font_size: u32,
    pub created_at: Seq<char>,
    pub updated_at: Seq<char>,
}

impl View for Note {
    type V = NoteView;

    open spec fn view(&self) -> NoteView {
        NoteView {
            id: self.id@,
            title: self.title@,
            content: self.content@,
            color: self.color,
            x_bits: self.x_bits,
            y_bits: self.y_bits,
            width: self.width,
            height: self.height,
            pinned: self.pinned,
            always_on_top: self.always_on_top,
            is_visible: self.is_visible,
            is_archived: self.is_archived,
            font_family: self.font_family@,
            font_size: self.font_size,
            created_at: self.created_at@,
            updated_at: self.updated_at@,
        }
    }
}

/// A fresh note with the given identity, title and creation time, and every
/// other field at its default.
pub open spec fn fresh_note(id: Seq<char>, title: Seq<char>, now: Seq<char>) -> NoteView {
    NoteView {
        id,
        title,
        content: Seq::empty(),
        color: NoteColor::Default,
        x_bits: 0,
        y_bits: 0,
        width: DEFAULT_NOTE_WIDTH,
        height: DEFAULT_NOTE_HEIGHT,
        pinned: false,
        always_on_top: false,
        is_visible: true,
        is_archived: false,
        font_family: Seq::empty(),
        font_size: DEFAULT_FONT_SIZE,
        created_at: now,
        updated_at: now,
    }
}

/// Whether `c` is one of `0`..`9` or `a`..`f`.
pub open spec fn is_lower_hex(c: char) -> bool {
    ('0' <= c && c <= '9') || ('a' <= c && c <= 'f')
}

/// The shape of a random (version 4) UUID in hyphenated lowercase form,
/// e.g. `67e55044-10b1-426f-9247-bb680e5fe0c8`.
pub open spec fn is_v4_uuid_text(s: Seq<char>) -> bool {
    &&& s.len() == 36
    &&& s[8] == '-' && s[13] == '-' && s[18] == '-' && s[23] == '-'
    &&& forall|i: int|
        0 <= i < 36 && i != 8 && i != 13 && i != 18 && i != 23 ==> is_lower_hex(#[trigger] s[i])
    &&& s[14] == '4'
    &&& (s[19] == '8' || s[19] == '9' || s[19] == 'a' || s[19] == 'b')
}

/// The abbreviated English month names that chrono's `%b` writes.
pub open spec fn is_month_abbreviation(m: Seq<char>) -> bool {
    ||| m == "Jan"@
    ||| m == "Feb"@
    ||| m == "Mar"@
    ||| m == "Apr"@
    ||| m == "May"@
    ||| m == "Jun"@
    ||| m == "Jul"@
    ||| m == "Aug"@
    ||| m == "Sep"@
    ||| m == "Oct"@
    ||| m == "Nov"@
    ||| m == "Dec"@
}

/// The shape of a date written with chrono's `%d %b`, e.g. `07 Mar`.
pub open spec fn is_day_month_text(s: Seq<char>) -> bool {
    &&& s.len() == 6
    &&& '0' <= s[0] && s[0] <= '3'
    &&& '0' <= s[1] && s[1] <= '9'
    &&& s[2] == ' '
    &&& is_month_abbreviation(s.subrange(3, 6))
}

/// uuid's `Uuid::new_v4()` written with `to_string()`. The value is random;
/// the contract states only the hyphenated version-4 shape that uuid's
/// source gives every such value.
#[verifier::external_body]
fn new_uuid_text() -> (r: String)
    ensures
        is_v4_uuid_text(r@),
{
    uuid::Uuid::new_v4().to_string()
}

/// Whether an RFC 3339 timestamp is written in UTC: it ends with the
/// offset `+00:00`.
pub open spec fn ends_in_utc(s: Seq<char>) -> bool {
    s.len() >= 6 && s.subrange(s.len() - 6, s.len() as int) == "+00:00"@
}

/// chrono's `Utc::now().to_rfc3339()`. The time depends on the clock, so
/// the contract states only what chrono's RFC 3339 writer gives every UTC
/// time: the offset `+00:00` at the end (it writes no `Z` there). The date
/// and time fields are left unsaid, since their width depends on the year.
#[verifier::external_body]
fn utc_now_rfc3339() -> (r: String)
    ensures
        ends_in_utc(r@),
{
    chrono::Utc::now().to_rfc3339()
}

/// The date format of default note titles: day of the month, then month.
pub const DAY_MONTH_FORMAT: &'static str = "%d %b";

/// chrono's `Local::now().format(fmt)` as a string, for the title date
/// format. It depends on the clock and the time zone; the contract states
/// only the shape that the two format items give: a zero-padded day and an
/// English month abbreviation.
#[verifier::external_body]
fn local_now_formatted(fmt: &str) -> (r: String)
    requires
        fmt@ == DAY_MONTH_FORMAT@,
    ensures
        is_day_month_text(r@),
{
    chrono::Local::now().format(fmt).to_string()
}

/// The text that starts every default note title.
pub open spec fn default_title_prefix() -> Seq<char> {
    "Note – "@
}

impl Note {
    /// A note with the given identity, title and creation time, and every
    /// other field at its default.
    pub fn from_parts(id: String, title: String, now: String) -> (r: Note)
        ensures
            r@ == fresh_note(id@, title@, now@),
    {
        let updated_at = now.clone();
        Note {
            id,
            title,
            content: String::new(),
            color: NoteColor::Default,
            x_bits: 0,
            y_bits: 0,
            width: DEFAULT_NOTE_WIDTH,
            height: DEFAULT_NOTE_HEIGHT,
            pinned: false,
            always_on_top: false,
            is_visible: true,
            is_archived: false,
            font_family: String::new(),
            font_size: DEFAULT_FONT_SIZE,
            created_at: now,
            updated_at,
        }
    }

    /// Creates a new note with default values.
    pub fn new() -> (r: Note)
        ensures
            is_v4_uuid_text(r@.id),
            exists|d: Seq<char>|
                is_day_month_text(d) && r@.title == default_title_prefix() + d,
            ends_in_utc(r@.created_at),
            r@ == fresh_note(r@.id, r@.title, r@.created_at),
    {
        let id = new_uuid_text();
        let title = Self::default_title();
        let now = utc_now_rfc3339();
        Self::from_parts(id, title, now)
    }

    /// Generates a default title based on the current date.
    fn default_title() -> (r: String)
        ensures
            exists|d: Seq<char>| is_day_month_text(d) && r@ == default_title_prefix() + d,
    {
        let date = local_now_formatted(DAY_MONTH_FORMAT);
        let mut r = copy_str("Note – ");
        push_str(&mut r, date.as_str());
        r
    }

    /// Returns the plain text preview of the note content (strips HTML,
    /// collapses whitespace, and shortens it to 80 characters).
    pub fn plain_text_preview(&self) -> (r: String)
        ensures
            r@ == preview_of(replace_tags(self.content@, " "@)),
    {
        proof {
            reveal_strlit(" ");
        }
        let text = match replace_all_matches(TAG_PATTERN, self.content.as_str(), " ") {
            Some(s) => s,
            None => copy_str(self.content.as_str()),
        };
        preview_text(text.as_str())
    }
}

/// The preview of plain text: its words joined by single spaces, cut to 80
/// characters (then trimmed, with an ellipsis) when longer.
pub open spec fn preview_of(text: Seq<char>) -> Seq<char> {
    let joined = join(words(text), " "@);
    if joined.len() > 80 {
        trim(joined.subrange(0, 80)) + "…"@
    } else {
        joined
    }
}

/// The preview of plain text: its words joined by single spaces, and when
/// that is longer than 80 characters, the first 80 trimmed and followed by
/// an ellipsis.
pub fn preview_text(text: &str) -> (r: String)
    ensures
        r@ == preview_of(text@),
{
    let v = chars_of(text);
    let spans = word_spans(&v);
    let joined = join_spans(&v, &spans, 0, " ");
    assert(span_texts(v@, spans_view(spans@)).subrange(0, spans@.len() as int) =~= words(v@));
    let jv = chars_of(joined.as_str());
    if jv.len() > 80 {
        let head = string_from_range(&jv, 0, 80);
        let mut r = trim_str(head.as_str());
        push_str(&mut r, "…");
        r
    } else {
        joined
    }
}

/// A preview never exceeds 80 characters plus the ellipsis.
pub proof fn lemma_preview_short(text: Seq<char>)
    ensures
        preview_of(text).len() <= 81,
{
    let joined = join(words(text), " "@);
    if joined.len() > 80 {
        let head = joined.subrange(0, 80);
        crate::text::lemma_skip_white_bounds(head, 0);
        crate::text::lemma_skip_white_back_bounds(head, 80);
        reveal_strlit("…");
    }
}

impl Default for Note {
    fn default() -> (r: Self)
        ensures
            is_v4_uuid_text(r@.id),
            r@ == fresh_note(r@.id, r@.title, r@.created_at),
    {
        Self::new()
    }
}


// ---------------------------------------------------------------------------
// The database row form of a note
// ---------------------------------------------------------------------------

/// The INSERT statement for a note; its parameters are the columns of a
/// [`NoteRecord`] in declaration order.
pub const INSERT_NOTE_SQL: &'static str = "INSERT INTO notes (id, title, content, color, x, y, width, height, pinned,
         always_on_top, is_visible, is_archived, font_family, font_size, created_at, updated_at)
         VALUES (?1, ?2, ?3, ?4, ?5, ?6, ?7, ?8, ?9, ?10, ?11, ?12, ?13, ?14, ?15, ?16)";

/// The UPDATE statement for a note; its parameters are the columns of a
/// [`NoteRecord`] in declaration order, without `created_at`.
pub const UPDATE_NOTE_SQL: &'static str = "UPDATE notes SET title=?2, content=?3, color=?4, x=?5, y=?6, width=?7, height=?8,
         pinned=?9, always_on_top=?10, is_visible=?11, is_archived=?12, font_family=?13, font_size=?14, updated_at=?15
         WHERE id=?1";

/// Deletes the note whose id is the parameter.
pub const DELETE_NOTE_SQL: &'static str = "DELETE FROM notes WHERE id = ?1";

/// All non-archived notes, most recently modified first.
pub const SELECT_ACTIVE_NOTES_SQL: &'static str = "SELECT * FROM notes WHERE is_archived = 0 ORDER BY updated_at DESC";

/// All notes, most recently modified first.
pub const SELECT_ALL_NOTES_SQL: &'static str = "SELECT * FROM notes ORDER BY updated_at DESC";

/// The note whose id is the parameter.
pub const SELECT_NOTE_SQL: &'static str = "SELECT * FROM notes WHERE id = ?1";

/// Non-archived notes whose title or content matches the LIKE pattern parameter.
pub const SEARCH_NOTES_SQL: &'static str = "SELECT * FROM notes WHERE is_archived = 0
         AND (title LIKE ?1 OR content LIKE ?1)
         ORDER BY updated_at DESC";

/// The LIKE pattern that finds `query` anywhere in a title or content.
pub open spec fn search_pattern_of(query: Seq<char>) -> Seq<char> {
    "%"@ + query + "%"@
}

/// The parameter of [`SEARCH_NOTES_SQL`] for a search query.
pub fn search_pattern(query: &str) -> (r: String)
    ensures
        r@ == search_pattern_of(query@),
{
    let mut r = copy_str("%");
    push_str(&mut r, query);
    push_str(&mut r, "%");
    r
}

/// Pinned (keep-on-top) notes that are not archived.
pub const SELECT_PINNED_NOTES_SQL: &'static str = "SELECT * FROM notes WHERE pinned = 1 AND is_archived = 0 ORDER BY updated_at DESC";

/// Reads the value of the setting whose key is the parameter.
pub const SELECT_SETTING_SQL: &'static str = "SELECT value FROM settings WHERE key = ?1";

/// Stores the setting `(?1, ?2)`, replacing any earlier value.
pub const UPSERT_SETTING_SQL: &'static str = "INSERT INTO settings (key, value) VALUES (?1, ?2)
         ON CONFLICT(key) DO UPDATE SET value = excluded.value";

/// The column values of a note as the database holds them. Flags are stored
/// as integers; `font_family` and `font_size` are `None` when the column
/// could not be read as the expected type.
#[derive(Debug, Clone)]
pub struct NoteRecord {
    pub id: String,
    pub title: String,
    pub content: String,
    pub color: String,
    pub x_bits: u64,
    pub y_bits: u64,
    pub width: i32,
    pub height: i32,
    pub pinned: i32,
    pub always_on_top: i32,
    pub is_visible: i32,
    pub is_archived: i32,
    pub font_family: Option<String>,
    pub font_size: Option<u32>,
    pub created_at: String,
    pub updated_at: String,
}

/// The mathematical value of a [`NoteRecord`].
pub struct RecordView {
    pub id: Seq<char>,
    pub title: Seq<char>,
    pub content: Seq<char>,
    pub color: Seq<char>,
    pub x_bits: u64,
    pub y_bits: u64,
    pub width: i32,
    pub height: i32,
    pub pinned: i32,
    pub always_on_top: i32,
    pub is_visible: i32,
    pub is_archived: i32,
    pub font_family: Option<Seq<char>>,
    pub font_size: Option<u32>,
    pub created_at: Seq<char>,
    pub updated_at: Seq<char>,
}

impl View for NoteRecord {
    type V = RecordView;

    open spec fn view(&self) -> RecordView {
        RecordView {
            id: self.id@,
            title: self.title@,
            content: self.content@,
            color: self.color@,
            x_bits: self.x_bits,
            y_bits: self.y_bits,
            width: self.width,
            height: self.height,
            pinned: self.pinned,
            always_on_top: self.always_on_top,
            is_visible: self.is_visible,
            is_archived: self.is_archived,
            font_family: match self.font_family {
                Some(f) => Some(f@),
                None => None,
            },
            font_size: self.font_size,
            created_at: self.created_at@,
            updated_at: self.updated_at@,
        }
    }
}

/// A flag as the database stores it.
pub open spec fn flag_value(b: bool) -> i32 {
    if b {
        1
    } else {
        0
    }
}

/// The row that storing a note writes.
pub open spec fn record_of(n: NoteView) -> RecordView {
    RecordView {
        id: n.id,
        title: n.title,
        content: n.content,
        color: color_name(n.color),
        x_bits: n.x_bits,
        y_bits: n.y_bits,
        width: n.width,
        height: n.height,
        pinned: flag_value(n.pinned),
        always_on_top: flag_value(n.always_on_top),
        is_visible: flag_value(n.is_visible),
        is_archived: flag_value(n.is_archived),
        font_family: Some(n.font_family),
        font_size: Some(n.font_size),
        created_at: n.created_at,
        updated_at: n.updated_at,
    }
}

/// The note that a stored row stands for: the color read without regard to
/// case (unknown names give `Default`), any non-zero flag read as set, an
/// unreadable font family read as empty and an unreadable font size as 26.
pub open spec fn note_of(r: RecordView) -> NoteView {
    NoteView {
        id: r.id,
        title: r.title,
        content: r.content,
        color: decode_color(r.color),
        x_bits: r.x_bits,
        y_bits: r.y_bits,
        width: r.width,
        height: r.height,
        pinned: r.pinned != 0,
        always_on_top: r.always_on_top != 0,
        is_visible: r.is_visible != 0,
        is_archived: r.is_archived != 0,
        font_family: match r.font_family {
            Some(f) => f,
            None => Seq::empty(),
        },
        font_size: match r.font_size {
            Some(s) => s,
            None => DEFAULT_FONT_SIZE,
        },
        created_at: r.created_at,
        updated_at: r.updated_at,
    }
}

fn flag(b: bool) -> (r: i32)
    ensures
        r == flag_value(b),
{
    if b {
        1
    } else {
        0
    }
}

impl Note {
    /// The column values that storing this note writes.
    pub fn to_record(&self) -> (r: NoteRecord)
        ensures
            r@ == record_of(self@),
    {
        NoteRecord {
            id: self.id.clone(),
            title: self.title.clone(),
            content: self.content.clone(),
            color: self.color.to_string(),
            x_bits: self.x_bits,
            y_bits: self.y_bits,
            width: self.width,
            height: self.height,
            pinned: flag(self.pinned),
            always_on_top: flag(self.always_on_top),
            is_visible: flag(self.is_visible),
            is_archived: flag(self.is_archived),
            font_family: Some(self.font_family.clone()),
            font_size: Some(self.font_size),
            created_at: self.created_at.clone(),
            updated_at: self.updated_at.clone(),
        }
    }

    /// Creates a Note from the column values of a database row.
    pub fn from_record(rec: NoteRecord) -> (r: Note)
        ensures
            r@ == note_of(rec@),
    {
        let color = NoteColor::from_str_lossy(rec.color.as_str());
        let font_family = match rec.font_family {
            Some(f) => f,
            None => String::new(),
        };
        let font_size = match rec.font_size {
            Some(s) => s,
            None => DEFAULT_FONT_SIZE,
        };
        Note {
            id: rec.id,
            title: rec.title,
            content: rec.content,
            color,
            x_bits: rec.x_bits,
            y_bits: rec.y_bits,
            width: rec.width,
            height: rec.height,
            pinned: rec.pinned != 0,
            always_on_top: rec.always_on_top != 0,
            is_visible: rec.is_visible != 0,
            is_archived: rec.is_archived != 0,
            font_family,
            font_size,
            created_at: rec.created_at,
            updated_at: rec.updated_at,
        }
    }
}

/// Reading back the row that storing a note wrote gives the same note:
/// every field, the color and the font settings included, survives the trip
/// through the database.
pub proof fn lemma_record_round_trip(n: NoteView)
    ensures
        note_of(record_of(n)) == n,
{
    lemma_color_name_round_trip(n.color);
    assert(note_of(record_of(n)) =~= n);
}

// ---------------------------------------------------------------------------
// Settings
// ---------------------------------------------------------------------------

/// The value of a boolean setting: a stored `"true"` or `"1"` reads as set,
/// any other stored text as unset, and a missing or unreadable setting as
/// `default`.
pub open spec fn bool_setting(stored: Option<Seq<char>>, default: bool) -> bool {
    match stored {
        Some(v) => v == "true"@ || v == "1"@,
        None => default,
    }
}

/// The text stored for a boolean setting.
pub open spec fn bool_setting_stored(value: bool) -> Seq<char> {
    if value {
        "true"@
    } else {
        "false"@
    }
}

/// Reads a boolean setting from the text stored for it (`None` when the
/// setting is missing or could not be read).
pub fn bool_setting_value(stored: Option<&str>, default: bool) -> (r: bool)
    ensures
        r == bool_setting(
            match stored {
                Some(s) => Some(s@),
                None => None,
            },
            default,
        ),
{
    match stored {
        Some(v) => crate::text::str_eq(v, "true") || crate::text::str_eq(v, "1"),
        None => default,
    }
}

/// The text that storing a boolean setting writes.
pub fn bool_setting_text(value: bool) -> (r: &'static str)
    ensures
        r@ == bool_setting_stored(value),
{
    if value {
        "true"
    } else {
        "false"
    }
}

/// Reads a string setting: the stored text, or `default` when the setting is
/// missing or could not be read.
pub fn string_setting_value(stored: Option<String>, default: &str) -> (r: String)
    ensures
        r@ == match stored {
            Some(s) => s@,
            None => default@,
        },
{
    match stored {
        Some(s) => s,
        None => copy_str(default),
    }
}

/// A boolean setting reads back as the value last stored, whatever the default.
pub proof fn lemma_bool_setting_round_trip(value: bool, default: bool)
    ensures
        bool_setting(Some(bool_setting_stored(value)), default) == value,
{
    reveal_strlit("true");
    reveal_strlit("false");
    reveal_strlit("1");
    if !value {
        assert("false"@.len() == 5);
        assert("false"@ != "true"@);
        assert("false"@ != "1"@);
    }
}

} // verus!
