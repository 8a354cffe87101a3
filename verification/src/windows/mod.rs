pub mod note_window;
pub mod notes_overview;
pub mod preferences;
