pub mod color_picker;
pub mod note_editor;
pub mod note_toolbar;
