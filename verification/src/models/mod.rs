pub mod note_color;
