//! Centralized application configuration.
//! Change these constants to rebrand the application.

use vstd::prelude::*;

verus! {

/// The application ID (reverse domain notation).
pub const APP_ID: &'static str = "com.example.Jotlet";

/// The human-readable application name.
pub const APP_NAME: &'static str = "Jotlet";

/// The application version.
pub const APP_VERSION: &'static str = "0.1.0";

/// The application description.
pub const APP_DESCRIPTION: &'static str = "A lightweight, native GNOME Sticky Notes application";

/// The GResource path prefix.
pub const RESOURCE_PATH: &'static str = "/com/example/Jotlet";

/// The application website.
pub const APP_WEBSITE: &'static str = "https://github.com/example/jotlet";

/// The application license (SPDX identifier).
pub const APP_LICENSE_SPDX: &'static str = "GPL-3.0-or-later";

/// XDG directory name for data storage.
pub const XDG_DIR_NAME: &'static str = "jotlet";

/// Database filename.
pub const DB_FILENAME: &'static str = "notes.db";

/// Default note width in pixels.
pub const DEFAULT_NOTE_WIDTH: i32 = 320;

/// Default note height in pixels.
pub const DEFAULT_NOTE_HEIGHT: i32 = 300;

/// Minimum note width in pixels.
pub const MIN_NOTE_WIDTH: i32 = 220;

/// Minimum note height in pixels.
pub const MIN_NOTE_HEIGHT: i32 = 180;

/// Auto-save debounce delay in milliseconds.
pub const AUTOSAVE_DELAY_MS: u32 = 500;

/// Font size, in pixels, of a note that has not chosen one.
pub const DEFAULT_FONT_SIZE: u32 = 26;

} // verus!
