# Jotlet

A sticky-notes application for the GNOME desktop, with its rules written
and proved in Verus.

- `src/` is the verified library: the note model and its database row
  form, settings, schema migrations, the note colors, import and export
  formats, the editor's list, checklist, link and shortcut rules, the
  toolbar's font choices, window sizing and saving, the preferences'
  color-scheme menu, wallpaper colors, and the application's start-up
  decisions. Each public function states what it returns in `ensures`;
  the properties that span several functions are public proof functions
  (`lemma_*`).
- `tests/` runs the library on concrete values, including the SQLite
  round trips of notes and settings.
- `app/` is the GTK4/Libadwaita program around the library: windows and
  widgets, the SQLite connection, files, JSON backups and the desktop
  settings.
