//! The XDG autostart entry that starts the application on login.
//!
//! Writing, removing and looking for the file is the application's part.

use vstd::prelude::*;
use crate::config::{APP_DESCRIPTION, APP_ID, APP_NAME};
use crate::text::{copy_str, push_str};

verus! {

/// The name of the autostart file: the application ID with `.desktop`.
pub open spec fn autostart_name() -> Seq<char> {
    APP_ID@ + ".desktop"@
}

/// The text of the autostart entry: a desktop entry that runs the
/// application in the background at login.
pub open spec fn autostart_text() -> Seq<char> {
    "[Desktop Entry]\nType=Application\nName="@ + APP_NAME@ + "\nExec=jotlet --background\nIcon="@
        + APP_ID@ + "\nComment="@ + APP_DESCRIPTION@
        + "\nTerminal=false\nX-GNOME-Autostart-enabled=true\nHidden=false\n"@
}

/// The file name of the autostart entry inside the autostart directory.
pub fn autostart_file_name() -> (r: String)
    ensures
        r@ == autostart_name(),
{
    let mut r = copy_str(APP_ID);
    push_str(&mut r, ".desktop");
    r
}

/// The contents of the autostart entry.
pub fn autostart_entry() -> (r: String)
    ensures
        r@ == autostart_text(),
{
    let mut r = copy_str("[Desktop Entry]\nType=Application\nName=");
    push_str(&mut r, APP_NAME);
    push_str(&mut r, "\nExec=jotlet --background\nIcon=");
    push_str(&mut r, APP_ID);
    push_str(&mut r, "\nComment=");
    push_str(&mut r, APP_DESCRIPTION);
    push_str(&mut r, "\nTerminal=false\nX-GNOME-Autostart-enabled=true\nHidden=false\n");
    assert(r@ =~= autostart_text());
    r
}

} // verus!
