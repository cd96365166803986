//! The application's menu: which entry tells the window what.

use vstd::prelude::*;
use crate::paths::same_text;

verus! {

/// The event that the window gets when the menu entry `id` is chosen; none
/// for an entry that the window does not hear of.
pub open spec fn menu_event_of(id: Seq<char>) -> Option<Seq<char>> {
    if id == "settings"@ {
        Some("open-settings"@)
    } else if id == "about"@ {
        Some("open-about"@)
    } else if id == "export_project"@ {
        Some("export-project"@)
    } else if id == "import_project"@ {
        Some("import-project"@)
    } else if id == "clear_project"@ {
        Some("clear-project"@)
    } else if id == "upload"@ {
        Some("upload-video"@)
    } else {
        None
    }
}

/// The event to send to the window for a menu entry.
pub fn menu_event(id: &str) -> (r: Option<&'static str>)
    ensures
        match r {
            Some(name) => menu_event_of(id@) == Some(name@),
            None => menu_event_of(id@) is None,
        },
{
    if same_text(id, "settings") {
        Some("open-settings")
    } else if same_text(id, "about") {
        Some("open-about")
    } else if same_text(id, "export_project") {
        Some("export-project")
    } else if same_text(id, "import_project") {
        Some("import-project")
    } else if same_text(id, "clear_project") {
        Some("clear-project")
    } else if same_text(id, "upload") {
        Some("upload-video")
    } else {
        None
    }
}

} // verus!
