use vstd::prelude::*;
use crate::text::str_eq;

verus! {

/// Label of the native "File" menu.
pub const FILE_MENU_TEXT: &'static str = "File";

/// Label of the item that opens a document.
pub const OPEN_ITEM_TEXT: &'static str = "Open...";

/// Identifier of the item that opens a document.
pub const OPEN_ITEM_ID: &'static str = "open";

/// Key combination of the item that opens a document.
pub const OPEN_ITEM_ACCELERATOR: &'static str = "CmdOrCtrl+O";

/// Label of the window that receives menu events.
pub const MAIN_WINDOW: &'static str = "main";

/// Event that asks the window to let the user pick a document to open.
pub const OPEN_FILE_EVENT: &'static str = "menu-open-file";

/// Whether a click on the menu item `id` asks the main window to open a
/// document (by emitting `OPEN_FILE_EVENT` to `MAIN_WINDOW`).
pub fn requests_open_file(id: &str) -> (r: bool)
    ensures
        r == (id@ == OPEN_ITEM_ID@),
{
    str_eq(id, OPEN_ITEM_ID)
}

} // verus!
