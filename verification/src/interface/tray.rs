//! What the tray icon and its menu do to the main window.

use vstd::prelude::*;
use crate::text::same_text;

verus! {

/// What to do in answer to the tray.
#[derive(Clone, Copy, Debug, PartialEq, Eq, Structural)]
pub enum TrayAction {
    /// Show the main window and give it the focus.
    ShowAndFocus,
    /// Hide the main window.
    Hide,
    /// End the application.
    Quit,
    /// Do nothing.
    Ignore,
}

/// What the menu entry with the identifier `id` asks for.
pub open spec fn menu_entry_action(id: Seq<char>) -> TrayAction {
    if id == "show"@ {
        TrayAction::ShowAndFocus
    } else if id == "hide"@ {
        TrayAction::Hide
    } else if id == "quit"@ {
        TrayAction::Quit
    } else {
        TrayAction::Ignore
    }
}

/// What to do when the menu entry with the identifier `id` was chosen.
/// An identifier that is not of this menu is ignored.
pub fn menu_action(id: &str) -> (action: TrayAction)
    ensures
        action == menu_entry_action(id@),
{
    if same_text(id, "show") {
        TrayAction::ShowAndFocus
    } else if same_text(id, "hide") {
        TrayAction::Hide
    } else if same_text(id, "quit") {
        TrayAction::Quit
    } else {
        TrayAction::Ignore
    }
}

/// What to do when the tray icon was clicked: releasing the left button
/// over it brings the main window back, any other click is ignored.
pub fn click_action(left_button: bool, released: bool) -> (action: TrayAction)
    ensures
        action == if left_button && released {
            TrayAction::ShowAndFocus
        } else {
            TrayAction::Ignore
        },
{
    if left_button && released {
        TrayAction::ShowAndFocus
    } else {
        TrayAction::Ignore
    }
}

} // verus!
