//! The decisions of the tray and window: which menu entry was chosen, and what
//! toggling the main window does.

use vstd::prelude::*;
use crate::text::same_text;

verus! {

/// The entries of the tray and context menus.
#[derive(Clone, Copy, PartialEq, Eq, Structural, Debug)]
pub enum MenuCommand {
    ShowHide,
    Refresh,
    Diagnostics,
    Quit,
}

/// The command of a menu entry id; `None` for an unknown id.
pub open spec fn command_of(id: Seq<char>) -> Option<MenuCommand> {
    if id == "show_hide"@ {
        Some(MenuCommand::ShowHide)
    } else if id == "refresh"@ {
        Some(MenuCommand::Refresh)
    } else if id == "diagnostics"@ {
        Some(MenuCommand::Diagnostics)
    } else if id == "quit"@ {
        Some(MenuCommand::Quit)
    } else {
        None
    }
}

/// The command of a menu entry id; `None` for an unknown id, which is ignored.
pub fn menu_command(id: &str) -> (r: Option<MenuCommand>)
    ensures
        r == command_of(id@),
{
    if same_text(id, "show_hide") {
        Some(MenuCommand::ShowHide)
    } else if same_text(id, "refresh") {
        Some(MenuCommand::Refresh)
    } else if same_text(id, "diagnostics") {
        Some(MenuCommand::Diagnostics)
    } else if same_text(id, "quit") {
        Some(MenuCommand::Quit)
    } else {
        None
    }
}

/// What toggling the main window does.
#[derive(Clone, Copy, PartialEq, Eq, Structural, Debug)]
pub enum WindowToggle {
    Hide,
    ShowAndFocus,
}

/// Toggling hides a visible window and shows and focuses a hidden one; a window
/// whose visibility cannot be told counts as visible.
pub fn toggle_window(visible: Option<bool>) -> (r: WindowToggle)
    ensures
        r == (if visible == Some(false) {
            WindowToggle::ShowAndFocus
        } else {
            WindowToggle::Hide
        }),
{
    let shown = match visible {
        Some(v) => v,
        None => true,
    };
    if shown {
        WindowToggle::Hide
    } else {
        WindowToggle::ShowAndFocus
    }
}

} // verus!
