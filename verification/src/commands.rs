//! The menu command set.
//!
//! The host registers five menu items and reports the identifier of the
//! activated one. Each identifier maps to exactly one command; anything
//! else is not a command of this application and is ignored.

use vstd::prelude::*;

verus! {

/// The commands the menu can dispatch.
#[derive(Clone, Copy, PartialEq, Eq, Structural, Debug)]
pub enum MenuCommand {
    /// Exit the application.
    Quit,
    /// Close the main window.
    CloseWindow,
    /// Raise the display scale by one step.
    ZoomIn,
    /// Lower the display scale by one step.
    ZoomOut,
    /// Restore the baseline display scale.
    ZoomReset,
}

/// The command a menu identifier stands for.
pub open spec fn spec_parse_command(id: Seq<char>) -> Option<MenuCommand> {
    if id == "quit"@ {
        Some(MenuCommand::Quit)
    } else if id == "close"@ {
        Some(MenuCommand::CloseWindow)
    } else if id == "zoom_in"@ {
        Some(MenuCommand::ZoomIn)
    } else if id == "zoom_out"@ {
        Some(MenuCommand::ZoomOut)
    } else if id == "zoom_reset"@ {
        Some(MenuCommand::ZoomReset)
    } else {
        None
    }
}

/// Map a dispatched menu identifier to its command.
pub fn parse_command(id: &String) -> (c: Option<MenuCommand>)
    ensures
        c == spec_parse_command(id@),
{
    if *id == "quit".to_owned() {
        Some(MenuCommand::Quit)
    } else if *id == "close".to_owned() {
        Some(MenuCommand::CloseWindow)
    } else if *id == "zoom_in".to_owned() {
        Some(MenuCommand::ZoomIn)
    } else if *id == "zoom_out".to_owned() {
        Some(MenuCommand::ZoomOut)
    } else if *id == "zoom_reset".to_owned() {
        Some(MenuCommand::ZoomReset)
    } else {
        None
    }
}

} // verus!
