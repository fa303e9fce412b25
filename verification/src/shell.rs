//! The two small decisions that the desktop shell leaves to the library: what an entry
//! of the tray menu asks for, and the greeting that the front end can call for.

use vstd::prelude::*;
use vstd::string::*;
use crate::text::same_text;

verus! {

/// What the choice of a tray menu entry asks the shell to do.
#[derive(Clone, Copy, Debug, PartialEq, Eq, Hash, Structural)]
pub enum MenuAction {
    /// End the program.
    Quit,
    /// Show the settings, or hide them if they are shown.
    ToggleSettings,
    /// The entry is not one of the menu's own: do nothing.
    Nothing,
}

/// What the menu entry with the identifier `id` asks for.
pub open spec fn menu_action_of(id: Seq<char>) -> MenuAction {
    if id == "quit"@ {
        MenuAction::Quit
    } else if id == "settings"@ {
        MenuAction::ToggleSettings
    } else {
        MenuAction::Nothing
    }
}

/// The greeting for `name`.
pub open spec fn greeting(name: Seq<char>) -> Seq<char> {
    "Hello, "@ + name + "! You've been greeted from Rust!"@
}

/// Tells what the menu entry with the identifier `id` asks for.
pub fn menu_action(id: &str) -> (r: MenuAction)
    ensures
        r == menu_action_of(id@),
{
    if same_text(id, "quit") {
        MenuAction::Quit
    } else if same_text(id, "settings") {
        MenuAction::ToggleSettings
    } else {
        MenuAction::Nothing
    }
}

/// Writes the greeting for `name`.
pub fn greet(name: &str) -> (r: String)
    ensures
        r@ == greeting(name@),
{
    String::from_str("Hello, ").concat(name).concat("! You've been greeted from Rust!")
}

} // verus!
