//! The tray menu: the IDs of its items and the actions they stand for.

use vstd::prelude::*;

use crate::text::text_eq;

verus! {

/// Menu item ID of "Resume All".
pub const ID_RESUME: &'static str = "clutch_resume_all";
/// Menu item ID of "Pause All".
pub const ID_PAUSE: &'static str = "clutch_pause_all";
/// Menu item ID of the turtle-mode item.
pub const ID_TURTLE: &'static str = "clutch_turtle";
/// Menu item ID of "Show Clutch".
pub const ID_SHOW: &'static str = "clutch_show";
/// Menu item ID of "Exit".
pub const ID_EXIT: &'static str = "clutch_exit";

/// Actions dispatched from the system tray into the application.
#[derive(Debug, Clone, Copy, PartialEq, Eq, Structural)]
pub enum TrayAction {
    ResumeAll,
    PauseAll,
    ToggleTurtle,
    ShowWindow,
    Exit,
}

/// The action of the menu item with ID `id`.
pub open spec fn action_for_id(id: Seq<char>) -> Option<TrayAction> {
    if id == ID_RESUME@ {
        Some(TrayAction::ResumeAll)
    } else if id == ID_PAUSE@ {
        Some(TrayAction::PauseAll)
    } else if id == ID_TURTLE@ {
        Some(TrayAction::ToggleTurtle)
    } else if id == ID_SHOW@ {
        Some(TrayAction::ShowWindow)
    } else if id == ID_EXIT@ {
        Some(TrayAction::Exit)
    } else {
        None
    }
}

/// Map a menu item ID back to its action; IDs of other items give `None`.
pub fn menu_id_to_action(id: &str) -> (r: Option<TrayAction>)
    ensures
        r == action_for_id(id@),
{
    if text_eq(id, ID_RESUME) {
        Some(TrayAction::ResumeAll)
    } else if text_eq(id, ID_PAUSE) {
        Some(TrayAction::PauseAll)
    } else if text_eq(id, ID_TURTLE) {
        Some(TrayAction::ToggleTurtle)
    } else if text_eq(id, ID_SHOW) {
        Some(TrayAction::ShowWindow)
    } else if text_eq(id, ID_EXIT) {
        Some(TrayAction::Exit)
    } else {
        None
    }
}

/// The label of the turtle-mode item: a filled dot when the mode is on, a
/// hollow one when it is off.
pub fn turtle_label(active: bool) -> (s: &'static str)
    ensures
        s@ == (if active {
            "\u{25CF} Turtle Mode"@
        } else {
            "\u{25CB} Turtle Mode"@
        }),
{
    if active {
        "\u{25CF} Turtle Mode"
    } else {
        "\u{25CB} Turtle Mode"
    }
}

/// The idle label of the download-speed item.
pub fn idle_speed_down_label() -> (s: &'static str)
    ensures
        s@ == "\u{2193}  \u{2014}"@,
{
    "\u{2193}  \u{2014}"
}

/// The idle label of the upload-speed item.
pub fn idle_speed_up_label() -> (s: &'static str)
    ensures
        s@ == "\u{2191}  \u{2014}"@,
{
    "\u{2191}  \u{2014}"
}

} // verus!
