//! The launcher window: what to do with it when it gains or loses focus.

use vstd::prelude::*;

verus! {

/// One thing the host does to the launcher window.
#[derive(Clone, Copy, PartialEq, Eq, Structural, Debug)]
pub enum WindowAction {
    /// Take the window off the screen.
    Hide,
    /// Put the window on the screen.
    Show,
    /// Keep the window above all others.
    PinOnTop,
    /// Give the window the keyboard.
    Focus,
}

/// The window hides itself when it loses focus while it is on screen;
/// nothing else follows from a change of focus.
pub open spec fn focus_response(focused: bool, visible: bool) -> Option<WindowAction> {
    if !focused && visible {
        Some(WindowAction::Hide)
    } else {
        None
    }
}

/// What to do when the window's focus changes to `focused` while its
/// visibility is `visible`.
pub fn on_focus_change(focused: bool, visible: bool) -> (action: Option<WindowAction>)
    ensures
        action == focus_response(focused, visible),
{
    if !focused && visible {
        Some(WindowAction::Hide)
    } else {
        None
    }
}

} // verus!
