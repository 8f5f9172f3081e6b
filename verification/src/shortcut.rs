//! The global shortcut: one key combination that toggles the launcher window.

use crate::window::WindowAction;
use vstd::prelude::*;

verus! {

/// The two halves of a key press.
#[derive(Clone, Copy, PartialEq, Eq, Structural, Debug)]
pub enum ShortcutState {
    Pressed,
    Released,
}

/// What a shortcut event does to the window. Only the press counts. It
/// hides a visible window; it shows a hidden one, pins it above the others
/// unless it is pinned already, and gives it the keyboard.
pub open spec fn toggle(state: ShortcutState, visible: bool, on_top: bool) -> Seq<WindowAction> {
    match state {
        ShortcutState::Released => seq![],
        ShortcutState::Pressed => if visible {
            seq![WindowAction::Hide]
        } else if on_top {
            seq![WindowAction::Show, WindowAction::Focus]
        } else {
            seq![WindowAction::Show, WindowAction::PinOnTop, WindowAction::Focus]
        },
    }
}

/// The actions, in order, that follow a shortcut event on a window whose
/// visibility is `visible` and which is pinned above the others if `on_top`.
pub fn on_shortcut(state: ShortcutState, visible: bool, on_top: bool) -> (actions: Vec<
    WindowAction,
>)
    ensures
        actions@ == toggle(state, visible, on_top),
{
    let mut actions: Vec<WindowAction> = Vec::new();
    match state {
        ShortcutState::Released => {},
        ShortcutState::Pressed => {
            if visible {
                actions.push(WindowAction::Hide);
            } else {
                actions.push(WindowAction::Show);
                if !on_top {
                    actions.push(WindowAction::PinOnTop);
                }
                actions.push(WindowAction::Focus);
            }
        },
    }
    assert(actions@ =~= toggle(state, visible, on_top));
    actions
}

/// Pressing the shortcut on a visible window hides it and does nothing
/// else; on a hidden window it never hides, and always ends by giving the
/// window the keyboard.
pub proof fn press_toggles_visibility(visible: bool, on_top: bool)
    ensures
        visible ==> toggle(ShortcutState::Pressed, visible, on_top) == seq![WindowAction::Hide],
        !visible ==> toggle(ShortcutState::Pressed, visible, on_top).first() == WindowAction::Show,
        !visible ==> toggle(ShortcutState::Pressed, visible, on_top).last() == WindowAction::Focus,
        !visible ==> !toggle(ShortcutState::Pressed, visible, on_top).contains(WindowAction::Hide),
{
    if !visible {
        let actions = toggle(ShortcutState::Pressed, visible, on_top);
        if actions.contains(WindowAction::Hide) {
            let i = choose|i: int| 0 <= i < actions.len() && actions[i] == WindowAction::Hide;
            assert(actions[i] != WindowAction::Hide);
        }
    }
}

} // verus!
