//! Keybinding resolver.
//!
//! Maps a modifier set and a keysym to an action.  A binding triggers only
//! while the designator modifier (Super/Mod4) is held; the keysym then
//! selects the action by exact match.  The resolver is decoupled from the
//! event dispatcher so bindings can be examined on their own.

use vstd::prelude::*;

verus! {

/// Shift modifier bit.
pub const MOD_SHIFT: u32 = 1;

/// Control modifier bit.
pub const MOD_CTRL: u32 = 4;

/// Alt modifier bit.
pub const MOD_ALT: u32 = 8;

/// Super/Mod4 modifier bit: the designator modifier every binding requires.
pub const MOD_SUPER: u32 = 64;

/// Keysym of the letter `q`.
pub const KEYSYM_Q: u32 = 0x71;

/// Keysym of the Down arrow key.
pub const KEYSYM_DOWN: u32 = 0xff54;

/// Keysym of the Escape key.
pub const KEYSYM_ESCAPE: u32 = 0xff1b;

/// Keysym of the Return key.
pub const KEYSYM_RETURN: u32 = 0xff0d;

/// Whether a key event belongs to the press or the release of the key.
#[derive(Clone, Copy, PartialEq, Eq, Structural, Debug)]
pub enum KeyPhase {
    Pressed,
    Released,
}

/// What a matched keybinding asks the dispatcher to do.
#[derive(Clone, Copy, PartialEq, Eq, Structural, Debug)]
pub enum Action {
    /// Ask the backend to close the currently keyboard-targeted view.
    CloseFocusedView,
    /// Send the current view to the back of its output and focus the new top.
    CycleFocusBackward,
    /// Request orderly shutdown of the whole process.
    Terminate,
    /// Spawn the fixed terminal command as a detached child process.
    LaunchTerminal,
}

/// Whether the designator modifier is a member of the modifier set.
pub open spec fn super_held(mods: u32) -> bool {
    mods & MOD_SUPER != 0
}

/// The action bound to `(mods, sym)`: `None` when the designator modifier is
/// not held, and `None` for a keysym no binding claims.
pub open spec fn binding_of(mods: u32, sym: u32) -> Option<Action> {
    if !super_held(mods) {
        None
    } else if sym == KEYSYM_Q {
        Some(Action::CloseFocusedView)
    } else if sym == KEYSYM_DOWN {
        Some(Action::CycleFocusBackward)
    } else if sym == KEYSYM_ESCAPE {
        Some(Action::Terminate)
    } else if sym == KEYSYM_RETURN {
        Some(Action::LaunchTerminal)
    } else {
        None
    }
}

/// Keybinding resolver: pure lookup of the binding table.
pub fn resolve_binding(mods: u32, sym: u32) -> (r: Option<Action>)
    ensures
        r == binding_of(mods, sym),
{
    if mods & MOD_SUPER == 0 {
        None
    } else if sym == KEYSYM_Q {
        Some(Action::CloseFocusedView)
    } else if sym == KEYSYM_DOWN {
        Some(Action::CycleFocusBackward)
    } else if sym == KEYSYM_ESCAPE {
        Some(Action::Terminate)
    } else if sym == KEYSYM_RETURN {
        Some(Action::LaunchTerminal)
    } else {
        None
    }
}

} // verus!
