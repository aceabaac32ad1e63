//! Whether the game holds the mouse and the whole screen.

use vstd::prelude::*;

verus! {

pub struct FocusManager {
    is_focused: bool,
}

impl FocusManager {
    /// Whether the game holds the mouse and the whole screen.
    pub closed spec fn focused(self) -> bool {
        self.is_focused
    }

    /// The game starts out focused.
    pub fn new() -> (manager: Self)
        ensures
            manager.focused(),
    {
        Self { is_focused: true }
    }

    pub fn is_focused(&self) -> (focused: bool)
        ensures
            focused == self.focused(),
    {
        self.is_focused
    }

    /// Takes note of the focus key: a press turns focus over, otherwise it
    /// stays. The answer is the focus to set the window to, if it changed.
    pub fn update(&mut self, focus_key_pressed: bool) -> (change: Option<bool>)
        ensures
            final(self).focused() == (old(self).focused() != focus_key_pressed),
            change == if focus_key_pressed {
                Some(!old(self).focused())
            } else {
                None
            },
    {
        if focus_key_pressed {
            self.is_focused = !self.is_focused;
            Some(self.is_focused)
        } else {
            None
        }
    }
}

} // verus!
