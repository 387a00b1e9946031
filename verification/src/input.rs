//! Pointer state fed to the simulation session: the cursor position in
//! window coordinates and which mouse buttons are held. The windowing
//! layer translates its raw events into [`InputEvent`] values.

use vstd::prelude::*;

verus! {

/// How many distinct mouse buttons are tracked: left, right, middle, and
/// one slot shared by all other buttons.
pub open spec fn button_slots() -> int {
    4
}

/// A pointer event already translated to plain values. `button` is a slot
/// index below [`button_slots`]: 0 left, 1 right, 2 middle, 3 other.
#[derive(Clone, Copy, PartialEq, Eq, Structural, Debug)]
pub enum InputEvent {
    CursorMoved { x: u64, y: u64 },
    MouseInput { button: usize, pressed: bool },
}

/// The current pointer state.
pub struct InputState {
    mouse_pos: (u64, u64),
    button_left: bool,
    button_right: bool,
    button_middle: bool,
    button_other: bool,
}

impl InputState {
    /// The tracked cursor position.
    pub closed spec fn spec_mouse_pos(&self) -> (u64, u64) {
        self.mouse_pos
    }

    /// Whether button slot `i` is held.
    pub closed spec fn spec_button(&self, i: int) -> bool {
        if i == 0 {
            self.button_left
        } else if i == 1 {
            self.button_right
        } else if i == 2 {
            self.button_middle
        } else {
            self.button_other
        }
    }

    /// Whether the button in slot `button` is currently held.
    pub fn is_button_pressed(&self, button: usize) -> (r: bool)
        requires
            button < button_slots(),
        ensures
            r == self.spec_button(button as int),
    {
        match button {
            0 => self.button_left,
            1 => self.button_right,
            2 => self.button_middle,
            _ => self.button_other,
        }
    }

    /// The last cursor position reported.
    pub fn get_mouse_pos(&self) -> (r: (u64, u64))
        ensures
            r == self.spec_mouse_pos(),
    {
        self.mouse_pos
    }

    /// Folds one pointer event into the state. Button transitions are
    /// applied only when `update_mouse_buttons` holds, so a click captured
    /// by an overlay panel can still move the cursor without painting.
    pub fn update_input(&mut self, event: &InputEvent, update_mouse_buttons: bool)
        requires
            *event matches InputEvent::MouseInput { button, pressed } ==> button < button_slots(),
        ensures
            *event matches InputEvent::CursorMoved { x, y } ==> {
                &&& final(self).spec_mouse_pos() == (x, y)
                &&& forall|i: int| final(self).spec_button(i) == old(self).spec_button(i)
            },
            *event matches InputEvent::MouseInput { button, pressed } ==> {
                &&& final(self).spec_mouse_pos() == old(self).spec_mouse_pos()
                &&& update_mouse_buttons ==> {
                    &&& final(self).spec_button(button as int) == pressed
                    &&& forall|i: int|
                        0 <= i < button_slots() && i != button ==> final(self).spec_button(i)
                            == old(self).spec_button(i)
                }
                &&& !update_mouse_buttons ==> forall|i: int|
                    final(self).spec_button(i) == old(self).spec_button(i)
            },
    {
        match event {
            InputEvent::CursorMoved { x, y } => {
                self.mouse_pos = (*x, *y);
            },
            InputEvent::MouseInput { button, pressed } => {
                if update_mouse_buttons {
                    match *button {
                        0 => {
                            self.button_left = *pressed;
                        },
                        1 => {
                            self.button_right = *pressed;
                        },
                        2 => {
                            self.button_middle = *pressed;
                        },
                        _ => {
                            self.button_other = *pressed;
                        },
                    }
                }
            },
        }
    }
}

impl Default for InputState {
    /// The idle state: cursor at the origin, no button held.
    fn default() -> (s: Self)
        ensures
            s.spec_mouse_pos() == (0u64, 0u64),
            forall|i: int| !s.spec_button(i),
    {
        InputState {
            mouse_pos: (0, 0),
            button_left: false,
            button_right: false,
            button_middle: false,
            button_other: false,
        }
    }
}

} // verus!
