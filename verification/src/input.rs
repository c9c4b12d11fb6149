//! Keyboard movement state. The window shell translates raw key events
//! into [`InputKey`] values; the state kept here is the per-frame input
//! snapshot consumed by component updates.

use vstd::prelude::*;

verus! {

/// The keys the engine reacts to. Anything else maps to `Other`.
#[derive(Clone, Copy, Debug, PartialEq, Eq, Structural)]
pub enum InputKey {
    W,
    A,
    S,
    D,
    Up,
    Down,
    Left,
    Right,
    Other,
}

/// A read-only snapshot of the movement keys, handed to component updates.
#[derive(Clone, Copy, Debug, PartialEq, Eq, Structural)]
pub struct ReadOnlyInput {
    pub is_down_pressed: bool,
    pub is_left_pressed: bool,
    pub is_right_pressed: bool,
    pub is_up_pressed: bool,
}

impl ReadOnlyInput {
    /// A snapshot with no key pressed.
    pub fn new() -> (r: ReadOnlyInput)
        ensures
            r == (ReadOnlyInput {
                is_down_pressed: false,
                is_left_pressed: false,
                is_right_pressed: false,
                is_up_pressed: false,
            }),
    {
        ReadOnlyInput {
            is_down_pressed: false,
            is_left_pressed: false,
            is_right_pressed: false,
            is_up_pressed: false,
        }
    }

    pub fn is_down_pressed(&self) -> (r: bool)
        ensures
            r == self.is_down_pressed,
    {
        self.is_down_pressed
    }

    pub fn is_left_pressed(&self) -> (r: bool)
        ensures
            r == self.is_left_pressed,
    {
        self.is_left_pressed
    }

    pub fn is_right_pressed(&self) -> (r: bool)
        ensures
            r == self.is_right_pressed,
    {
        self.is_right_pressed
    }

    pub fn is_up_pressed(&self) -> (r: bool)
        ensures
            r == self.is_up_pressed,
    {
        self.is_up_pressed
    }
}

/// The live keyboard state, updated by key events.
pub struct Input {
    pub is_down_pressed: bool,
    pub is_left_pressed: bool,
    pub is_right_pressed: bool,
    pub is_up_pressed: bool,
}

impl Input {
    /// The state with no key pressed.
    pub fn new() -> (r: Input)
        ensures
            !r.is_down_pressed,
            !r.is_left_pressed,
            !r.is_right_pressed,
            !r.is_up_pressed,
    {
        Input {
            is_down_pressed: false,
            is_left_pressed: false,
            is_right_pressed: false,
            is_up_pressed: false,
        }
    }

    /// Freeze the current state into a snapshot for this frame.
    pub fn to_read_only(&self) -> (r: ReadOnlyInput)
        ensures
            r.is_down_pressed == self.is_down_pressed,
            r.is_left_pressed == self.is_left_pressed,
            r.is_right_pressed == self.is_right_pressed,
            r.is_up_pressed == self.is_up_pressed,
    {
        ReadOnlyInput {
            is_down_pressed: self.is_down_pressed,
            is_left_pressed: self.is_left_pressed,
            is_right_pressed: self.is_right_pressed,
            is_up_pressed: self.is_up_pressed,
        }
    }

    /// Apply one key transition. Returns whether the key was one the
    /// engine consumes; an unrecognized key leaves the state untouched.
    pub fn handle_event(&mut self, key: InputKey, pressed: bool) -> (handled: bool)
        ensures
            handled == (key != InputKey::Other),
            final(self).is_up_pressed == (if key == InputKey::W || key == InputKey::Up {
                pressed
            } else {
                old(self).is_up_pressed
            }),
            final(self).is_left_pressed == (if key == InputKey::A || key == InputKey::Left {
                pressed
            } else {
                old(self).is_left_pressed
            }),
            final(self).is_down_pressed == (if key == InputKey::S || key == InputKey::Down {
                pressed
            } else {
                old(self).is_down_pressed
            }),
            final(self).is_right_pressed == (if key == InputKey::D || key == InputKey::Right {
                pressed
            } else {
                old(self).is_right_pressed
            }),
    {
        match key {
            InputKey::W | InputKey::Up => {
                self.is_up_pressed = pressed;
                true
            },
            InputKey::A | InputKey::Left => {
                self.is_left_pressed = pressed;
                true
            },
            InputKey::S | InputKey::Down => {
                self.is_down_pressed = pressed;
                true
            },
            InputKey::D | InputKey::Right => {
                self.is_right_pressed = pressed;
                true
            },
            InputKey::Other => false,
        }
    }
}

} // verus!
