//! Keyboard state and what a key press means.

use vstd::prelude::*;
use std::collections::HashSet;
use crate::system::Command;

verus! {

/// The set of keys that are held down, each key known by its code.
pub struct InputHandler {
    keys: HashSet<u32>,
}

impl View for InputHandler {
    type V = Set<u32>;

    closed spec fn view(&self) -> Set<u32> {
        self.keys@
    }
}

impl InputHandler {
    /// No key is held down.
    pub fn new() -> (handler: InputHandler)
        ensures
            handler@ == Set::<u32>::empty(),
    {
        InputHandler { keys: HashSet::new() }
    }

    /// Records that `key` went down or came up.
    pub fn set_key(&mut self, key: u32, pressed: bool)
        ensures
            final(self)@ == (if pressed {
                old(self)@.insert(key)
            } else {
                old(self)@.remove(key)
            }),
    {
        if pressed {
            self.keys.insert(key);
        } else {
            self.keys.remove(&key);
        }
    }

    pub fn is_key_pressed(&self, key: u32) -> (pressed: bool)
        ensures
            pressed == self@.contains(key),
    {
        self.keys.contains(&key)
    }
}

impl Default for InputHandler {
    fn default() -> (handler: InputHandler)
        ensures
            handler@ == Set::<u32>::empty(),
    {
        InputHandler::new()
    }
}

/// The keys that mean something to the program; every other key is `Other`.
#[derive(Clone, Copy, Debug, PartialEq, Eq, Structural)]
pub enum Key {
    KeyW,
    KeyA,
    KeyS,
    KeyD,
    ArrowUp,
    ArrowLeft,
    ArrowDown,
    ArrowRight,
    Escape,
    F11,
    KeyR,
    KeyP,
    KeyT,
    KeyQ,
    Other,
}

/// What the program does when a key goes down.
#[derive(Clone, Copy, Debug, PartialEq, Eq, Structural)]
pub enum Action {
    Exit,
    ToggleFullscreen,
    Simulation(Command),
}

impl Key {
    /// Escape leaves, F11 toggles full screen, and R, P, T and Q resume,
    /// pause and restart the simulation and toggle the particle shape. A
    /// key that comes up, or any other key, does nothing.
    pub open spec fn spec_action(self, pressed: bool) -> Option<Action> {
        if !pressed {
            None
        } else {
            match self {
                Key::Escape => Some(Action::Exit),
                Key::F11 => Some(Action::ToggleFullscreen),
                Key::KeyR => Some(Action::Simulation(Command::Resume)),
                Key::KeyP => Some(Action::Simulation(Command::Pause)),
                Key::KeyT => Some(Action::Simulation(Command::Restart)),
                Key::KeyQ => Some(Action::Simulation(Command::ToggleShape)),
                _ => None,
            }
        }
    }

    pub fn action(self, pressed: bool) -> (action: Option<Action>)
        ensures
            action == self.spec_action(pressed),
    {
        if !pressed {
            None
        } else {
            match self {
                Key::Escape => Some(Action::Exit),
                Key::F11 => Some(Action::ToggleFullscreen),
                Key::KeyR => Some(Action::Simulation(Command::Resume)),
                Key::KeyP => Some(Action::Simulation(Command::Pause)),
                Key::KeyT => Some(Action::Simulation(Command::Restart)),
                Key::KeyQ => Some(Action::Simulation(Command::ToggleShape)),
                _ => None,
            }
        }
    }
}

/// Which of the four movement keys are held down.
#[derive(Clone, Copy, Debug, PartialEq, Eq, Structural)]
pub struct MovementKeys {
    pub is_forward_pressed: bool,
    pub is_backward_pressed: bool,
    pub is_left_pressed: bool,
    pub is_right_pressed: bool,
}

impl MovementKeys {
    /// After `key` went down or came up: W or the up arrow is forward, A or
    /// the left arrow is left, S or the down arrow is backward, D or the
    /// right arrow is right; any other key changes nothing.
    pub open spec fn after_key(self, pressed: bool, key: Key) -> MovementKeys {
        match key {
            Key::KeyW | Key::ArrowUp => MovementKeys { is_forward_pressed: pressed, ..self },
            Key::KeyA | Key::ArrowLeft => MovementKeys { is_left_pressed: pressed, ..self },
            Key::KeyS | Key::ArrowDown => MovementKeys { is_backward_pressed: pressed, ..self },
            Key::KeyD | Key::ArrowRight => MovementKeys { is_right_pressed: pressed, ..self },
            _ => self,
        }
    }

    /// How far the held keys move along the forward axis: one step forward
    /// for the forward key, one back for the backward key.
    pub open spec fn spec_forward_steps(self) -> int {
        (if self.is_forward_pressed {
            1int
        } else {
            0int
        }) - (if self.is_backward_pressed {
            1int
        } else {
            0int
        })
    }

    /// The same along the axis to the right.
    pub open spec fn spec_right_steps(self) -> int {
        (if self.is_right_pressed {
            1int
        } else {
            0int
        }) - (if self.is_left_pressed {
            1int
        } else {
            0int
        })
    }

    /// No key is held down.
    pub fn new() -> (keys: MovementKeys)
        ensures
            keys == (MovementKeys {
                is_forward_pressed: false,
                is_backward_pressed: false,
                is_left_pressed: false,
                is_right_pressed: false,
            }),
    {
        MovementKeys {
            is_forward_pressed: false,
            is_backward_pressed: false,
            is_left_pressed: false,
            is_right_pressed: false,
        }
    }

    pub fn process_keyboard(&mut self, pressed: bool, key: Key)
        ensures
            *final(self) == old(self).after_key(pressed, key),
    {
        match key {
            Key::KeyW | Key::ArrowUp => {
                self.is_forward_pressed = pressed;
            },
            Key::KeyA | Key::ArrowLeft => {
                self.is_left_pressed = pressed;
            },
            Key::KeyS | Key::ArrowDown => {
                self.is_backward_pressed = pressed;
            },
            Key::KeyD | Key::ArrowRight => {
                self.is_right_pressed = pressed;
            },
            _ => {},
        }
    }

    /// Steps along the forward axis and along the axis to the right.
    pub fn steps(&self) -> (steps: (i8, i8))
        ensures
            steps.0 == self.spec_forward_steps(),
            steps.1 == self.spec_right_steps(),
    {
        let mut forward: i8 = 0;
        let mut right: i8 = 0;
        if self.is_forward_pressed {
            forward = forward + 1;
        }
        if self.is_backward_pressed {
            forward = forward - 1;
        }
        if self.is_right_pressed {
            right = right + 1;
        }
        if self.is_left_pressed {
            right = right - 1;
        }
        (forward, right)
    }
}

} // verus!
