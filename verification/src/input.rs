//! Input bookkeeping: which movement keys are held, and the one-tick
//! edge-triggered jump flag.
//!
//! The OS event layer translates physical key events into [`Key`] values and
//! feeds them to [`InputState`]. The jump flag arms only on a press of a key
//! that was not already held (key-repeat events do not re-arm it) and is
//! cleared exactly once per simulation tick by [`InputResetSystem`].

use vstd::prelude::*;

verus! {

/// The keys the simulation distinguishes. Several physical keys may map to
/// one `Key` (left arrow and `A` both mean `Left`).
#[derive(Clone, Copy, Debug, PartialEq, Eq, Structural)]
pub enum Key {
    Left,
    Right,
    Jump,
}

/// Currently-held movement keys plus the edge-triggered "jump pressed this
/// tick" flag.
#[derive(Clone, Copy, Debug, PartialEq, Eq, Structural)]
pub struct InputState {
    pub left_held: bool,
    pub right_held: bool,
    pub jump_held: bool,
    pub jump_pressed: bool,
}

/// The state after a key-press event: the key becomes held, and a fresh press
/// of the jump key (one that was not already held) arms the jump flag.
pub open spec fn spec_key_pressed(s: InputState, key: Key) -> InputState {
    InputState {
        left_held: s.left_held || key == Key::Left,
        right_held: s.right_held || key == Key::Right,
        jump_held: s.jump_held || key == Key::Jump,
        jump_pressed: s.jump_pressed || (key == Key::Jump && !s.jump_held),
    }
}

/// The state after a key-release event: the key stops being held. The jump
/// flag is untouched; only the end-of-tick reset clears it.
pub open spec fn spec_key_released(s: InputState, key: Key) -> InputState {
    InputState {
        left_held: s.left_held && key != Key::Left,
        right_held: s.right_held && key != Key::Right,
        jump_held: s.jump_held && key != Key::Jump,
        jump_pressed: s.jump_pressed,
    }
}

/// The state after the end-of-tick reset: the jump flag is consumed, held
/// keys are kept.
pub open spec fn spec_input_reset(s: InputState) -> InputState {
    InputState { jump_pressed: false, ..s }
}

impl InputState {
    /// No key held, no jump pending.
    pub fn new() -> (s: InputState)
        ensures
            s == (InputState {
                left_held: false,
                right_held: false,
                jump_held: false,
                jump_pressed: false,
            }),
    {
        InputState { left_held: false, right_held: false, jump_held: false, jump_pressed: false }
    }

    /// Record a key-press event.
    pub fn key_pressed(&mut self, key: Key)
        ensures
            *final(self) == spec_key_pressed(*old(self), key),
    {
        match key {
            Key::Left => {
                self.left_held = true;
            },
            Key::Right => {
                self.right_held = true;
            },
            Key::Jump => {
                if !self.jump_held {
                    self.jump_pressed = true;
                }
                self.jump_held = true;
            },
        }
    }

    /// Record a key-release event.
    pub fn key_released(&mut self, key: Key)
        ensures
            *final(self) == spec_key_released(*old(self), key),
    {
        match key {
            Key::Left => {
                self.left_held = false;
            },
            Key::Right => {
                self.right_held = false;
            },
            Key::Jump => {
                self.jump_held = false;
            },
        }
    }
}

/// Clears single-tick input flags; runs as the last stage of every
/// simulation tick, so the jump edge fires for exactly one tick no matter
/// how long the key stays down.
pub struct InputResetSystem;

impl InputResetSystem {
    /// Consume the jump edge flag, keeping the held keys.
    pub fn run(input: &mut InputState)
        ensures
            *final(input) == spec_input_reset(*old(input)),
    {
        input.jump_pressed = false;
    }
}

} // verus!
