//! Keyboard input state: which of the movement keys and the fire key
//! are held down. The shell maps the engine's key codes to [`Key`] and
//! reports presses and releases; everything else it may report maps to
//! [`Key::Other`] and changes nothing.

use vstd::prelude::*;

verus! {

/// The keys the game reacts to.
#[derive(Clone, Copy, Debug, PartialEq, Eq, Structural)]
pub enum Key {
    Left,
    Right,
    Up,
    Down,
    Space,
    Other,
}

/// Which keys are currently held down.
#[derive(Clone, Copy, Debug, PartialEq, Eq, Structural)]
pub struct Input {
    pub left: bool,
    pub right: bool,
    pub up: bool,
    pub down: bool,
    pub shoot: bool,
}

impl Input {
    /// The state with no key held.
    pub fn new() -> (inp: Input)
        ensures
            inp == (Input { left: false, right: false, up: false, down: false, shoot: false }),
    {
        Input { left: false, right: false, up: false, down: false, shoot: false }
    }

    /// Record that `key` was pressed: the matching flag is raised, the
    /// others are kept.
    pub fn key_down(&mut self, key: Key)
        ensures
            final(self).left == (old(self).left || key == Key::Left),
            final(self).right == (old(self).right || key == Key::Right),
            final(self).up == (old(self).up || key == Key::Up),
            final(self).down == (old(self).down || key == Key::Down),
            final(self).shoot == (old(self).shoot || key == Key::Space),
    {
        match key {
            Key::Left => self.left = true,
            Key::Right => self.right = true,
            Key::Up => self.up = true,
            Key::Down => self.down = true,
            Key::Space => self.shoot = true,
            Key::Other => {},
        }
    }

    /// Record that `key` was released: the matching flag is cleared,
    /// the others are kept.
    pub fn key_up(&mut self, key: Key)
        ensures
            final(self).left == (old(self).left && key != Key::Left),
            final(self).right == (old(self).right && key != Key::Right),
            final(self).up == (old(self).up && key != Key::Up),
            final(self).down == (old(self).down && key != Key::Down),
            final(self).shoot == (old(self).shoot && key != Key::Space),
    {
        match key {
            Key::Left => self.left = false,
            Key::Right => self.right = false,
            Key::Up => self.up = false,
            Key::Down => self.down = false,
            Key::Space => self.shoot = false,
            Key::Other => {},
        }
    }
}

} // verus!
