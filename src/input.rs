use vstd::prelude::*;

verus! {

/// Whether a direction button is held down.
#[derive(Clone, Copy, Debug, PartialEq, Eq, Structural)]
pub enum KeyState {
    Pressed,
    NotPressed,
}

/// The four logical directions that key events are mapped to.
#[derive(Clone, Copy, Debug, PartialEq, Eq, Structural)]
pub enum Direction {
    Up,
    Down,
    Left,
    Right,
}

/// The state of the four direction buttons, as the host loop last saw them.
#[derive(Clone, Copy, Debug, PartialEq, Eq, Structural)]
pub struct Keys {
    pub up: KeyState,
    pub down: KeyState,
    pub left: KeyState,
    pub right: KeyState,
}

impl Keys {
    /// The same buttons, with the one for `dir` set to `state`.
    pub open spec fn with(self, dir: Direction, state: KeyState) -> Keys {
        match dir {
            Direction::Up => Keys { up: state, ..self },
            Direction::Down => Keys { down: state, ..self },
            Direction::Left => Keys { left: state, ..self },
            Direction::Right => Keys { right: state, ..self },
        }
    }

    /// No button held.
    pub fn new() -> (r: Keys)
        ensures
            r == (Keys {
                up: KeyState::NotPressed,
                down: KeyState::NotPressed,
                left: KeyState::NotPressed,
                right: KeyState::NotPressed,
            }),
    {
        Keys {
            up: KeyState::NotPressed,
            down: KeyState::NotPressed,
            left: KeyState::NotPressed,
            right: KeyState::NotPressed,
        }
    }

    /// Records a press (`Pressed`) or a release (`NotPressed`) of the button for `dir`;
    /// the other three buttons keep their state.
    pub fn set(&mut self, dir: Direction, state: KeyState)
        ensures
            *final(self) == old(self).with(dir, state),
    {
        match dir {
            Direction::Up => self.up = state,
            Direction::Down => self.down = state,
            Direction::Left => self.left = state,
            Direction::Right => self.right = state,
        }
    }
}

} // verus!
