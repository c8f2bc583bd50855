use vstd::prelude::*;

use crate::input::KeyState;

verus! {

/// The movement intent on one axis.
#[derive(Clone, Copy, Debug, PartialEq, Eq, Structural)]
pub enum Action {
    NoMove,
    Plus,
    Minus,
}

/// The state of one movement axis: steered by the keys, or dead for good.
#[derive(Clone, Copy, Debug, PartialEq, Eq, Structural)]
pub enum State {
    Active(Action),
    Dead,
}

/// The intent given by the two opposing buttons of an axis: exactly one of them
/// held picks its side, both or neither mean no movement.
pub open spec fn intent(minus: KeyState, plus: KeyState) -> Action {
    match (minus, plus) {
        (KeyState::Pressed, KeyState::NotPressed) => Action::Minus,
        (KeyState::NotPressed, KeyState::Pressed) => Action::Plus,
        _ => Action::NoMove,
    }
}

impl Action {
    /// The direction of travel along the axis, as a multiple of one step.
    pub open spec fn sign(self) -> int {
        match self {
            Action::NoMove => 0,
            Action::Plus => 1,
            Action::Minus => -1,
        }
    }
}

impl State {
    /// The state after a key event: an active axis takes the intent of its two
    /// buttons, a dead one stays dead.
    pub open spec fn after_keys(self, minus: KeyState, plus: KeyState) -> State {
        match self {
            State::Active(_) => State::Active(intent(minus, plus)),
            State::Dead => State::Dead,
        }
    }

    /// The direction of travel along the axis; a dead axis does not move.
    pub open spec fn sign(self) -> int {
        match self {
            State::Active(a) => a.sign(),
            State::Dead => 0,
        }
    }

    /// Applies a key event to this axis, given the state of its `minus` and
    /// `plus` buttons.
    pub fn react(self, minus: KeyState, plus: KeyState) -> (r: State)
        ensures
            r == self.after_keys(minus, plus),
    {
        match self {
            State::Active(_) => match (minus, plus) {
                (KeyState::Pressed, KeyState::NotPressed) => State::Active(Action::Minus),
                (KeyState::NotPressed, KeyState::Pressed) => State::Active(Action::Plus),
                _ => State::Active(Action::NoMove),
            },
            State::Dead => State::Dead,
        }
    }

    /// The direction of travel along the axis: 1, -1 or 0.
    pub fn step(self) -> (r: i8)
        ensures
            r == self.sign(),
    {
        match self {
            State::Active(Action::Plus) => 1,
            State::Active(Action::Minus) => -1,
            _ => 0,
        }
    }
}

/// From any active state, exactly one button held picks its side and both or
/// neither stop the axis, and the axis stays active.
pub proof fn lemma_active_axis_follows_keys(a: Action, minus: KeyState, plus: KeyState)
    ensures
        State::Active(a).after_keys(KeyState::Pressed, KeyState::NotPressed) == State::Active(
            Action::Minus,
        ),
        State::Active(a).after_keys(KeyState::NotPressed, KeyState::Pressed) == State::Active(
            Action::Plus,
        ),
        State::Active(a).after_keys(KeyState::Pressed, KeyState::Pressed) == State::Active(
            Action::NoMove,
        ),
        State::Active(a).after_keys(KeyState::NotPressed, KeyState::NotPressed) == State::Active(
            Action::NoMove,
        ),
        State::Active(a).after_keys(minus, plus) is Active,
{
}

/// A dead axis stays dead under every combination of its buttons, and so
/// never moves again.
pub proof fn lemma_dead_axis_stays_dead(minus: KeyState, plus: KeyState)
    ensures
        State::Dead.after_keys(minus, plus) == State::Dead,
        State::Dead.after_keys(minus, plus).sign() == 0,
{
}

/// The player as the kernel sees it: its collider, its two axes and whether
/// it is shown as damaged.
pub struct PlayerView<C> {
    pub collider: C,
    pub horizontal: State,
    pub vertical: State,
    pub damaged: bool,
}

/// The player entity: a collider `C`, which the host moves, and the control
/// state that decides where it goes.
pub struct Player<C> {
    pub collider: C,
    horizontal: State,
    vertical: State,
    damaged: bool,
}

impl<C> View for Player<C> {
    type V = PlayerView<C>;

    closed spec fn view(&self) -> PlayerView<C> {
        PlayerView {
            collider: self.collider,
            horizontal: self.horizontal,
            vertical: self.vertical,
            damaged: self.damaged,
        }
    }
}

impl<C> Player<C> {
    /// A player that stands still on both axes and is not damaged.
    pub fn new(collider: C) -> (r: Self)
        ensures
            r@ == (PlayerView {
                collider,
                horizontal: State::Active(Action::NoMove),
                vertical: State::Active(Action::NoMove),
                damaged: false,
            }),
    {
        Player {
            collider,
            horizontal: State::Active(Action::NoMove),
            vertical: State::Active(Action::NoMove),
            damaged: false,
        }
    }

    /// Takes the current state of the four direction buttons. Left is the minus
    /// side of the horizontal axis; down is the minus side of the vertical one.
    pub fn input(&mut self, left: KeyState, right: KeyState, up: KeyState, down: KeyState)
        ensures
            final(self)@ == (PlayerView {
                horizontal: old(self)@.horizontal.after_keys(left, right),
                vertical: old(self)@.vertical.after_keys(down, up),
                ..old(self)@
            }),
    {
        self.horizontal = self.horizontal.react(left, right);
        self.vertical = self.vertical.react(down, up);
    }

    /// The target offset of this frame in steps of `speed * dt`, on screen
    /// axes: x grows to the right, y grows downwards, so vertical minus (down)
    /// is a positive y offset.
    pub fn heading(&self) -> (r: (i8, i8))
        ensures
            r.0 == self@.horizontal.sign(),
            r.1 == -self@.vertical.sign(),
    {
        let dx = self.horizontal.step();
        let dy = self.vertical.step();
        (dx, -dy)
    }

    /// Shows the player as hit.
    pub fn damage(&mut self)
        ensures
            final(self)@ == (PlayerView { damaged: true, ..old(self)@ }),
    {
        self.damaged = true;
    }

    /// Shows the player as not hit.
    pub fn normal(&mut self)
        ensures
            final(self)@ == (PlayerView { damaged: false, ..old(self)@ }),
    {
        self.damaged = false;
    }

    pub fn horizontal(&self) -> (r: State)
        ensures
            r == self@.horizontal,
    {
        self.horizontal
    }

    pub fn vertical(&self) -> (r: State)
        ensures
            r == self@.vertical,
    {
        self.vertical
    }

    pub fn is_damaged(&self) -> (r: bool)
        ensures
            r == self@.damaged,
    {
        self.damaged
    }
}

} // verus!
