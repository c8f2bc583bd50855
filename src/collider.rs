use vstd::prelude::*;

verus! {

/// Whether a collider takes part in collision checks.
#[derive(Clone, Copy, Debug, PartialEq, Eq, Structural)]
pub enum ColliderState {
    Enabled,
    Disabled,
}

/// A collider as the kernel sees it: its state and its shape.
pub struct ColliderView<S> {
    pub state: ColliderState,
    pub shape: S,
}

impl<S> ColliderView<S> {
    /// The same collider, enabled.
    pub open spec fn enabled(self) -> ColliderView<S> {
        ColliderView { state: ColliderState::Enabled, ..self }
    }

    /// The same collider, disabled.
    pub open spec fn disabled(self) -> ColliderView<S> {
        ColliderView { state: ColliderState::Disabled, ..self }
    }

    /// Whether a collision between the two is possible at all: both must be
    /// enabled. Whether their shapes overlap is a second, separate test.
    pub open spec fn can_collide(self, other: ColliderView<S>) -> bool {
        self.state == ColliderState::Enabled && other.state == ColliderState::Enabled
    }
}

/// A bounding volume `S` (for the game, a circle) that can be switched off
/// and on without being destroyed. A disabled collider keeps its shape.
pub struct Collider<S> {
    state: ColliderState,
    pub shape: S,
}

impl<S> View for Collider<S> {
    type V = ColliderView<S>;

    closed spec fn view(&self) -> ColliderView<S> {
        ColliderView { state: self.state, shape: self.shape }
    }
}

impl<S> Collider<S> {
    /// A new collider starts enabled.
    pub fn new(shape: S) -> (r: Self)
        ensures
            r@ == (ColliderView { state: ColliderState::Enabled, shape }),
    {
        Collider { state: ColliderState::Enabled, shape }
    }

    pub fn enable(&mut self)
        ensures
            final(self)@ == old(self)@.enabled(),
    {
        self.state = ColliderState::Enabled;
    }

    pub fn disable(&mut self)
        ensures
            final(self)@ == old(self)@.disabled(),
    {
        self.state = ColliderState::Disabled;
    }

    pub fn state(&self) -> (r: ColliderState)
        ensures
            r == self@.state,
    {
        self.state
    }

    /// Whether `self` and `other` may collide: false as soon as either is
    /// disabled, whatever their shapes.
    pub fn can_collide_with(&self, other: &Collider<S>) -> (r: bool)
        ensures
            r == self@.can_collide(other@),
    {
        match (self.state, other.state) {
            (ColliderState::Enabled, ColliderState::Enabled) => true,
            _ => false,
        }
    }
}

/// Enabling is idempotent: enabling twice is enabling once, and enabling an
/// enabled collider leaves it as it was. The same holds of disabling.
pub proof fn lemma_switching_is_idempotent<S>(c: ColliderView<S>)
    ensures
        c.enabled().enabled() == c.enabled(),
        c.disabled().disabled() == c.disabled(),
        c.state == ColliderState::Enabled ==> c.enabled() == c,
        c.state == ColliderState::Disabled ==> c.disabled() == c,
{
}

/// A disabled collider collides with nothing, on either side of the test,
/// whatever the shapes; enabling it again restores the collider it was, so
/// it collides exactly as before.
pub proof fn lemma_disabled_never_collides<S>(a: ColliderView<S>, b: ColliderView<S>)
    ensures
        !a.disabled().can_collide(b),
        !b.can_collide(a.disabled()),
        a.disabled().enabled() == a.enabled(),
        a.state == ColliderState::Enabled ==> a.disabled().enabled() == a,
{
}

} // verus!
