//! Motion-and-collision kernel of a small chase game: key handling, the
//! per-axis movement state machine of the player, the damage flag, and the
//! enable/disable lifecycle of circular colliders.
//!
//! Geometry (positions, radii, distances) is kept by the host as floating
//! point values; this crate decides what the host does with them.

mod collider;
mod input;
mod player;

pub use collider::{
    lemma_disabled_never_collides, lemma_switching_is_idempotent, Collider, ColliderState,
    ColliderView,
};
pub use input::{Direction, KeyState, Keys};
pub use player::{
    intent, lemma_active_axis_follows_keys, lemma_dead_axis_stays_dead, Action, Player,
    PlayerView, State,
};
