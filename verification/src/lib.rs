//! Night-phase resolution for a social-deduction party game.
//!
//! A fixed cast of players, each with a hidden faction, a role and
//! modifiers, submit their targets; `schedule::run_night` resolves all night
//! actions in a fixed causal order and leaves, for each player who acted, a
//! result, and in the store the deaths of the night.
//!
//! What each phase does is stated as a function on the mathematical content
//! of the store (`store::StoreModel`); the `run` of each phase is proved to
//! compute it, and `laws` holds what follows for every night.

pub mod bits;
pub mod components;
pub mod entities;
pub mod laws;
pub mod resources;
pub mod schedule;
pub mod store;
pub mod systems;
