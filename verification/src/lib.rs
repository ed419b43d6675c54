//! Collision interpretation and session state for a top-down action game.
//!
//! The crate turns the raw collision notifications of a physics engine into
//! gameplay events, and keeps the state that those events change: the
//! player's health and counters, the level that is loaded, and the phase of
//! the session.

pub mod collision;
pub mod events;
pub mod game;
pub mod layer_filters;
pub mod layers;
pub mod level;
pub mod levels;
pub mod player;
pub mod session;
pub mod texture;
pub mod types;
pub mod ui;
