//! The rules of a small side-scrolling arcade game: a player that falls under
//! gravity and jumps on input, pipe pairs that scroll past and are recycled,
//! and the box-overlap test that ends the game.
//!
//! Lengths are integers in micro-pixels and time spans are integers in
//! milliseconds, so every rule is exact arithmetic.
pub mod geometry;
pub mod constants;
pub mod resources;
pub mod collision;
pub mod systems;
pub mod setup;
