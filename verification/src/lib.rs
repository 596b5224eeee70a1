//! Core of a small 2D arcade game: a flat list of tagged entities, a
//! keyboard input state, per-frame movement of the player, a scrolling
//! background offset, a frame counter and a score label. The rendering
//! shell around it owns the window, the sprites and the clock and hands
//! this crate plain values.

pub mod entity;
pub mod input;
pub mod score;
pub mod state;
