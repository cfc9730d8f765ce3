//! Drives the animation of a 2D character from keyboard input.
//!
//! `input` turns key edges into player events, `player` resolves those
//! events, together with the facing that the player keeps, into a clip, and
//! `animation` advances the frame of whatever clip an entity plays.

pub mod animation;
pub mod input;
pub mod player;
