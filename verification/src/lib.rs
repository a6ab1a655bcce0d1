//! Core simulation engine for a four-button "Simon says" memory game.
//!
//! The engine shows a growing pattern of colored buttons lighting up, then
//! asks the player to reproduce it in order.  A full reproduction extends the
//! pattern and raises the score; any wrong press clears the pattern and
//! resets the current score.  This crate owns the game's state, timing and
//! rules; rendering, audio and input devices live outside and only exchange
//! plain events with it.

pub mod animator;
pub mod button;
pub mod game;
pub mod pattern;
pub mod rng;
pub mod score;
