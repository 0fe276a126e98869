//! Core of a two-player chess clock: debounced button monitors, the game
//! phase state machine, per-player countdown timers and the display text.
//!
//! Time is handed in as milliseconds of a monotonic clock (`now: u64`), so
//! every rule here is a function of plain values.

pub mod button;
pub mod display;
pub mod game;
pub mod player;
