//! The gameplay core of a small vertical platformer: a player jumping between
//! scattered platforms, scoring each platform the first time it lands on it,
//! and a session that ends on reaching the top floor or falling into the death
//! region.
//!
//! All lengths are integers in thousandths of a pixel, velocities in
//! thousandths of a pixel per second, and durations in milliseconds.
pub mod collision;
pub mod game_timer;
pub mod gameplay_state;
pub mod platforms;
pub mod player;
mod random;
pub mod world;
