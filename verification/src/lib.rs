//! A verified core for a single-player breakout simulation.
//!
//! The library owns the whole simulation state — ball, paddle and the
//! destructible block field — and advances it one tick at a time. Every
//! rule of the game (wall, paddle and block collisions, the 1.01 speed
//! amplification on each reflection, the bounded paddle movement and the
//! win/loss detection) is stated as a contract and proved.
//!
//! All geometry is carried in milli-units: one board unit is 1000
//! subunits, so the 630x350 board spans 630_000 x 350_000. This keeps
//! every quantity of the game (including the 0.2-unit ball speed and the
//! 342.5-unit paddle cutoff) an exact integer.
//!
//! Rendering, audio and input devices are left to the caller: each tick
//! reports whether the bounce cue should play, and the state is plain
//! data a presentation layer can draw.

pub mod ball;
pub mod blocks;
pub mod board;
pub mod collision;
pub mod game;
pub mod paddle;

pub use ball::Ball;
pub use game::Game;
pub use blocks::BlockField;
pub use paddle::Paddle;
