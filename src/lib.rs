//! The game state and rules of a small arcade game: a square slides along the
//! bottom of the playfield and must pass only through descending bars of its
//! own color.
//!
//! Lengths are integers in micropixels (see [`units::PX`]) and time steps are
//! integers in microseconds, so every rule is exact integer arithmetic.

pub mod units;
pub mod color;
pub mod colored_rect;
pub mod world;
pub mod setup;
pub mod host;
pub mod laws;

pub use color::Color;
pub use colored_rect::{ColoredRect, Rect};
pub use host::{ButtonKind, DrawOp, GameEvent, Reaction};
pub use units::{PX, SECOND};
pub use world::App;
