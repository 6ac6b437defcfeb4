use vstd::prelude::*;

verus! {

/// Micropixels in one pixel: every length and position is counted in them.
pub const PX: i64 = 1_000_000;

/// Height of the playfield; a bar whose top lies below it is off the field.
pub const FIELD_BOTTOM: i64 = 720 * PX;

/// A background tile that scrolls past this offset jumps back to `-BG_WRAP`.
pub const BG_WRAP: i64 = 720 * PX;

/// Downward speed of bars and background, in micropixels per microsecond
/// (that is, pixels per second).
pub const SPEED: i64 = 100;

/// Microseconds in one second.
pub const SECOND: u32 = 1_000_000;

/// How far bars and background move down during a step of `dt` microseconds.
pub open spec fn shift(dt: u32) -> int {
    SPEED * dt
}

} // verus!
