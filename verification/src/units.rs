//! Fixed-point units of the simulation and the arithmetic on them.
//!
//! Positions are whole numbers of sub-pixels, spin radii are thousandths of
//! a pixel and sine values are thousandths, so that a sine value times a
//! radius is a whole number of sub-pixels. A uniform draw from `[0, 1)` is
//! the numerator of a fraction over `2^32`; every `u32` is a valid draw.
//!
//! Flakes are kept within `POSITION_MIN..=POSITION_MAX`, a pixel and more
//! short of the ends of an `i64`, so that a fall, a sway or a slide is always
//! the exact sum. Buffers have at most `MAX_CELLS` cells, so that a flake on
//! any cell of a buffer is within that range.

use vstd::prelude::*;

verus! {

/// Columns of the configured buffers.
pub const WIDTH: usize = 600;

/// Rows of the configured buffers.
pub const HEIGHT: usize = 800;

/// Size of the flake pool. Flakes are recycled, never added or removed.
pub const FLAKE_COUNT: usize = 10240;

/// Entries of the sine lookup table: one per hundredth of a radian over a
/// full turn.
pub const SINE_TABLE_SIZE: usize = 628;

/// Table entries per radian: entry `i` of the sine table belongs to the
/// angle of `i / 100` radians.
pub const SINE_STEPS_PER_RADIAN: usize = 100;

/// Table entries a flake's phase moves on per frame.
pub const SPIN_SPEED: usize = 1;

/// Position units per pixel.
pub const SUBPIXELS: i64 = 1_000_000;

/// The furthest a flake is kept from the origin, in sub-pixels, towards
/// either side. A step from there by a pixel or less still fits an `i64`.
pub const POSITION_MAX: i64 = 9_223_372_036_853_000_000;

/// The furthest a flake is kept from the origin towards the negative side.
pub const POSITION_MIN: i64 = -9_223_372_036_853_000_000;

/// The most cells a buffer can have: the whole pixels in `POSITION_MAX`, so
/// that every cell of a buffer is within the reach of a flake.
pub const MAX_CELLS: u64 = 9_223_372_036_853;

/// Fall per frame: 0.2 pixels, in sub-pixels.
pub const TERMINAL_VELOCITY: i64 = 200_000;

/// Recycled flakes re-enter less than this far above the top edge: 5 pixels,
/// in sub-pixels.
pub const RESPAWN_HEIGHT_JITTER: i64 = 5_000_000;

/// Smallest spin radius: 0.2 pixels, in thousandths of a pixel.
pub const SPIN_RADIUS_LOW: i64 = 200;

/// Upper end of the spin radii: 0.5 pixels, in thousandths of a pixel.
pub const SPIN_RADIUS_HIGH: i64 = 500;

/// The sine value 1, in thousandths.
pub const SINE_ONE: i64 = 1000;

/// Denominator of a uniform draw.
pub const DRAW_RANGE: u64 = 0x1_0000_0000;

/// A draw from `[0, 1)` stretched to `[0, range)` and rounded down.
pub open spec fn scaled(draw: u32, range: int) -> int {
    (draw * range) / (DRAW_RANGE as int)
}

/// A position held to the range flakes are kept in.
pub open spec fn held(position: int) -> int {
    if position < POSITION_MIN {
        POSITION_MIN as int
    } else if position > POSITION_MAX {
        POSITION_MAX as int
    } else {
        position
    }
}

/// The pixel coordinate of a position: the position in whole pixels, rounded
/// towards zero, with every negative position on coordinate 0.
pub open spec fn cell(position: int) -> int {
    if position < 0 {
        0
    } else {
        position / (SUBPIXELS as int)
    }
}

/// Stretches a uniform draw to `[0, range)`.
pub fn scale(draw: u32, range: u32) -> (result: u32)
    ensures
        result == scaled(draw, range as int),
        range > 0 ==> result < range,
        range == 0 ==> result == 0,
{
    let wide: u64 = draw as u64;
    let span: u64 = range as u64;
    assert(wide * span <= 0xFFFF_FFFF * span) by (nonlinear_arith)
        requires
            wide <= 0xFFFF_FFFF,
            0 <= span,
    ;
    let product: u64 = wide * span;
    (product / DRAW_RANGE) as u32
}

/// Holds a position to the range flakes are kept in.
pub fn hold(position: i64) -> (result: i64)
    ensures
        result == held(position as int),
        POSITION_MIN <= result <= POSITION_MAX,
{
    if position < POSITION_MIN {
        POSITION_MIN
    } else if position > POSITION_MAX {
        POSITION_MAX
    } else {
        position
    }
}

/// The pixel coordinate of a position.
pub fn cell_of(position: i64) -> (result: i64)
    ensures
        result == cell(position as int),
        0 <= result <= i64::MAX / SUBPIXELS,
        position <= POSITION_MAX ==> result <= MAX_CELLS,
{
    if position < 0 {
        0
    } else {
        position / SUBPIXELS
    }
}

/// A scaled draw never leaves its range.
pub proof fn lemma_scaled_in_range(draw: u32, range: int)
    requires
        range > 0,
    ensures
        0 <= scaled(draw, range) < range,
{
    let d = draw as int;
    assert(0 <= d * range < 0x1_0000_0000 * range) by (nonlinear_arith)
        requires
            0 <= d < 0x1_0000_0000,
            range > 0,
    ;
}

} // verus!
