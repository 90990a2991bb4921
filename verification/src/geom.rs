//! Coordinate system, shared constants, and small arithmetic helpers.
//!
//! Every position and speed in the simulation is an `i64` in centiunits
//! (hundredths of a world unit).  A speed is in centiunits per tick.

use vstd::prelude::*;

verus! {

/// Centiunits per world unit.
pub const SCALE: i64 = 100;

/// Half the screen width: the lateral boundary the formation reverses at.
pub const SCREEN_HALF_WIDTH: i64 = 60_000;

/// Horizontal distance between adjacent formation columns.
pub const COLUMN_SPACING: i64 = 6_000;

/// Vertical distance between adjacent formation rows.
pub const ROW_SPACING: i64 = 4_000;

/// Vertical offset of the formation's top row above the formation origin.
pub const ENEMY_TOP_OFFSET: i64 = 32_500;

/// Fixed vertical position of the player ship.
pub const PLAYER_Y: i64 = -32_500;

/// The player's position is clamped to `[-PLAYER_LIMIT, PLAYER_LIMIT]`.
pub const PLAYER_LIMIT: i64 = 55_000;

/// Horizontal speed of the player while a direction key is held.
pub const PLAYER_SPEED: i64 = 400;

/// How much the formation's horizontal speed grows at each reversal.
pub const SPEED_STEP: i64 = 60;

/// Cap on the formation's horizontal speed magnitude.
pub const SPEED_CAP: i64 = 60_000;

/// Half-extents of an enemy's hit box.
pub const ENEMY_HALF_WIDTH: i64 = 2_800;

/// Half-extents of an enemy's hit box.
pub const ENEMY_HALF_HEIGHT: i64 = 1_700;

/// Horizontal muzzle offset of a spawned projectile, signed by facing.
pub const MUZZLE_OFFSET: i64 = 2_600;

/// Vertical offset of a spawned projectile above the player.
pub const MUZZLE_RISE: i64 = 3_000;

/// Upward speed of a projectile.
pub const SHOT_SPEED: i64 = 400;

/// A projectile whose vertical position exceeds this is retired.
pub const OFF_TOP: i64 = 36_000;

/// Magnitude bound on every stored coordinate; far beyond anything the
/// simulation reaches, it exists so that additions provably fit in `i64`.
pub const COORD_LIMIT: i64 = 1_000_000_000;

/// Magnitude bound on projectile speeds and the formation's descent step.
pub const STEP_LIMIT: i64 = 1_000_000;

/// The formation's horizontal speed at the start of a game.
pub const FORMATION_START_SPEED: i64 = 100;

/// The formation's descent step, taken at each reversal.
pub const DESCENT_STEP: i64 = 1_200;

/// Default hundredths of the player's horizontal velocity a projectile
/// inherits at spawn (a tunable, not a law).
pub const SHOT_DRIFT_NUM: i64 = 8;

/// How long the "just fired" sprite state lasts, in milliseconds.
pub const SHOT_SPRITE_MS: u32 = 100;

/// Period of the enemy animation cycle, in milliseconds.
pub const ANIM_PERIOD_MS: u32 = 200;

/// Division by [`SCALE`] rounding toward zero, as the integer-pixel stepping
/// of the motion rules requires (Euclidean division would round down).
pub open spec fn div_scale_toward_zero(v: int) -> int {
    if v >= 0 {
        v / (SCALE as int)
    } else {
        -((-v) / (SCALE as int))
    }
}

/// `v` clamped into `[lo, hi]`.
pub open spec fn clamped(v: int, lo: int, hi: int) -> int {
    if v < lo {
        lo
    } else if v > hi {
        hi
    } else {
        v
    }
}

/// Division by [`SCALE`] rounding toward zero.
pub fn div_scale(v: i64) -> (r: i64)
    requires
        -0x4000_0000_0000_0000 <= v <= 0x4000_0000_0000_0000,
    ensures
        r == div_scale_toward_zero(v as int),
{
    if v >= 0 {
        (((v as u64) / (SCALE as u64)) as i64)
    } else {
        -((((-v) as u64) / (SCALE as u64)) as i64)
    }
}

/// `v` clamped into `[lo, hi]`.
pub fn clamp_coord(v: i64, lo: i64, hi: i64) -> (r: i64)
    requires
        lo <= hi,
    ensures
        r == clamped(v as int, lo as int, hi as int),
{
    if v < lo {
        lo
    } else if v > hi {
        hi
    } else {
        v
    }
}

} // verus!
