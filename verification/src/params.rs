//! Tuning constants of the simulation, in fixed-point micro-units.

use vstd::prelude::*;

verus! {

/// Horizontal swarm speed base: 1.0 playfield widths per second.
pub const HORIZ_SPEED: i64 = 1_000_000;

/// Vertical swarm speed base: 4.0 playfield widths per second.
pub const VERT_SPEED: i64 = 4_000_000;

/// The swarm reverses right of this x.
pub const RIGHT_MARGIN: i64 = 960_000;

/// The swarm reverses left of this x.
pub const LEFT_MARGIN: i64 = 40_000;

/// How far the swarm descends after touching a margin.
pub const DOWN_DISTANCE: i64 = 40_000;

/// Wiggle-phase speed base, radians per second.
pub const PHASE_SPEED: i64 = 30_000_000;

/// Half turn, in micro-radians; wiggle phases wrap into [-PI_FX, PI_FX).
pub const PI_FX: i64 = 3_141_600;

/// Full turn, in micro-radians.
pub const TWO_PI_FX: i64 = 6_283_200;

/// Bottom of the playfield: an alien past this y has escaped.
pub const BOTTOM_Y: i64 = 1_333_000;

/// A bomb past this y is gone.
pub const BOMB_GONE_Y: i64 = 1_330_000;

/// The y at which the player ship sits.
pub const PLAYER_Y: i64 = 1_270_000;

/// The y at which a fired bullet appears.
pub const BULLET_START_Y: i64 = 1_240_200;

/// The x at which the player starts and respawns.
pub const PLAYER_CENTER_X: i64 = 480_000;

/// Levels are capped here so the speed formulas stay within machine range.
pub const LEVEL_MAX: u32 = 1_000_000;

/// The formation never holds more aliens than this.
pub const ALIEN_MAX: usize = 50;

} // verus!
