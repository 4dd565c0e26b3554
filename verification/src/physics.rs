//! World, physics and terrain parameters, shared by the simulation core
//! and by any presentation layer.
//!
//! All lengths, speeds and fuel amounts are fixed-point values: one world
//! unit is `SCALE` milli-units. Time deltas are milliseconds, so that a
//! quantity per second times a delta, divided by `SCALE`, is the change
//! over the tick.

use vstd::prelude::*;

verus! {

/// Milli-units per world unit, and milliseconds per second.
pub const SCALE: i64 = 1000;

/// Downward acceleration, milli-units per second per second.
pub const GRAVITY: i64 = 200_000;

/// Main thruster acceleration, milli-units per second per second.
pub const THRUST_POWER: i64 = 400_000;

/// Full tank, milli-units of fuel.
pub const MAX_FUEL: i64 = 100_000;

/// Fuel burned by the main thruster, milli-units per second.
pub const FUEL_CONSUMPTION_RATE: i64 = 10_000;

/// Lateral thrust is this fraction of `THRUST_POWER`.
pub const SIDE_THRUST_NUM: i64 = 7;
pub const SIDE_THRUST_DEN: i64 = 10;

/// Horizontal drag keeps this fraction of the speed each tick.
pub const DRAG_NUM: i64 = 98;
pub const DRAG_DEN: i64 = 100;

/// Collision radius of the rover, milli-units.
pub const ROVER_RADIUS: i64 = 15_000;

/// Spawn point of a fresh rover, milli-units.
pub const SPAWN_X: i64 = 200_000;
pub const SPAWN_Y: i64 = 300_000;

/// Window size, milli-units; the camera leads the rover by a third of the width.
pub const WINDOW_WIDTH: i64 = 1_024_000;
pub const WINDOW_HEIGHT: i64 = 768_000;
pub const CAMERA_LEAD_DEN: i64 = 3;

/// Exponential camera smoothing moves a tenth of the gap each tick.
pub const CAMERA_SMOOTH_DEN: i64 = 10;

/// Distance travelled is the rover's x in hundreds of milli-units.
pub const DISTANCE_DEN: i64 = 100;

/// Horizontal spacing of terrain height samples, milli-units.
pub const SEGMENT_WIDTH: i64 = 50_000;

/// Number of height samples in a terrain.
pub const NUM_SAMPLES: usize = 500;

/// Every this many samples the height takes a random step.
pub const PERTURB_PERIOD: usize = 10;

/// First sample's height, milli-units.
pub const BASE_HEIGHT: i64 = 500_000;

/// Heights are clamped into this band after each random step, milli-units.
pub const MIN_HEIGHT: i64 = 400_000;
pub const MAX_HEIGHT: i64 = 650_000;

/// Each random height step lies in [-DELTA_RANGE, DELTA_RANGE), milli-units.
pub const DELTA_RANGE: i64 = 50_000;

/// Obstacles appear only at sample indices in
/// [OBSTACLE_MARGIN, NUM_SAMPLES - OBSTACLE_MARGIN).
pub const OBSTACLE_MARGIN: usize = 5;

/// An obstacle is placed where a roll in [0, ROLL_RANGE) falls below
/// OBSTACLE_PROB: a five percent chance per candidate index.
pub const ROLL_RANGE: i64 = 100;
pub const OBSTACLE_PROB: i64 = 5;

/// An obstacle's centre sits above the ground by an offset drawn from
/// [OFFSET_MIN, OFFSET_MAX), milli-units.
pub const OFFSET_MIN: i64 = 30_000;
pub const OFFSET_MAX: i64 = 80_000;

/// An obstacle's radius is drawn from [OBSTACLE_RADIUS_MIN, OBSTACLE_RADIUS_MAX),
/// milli-units.
pub const OBSTACLE_RADIUS_MIN: i64 = 20_000;
pub const OBSTACLE_RADIUS_MAX: i64 = 40_000;

/// Seed of the session's terrain: the same layout on every restart.
pub const TERRAIN_SEED: u64 = 42;

/// A tick's time delta must be at most this many milliseconds.
pub const MAX_DT: i64 = 10_000;

/// Speeds and positions saturate at these bounds, milli-units; the
/// representable band of the simulation.
pub const VEL_LIMIT: i64 = 1_000_000_000;
pub const POS_LIMIT: i64 = 1_000_000_000_000;

} // verus!
