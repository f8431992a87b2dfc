//! Configuration constants for the simulation core.
//!
//! Times are in milliseconds, rates (rotation speed, FPS) in milli-units
//! (1000 = 1.0), angles in fixed-point angle units where `TURN_UNITS`
//! is one full revolution.

use vstd::prelude::*;

verus! {

/// Entities created by one spawn batch.
pub const BATCH_SIZE: u32 = 10_000;

/// Hard cap on the total entity count; a batch that would push the
/// population past it is rejected and the counters stay as they were.
pub const MAX_TOTAL_ENTITIES: u32 = u32::MAX;

/// Length of one non-overlapping FPS averaging window, in milliseconds.
pub const WINDOW_DURATION_MS: u64 = 3_000;

/// Cadence of the FPS display refresh, in milliseconds.
pub const DISPLAY_INTERVAL_MS: u64 = 1_000;

/// Cadence of the periodic console report, in milliseconds.
pub const REPORT_INTERVAL_MS: u64 = 5_000;

/// Capacity of the fallback FPS history sequence.
pub const HISTORY_CAPACITY: usize = 150;

/// Largest instantaneous FPS sample the telemetry accepts, in milli-FPS
/// (one frame per millisecond, i.e. 1000.0 FPS).
pub const FPS_SAMPLE_MAX: u64 = 1_000_000;

/// Placement: angular step between consecutive entities of a batch,
/// in milliradians.
pub const ANGLE_STEP_MILLI: u64 = 120;

/// Placement: radius of the innermost ring, in milli-units of distance.
pub const BASE_RADIUS_MILLI: u64 = 20_000;

/// Placement: how much further out each later batch starts, milli-units.
pub const RADIUS_GROWTH_MILLI: u64 = 12_000;

/// Placement: fine outward drift per entity within a batch, milli-units.
pub const RADIUS_FINE_MILLI: u64 = 15;

/// Placement: period of the height pattern within a batch.
pub const HEIGHT_PERIOD: u64 = 32;

/// Placement: height contribution per step of the pattern, milli-units.
pub const HEIGHT_SCALE_MILLI: u64 = 500;

/// Placement: how much higher each later batch sits, milli-units.
pub const HEIGHT_GROWTH_MILLI: u64 = 6_000;

/// Placement: constant downward shift of the height pattern, milli-units.
pub const HEIGHT_OFFSET_MILLI: u64 = 8_000;

/// Rotation speed of the single reference entity, milli-units.
pub const REFERENCE_SPEED_MILLI: u32 = 1_000;

/// Rotation speed decay per batch, milli-units.
pub const SPEED_DECAY_MILLI: u32 = 30;

/// Lower clamp of a batch's rotation speed, milli-units.
pub const MIN_SPEED_MILLI: u32 = 100;

/// Upper clamp of a batch's rotation speed, milli-units.
pub const MAX_SPEED_MILLI: u32 = 1_000;

/// One full revolution in rotation angle units. One unit is the rotation
/// advanced in one millisecond at speed 0.001 and axis weight 0.01, so a
/// whole turn (two pi radians) is 628_318_530 units.
pub const TURN_UNITS: u64 = 628_318_530;

/// Per-axis rotation weights, in percent.
pub const WEIGHT_Y_PCT: u64 = 100;

/// See `WEIGHT_Y_PCT`.
pub const WEIGHT_X_PCT: u64 = 70;

/// See `WEIGHT_Y_PCT`.
pub const WEIGHT_Z_PCT: u64 = 30;

/// Orbit camera angular speed, milli-radians per second (0.1 rad/s).
pub const CAMERA_SPEED_MILLI: u32 = 100;

} // verus!
