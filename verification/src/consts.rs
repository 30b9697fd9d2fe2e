//! Tuning constants of the diagram, in fixed-point micro-units.

use vstd::prelude::*;

verus! {

/// Default angular rate, radians per second.
pub const DEFAULT_RATE: i64 = 250_000;

/// Step by which the rate is raised or lowered.
pub const RATE_INCREMENT: i64 = 80_000;

/// Default radius of the unit circle in render space.
pub const UNIT_RADIUS: i64 = 200_000_000;

/// Step by which the radius is raised or lowered.
pub const RADIUS_INCREMENT: i64 = 10_000_000;

/// Seconds a label takes to fade fully out, and to fade fully back in.
pub const FADE_TIME_SECS: i64 = 300_000;

/// How much of the full opacity a fade takes away: the opacity floor is
/// one minus this.
pub const FADE_INTENSITY: i64 = 800_000;

} // verus!
