//! Movement configuration of the character controller.

use vstd::prelude::*;

verus! {

/// Largest speed (pixels per second) the configuration admits. Together with
/// `MAX_TICK_MS` it keeps every per-tick displacement, `speed * dt_ms`
/// thousandths of a pixel, comfortably inside an `i64`.
pub const MAX_SPEED: u64 = 100_000;

/// Largest tick duration (milliseconds) the controller accepts in one step.
pub const MAX_TICK_MS: u64 = 1_000_000;

/// Largest jump-height budget (thousandths of a pixel) the configuration
/// admits; keeps height accumulation inside a `u64`.
pub const MAX_HEIGHT_BUDGET: u64 = 1_000_000_000_000_000;

/// Speeds and the jump budget of the controlled character. Speeds are in
/// pixels per second; the jump height budget is in thousandths of a pixel.
#[derive(Clone, Copy, Debug, PartialEq, Eq, Structural)]
pub struct Config {
    /// Horizontal speed without the run modifier.
    pub walk_speed: u64,
    /// Horizontal speed with the run modifier held.
    pub run_speed: u64,
    /// Vertical ascent speed while a jump is in progress.
    pub rise_speed: u64,
    /// Vertical descent speed while airborne with no jump in progress.
    pub fall_speed: u64,
    /// Maximum height a single jump may accumulate, in thousandths of a
    /// pixel; ascent is clamped and ends once this budget is spent.
    pub max_jump_height: u64,
}

impl Config {
    /// A configuration is valid when every speed is positive and within the
    /// machine bound, and the jump budget is positive and within its bound.
    /// A zero speed or budget would be a programmer contract violation, not a
    /// runtime condition, so construction rejects it up front.
    pub open spec fn wf(self) -> bool {
        &&& 0 < self.walk_speed <= MAX_SPEED
        &&& 0 < self.run_speed <= MAX_SPEED
        &&& 0 < self.rise_speed <= MAX_SPEED
        &&& 0 < self.fall_speed <= MAX_SPEED
        &&& 0 < self.max_jump_height <= MAX_HEIGHT_BUDGET
    }

    /// Build a configuration, validating it eagerly: `None` exactly when some
    /// speed or the jump budget is zero or over its machine bound.
    pub fn new(
        walk_speed: u64,
        run_speed: u64,
        rise_speed: u64,
        fall_speed: u64,
        max_jump_height: u64,
    ) -> (r: Option<Config>)
        ensures
            ({
                let c = Config { walk_speed, run_speed, rise_speed, fall_speed, max_jump_height };
                if c.wf() {
                    r == Some(c)
                } else {
                    r is None
                }
            }),
    {
        let c = Config { walk_speed, run_speed, rise_speed, fall_speed, max_jump_height };
        if 0 < walk_speed && walk_speed <= MAX_SPEED && 0 < run_speed && run_speed <= MAX_SPEED
            && 0 < rise_speed && rise_speed <= MAX_SPEED && 0 < fall_speed
            && fall_speed <= MAX_SPEED && 0 < max_jump_height
            && max_jump_height <= MAX_HEIGHT_BUDGET {
            Some(c)
        } else {
            None
        }
    }

    /// The demo's own tuning: walk 100 px/s, run 350 px/s, rise 450 px/s,
    /// fall 180 px/s, and a 230-pixel jump budget.
    pub fn standard() -> (c: Config)
        ensures
            c.wf(),
            c.walk_speed == 100,
            c.run_speed == 350,
            c.rise_speed == 450,
            c.fall_speed == 180,
            c.max_jump_height == 230_000,
    {
        Config {
            walk_speed: 100,
            run_speed: 350,
            rise_speed: 450,
            fall_speed: 180,
            max_jump_height: 230_000,
        }
    }
}

} // verus!
