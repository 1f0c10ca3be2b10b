use vstd::prelude::*;

verus! {

/// Largest magnitude allowed for a pixel coordinate.  Keeping every
/// coordinate within this bound guarantees that the squared distance
/// between any two admissible points fits in a `u64`.
pub const COORD_LIMIT: i64 = 1_000_000_000;

/// Default edge length of the click target, in pixels.
pub const DEFAULT_TARGET_SIZE: i64 = 20;

/// Default number of measured trials in a session.
pub const DEFAULT_TRIAL_COUNT: u32 = 5;

/// Default number of warm-up clicks discarded before measuring starts.
pub const DEFAULT_IGNORE_FIRST: u32 = 3;

/// Default grace delay before a new target appears, in microseconds.
/// The state machine itself is unit-agnostic; this default assumes the
/// caller feeds time deltas in microseconds.
pub const DEFAULT_DELAY_MICROS: u64 = 200_000;

/// Session configuration: window bounds, target size, the grace delay
/// before a new target appears, the number of measured trials, and how
/// many initial qualifying clicks are discarded as warm-up.
#[derive(Clone, Copy, PartialEq, Eq, Structural, Debug)]
pub struct Config {
    pub width: i64,
    pub height: i64,
    pub target_size: i64,
    pub delay_threshold: u64,
    pub trial_count: u32,
    pub ignore_first: u32,
}

impl Config {
    pub open spec fn wf(self) -> bool {
        &&& 1 <= self.target_size <= COORD_LIMIT
        &&& 1 <= self.width <= COORD_LIMIT
        &&& 1 <= self.height <= COORD_LIMIT
        &&& 1 <= self.trial_count
    }

    /// Number of x coordinates a target may be placed at.  When the
    /// window is too narrow to fit a target the range degenerates to
    /// the single coordinate 0 rather than failing.
    pub open spec fn x_range(self) -> int {
        if self.width > self.target_size {
            self.width - self.target_size
        } else {
            1
        }
    }

    /// Number of y coordinates a target may be placed at; degenerates
    /// to the single coordinate 0 as `x_range` does.
    pub open spec fn y_range(self) -> int {
        if self.height > self.target_size {
            self.height - self.target_size
        } else {
            1
        }
    }

    pub fn is_valid(&self) -> (r: bool)
        ensures
            r == self.wf(),
    {
        1 <= self.target_size && self.target_size <= COORD_LIMIT
            && 1 <= self.width && self.width <= COORD_LIMIT
            && 1 <= self.height && self.height <= COORD_LIMIT
            && 1 <= self.trial_count
    }

    pub fn x_range_len(&self) -> (r: i64)
        requires
            self.wf(),
        ensures
            r == self.x_range(),
    {
        if self.width > self.target_size {
            self.width - self.target_size
        } else {
            1
        }
    }

    pub fn y_range_len(&self) -> (r: i64)
        requires
            self.wf(),
        ensures
            r == self.y_range(),
    {
        if self.height > self.target_size {
            self.height - self.target_size
        } else {
            1
        }
    }
}

} // verus!
