use vstd::prelude::*;

verus! {

use crate::config::Config;
use crate::geometry::Point;
use crate::geometry::dist_sq;
use crate::geometry::dist_sq_u64;
use crate::geometry::target_in_bounds;
use crate::rng::random_below;

/// Places a target at the given in-range coordinates and computes the
/// squared straight-line distance from `from` to it.  The distance is
/// fixed here, at generation time, and callers store it unchanged for
/// the rest of the trial.
pub fn place_target(config: &Config, from: Point, rx: i64, ry: i64) -> (r: (Point, u64))
    requires
        config.wf(),
        from.wf(),
        0 <= rx < config.x_range(),
        0 <= ry < config.y_range(),
    ensures
        r.0 == (Point { x: rx, y: ry }),
        target_in_bounds(r.0, *config),
        r.1 == dist_sq(from, r.0),
{
    let target = Point { x: rx, y: ry };
    let d = dist_sq_u64(from, target);
    (target, d)
}

/// Draws a target position uniformly within the window bounds and
/// computes its squared distance from `from`.  Every outcome lies
/// within bounds; which position comes out is up to the random source.
pub fn generate(config: &Config, from: Point) -> (r: (Point, u64))
    requires
        config.wf(),
        from.wf(),
    ensures
        target_in_bounds(r.0, *config),
        r.1 == dist_sq(from, r.0),
{
    let rx = random_below(config.x_range_len());
    let ry = random_below(config.y_range_len());
    place_target(config, from, rx, ry)
}

} // verus!
