use vstd::prelude::*;

verus! {

use crate::config::COORD_LIMIT;
use crate::config::Config;

/// A 2D coordinate in window pixel space.
#[derive(Clone, Copy, PartialEq, Eq, Structural, Debug)]
pub struct Point {
    pub x: i64,
    pub y: i64,
}

impl Point {
    pub open spec fn wf(self) -> bool {
        &&& -COORD_LIMIT <= self.x <= COORD_LIMIT
        &&& -COORD_LIMIT <= self.y <= COORD_LIMIT
    }

    /// Builds a point whose coordinates are forced into the admissible
    /// range; coordinates already in range pass through unchanged.
    pub fn new_clamped(x: i64, y: i64) -> (p: Point)
        ensures
            p.wf(),
            (-COORD_LIMIT <= x <= COORD_LIMIT && -COORD_LIMIT <= y <= COORD_LIMIT) ==> p == (Point {
                x,
                y,
            }),
    {
        let cx: i64 = if x < -COORD_LIMIT {
            -COORD_LIMIT
        } else if x > COORD_LIMIT {
            COORD_LIMIT
        } else {
            x
        };
        let cy: i64 = if y < -COORD_LIMIT {
            -COORD_LIMIT
        } else if y > COORD_LIMIT {
            COORD_LIMIT
        } else {
            y
        };
        Point { x: cx, y: cy }
    }
}

/// Squared Euclidean distance between two points.
pub open spec fn dist_sq(a: Point, b: Point) -> int {
    (b.x - a.x) * (b.x - a.x) + (b.y - a.y) * (b.y - a.y)
}

/// The target hit test: the cursor is over a target square of the given
/// edge length iff its x lies within the closed interval
/// [target.x, target.x + size] and its y within the half-open interval
/// [target.y, target.y + size).  The asymmetry between the axes is part
/// of the behaviour and deliberately kept.
pub open spec fn hit(cursor: Point, target: Point, size: i64) -> bool {
    &&& target.x <= cursor.x <= target.x + size
    &&& target.y <= cursor.y < target.y + size
}

/// Where a target may legally sit: within the window, leaving room for
/// the target square itself.
pub open spec fn target_in_bounds(target: Point, config: Config) -> bool {
    &&& 0 <= target.x < config.x_range()
    &&& 0 <= target.y < config.y_range()
}

/// Executable hit test, equal to the `hit` predicate.
pub fn hit_test(cursor: Point, target: Point, size: i64) -> (r: bool)
    requires
        cursor.wf(),
        target.wf(),
        0 <= size <= COORD_LIMIT,
    ensures
        r == hit(cursor, target, size),
{
    target.x <= cursor.x && cursor.x <= target.x + size && target.y <= cursor.y && cursor.y
        < target.y + size
}

/// Executable squared distance; the coordinate bound keeps the exact
/// value within `u64`.
pub fn dist_sq_u64(a: Point, b: Point) -> (r: u64)
    requires
        a.wf(),
        b.wf(),
    ensures
        r == dist_sq(a, b),
{
    let dx: i64 = b.x - a.x;
    let dy: i64 = b.y - a.y;
    proof {
        lemma_square_bound(dx as int);
        lemma_square_bound(dy as int);
    }
    let s: i64 = dx * dx + dy * dy;
    s as u64
}

/// A coordinate difference of magnitude at most `2 * COORD_LIMIT` has a
/// square between 0 and `4 * COORD_LIMIT^2`, which keeps a sum of two
/// such squares well inside both `i64` and `u64`.
proof fn lemma_square_bound(d: int)
    requires
        -2_000_000_000 <= d <= 2_000_000_000,
    ensures
        0 <= d * d <= 4_000_000_000_000_000_000,
{
    assert(0 <= d * d <= 4_000_000_000_000_000_000) by (nonlinear_arith)
        requires
            -2_000_000_000 <= d <= 2_000_000_000,
    ;
}

} // verus!
