//! The two fixed measures by which a click, a double click and a drag are told apart.

use vstd::prelude::*;

verus! {

/// How many units of position make one pixel. Positions come as whole numbers of
/// these units, so that a pointer between two pixels keeps its place.
pub const UNITS_PER_PIXEL: i64 = 65_536;

/// How far, in pixels, the pointer must get from where a gesture began before the
/// gesture is a drag. The distance itself does not count: it must be exceeded.
pub const DRAG_THRESHOLD: i64 = 10;

/// How long after a click, in nanoseconds, a second click still makes a double click.
/// The window is open at its end: a click exactly this long after the first is too late.
pub const DOUBLE_CLICK_WINDOW: u128 = 300_000_000;

/// Whether the straight-line distance between the positions `start` and `at` is more
/// than the drag threshold.
pub open spec fn beyond_drag_threshold(start: (i64, i64), at: (i64, i64)) -> bool {
    (at.0 - start.0) * (at.0 - start.0) + (at.1 - start.1) * (at.1 - start.1) > (DRAG_THRESHOLD
        * UNITS_PER_PIXEL) * (DRAG_THRESHOLD * UNITS_PER_PIXEL)
}

/// The time from `earlier` to `later` on the monotonic clock; zero if `later` is in
/// fact no later.
pub open spec fn elapsed(earlier: u128, later: u128) -> nat {
    if later >= earlier {
        (later - earlier) as nat
    } else {
        0
    }
}

/// Whether a click at `now` is within the double-click window of a click at `last`.
pub open spec fn within_double_click_window(last: u128, now: u128) -> bool {
    elapsed(last, now) < DOUBLE_CLICK_WINDOW
}

/// Tells whether the pointer at `at` is farther than the drag threshold from `start`.
pub fn exceeds_drag_threshold(start: (i64, i64), at: (i64, i64)) -> (r: bool)
    ensures
        r == beyond_drag_threshold(start, at),
{
    let dx: i128 = at.0 as i128 - start.0 as i128;
    let dy: i128 = at.1 as i128 - start.1 as i128;
    assert(DRAG_THRESHOLD * UNITS_PER_PIXEL == 655_360) by (nonlinear_arith)
        requires
            DRAG_THRESHOLD == 10,
            UNITS_PER_PIXEL == 65_536,
    ;
    let limit: i128 = DRAG_THRESHOLD as i128 * UNITS_PER_PIXEL as i128;
    if dx > limit || dx < -limit {
        assert(dx * dx + dy * dy > limit * limit) by (nonlinear_arith)
            requires
                dx > limit || dx < -limit,
                limit >= 0,
        ;
        true
    } else if dy > limit || dy < -limit {
        assert(dx * dx + dy * dy > limit * limit) by (nonlinear_arith)
            requires
                dy > limit || dy < -limit,
                limit >= 0,
        ;
        true
    } else {
        assert(0 <= dx * dx <= limit * limit && 0 <= dy * dy <= limit * limit && limit * limit
            == 429_496_729_600) by (nonlinear_arith)
            requires
                -limit <= dx <= limit,
                -limit <= dy <= limit,
                limit == 655_360,
        ;
        dx * dx + dy * dy > limit * limit
    }
}

/// Tells whether a click at `now` comes within the double-click window of one at `last`.
pub fn is_double_click(last: u128, now: u128) -> (r: bool)
    ensures
        r == within_double_click_window(last, now),
{
    if now >= last {
        now - last < DOUBLE_CLICK_WINDOW
    } else {
        true
    }
}

} // verus!
