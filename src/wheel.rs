use vstd::prelude::*;
use crate::events::MouseWheel;

verus! {

/// A frame's wheel activity collapsed to a direction per axis: each of `x` and `y` is
/// `-1`, `0` or `1`.
#[derive(Clone, Copy, Debug, PartialEq, Eq, Structural)]
pub struct MouseWheelState {
    /// The usual scrolling direction of a wheel.
    pub y: i8,
    /// Horizontal scrolling.
    pub x: i8,
}

impl MouseWheelState {
    /// No wheel movement.
    pub fn new() -> (r: MouseWheelState)
        ensures
            r.x == 0,
            r.y == 0,
    {
        MouseWheelState { y: 0, x: 0 }
    }
}

impl Default for MouseWheelState {
    fn default() -> (r: MouseWheelState)
        ensures
            r.x == 0,
            r.y == 0,
    {
        MouseWheelState::new()
    }
}

/// The sign of `v`: `1`, `-1` or `0`.
pub open spec fn sign_of(v: int) -> i8 {
    if v > 0 {
        1
    } else if v < 0 {
        -1i8
    } else {
        0
    }
}

/// The sum of the horizontal deltas of `s`.
pub open spec fn wheel_sum_x(s: Seq<MouseWheel>) -> int
    decreases s.len(),
{
    if s.len() == 0 {
        0
    } else {
        wheel_sum_x(s.drop_last()) + s.last().x
    }
}

/// The sum of the vertical deltas of `s`.
pub open spec fn wheel_sum_y(s: Seq<MouseWheel>) -> int
    decreases s.len(),
{
    if s.len() == 0 {
        0
    } else {
        wheel_sum_y(s.drop_last()) + s.last().y
    }
}

/// The normalized wheel state of a frame's wheel events.
pub open spec fn wheel_state_of(s: Seq<MouseWheel>) -> MouseWheelState {
    MouseWheelState { y: sign_of(wheel_sum_y(s)), x: sign_of(wheel_sum_x(s)) }
}

proof fn lemma_wheel_sums_bounded(s: Seq<MouseWheel>)
    ensures
        -0x8000_0000 * s.len() <= wheel_sum_x(s) <= 0x8000_0000 * s.len(),
        -0x8000_0000 * s.len() <= wheel_sum_y(s) <= 0x8000_0000 * s.len(),
    decreases s.len(),
{
    if s.len() > 0 {
        lemma_wheel_sums_bounded(s.drop_last());
    }
}

/// The sign of an integer: `1` when positive, `-1` when negative, `0` for zero.
pub fn sign(v: i128) -> (r: i8)
    ensures
        r == sign_of(v as int),
{
    if v > 0 {
        1
    } else if v < 0 {
        -1
    } else {
        0
    }
}

/// Sums a frame's wheel deltas per axis and maps each sum to its sign. A frame with no
/// wheel events gives `{0, 0}`.
pub fn normalize_wheel(events: &[MouseWheel]) -> (r: MouseWheelState)
    ensures
        r == wheel_state_of(events@),
        r.x == sign_of(wheel_sum_x(events@)),
        r.y == sign_of(wheel_sum_y(events@)),
        -1 <= r.x <= 1,
        -1 <= r.y <= 1,
        events@.len() == 0 ==> r.x == 0 && r.y == 0,
{
    let mut cumulative_x: i128 = 0;
    let mut cumulative_y: i128 = 0;
    let mut i: usize = 0;
    while i < events.len()
        invariant
            i <= events@.len(),
            cumulative_x == wheel_sum_x(events@.take(i as int)),
            cumulative_y == wheel_sum_y(events@.take(i as int)),
        decreases events@.len() - i,
    {
        proof {
            lemma_wheel_sums_bounded(events@.take(i as int));
            assert(events@.take(i as int + 1).drop_last() =~= events@.take(i as int));
        }
        cumulative_x = cumulative_x + events[i].x as i128;
        cumulative_y = cumulative_y + events[i].y as i128;
        i = i + 1;
    }
    assert(events@.take(events@.len() as int) =~= events@);
    MouseWheelState { y: sign(cumulative_y), x: sign(cumulative_x) }
}

} // verus!
