use vstd::prelude::*;
use crate::events::{CursorMoved, HostFrame, MouseButton, MouseMotion};
use crate::geometry::{app_point, to_app_space, to_motion_space, Vec2, WindowSize};
use crate::wheel::{normalize_wheel, wheel_state_of, MouseWheelState};

verus! {

/// The collapsed state of the mouse after the last frame's sync.
///
/// `location` is `None` until the first location event ever arrives and keeps its value
/// through frames without one. `motion` and `wheel` describe the last frame alone. The
/// three button sets are the host's own, copied each frame.
#[derive(Clone, Debug)]
pub struct MouseState {
    location: Option<Vec2>,
    motion: Vec2,
    wheel: MouseWheelState,
    pressed: Vec<MouseButton>,
    just_pressed: Vec<MouseButton>,
    just_released: Vec<MouseButton>,
}

/// The mathematical content of a [`MouseState`].
pub struct MouseStateView {
    pub location: Option<Vec2>,
    pub motion: Vec2,
    pub wheel: MouseWheelState,
    pub pressed: Set<MouseButton>,
    pub just_pressed: Set<MouseButton>,
    pub just_released: Set<MouseButton>,
}

impl View for MouseState {
    type V = MouseStateView;

    closed spec fn view(&self) -> MouseStateView {
        MouseStateView {
            location: self.location,
            motion: self.motion,
            wheel: self.wheel,
            pressed: self.pressed@.to_set(),
            just_pressed: self.just_pressed@.to_set(),
            just_released: self.just_released@.to_set(),
        }
    }
}

/// The location after a frame with location events `locs`: the converted position of the
/// last one, or the previous location when there is none.
pub open spec fn location_after(prev: Option<Vec2>, locs: Seq<CursorMoved>, w: WindowSize) -> Option<Vec2> {
    if locs.len() > 0 {
        Some(app_point(locs.last().x, locs.last().y, w))
    } else {
        prev
    }
}

/// The sum of the horizontal motion deltas of `s`.
pub open spec fn motion_sum_x(s: Seq<MouseMotion>) -> int
    decreases s.len(),
{
    if s.len() == 0 {
        0
    } else {
        motion_sum_x(s.drop_last()) + s.last().dx
    }
}

/// The sum of the vertical motion deltas of `s`, in application space (sign flipped).
pub open spec fn motion_sum_y(s: Seq<MouseMotion>) -> int
    decreases s.len(),
{
    if s.len() == 0 {
        0
    } else {
        motion_sum_y(s.drop_last()) - s.last().dy
    }
}

/// Whether a frame may carry `n` motion events: few enough that their sum fits in an `i64`.
pub open spec fn motion_count_fits(n: nat) -> bool {
    n <= u32::MAX
}

proof fn lemma_motion_sums_bounded(s: Seq<MouseMotion>)
    ensures
        -0x8000_0000 * s.len() <= motion_sum_x(s) <= 0x8000_0000 * s.len(),
        -0x8000_0000 * s.len() <= motion_sum_y(s) <= 0x8000_0000 * s.len(),
    decreases s.len(),
{
    if s.len() > 0 {
        lemma_motion_sums_bounded(s.drop_last());
    }
}

/// Whether `v` holds `b`.
fn holds(v: &Vec<MouseButton>, b: MouseButton) -> (r: bool)
    ensures
        r == v@.contains(b),
{
    let mut i: usize = 0;
    while i < v.len()
        invariant
            i <= v@.len(),
            forall|j: int| 0 <= j < i ==> v@[j] != b,
        decreases v@.len() - i,
    {
        if v[i] == b {
            assert(v@[i as int] == b);
            return true;
        }
        i = i + 1;
    }
    false
}

/// Whether `v` holds any of the buttons of `bs`.
fn holds_any(v: &Vec<MouseButton>, bs: &[MouseButton]) -> (r: bool)
    ensures
        r == (exists|i: int| 0 <= i < bs@.len() && v@.contains(#[trigger] bs@[i])),
{
    let mut i: usize = 0;
    while i < bs.len()
        invariant
            i <= bs@.len(),
            forall|j: int| 0 <= j < i ==> !v@.contains(#[trigger] bs@[j]),
        decreases bs@.len() - i,
    {
        if holds(v, bs[i]) {
            return true;
        }
        i = i + 1;
    }
    false
}

/// Clears `dst`, then copies the buttons of `src` into it in order.
fn refill(dst: &mut Vec<MouseButton>, src: &[MouseButton])
    ensures
        final(dst)@ == src@,
{
    dst.clear();
    let mut i: usize = 0;
    while i < src.len()
        invariant
            i <= src@.len(),
            dst@ == src@.take(i as int),
        decreases src@.len() - i,
    {
        dst.push(src[i]);
        i = i + 1;
        assert(dst@ =~= src@.take(i as int));
    }
    assert(src@.take(src@.len() as int) =~= src@);
}

/// The sum of a frame's motion deltas, in application space.
fn total_motion(events: &[MouseMotion]) -> (r: Vec2)
    requires
        motion_count_fits(events@.len()),
    ensures
        r.x == motion_sum_x(events@),
        r.y == motion_sum_y(events@),
{
    let mut motion = Vec2::zero();
    let mut i: usize = 0;
    while i < events.len()
        invariant
            i <= events@.len(),
            motion_count_fits(events@.len()),
            motion.x == motion_sum_x(events@.take(i as int)),
            motion.y == motion_sum_y(events@.take(i as int)),
        decreases events@.len() - i,
    {
        proof {
            lemma_motion_sums_bounded(events@.take(i as int + 1));
            assert(events@.take(i as int + 1).drop_last() =~= events@.take(i as int));
        }
        let delta = to_motion_space(events[i].dx, events[i].dy);
        motion = Vec2 { x: motion.x + delta.x, y: motion.y + delta.y };
        i = i + 1;
    }
    assert(events@.take(events@.len() as int) =~= events@);
    motion
}

impl MouseState {
    /// The state before any frame: no known location, no motion, no wheel, no buttons.
    pub fn new() -> (r: MouseState)
        ensures
            r@.location.is_none(),
            r@.motion.x == 0,
            r@.motion.y == 0,
            r@.wheel.x == 0,
            r@.wheel.y == 0,
            (r@.pressed == Set::<MouseButton>::empty()),
            (r@.just_pressed == Set::<MouseButton>::empty()),
            (r@.just_released == Set::<MouseButton>::empty()),
    {
        let r = MouseState {
            location: None,
            motion: Vec2::zero(),
            wheel: MouseWheelState::new(),
            pressed: Vec::new(),
            just_pressed: Vec::new(),
            just_released: Vec::new(),
        };
        assert(r@.pressed =~= Set::<MouseButton>::empty());
        assert(r@.just_pressed =~= Set::<MouseButton>::empty());
        assert(r@.just_released =~= Set::<MouseButton>::empty());
        r
    }

    /// Final location of the pointer, in application space; `None` while no location event
    /// has ever arrived.
    pub fn location(&self) -> (r: Option<Vec2>)
        ensures
            r == self@.location,
    {
        self.location
    }

    /// The cumulative relative motion of the pointer during the last frame.
    pub fn motion(&self) -> (r: Vec2)
        ensures
            r == self@.motion,
    {
        self.motion
    }

    /// The normalized wheel direction of the last frame.
    pub fn wheel(&self) -> (r: MouseWheelState)
        ensures
            r == self@.wheel,
    {
        self.wheel
    }

    /// Whether `mouse_button` is held down.
    pub fn pressed(&self, mouse_button: MouseButton) -> (r: bool)
        ensures
            r == self@.pressed.contains(mouse_button),
    {
        holds(&self.pressed, mouse_button)
    }

    /// Whether `mouse_button` went down during the last frame.
    pub fn just_pressed(&self, mouse_button: MouseButton) -> (r: bool)
        ensures
            r == self@.just_pressed.contains(mouse_button),
    {
        holds(&self.just_pressed, mouse_button)
    }

    /// Whether `mouse_button` went up during the last frame.
    pub fn just_released(&self, mouse_button: MouseButton) -> (r: bool)
        ensures
            r == self@.just_released.contains(mouse_button),
    {
        holds(&self.just_released, mouse_button)
    }

    /// Whether any of `mouse_buttons` are held down.
    pub fn pressed_any(&self, mouse_buttons: &[MouseButton]) -> (r: bool)
        ensures
            r == (exists|i: int| 0 <= i < mouse_buttons@.len() && self@.pressed.contains(#[trigger] mouse_buttons@[i])),
    {
        holds_any(&self.pressed, mouse_buttons)
    }

    /// Whether any of `mouse_buttons` went down during the last frame.
    pub fn just_pressed_any(&self, mouse_buttons: &[MouseButton]) -> (r: bool)
        ensures
            r == (exists|i: int| 0 <= i < mouse_buttons@.len() && self@.just_pressed.contains(#[trigger] mouse_buttons@[i])),
    {
        holds_any(&self.just_pressed, mouse_buttons)
    }

    /// Whether any of `mouse_buttons` went up during the last frame.
    pub fn just_released_any(&self, mouse_buttons: &[MouseButton]) -> (r: bool)
        ensures
            r == (exists|i: int| 0 <= i < mouse_buttons@.len() && self@.just_released.contains(#[trigger] mouse_buttons@[i])),
    {
        holds_any(&self.just_released, mouse_buttons)
    }
}

impl Default for MouseState {
    fn default() -> (r: MouseState)
        ensures
            r@.location.is_none(),
            r@.motion.x == 0,
            r@.motion.y == 0,
            r@.wheel.x == 0,
            r@.wheel.y == 0,
            (r@.pressed == Set::<MouseButton>::empty()),
            (r@.just_pressed == Set::<MouseButton>::empty()),
            (r@.just_released == Set::<MouseButton>::empty()),
    {
        MouseState::new()
    }
}

/// Brings `mouse_state` up to date with one frame from the host.
///
/// The location becomes the converted position of the frame's last location event, and
/// stays as it was when there is none. The motion is the sum of this frame's motion deltas
/// with y flipped, and the wheel the normalized sum of this frame's wheel deltas: neither
/// carries over from earlier frames. The three button sets are replaced by the host's.
pub fn sync_mouse_state(mouse_state: &mut MouseState, frame: &HostFrame)
    requires
        motion_count_fits(frame.motions@.len()),
    ensures
        final(mouse_state)@.location == location_after(old(mouse_state)@.location, frame.locations@, frame.window),
        frame.locations@.len() == 0 ==> final(mouse_state)@.location == old(mouse_state)@.location,
        final(mouse_state)@.motion.x == motion_sum_x(frame.motions@),
        final(mouse_state)@.motion.y == motion_sum_y(frame.motions@),
        frame.motions@.len() == 0 ==> final(mouse_state)@.motion.x == 0 && final(mouse_state)@.motion.y == 0,
        final(mouse_state)@.wheel == wheel_state_of(frame.wheels@),
        final(mouse_state)@.pressed == frame.pressed@.to_set(),
        final(mouse_state)@.just_pressed == frame.just_pressed@.to_set(),
        final(mouse_state)@.just_released == frame.just_released@.to_set(),
        frame.just_pressed@.to_set().disjoint(frame.just_released@.to_set())
            ==> final(mouse_state)@.just_pressed.disjoint(final(mouse_state)@.just_released),
{
    let n = frame.locations.len();
    if n > 0 {
        let last = frame.locations[n - 1];
        mouse_state.location = Some(to_app_space(last.x, last.y, frame.window));
    }
    mouse_state.motion = total_motion(frame.motions.as_slice());
    mouse_state.wheel = normalize_wheel(frame.wheels.as_slice());
    refill(&mut mouse_state.pressed, frame.pressed.as_slice());
    refill(&mut mouse_state.just_pressed, frame.just_pressed.as_slice());
    refill(&mut mouse_state.just_released, frame.just_released.as_slice());
}

} // verus!
