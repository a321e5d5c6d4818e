use vstd::prelude::*;
use crate::events::{CursorMoved, HostFrame, MouseButtonInput, MouseMotion, MouseWheel};
use crate::geometry::{app_delta, app_point, to_app_space, to_motion_space, Vec2, WindowSize};

verus! {

/// Every mouse event of the last frame, in arrival order, with locations and motions in
/// application space. The log is cleared and refilled as a whole once per frame.
#[derive(Clone, Debug)]
pub struct FrameEventLog {
    mouse_button_events: Vec<MouseButtonInput>,
    mouse_location_events: Vec<Vec2>,
    mouse_motion_events: Vec<Vec2>,
    mouse_wheel_events: Vec<MouseWheel>,
}

/// The mathematical content of a [`FrameEventLog`]: its four ordered sequences.
pub struct FrameEventLogView {
    pub buttons: Seq<MouseButtonInput>,
    pub locations: Seq<Vec2>,
    pub motions: Seq<Vec2>,
    pub wheels: Seq<MouseWheel>,
}

impl View for FrameEventLog {
    type V = FrameEventLogView;

    closed spec fn view(&self) -> FrameEventLogView {
        FrameEventLogView {
            buttons: self.mouse_button_events@,
            locations: self.mouse_location_events@,
            motions: self.mouse_motion_events@,
            wheels: self.mouse_wheel_events@,
        }
    }
}

/// Location events converted into application space, one for one, in order.
pub open spec fn app_locations(s: Seq<CursorMoved>, w: WindowSize) -> Seq<Vec2> {
    s.map_values(|c: CursorMoved| app_point(c.x, c.y, w))
}

/// Motion events converted into application space, one for one, in order.
pub open spec fn app_motions(s: Seq<MouseMotion>) -> Seq<Vec2> {
    s.map_values(|m: MouseMotion| app_delta(m.dx, m.dy))
}

impl FrameEventLog {
    /// An empty log.
    pub fn new() -> (r: FrameEventLog)
        ensures
            r@.buttons.len() == 0,
            r@.locations.len() == 0,
            r@.motions.len() == 0,
            r@.wheels.len() == 0,
    {
        FrameEventLog {
            mouse_button_events: Vec::new(),
            mouse_location_events: Vec::new(),
            mouse_motion_events: Vec::new(),
            mouse_wheel_events: Vec::new(),
        }
    }

    /// The button events of the last frame, in arrival order.
    pub fn mouse_button_events(&self) -> (r: &[MouseButtonInput])
        ensures
            r@ == self@.buttons,
    {
        self.mouse_button_events.as_slice()
    }

    /// The pointer locations of the last frame, in application space, in arrival order.
    pub fn mouse_location_events(&self) -> (r: &[Vec2])
        ensures
            r@ == self@.locations,
    {
        self.mouse_location_events.as_slice()
    }

    /// The motion deltas of the last frame, in application space, in arrival order.
    pub fn mouse_motion_events(&self) -> (r: &[Vec2])
        ensures
            r@ == self@.motions,
    {
        self.mouse_motion_events.as_slice()
    }

    /// The raw wheel deltas of the last frame, in arrival order.
    pub fn mouse_wheel_events(&self) -> (r: &[MouseWheel])
        ensures
            r@ == self@.wheels,
    {
        self.mouse_wheel_events.as_slice()
    }
}

impl Default for FrameEventLog {
    fn default() -> (r: FrameEventLog)
        ensures
            r@.buttons.len() == 0,
            r@.locations.len() == 0,
            r@.motions.len() == 0,
            r@.wheels.len() == 0,
    {
        FrameEventLog::new()
    }
}

/// Replaces the contents of `log` with the events of `frame`: all four sequences are
/// cleared, then refilled in arrival order. Locations are moved into application space and
/// motion deltas have their vertical component flipped; button and wheel events are kept as
/// they came.
pub fn sync_mouse_events(log: &mut FrameEventLog, frame: &HostFrame)
    ensures
        final(log)@.buttons == frame.buttons@,
        final(log)@.locations == app_locations(frame.locations@, frame.window),
        final(log)@.motions == app_motions(frame.motions@),
        final(log)@.wheels == frame.wheels@,
{
    log.mouse_button_events.clear();
    log.mouse_location_events.clear();
    log.mouse_motion_events.clear();
    log.mouse_wheel_events.clear();

    let mut i: usize = 0;
    while i < frame.buttons.len()
        invariant
            i <= frame.buttons@.len(),
            log.mouse_button_events@ == frame.buttons@.take(i as int),
            log.mouse_location_events@.len() == 0,
            log.mouse_motion_events@.len() == 0,
            log.mouse_wheel_events@.len() == 0,
        decreases frame.buttons@.len() - i,
    {
        log.mouse_button_events.push(frame.buttons[i]);
        i = i + 1;
        assert(log.mouse_button_events@ =~= frame.buttons@.take(i as int));
    }
    assert(frame.buttons@.take(frame.buttons@.len() as int) =~= frame.buttons@);
    assert(app_locations(frame.locations@.take(0), frame.window) =~= Seq::<Vec2>::empty());
    let mut i: usize = 0;
    while i < frame.locations.len()
        invariant
            log.mouse_button_events@ == frame.buttons@,
            i <= frame.locations@.len(),
            log.mouse_location_events@ == app_locations(frame.locations@.take(i as int), frame.window),
            log.mouse_motion_events@.len() == 0,
            log.mouse_wheel_events@.len() == 0,
        decreases frame.locations@.len() - i,
    {
        let ev = frame.locations[i];
        log.mouse_location_events.push(to_app_space(ev.x, ev.y, frame.window));
        i = i + 1;
        assert(log.mouse_location_events@ =~= app_locations(frame.locations@.take(i as int), frame.window));
    }
    assert(frame.locations@.take(frame.locations@.len() as int) =~= frame.locations@);
    assert(app_motions(frame.motions@.take(0)) =~= Seq::<Vec2>::empty());
    let mut i: usize = 0;
    while i < frame.motions.len()
        invariant
            log.mouse_button_events@ == frame.buttons@,
            log.mouse_location_events@ == app_locations(frame.locations@, frame.window),
            i <= frame.motions@.len(),
            log.mouse_motion_events@ == app_motions(frame.motions@.take(i as int)),
            log.mouse_wheel_events@.len() == 0,
        decreases frame.motions@.len() - i,
    {
        let ev = frame.motions[i];
        log.mouse_motion_events.push(to_motion_space(ev.dx, ev.dy));
        i = i + 1;
        assert(log.mouse_motion_events@ =~= app_motions(frame.motions@.take(i as int)));
    }
    assert(frame.motions@.take(frame.motions@.len() as int) =~= frame.motions@);
    let mut i: usize = 0;
    while i < frame.wheels.len()
        invariant
            log.mouse_button_events@ == frame.buttons@,
            log.mouse_location_events@ == app_locations(frame.locations@, frame.window),
            log.mouse_motion_events@ == app_motions(frame.motions@),
            i <= frame.wheels@.len(),
            log.mouse_wheel_events@ == frame.wheels@.take(i as int),
        decreases frame.wheels@.len() - i,
    {
        log.mouse_wheel_events.push(frame.wheels[i]);
        i = i + 1;
        assert(log.mouse_wheel_events@ =~= frame.wheels@.take(i as int));
    }
    assert(frame.wheels@.take(frame.wheels@.len() as int) =~= frame.wheels@);
}

} // verus!
