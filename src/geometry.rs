use vstd::prelude::*;

verus! {

/// A 2D vector in application space: origin at the window center, y grows upward.
#[derive(Clone, Copy, Debug, PartialEq, Eq, Structural)]
pub struct Vec2 {
    pub x: i64,
    pub y: i64,
}

/// Window dimensions, in the same unit as host positions.
#[derive(Clone, Copy, Debug, PartialEq, Eq, Structural)]
pub struct WindowSize {
    pub width: u32,
    pub height: u32,
}

impl Vec2 {
    /// The zero vector.
    pub fn zero() -> (r: Vec2)
        ensures
            r.x == 0,
            r.y == 0,
    {
        Vec2 { x: 0, y: 0 }
    }
}

/// Half of one window dimension: the offset of the window center from the host origin.
pub open spec fn half(d: u32) -> int {
    d as int / 2
}

/// A host-space position moved into application space.
pub open spec fn app_point(x: i32, y: i32, w: WindowSize) -> Vec2 {
    Vec2 { x: (x - half(w.width)) as i64, y: (y - half(w.height)) as i64 }
}

/// An application-space position moved back into host space.
pub open spec fn host_point(p: Vec2, w: WindowSize) -> (int, int) {
    (p.x + half(w.width), p.y + half(w.height))
}

/// A host-space motion delta in application space: the vertical component changes sign.
pub open spec fn app_delta(dx: i32, dy: i32) -> Vec2 {
    Vec2 { x: dx as i64, y: (-dy) as i64 }
}

/// Converts a host-space position into application space by subtracting half the window
/// dimensions.
pub fn to_app_space(x: i32, y: i32, window: WindowSize) -> (r: Vec2)
    ensures
        r == app_point(x, y, window),
        r.x == x - half(window.width),
        r.y == y - half(window.height),
{
    let hw: i64 = (window.width / 2) as i64;
    let hh: i64 = (window.height / 2) as i64;
    Vec2 { x: x as i64 - hw, y: y as i64 - hh }
}

/// Converts a host-space motion delta into application space, where y grows upward.
pub fn to_motion_space(dx: i32, dy: i32) -> (r: Vec2)
    ensures
        r == app_delta(dx, dy),
        r.x == dx,
        r.y == -dy,
{
    Vec2 { x: dx as i64, y: -(dy as i64) }
}

/// Converting a host position into application space and adding half the window
/// dimensions back gives the host position again, exactly.
pub proof fn lemma_conversion_round_trip(x: i32, y: i32, w: WindowSize)
    ensures
        host_point(app_point(x, y, w), w) == (x as int, y as int),
{
}

} // verus!
