use vstd::prelude::*;
use crate::geometry::WindowSize;

verus! {

/// A mouse button. The identifier space is closed: every value names a valid button.
#[derive(Clone, Copy, Debug, PartialEq, Eq, Structural, Hash)]
pub enum MouseButton {
    Left,
    Right,
    Middle,
    Other(u16),
}

/// Whether a button went down or up.
#[derive(Clone, Copy, Debug, PartialEq, Eq, Structural, Hash)]
pub enum ElementState {
    Pressed,
    Released,
}

/// A raw button transition reported by the host.
#[derive(Clone, Copy, Debug, PartialEq, Eq, Structural)]
pub struct MouseButtonInput {
    pub button: MouseButton,
    pub state: ElementState,
}

/// A raw pointer location in host space.
#[derive(Clone, Copy, Debug, PartialEq, Eq, Structural)]
pub struct CursorMoved {
    pub x: i32,
    pub y: i32,
}

/// A raw pointer motion delta in host space (y grows downward).
#[derive(Clone, Copy, Debug, PartialEq, Eq, Structural)]
pub struct MouseMotion {
    pub dx: i32,
    pub dy: i32,
}

/// A raw wheel delta, of any sign and magnitude.
#[derive(Clone, Copy, Debug, PartialEq, Eq, Structural)]
pub struct MouseWheel {
    pub x: i32,
    pub y: i32,
}

/// Everything the host hands over for one frame: the four ordered event lists, its own
/// button bookkeeping, and the current window dimensions.
#[derive(Clone, Debug)]
pub struct HostFrame {
    pub buttons: Vec<MouseButtonInput>,
    pub locations: Vec<CursorMoved>,
    pub motions: Vec<MouseMotion>,
    pub wheels: Vec<MouseWheel>,
    /// Buttons currently held down.
    pub pressed: Vec<MouseButton>,
    /// Buttons whose press edge occurred this frame.
    pub just_pressed: Vec<MouseButton>,
    /// Buttons whose release edge occurred this frame.
    pub just_released: Vec<MouseButton>,
    pub window: WindowSize,
}

} // verus!
