//! Per-frame mouse input synchronization.
//!
//! Once per frame the host hands over the raw mouse events it observed together with its
//! own bookkeeping of which buttons are down. From those the library produces two views:
//! [`FrameEventLog`], an ordered record of exactly this frame's events, and [`MouseState`],
//! a collapsed snapshot (pointer location, cumulative motion, a normalized wheel direction
//! and the button sets).
//!
//! Positions and deltas are integers in whatever fixed-point unit the host adapter picks;
//! application space has its origin at the window center.

pub mod event_log;
pub mod events;
pub mod geometry;
pub mod mouse;
pub mod wheel;

pub use event_log::{sync_mouse_events, FrameEventLog, FrameEventLogView};
pub use events::{CursorMoved, ElementState, HostFrame, MouseButton, MouseButtonInput, MouseMotion, MouseWheel};
pub use geometry::{to_app_space, to_motion_space, Vec2, WindowSize};
pub use mouse::{sync_mouse_state, MouseState, MouseStateView};
pub use wheel::{normalize_wheel, sign, MouseWheelState};
