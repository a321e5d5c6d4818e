use rusty_engine::{
    normalize_wheel, sign, sync_mouse_events, sync_mouse_state, to_app_space, to_motion_space, CursorMoved,
    ElementState, FrameEventLog, HostFrame, MouseButton, MouseButtonInput, MouseMotion, MouseState, MouseWheel,
    MouseWheelState, Vec2, WindowSize,
};

fn empty_frame(width: u32, height: u32) -> HostFrame {
    HostFrame {
        buttons: Vec::new(),
        locations: Vec::new(),
        motions: Vec::new(),
        wheels: Vec::new(),
        pressed: Vec::new(),
        just_pressed: Vec::new(),
        just_released: Vec::new(),
        window: WindowSize { width, height },
    }
}

#[test]
fn location_converted_then_sticky() {
    let mut state = MouseState::new();
    let mut frame = empty_frame(800, 600);
    frame.locations.push(CursorMoved { x: 800, y: 300 });
    sync_mouse_state(&mut state, &frame);
    assert_eq!(state.location(), Some(Vec2 { x: 400, y: 0 }));
    sync_mouse_state(&mut state, &empty_frame(800, 600));
    assert_eq!(state.location(), Some(Vec2 { x: 400, y: 0 }));
}

#[test]
fn location_unknown_until_first_event() {
    let mut state = MouseState::default();
    assert_eq!(state.location(), None);
    sync_mouse_state(&mut state, &empty_frame(800, 600));
    assert_eq!(state.location(), None);
}

#[test]
fn location_is_last_event_of_frame() {
    let mut state = MouseState::new();
    let mut frame = empty_frame(800, 600);
    frame.locations.push(CursorMoved { x: 0, y: 0 });
    frame.locations.push(CursorMoved { x: 10, y: 700 });
    sync_mouse_state(&mut state, &frame);
    assert_eq!(state.location(), Some(Vec2 { x: -390, y: 400 }));
}

#[test]
fn two_wheel_events_normalize_down() {
    let mut state = MouseState::new();
    let mut frame = empty_frame(800, 600);
    frame.wheels.push(MouseWheel { x: 0, y: -3 });
    frame.wheels.push(MouseWheel { x: 0, y: -1 });
    sync_mouse_state(&mut state, &frame);
    assert_eq!(state.wheel(), MouseWheelState { x: 0, y: -1 });
}

#[test]
fn wheel_is_sign_of_sum() {
    assert_eq!(normalize_wheel(&[]), MouseWheelState { x: 0, y: 0 });
    let events = [MouseWheel { x: 5, y: 2 }, MouseWheel { x: -5, y: 7 }, MouseWheel { x: -1, y: -9 }];
    assert_eq!(normalize_wheel(&events), MouseWheelState { x: -1, y: 0 });
    let big = [MouseWheel { x: i32::MAX, y: i32::MIN }, MouseWheel { x: i32::MAX, y: i32::MIN }];
    assert_eq!(normalize_wheel(&big), MouseWheelState { x: 1, y: -1 });
}

#[test]
fn wheel_is_not_sticky() {
    let mut state = MouseState::new();
    let mut frame = empty_frame(800, 600);
    frame.wheels.push(MouseWheel { x: 2, y: 1 });
    sync_mouse_state(&mut state, &frame);
    assert_eq!(state.wheel(), MouseWheelState { x: 1, y: 1 });
    sync_mouse_state(&mut state, &empty_frame(800, 600));
    assert_eq!(state.wheel(), MouseWheelState::default());
}

#[test]
fn sign_values() {
    assert_eq!(sign(42), 1);
    assert_eq!(sign(-7), -1);
    assert_eq!(sign(0), 0);
    assert_eq!(sign(i128::MIN), -1);
}

#[test]
fn motion_is_flipped_sum_and_resets() {
    let mut state = MouseState::new();
    let mut frame = empty_frame(800, 600);
    frame.motions.push(MouseMotion { dx: 3, dy: 4 });
    frame.motions.push(MouseMotion { dx: -1, dy: -10 });
    sync_mouse_state(&mut state, &frame);
    assert_eq!(state.motion(), Vec2 { x: 2, y: 6 });
    sync_mouse_state(&mut state, &empty_frame(800, 600));
    assert_eq!(state.motion(), Vec2 { x: 0, y: 0 });
}

#[test]
fn motion_flip_of_extreme_delta() {
    assert_eq!(to_motion_space(i32::MIN, i32::MIN), Vec2 { x: -2147483648, y: 2147483648 });
}

#[test]
fn just_pressed_without_pressed() {
    let mut state = MouseState::new();
    let mut frame = empty_frame(800, 600);
    frame.just_pressed.push(MouseButton::Left);
    sync_mouse_state(&mut state, &frame);
    assert!(state.just_pressed(MouseButton::Left));
    assert!(!state.pressed(MouseButton::Left));
    assert!(!state.just_released(MouseButton::Left));
}

#[test]
fn edge_sets_copied_and_disjoint() {
    let mut state = MouseState::new();
    let mut frame = empty_frame(800, 600);
    frame.pressed = vec![MouseButton::Left, MouseButton::Other(4)];
    frame.just_pressed = vec![MouseButton::Other(4)];
    frame.just_released = vec![MouseButton::Right];
    sync_mouse_state(&mut state, &frame);
    let all = [MouseButton::Left, MouseButton::Right, MouseButton::Middle, MouseButton::Other(4), MouseButton::Other(5)];
    for b in all {
        assert!(!(state.just_pressed(b) && state.just_released(b)));
    }
    assert!(state.pressed(MouseButton::Left));
    assert!(state.pressed(MouseButton::Other(4)));
    assert!(!state.pressed(MouseButton::Other(5)));
    assert!(state.just_pressed(MouseButton::Other(4)));
    assert!(state.just_released(MouseButton::Right));
    // The next frame replaces every set.
    sync_mouse_state(&mut state, &empty_frame(800, 600));
    for b in all {
        assert!(!state.pressed(b) && !state.just_pressed(b) && !state.just_released(b));
    }
}

#[test]
fn any_variants() {
    let mut state = MouseState::new();
    let mut frame = empty_frame(800, 600);
    frame.pressed = vec![MouseButton::Middle];
    frame.just_pressed = vec![MouseButton::Middle];
    frame.just_released = vec![MouseButton::Left];
    sync_mouse_state(&mut state, &frame);
    assert!(state.pressed_any(&[MouseButton::Left, MouseButton::Middle]));
    assert!(!state.pressed_any(&[MouseButton::Left, MouseButton::Right]));
    assert!(!state.pressed_any(&[]));
    assert!(state.just_pressed_any(&[MouseButton::Middle]));
    assert!(!state.just_pressed_any(&[MouseButton::Left]));
    assert!(state.just_released_any(&[MouseButton::Right, MouseButton::Left]));
    assert!(!state.just_released_any(&[MouseButton::Middle]));
}

#[test]
fn conversion_round_trip() {
    let window = WindowSize { width: 1024, height: 768 };
    for (x, y) in [(0, 0), (1024, 768), (-5, 9000), (i32::MIN, i32::MAX)] {
        let p = to_app_space(x, y, window);
        assert_eq!(p.x + 512, x as i64);
        assert_eq!(p.y + 384, y as i64);
    }
}

#[test]
fn conversion_odd_window() {
    assert_eq!(to_app_space(0, 0, WindowSize { width: 801, height: 3 }), Vec2 { x: -400, y: -1 });
}

#[test]
fn event_log_holds_exactly_this_frame() {
    let mut log = FrameEventLog::new();
    let mut frame = empty_frame(800, 600);
    frame.buttons.push(MouseButtonInput { button: MouseButton::Left, state: ElementState::Pressed });
    frame.buttons.push(MouseButtonInput { button: MouseButton::Left, state: ElementState::Released });
    frame.locations.push(CursorMoved { x: 800, y: 300 });
    frame.locations.push(CursorMoved { x: 0, y: 600 });
    frame.motions.push(MouseMotion { dx: 1, dy: 2 });
    frame.wheels.push(MouseWheel { x: 0, y: -3 });
    frame.wheels.push(MouseWheel { x: 0, y: -1 });
    sync_mouse_events(&mut log, &frame);
    assert_eq!(log.mouse_button_events(), &frame.buttons[..]);
    assert_eq!(log.mouse_location_events(), &[Vec2 { x: 400, y: 0 }, Vec2 { x: -400, y: 300 }]);
    assert_eq!(log.mouse_motion_events(), &[Vec2 { x: 1, y: -2 }]);
    assert_eq!(log.mouse_wheel_events(), &[MouseWheel { x: 0, y: -3 }, MouseWheel { x: 0, y: -1 }]);
    // Reading twice without a sync in between gives the same contents.
    assert_eq!(log.mouse_location_events().to_vec(), log.mouse_location_events().to_vec());
    assert_eq!(log.mouse_button_events().to_vec(), log.mouse_button_events().to_vec());

    let mut next = empty_frame(800, 600);
    next.motions.push(MouseMotion { dx: 0, dy: -5 });
    sync_mouse_events(&mut log, &next);
    assert!(log.mouse_button_events().is_empty());
    assert!(log.mouse_location_events().is_empty());
    assert_eq!(log.mouse_motion_events(), &[Vec2 { x: 0, y: 5 }]);
    assert!(log.mouse_wheel_events().is_empty());
}

#[test]
fn default_log_is_empty() {
    let log = FrameEventLog::default();
    assert!(log.mouse_button_events().is_empty());
    assert!(log.mouse_motion_events().is_empty());
}
