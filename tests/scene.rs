use glscene::event::{Event, XButtonEvent, XKeyEvent, XMotionEvent};
use glscene::scene::{
    Angles, Camera, Fixed3, Response, Scene, Transform, CAMERA_STEP, ONE, PITCH_LIMIT,
    SENSITIVITY, START_YAW, START_Z,
};

fn key(keycode: u32) -> Event {
    Event::KeyPress(XKeyEvent {
        type_: 2,
        serial: 0,
        send_event: 0,
        display: 0,
        window: 1,
        root: 0,
        subwindow: 0,
        time: 0,
        x: 0,
        y: 0,
        x_root: 0,
        y_root: 0,
        state: 0,
        keycode,
        same_screen: 1,
    })
}

fn button(button: u32, press: bool) -> Event {
    let b = XButtonEvent {
        type_: if press { 4 } else { 5 },
        serial: 0,
        send_event: 0,
        display: 0,
        window: 1,
        root: 0,
        subwindow: 0,
        time: 0,
        x: 0,
        y: 0,
        x_root: 0,
        y_root: 0,
        state: 0,
        button,
        same_screen: 1,
    };
    if press {
        Event::ButtonPress(b)
    } else {
        Event::ButtonRelease(b)
    }
}

fn motion(x: i32, y: i32) -> Event {
    Event::Motion(XMotionEvent {
        type_: 6,
        serial: 0,
        send_event: 0,
        display: 0,
        window: 1,
        root: 0,
        subwindow: 0,
        time: 0,
        x,
        y,
        x_root: x,
        y_root: y,
        state: 0,
        is_hint: 0,
        same_screen: 1,
    })
}

#[test]
fn starts_at_documented_defaults() {
    let s = Scene::new();
    assert_eq!(s.camera, Camera { x: 0, y: 0, z: 2 * ONE, yaw: -1_570_796, pitch: 0 });
    assert_eq!(s.transform.scale, Fixed3 { x: ONE, y: ONE, z: ONE });
    assert_eq!(s.transform.translation, Fixed3 { x: 0, y: 0, z: 0 });
    assert_eq!(s.transform.angle, Angles { x: 0, y: 0, z: 0 });
    assert_eq!(s.transform.rotation_speed, 0);
    assert!(s.running);
    assert!(!s.dragging);
    assert_eq!(s.colour_mode_value(), 0);
    assert_eq!(Camera::default(), s.camera);
    assert_eq!(Transform::default(), s.transform);
}

#[test]
fn forward_key_moves_camera_exactly_one_step() {
    let mut s = Scene::new();
    let before = s;
    assert_eq!(s.handle_event(&key(25)), Response::Continue);
    assert_eq!(s.camera.z, before.camera.z - 10_000);
    assert_eq!(s.camera.z, 1_990_000);
    assert_eq!(CAMERA_STEP, 10_000);
    let mut expected = before;
    expected.camera.z = 1_990_000;
    assert_eq!(s, expected);
}

#[test]
fn movement_and_scale_keys() {
    let mut s = Scene::new();
    s.handle_event(&key(39));
    s.handle_event(&key(39));
    s.handle_event(&key(38));
    assert_eq!((s.camera.x, s.camera.z), (-10_000, START_Z + 20_000));
    s.handle_event(&key(40));
    s.handle_event(&key(40));
    assert_eq!(s.camera.x, 10_000);
    s.handle_event(&key(53));
    s.handle_event(&key(29));
    s.handle_event(&key(29));
    s.handle_event(&key(52));
    assert_eq!(s.transform.scale, Fixed3 { x: 1_100_000, y: 1_200_000, z: 1_100_000 });
    s.handle_event(&key(111));
    s.handle_event(&key(114));
    s.handle_event(&key(114));
    s.handle_event(&key(113));
    assert_eq!(s.transform.translation, Fixed3 { x: 100_000, y: 100_000, z: 0 });
    s.handle_event(&key(116));
    s.handle_event(&key(116));
    assert_eq!(s.transform.translation.y, -100_000);
    s.handle_event(&key(48));
    s.handle_event(&key(48));
    s.handle_event(&key(51));
    assert_eq!(s.transform.rotation_speed, 100_000);
}

#[test]
fn reset_restores_defaults_after_any_changes() {
    let mut s = Scene::new();
    for k in [25u32, 38, 53, 29, 111, 114, 48, 48] {
        s.handle_event(&key(k));
    }
    s.handle_event(&button(1, true));
    s.handle_event(&motion(10, 10));
    s.handle_event(&motion(50, 90));
    s.advance(250_000);
    assert_ne!(s.camera, Camera::default());
    assert_eq!(s.handle_event(&key(27)), Response::Continue);
    assert_eq!(s.camera, Camera { x: 0, y: 0, z: 2_000_000, yaw: START_YAW, pitch: 0 });
    assert_eq!(s.transform, Transform::default());
    assert_eq!(s.transform.rotation_speed, 0);
    assert_eq!(s.handle_event(&key(27)), Response::Continue);
    assert_eq!(s.camera, Camera::default());
    assert_eq!(s.transform, Transform::default());
}

#[test]
fn colour_key_toggles_mode() {
    let mut s = Scene::new();
    s.handle_event(&key(54));
    assert_eq!(s.colour_mode_value(), 1);
    s.handle_event(&key(54));
    assert_eq!(s.colour_mode_value(), 0);
}

#[test]
fn unmapped_key_is_reported_and_changes_nothing() {
    let mut s = Scene::new();
    let before = s;
    assert_eq!(s.handle_event(&key(65)), Response::UnmappedKey(65));
    assert_eq!(s, before);
}

#[test]
fn quit_key_exits_and_later_events_do_nothing() {
    let mut s = Scene::new();
    assert_eq!(s.handle_event(&key(9)), Response::Exit);
    assert!(!s.running);
    let after = s;
    assert_eq!(s.handle_event(&key(25)), Response::Exit);
    assert_eq!(s, after);
}

#[test]
fn destroy_notification_exits() {
    let mut s = Scene::new();
    assert_eq!(s.handle_event(&Event::DestroyNotify), Response::Exit);
    assert!(!s.running);
    let mut t = Scene::new();
    assert_eq!(t.handle_event(&Event::Expose), Response::Continue);
    assert_eq!(t.handle_event(&Event::Unknown), Response::Continue);
    assert_eq!(t, Scene::new());
}

#[test]
fn drag_first_motion_only_sets_reference() {
    let mut s = Scene::new();
    s.handle_event(&button(1, true));
    assert!(s.dragging);
    s.handle_event(&motion(100, 200));
    assert_eq!(s.camera.yaw, START_YAW);
    assert_eq!(s.camera.pitch, 0);
    s.handle_event(&motion(110, 200));
    assert_eq!(s.camera.yaw, START_YAW - 10 * SENSITIVITY);
    assert_eq!(s.camera.yaw, -1_580_796);
    assert_eq!(s.camera.pitch, 0);
}

#[test]
fn vertical_motion_lowers_pitch_as_pointer_moves_down() {
    let mut s = Scene::new();
    s.handle_event(&button(1, true));
    s.handle_event(&motion(0, 0));
    s.handle_event(&motion(0, 20));
    assert_eq!(s.camera.pitch, -20_000);
    s.handle_event(&motion(0, 5));
    assert_eq!(s.camera.pitch, -5_000);
}

#[test]
fn motion_without_drag_changes_nothing() {
    let mut s = Scene::new();
    s.handle_event(&motion(0, 0));
    s.handle_event(&motion(500, 500));
    assert_eq!(s, Scene::new());
    s.handle_event(&button(1, true));
    s.handle_event(&motion(0, 0));
    s.handle_event(&button(1, false));
    assert!(!s.dragging);
    s.handle_event(&motion(300, 0));
    assert_eq!(s.camera.yaw, START_YAW);
}

#[test]
fn new_drag_forgets_old_reference() {
    let mut s = Scene::new();
    s.handle_event(&button(1, true));
    s.handle_event(&motion(0, 0));
    s.handle_event(&button(1, false));
    s.handle_event(&button(1, true));
    s.handle_event(&motion(1000, 0));
    assert_eq!(s.camera.yaw, START_YAW);
}

#[test]
fn pitch_is_clamped_however_far_the_pointer_goes() {
    let mut s = Scene::new();
    s.handle_event(&button(1, true));
    s.handle_event(&motion(0, 0));
    s.handle_event(&motion(0, -1_000_000));
    assert_eq!(s.camera.pitch, PITCH_LIMIT);
    s.handle_event(&motion(0, i32::MAX));
    assert_eq!(s.camera.pitch, -PITCH_LIMIT);
    for i in 0..50 {
        s.handle_event(&motion(0, if i % 2 == 0 { i32::MIN } else { i32::MAX }));
        assert!(s.camera.pitch >= -1_500_000 && s.camera.pitch <= 1_500_000);
    }
}

#[test]
fn scroll_buttons_ask_for_dolly() {
    let mut s = Scene::new();
    assert_eq!(s.handle_event(&button(4, true)), Response::Dolly { forward: true });
    assert_eq!(s.handle_event(&button(5, true)), Response::Dolly { forward: false });
    assert_eq!(s.handle_event(&button(3, true)), Response::UnmappedButton(3));
    assert_eq!(s.handle_event(&button(2, false)), Response::UnmappedButton(2));
    assert_eq!(s, Scene::new());
}

#[test]
fn dolly_moves_along_given_step() {
    let mut s = Scene::new();
    let step = Fixed3 { x: 0, y: 0, z: -100_000 };
    s.dolly(step, true);
    assert_eq!((s.camera.x, s.camera.y, s.camera.z), (0, 0, 1_900_000));
    s.dolly(step, false);
    s.dolly(step, false);
    assert_eq!(s.camera.z, 2_100_000);
    assert_eq!(s.camera.yaw, START_YAW);
}

#[test]
fn rotation_integrates_speed_times_time() {
    let mut s = Scene::new();
    s.handle_event(&key(48));
    s.handle_event(&key(48));
    s.handle_event(&key(48));
    s.advance(16_000);
    s.advance(17_000);
    s.advance(0);
    s.advance(67_000);
    let expected = 300_000i128 * 100_000;
    assert_eq!(s.transform.angle, Angles { x: expected, y: expected, z: expected });
    assert_eq!(s.clock, 100_000);
}

#[test]
fn rotation_is_frame_rate_independent() {
    let mut fast = Scene::new();
    let mut slow = Scene::new();
    fast.handle_event(&key(51));
    slow.handle_event(&key(51));
    for _ in 0..60 {
        fast.advance(16_667);
    }
    for _ in 0..20 {
        slow.advance(50_001);
    }
    assert_eq!(fast.transform.angle, slow.transform.angle);
    assert_eq!(fast.transform.angle.x, -100_000i128 * 1_000_020);
}

#[test]
fn keys_saturate_instead_of_overflowing() {
    let mut s = Scene::new();
    s.camera.z = i64::MIN + 5;
    s.handle_event(&key(25));
    assert_eq!(s.camera.z, i64::MIN);
    s.transform.rotation_speed = i64::MAX;
    s.advance(u64::MAX);
    assert_eq!(s.transform.angle.x, (i64::MAX as i128) * (u64::MAX as i128));
    s.advance(u64::MAX);
    s.advance(u64::MAX);
    assert_eq!(s.transform.angle.x, i128::MAX);
    assert_eq!(s.clock, u64::MAX);
}
