use obj_viewer::camera::{CameraKey, CameraState, InputEvent, KeyState};

fn press(key: CameraKey) -> InputEvent {
    InputEvent::Key { state: KeyState::Pressed, code: Some(key) }
}

fn release(key: CameraKey) -> InputEvent {
    InputEvent::Key { state: KeyState::Released, code: Some(key) }
}

#[test]
fn new_camera_starts_at_rest() {
    let cam = CameraState::new();
    assert_eq!(cam.position.x, 100_000);
    assert_eq!(cam.position.y, 100_000);
    assert_eq!(cam.position.z, 1_000_000);
    assert_eq!(cam.direction.x, 0);
    assert_eq!(cam.direction.y, 0);
    assert_eq!(cam.direction.z, -1_000);
    assert!(!cam.moving_up);
    assert!(!cam.moving_down);
    assert!(!cam.moving_left);
    assert!(!cam.moving_right);
    assert!(!cam.moving_forward);
    assert!(!cam.moving_backward);
    assert_eq!(cam.perspective.fovy_degrees, 60);
    assert_eq!(cam.perspective.aspect_width, 1024);
    assert_eq!(cam.perspective.aspect_height, 768);
    assert_eq!(cam.perspective.near, 100_000);
    assert_eq!(cam.perspective.far, 100_000_000);
}

#[test]
fn press_sets_and_release_clears_each_flag() {
    let mut cam = CameraState::new();
    let keys = [
        CameraKey::Space,
        CameraKey::ArrowDown,
        CameraKey::A,
        CameraKey::D,
        CameraKey::W,
        CameraKey::S,
    ];
    for key in keys {
        cam.process_input(&press(key));
    }
    assert!(cam.moving_up);
    assert!(cam.moving_down);
    assert!(cam.moving_left);
    assert!(cam.moving_right);
    assert!(cam.moving_forward);
    assert!(cam.moving_backward);
    for key in keys {
        cam.process_input(&release(key));
    }
    assert!(!cam.moving_up);
    assert!(!cam.moving_down);
    assert!(!cam.moving_left);
    assert!(!cam.moving_right);
    assert!(!cam.moving_forward);
    assert!(!cam.moving_backward);
}

#[test]
fn double_press_keeps_flag_set() {
    let mut cam = CameraState::new();
    cam.process_input(&press(CameraKey::W));
    cam.process_input(&press(CameraKey::W));
    assert!(cam.moving_forward);
}

#[test]
fn release_without_press_leaves_flag_clear() {
    let mut cam = CameraState::new();
    cam.process_input(&release(CameraKey::W));
    assert!(!cam.moving_forward);
}

#[test]
fn unrecognized_events_change_nothing() {
    let mut cam = CameraState::new();
    let before = cam;
    cam.process_input(&InputEvent::Other);
    assert_eq!(cam, before);
    cam.process_input(&InputEvent::Key { state: KeyState::Pressed, code: None });
    assert_eq!(cam, before);
}

#[test]
fn forward_and_up_move_additively_in_one_tick() {
    let mut cam = CameraState::new();
    cam.process_input(&press(CameraKey::W));
    cam.process_input(&press(CameraKey::Space));
    let before = cam.position;
    cam.update();
    // One step up, and one step along the look direction (0, 0, -1).
    assert_eq!(cam.position.x, before.x);
    assert_eq!(cam.position.y, before.y + 10_000);
    assert_eq!(cam.position.z, before.z - 10_000);
}

#[test]
fn update_without_flags_keeps_position() {
    let mut cam = CameraState::new();
    let before = cam.position;
    cam.update();
    assert_eq!(cam.position, before);
}

#[test]
fn opposite_flags_cancel() {
    let mut cam = CameraState::new();
    cam.process_input(&press(CameraKey::A));
    cam.process_input(&press(CameraKey::D));
    let before = cam.position;
    cam.update();
    assert_eq!(cam.position, before);
}

#[test]
fn update_leaves_direction_and_flags_alone() {
    let mut cam = CameraState::new();
    cam.process_input(&press(CameraKey::S));
    cam.update();
    assert_eq!(cam.direction.z, -1_000);
    assert!(cam.moving_backward);
    assert_eq!(cam.position.z, 1_000_000 + 10_000);
}

#[test]
fn view_is_deterministic_within_a_tick() {
    let cam = CameraState::new();
    let first = cam.get_view();
    let second = cam.get_view();
    assert_eq!(first, second);
}

#[test]
fn view_looks_one_direction_ahead() {
    let cam = CameraState::new();
    let v = cam.get_view();
    assert_eq!(v.eye, cam.position);
    assert_eq!(v.target.x, 100_000);
    assert_eq!(v.target.y, 100_000);
    // The look direction is one world unit long, so the target sits one
    // world unit (a million position units) before the eye.
    assert_eq!(v.target.z, 0);
    assert_eq!(v.up.x, 0);
    assert_eq!(v.up.y, 1_000_000);
    assert_eq!(v.up.z, 0);
}

#[test]
fn perspective_is_fixed_at_construction() {
    let mut cam = CameraState::new();
    let p0 = cam.get_perspective();
    cam.process_input(&press(CameraKey::W));
    cam.update();
    let p1 = cam.get_perspective();
    assert_eq!(p0, p1);
}
