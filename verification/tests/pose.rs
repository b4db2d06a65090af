use raycaster::camera::{Camera, Rotation, Vec2, CAM_MAX};
use raycaster::control::{action_for, apply_action, Action, ControlEvent, ControlState, Key};
use raycaster::SCALE;

fn camera_at(x: i64, y: i64) -> Camera {
    Camera::new(Vec2 { x, y }, Vec2 { x: -SCALE, y: 0 }, Vec2 { x: 0, y: 2703 })
        .expect("camera is valid")
}

#[test]
fn camera_rejects_dependent_vectors() {
    // Direction and view plane must span the plane.
    let r = Camera::new(
        Vec2 { x: SCALE, y: SCALE },
        Vec2 { x: 100, y: 200 },
        Vec2 { x: 50, y: 100 },
    );
    assert!(r.is_none());
}

#[test]
fn camera_rejects_out_of_range_components() {
    let r = Camera::new(
        Vec2 { x: CAM_MAX + 1, y: 0 },
        Vec2 { x: -SCALE, y: 0 },
        Vec2 { x: 0, y: 2703 },
    );
    assert!(r.is_none());
}

#[test]
fn move_forward_adds_direction_times_step() {
    let mut cam = camera_at(4 * SCALE, 4 * SCALE);
    // One world unit forward along (-1, 0).
    assert!(cam.move_forward(SCALE));
    assert_eq!(cam.position, Vec2 { x: 3 * SCALE, y: 4 * SCALE });
    assert!(cam.move_backward(SCALE));
    assert_eq!(cam.position, Vec2 { x: 4 * SCALE, y: 4 * SCALE });
}

#[test]
fn move_out_of_range_leaves_camera_unchanged() {
    let mut cam = camera_at(CAM_MAX - 100, 4 * SCALE);
    let before = cam;
    // Backward along (-1, 0) walks toward +x, past the representable
    // range.
    assert!(!cam.move_backward(32000));
    assert_eq!(cam, before);
}

#[test]
fn rotation_validates_magnitudes() {
    assert!(Rotation::new(3, 4, 5).is_some());
    assert!(Rotation::new(6, 4, 5).is_none());
    assert!(Rotation::new(3, 4, 0).is_none());
    assert!(Rotation::new(3, -4, 5).is_some());
}

#[test]
fn rotation_round_trip_restores_pose() {
    // A 3-4-5 rotation of components divisible by 5 is exact both ways.
    let cam0 = Camera::new(
        Vec2 { x: 4 * SCALE, y: 4 * SCALE },
        Vec2 { x: 4095, y: 0 },
        Vec2 { x: 0, y: 2700 },
    )
    .expect("camera is valid");
    let mut cam = cam0;
    let rot = Rotation::new(3, 4, 5).unwrap();
    let back = rot.inverse();
    assert!(cam.rotate(&rot));
    assert_eq!(cam.direction, Vec2 { x: 2457, y: 3276 });
    assert_eq!(cam.view_plane, Vec2 { x: -2160, y: 1620 });
    assert!(cam.rotate(&back));
    assert_eq!(cam.direction, cam0.direction);
    assert_eq!(cam.view_plane, cam0.view_plane);
    assert_eq!(cam.position, cam0.position);
}

#[test]
fn rotation_keeps_direction_and_plane_locked() {
    // Direction and view plane turn by the same angle: their cross
    // product (their relative angle and magnitude product) is
    // preserved by an exact rotation.
    let mut cam = Camera::new(
        Vec2 { x: 4 * SCALE, y: 4 * SCALE },
        Vec2 { x: 4095, y: 0 },
        Vec2 { x: 0, y: 2700 },
    )
    .expect("camera is valid");
    let cross0 = cam.direction.x * cam.view_plane.y - cam.direction.y * cam.view_plane.x;
    let rot = Rotation::new(4, 3, 5).unwrap();
    assert!(cam.rotate(&rot));
    let cross1 = cam.direction.x * cam.view_plane.y - cam.direction.y * cam.view_plane.x;
    assert_eq!(cross0, cross1);
}

#[test]
fn key_binding_maps_arrows_and_quit() {
    assert_eq!(action_for(ControlEvent::Quit), Action::Quit);
    assert_eq!(action_for(ControlEvent::KeyDown(Key::Left)), Action::RotateLeft);
    assert_eq!(action_for(ControlEvent::KeyDown(Key::Right)), Action::RotateRight);
    assert_eq!(action_for(ControlEvent::KeyDown(Key::Up)), Action::MoveForward);
    assert_eq!(action_for(ControlEvent::KeyDown(Key::Down)), Action::MoveBackward);
    assert_eq!(action_for(ControlEvent::KeyDown(Key::Other)), Action::NoOp);
    assert_eq!(action_for(ControlEvent::Other), Action::NoOp);
}

#[test]
fn apply_action_moves_and_quits() {
    let rot = Rotation::new(3, 4, 5).unwrap();
    let back = rot.inverse();
    let mut cam = camera_at(4 * SCALE, 4 * SCALE);
    let before = cam;

    let s = apply_action(&mut cam, Action::NoOp, &rot, &back, 328);
    assert_eq!(s, ControlState::Running);
    assert_eq!(cam, before);

    let s = apply_action(&mut cam, Action::MoveForward, &rot, &back, SCALE);
    assert_eq!(s, ControlState::Running);
    assert_eq!(cam.position, Vec2 { x: 3 * SCALE, y: 4 * SCALE });

    let s = apply_action(&mut cam, Action::Quit, &rot, &back, 328);
    assert_eq!(s, ControlState::Quitting);
    assert_eq!(cam.position, Vec2 { x: 3 * SCALE, y: 4 * SCALE });
}

#[test]
fn small_angle_round_trip_stays_close() {
    // The turn used by the key binding is not exactly on the unit
    // circle at this denominator, so a round trip is only close, not
    // exact: rounding costs at most a few scaled units per component.
    let angle: f64 = 7.0 * 0.016;
    let den: i64 = 65536;
    let cos = (angle.cos() * den as f64).round() as i64;
    let sin = (angle.sin() * den as f64).round() as i64;
    let rot = Rotation::new(cos, sin, den).unwrap();
    let back = rot.inverse();
    let cam0 = camera_at(4 * SCALE, 4 * SCALE);
    let mut cam = cam0;
    assert!(cam.rotate(&rot));
    assert!(cam.rotate(&back));
    assert!((cam.direction.x - cam0.direction.x).abs() <= 3);
    assert!((cam.direction.y - cam0.direction.y).abs() <= 3);
    assert!((cam.view_plane.x - cam0.view_plane.x).abs() <= 3);
    assert!((cam.view_plane.y - cam0.view_plane.y).abs() <= 3);
    assert_eq!(cam.position, cam0.position);
}

#[test]
fn apply_action_turns_left_and_right() {
    // A left turn applies exactly the left rotation, a right turn its
    // mirror; swapping the two would change the sign of direction.y.
    let rot_left = Rotation::new(3, 4, 5).unwrap();
    let rot_right = rot_left.inverse();
    let cam0 = Camera::new(
        Vec2 { x: 4 * SCALE, y: 4 * SCALE },
        Vec2 { x: 4095, y: 0 },
        Vec2 { x: 0, y: 2700 },
    )
    .expect("camera is valid");
    let mut cam = cam0;

    let s = apply_action(&mut cam, Action::RotateLeft, &rot_left, &rot_right, 328);
    assert_eq!(s, ControlState::Running);
    assert_eq!(cam.direction, Vec2 { x: 2457, y: 3276 });
    assert_eq!(cam.view_plane, Vec2 { x: -2160, y: 1620 });
    assert_eq!(cam.position, cam0.position);

    let s = apply_action(&mut cam, Action::RotateRight, &rot_left, &rot_right, 328);
    assert_eq!(s, ControlState::Running);
    assert_eq!(cam.direction, cam0.direction);
    assert_eq!(cam.view_plane, cam0.view_plane);
    assert_eq!(cam.position, cam0.position);
}
