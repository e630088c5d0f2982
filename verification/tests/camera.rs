use model_swap::camera::CameraPose;

#[test]
fn up_then_down_returns_to_start() {
    let mut c = CameraPose::new(0, 2000, 0);
    c.translate_step(500, false, true);
    // four world units per second for half a second
    assert_eq!(c.y, 4000);
    c.translate_step(500, true, false);
    assert_eq!(c.y, 2000);
    assert_eq!((c.x, c.z), (0, 0));
}

#[test]
fn orientation_always_points_at_target() {
    let mut c = CameraPose::new(0, 2000, 0);
    assert_eq!((c.face_x, c.face_y, c.face_z), (0, -2000, -5000));
    c.translate_step(250, false, true);
    assert_eq!((c.face_x, c.face_y, c.face_z), (0, -c.y, -5000));
    c.translate_step(1000, true, false);
    assert_eq!((c.face_x, c.face_y, c.face_z), (0, -c.y, -5000));
}

#[test]
fn both_keys_held_cancel_exactly() {
    let mut c = CameraPose::new(0, 2000, 0);
    c.translate_step(300, true, true);
    assert_eq!(c.y, 2000);
    assert_eq!((c.face_x, c.face_y, c.face_z), (0, -2000, -5000));
}

#[test]
fn no_keys_held_is_a_noop() {
    let mut c = CameraPose::new(0, 2000, 0);
    c.translate_step(700, false, false);
    assert_eq!(c.y, 2000);
}
