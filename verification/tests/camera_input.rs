use cube_renderer::camera::{CameraAngles, CameraMovement, PITCH_MAX_CDEG, PITCH_MIN_CDEG};

#[test]
fn mouse_delta_scales_by_sensitivity() {
    // Sensitivity 0.1° per count is 10 hundredths; dx = 10 and dy = 5 move
    // yaw by 1.00° and pitch by 0.50°.
    let mut angles = CameraAngles::new(-13500, -3500);
    angles.process_mouse(10, 5, 10);
    assert_eq!(angles.yaw_cdeg, -13400);
    assert_eq!(angles.pitch_cdeg, -3450);
}

#[test]
fn pitch_clamps_one_degree_short_of_vertical() {
    let mut up = CameraAngles::new(0, 8800);
    up.process_mouse(0, 500, 10);
    assert_eq!(up.pitch_cdeg, PITCH_MAX_CDEG);

    let mut down = CameraAngles::new(0, -8800);
    down.process_mouse(0, -500, 10);
    assert_eq!(down.pitch_cdeg, PITCH_MIN_CDEG);
}

#[test]
fn yaw_accumulates_without_clamping() {
    let mut angles = CameraAngles::new(17000, 0);
    angles.process_mouse(2000, 0, 10);
    assert_eq!(angles.yaw_cdeg, 37000);
    angles.process_mouse(-5000, 0, 10);
    assert_eq!(angles.yaw_cdeg, -13000);
}

#[test]
fn movement_intents_cover_all_six_directions() {
    let intents = [
        CameraMovement::Forward,
        CameraMovement::Backward,
        CameraMovement::Left,
        CameraMovement::Right,
        CameraMovement::Up,
        CameraMovement::Down,
    ];
    for (i, a) in intents.iter().enumerate() {
        for b in intents.iter().skip(i + 1) {
            assert_ne!(a, b);
        }
    }
}
