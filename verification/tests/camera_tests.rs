use uranx_core::camera::Camera;

fn b(x: f32) -> u32 {
    x.to_bits()
}

fn f(x: u32) -> f32 {
    f32::from_bits(x)
}

fn fresh_camera() -> Camera {
    Camera::new(
        [b(0.0), b(0.0), b(3.0)],
        [b(0.0), b(1.0), b(0.0)],
        b(0.3),
        b(400.0),
        b(300.0),
    )
}

fn front_length(cam: &Camera) -> f32 {
    let [x, y, z] = cam.gl_camera_front;
    (f(x) * f(x) + f(y) * f(y) + f(z) * f(z)).sqrt()
}

#[test]
fn new_camera_initial_state() {
    let cam = fresh_camera();
    assert_eq!(f(cam.gl_camera_yaw), -90.0);
    assert_eq!(f(cam.gl_camera_pitch), 0.0);
    assert!(cam.first_move);
    assert_eq!(cam.gl_camera_front.map(f), [0.0, 0.0, 0.0]);
}

#[test]
fn first_movement_only_records_center() {
    let mut cam = fresh_camera();
    cam.process_mouse_movement(b(1234.0), b(-77.0));
    assert_eq!(f(cam.gl_camera_yaw), -90.0);
    assert_eq!(f(cam.gl_camera_pitch), 0.0);
    assert_eq!(cam.gl_camera_front.map(f), [0.0, 0.0, 0.0]);
    assert!(!cam.first_move);
    assert_eq!(f(cam.center_x), 1234.0);
    assert_eq!(f(cam.center_y), -77.0);
}

#[test]
fn front_vector_has_unit_length_after_every_movement() {
    let mut cam = fresh_camera();
    cam.process_mouse_movement(b(100.0), b(100.0));
    let moves = [
        (110.0, 95.0),
        (50.0, 200.0),
        (300.0, -40.0),
        (300.0, -40.0),
        (0.0, 0.0),
        (12.5, 800.25),
    ];
    for (x, y) in moves {
        cam.process_mouse_movement(b(x), b(y));
        let len = front_length(&cam);
        assert!((len - 1.0).abs() < 1e-5, "length {len}");
    }
}

#[test]
fn pitch_stays_clamped_to_89_degrees() {
    let mut cam = fresh_camera();
    cam.process_mouse_movement(b(0.0), b(0.0));
    // a huge upward swing, then a huge downward swing, then small jitters
    let moves = [(0.0, -100000.0), (0.0, 100000.0), (10.0, 50.0), (-5.0, -3.0)];
    for (x, y) in moves {
        cam.process_mouse_movement(b(x), b(y));
        let pitch = f(cam.gl_camera_pitch);
        assert!((-89.0..=89.0).contains(&pitch), "pitch {pitch}");
    }
    // after the downward swing the pitch sat exactly on the bound
    let mut cam = fresh_camera();
    cam.process_mouse_movement(b(0.0), b(0.0));
    cam.process_mouse_movement(b(0.0), b(-100000.0));
    assert_eq!(f(cam.gl_camera_pitch), 89.0);
}

#[test]
fn yaw_accumulates_scaled_offsets() {
    let mut cam = fresh_camera();
    cam.process_mouse_movement(b(100.0), b(100.0));
    cam.process_mouse_movement(b(110.0), b(100.0));
    // offset 10 scaled by sensitivity 0.3 accumulated onto -90
    assert_eq!(f(cam.gl_camera_yaw), -90.0 + 10.0 * 0.3);
}

#[test]
fn forward_matches_spherical_conversion() {
    let mut cam = fresh_camera();
    cam.process_mouse_movement(b(0.0), b(0.0));
    cam.process_mouse_movement(b(10.0), b(-20.0));
    let yaw = f(cam.gl_camera_yaw).to_radians();
    let pitch = f(cam.gl_camera_pitch).to_radians();
    let dir = [yaw.cos() * pitch.cos(), pitch.sin(), yaw.sin() * pitch.cos()];
    let len = (dir[0] * dir[0] + dir[1] * dir[1] + dir[2] * dir[2]).sqrt();
    let front = cam.gl_camera_front.map(f);
    for i in 0..3 {
        assert!((front[i] - dir[i] / len).abs() < 1e-5);
    }
}

#[test]
fn move_forward_walks_along_front() {
    let mut cam = fresh_camera();
    cam.gl_camera_front = [b(0.0), b(0.0), b(-1.0)];
    cam.move_forward(b(2.5));
    assert_eq!(cam.gl_camera_pos.map(f), [0.0, 0.0, 0.5]);
}

#[test]
fn move_back_walks_against_front() {
    let mut cam = fresh_camera();
    cam.gl_camera_front = [b(0.0), b(0.0), b(-1.0)];
    cam.move_back(b(2.0));
    assert_eq!(cam.gl_camera_pos.map(f), [0.0, 0.0, 5.0]);
}

#[test]
fn move_right_walks_along_right_vector() {
    let mut cam = fresh_camera();
    cam.gl_camera_front = [b(0.0), b(0.0), b(-1.0)];
    cam.move_right(b(2.0));
    // right = normalize(cross(front, up)) = (1, 0, 0)
    assert_eq!(cam.gl_camera_pos.map(f), [2.0, 0.0, 3.0]);
}

#[test]
fn move_left_walks_against_right_vector() {
    let mut cam = fresh_camera();
    cam.gl_camera_front = [b(0.0), b(0.0), b(-1.0)];
    cam.move_left(b(2.0));
    assert_eq!(cam.gl_camera_pos.map(f), [-2.0, 0.0, 3.0]);
}

#[test]
fn clamp_pitch_reference_values() {
    assert_eq!(f(Camera::clamp_pitch(b(90.5))), 89.0);
    assert_eq!(f(Camera::clamp_pitch(b(-120.0))), -89.0);
    assert_eq!(f(Camera::clamp_pitch(b(12.25))), 12.25);
    assert_eq!(f(Camera::clamp_pitch(b(89.0))), 89.0);
    assert_eq!(f(Camera::clamp_pitch(b(-89.0))), -89.0);
}
