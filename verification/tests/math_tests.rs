use uranx_core::camera::Camera;

fn b(x: f32) -> u32 {
    x.to_bits()
}

fn f(x: u32) -> f32 {
    f32::from_bits(x)
}

fn close(a: u32, expected: f32) -> bool {
    (f(a) - expected).abs() < 1e-5
}

#[test]
fn normalize_zero_vector_returns_zero_vector() {
    let r = Camera::normalize(&[b(0.0), b(0.0), b(0.0)]);
    assert_eq!(r, [b(0.0), b(0.0), b(0.0)]);
}

#[test]
fn normalize_matches_native_arithmetic() {
    let r = Camera::normalize(&[b(3.0), b(4.0), b(0.0)]);
    assert_eq!(r, [b(0.6), b(0.8), b(0.0)]);
}

#[test]
fn cross_of_axes() {
    let r = Camera::cross([b(1.0), b(0.0), b(0.0)], [b(0.0), b(1.0), b(0.0)]);
    assert_eq!([f(r[0]), f(r[1]), f(r[2])], [0.0, 0.0, 1.0]);
}

#[test]
fn dot_matches_native_arithmetic() {
    let r = Camera::dot([b(1.5), b(2.0), b(-3.0)], [b(4.0), b(0.5), b(2.0)]);
    assert_eq!(f(r), 1.5 * 4.0 + 2.0 * 0.5 + (-3.0) * 2.0);
}

#[test]
fn to_radiance_matches_native_arithmetic() {
    let r = Camera::to_radiance(b(90.0));
    assert_eq!(r, (90.0f32 * (std::f32::consts::PI / 180.0)).to_bits());
    assert!(close(r, std::f32::consts::FRAC_PI_2));
}

#[test]
fn perspective_reference_matrix() {
    let m = Camera::perspective(b(90.0), b(1.0), b(0.1), b(100.0));
    // f = 1 / tan(45 degrees) = 1
    assert!(close(m[0], 1.0));
    assert!(close(m[5], 1.0));
    assert!(close(m[10], (100.0 + 0.1) / (0.1 - 100.0)));
    assert_eq!(f(m[11]), -1.0);
    assert!(close(m[14], (2.0 * 100.0 * 0.1) / (0.1 - 100.0)));
    for i in [1, 2, 3, 4, 6, 7, 8, 9, 12, 13, 15] {
        assert_eq!(f(m[i]), 0.0);
    }
}

#[test]
fn look_at_reference_matrix() {
    let m = Camera::look_at(
        [b(0.0), b(0.0), b(3.0)],
        [b(0.0), b(0.0), b(0.0)],
        [b(0.0), b(1.0), b(0.0)],
    );
    let expected: [f32; 16] = [
        1.0, 0.0, 0.0, 0.0, 0.0, 1.0, 0.0, 0.0, 0.0, 0.0, 1.0, 0.0, 0.0, 0.0, -3.0, 1.0,
    ];
    for i in 0..16 {
        assert!((f(m[i]) - expected[i]).abs() < 1e-6, "element {i}: {}", f(m[i]));
    }
}

#[test]
fn scale_translate_round_trip() {
    let m = Camera::translate(
        Camera::scale(Camera::identity_matrix(), [b(2.0), b(2.0), b(2.0)]),
        [b(1.0), b(0.0), b(0.0)],
    );
    // diagonal [2, 2, 2, 1]
    assert_eq!([f(m[0]), f(m[5]), f(m[10]), f(m[15])], [2.0, 2.0, 2.0, 1.0]);
    // translation column [1, 0, 0]
    assert_eq!([f(m[12]), f(m[13]), f(m[14])], [1.0, 0.0, 0.0]);
    // everything else untouched
    for i in [1, 2, 3, 4, 6, 7, 8, 9, 11] {
        assert_eq!(f(m[i]), 0.0);
    }
}

#[test]
fn translate_accumulates() {
    let m = Camera::translate(
        Camera::translate(Camera::identity_matrix(), [b(1.0), b(2.0), b(3.0)]),
        [b(0.5), b(-1.0), b(1.0)],
    );
    assert_eq!([f(m[12]), f(m[13]), f(m[14])], [1.5, 1.0, 4.0]);
}

#[test]
fn identity_matrix_reference() {
    let m = Camera::identity_matrix();
    for i in 0..16 {
        let expected = if i % 5 == 0 { 1.0 } else { 0.0 };
        assert_eq!(f(m[i]), expected);
    }
}
