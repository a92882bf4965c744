use cube_demo::camera::{
    clamp_coordinate, Camera, HALF_BITS, LIMIT_BITS, NEG_LIMIT_BITS, ONE_BITS, SIGN_BIT, ZERO_BITS,
};

fn clamp(v: f32) -> f32 {
    f32::from_bits(clamp_coordinate(v.to_bits()))
}

#[test]
fn camera_constants_are_the_values_they_name() {
    assert_eq!(f32::from_bits(LIMIT_BITS), 5.0);
    assert_eq!(f32::from_bits(NEG_LIMIT_BITS), -5.0);
    assert_eq!(f32::from_bits(HALF_BITS), 0.5);
    assert_eq!(f32::from_bits(ONE_BITS), 1.0);
    assert_eq!(f32::from_bits(ZERO_BITS), 0.0);
    assert_eq!(SIGN_BIT, (-0.0f32).to_bits());
}

#[test]
fn clamp_leaves_values_in_range() {
    for v in [0.0f32, -0.0, 0.5, -0.5, 3.25, -4.999, 5.0, -5.0, 1.0e-30, -1.0e-40] {
        assert_eq!(clamp(v).to_bits(), v.to_bits());
    }
}

#[test]
fn clamp_cuts_values_out_of_range() {
    assert_eq!(clamp(7.5), 5.0);
    assert_eq!(clamp(-7.5), -5.0);
    assert_eq!(clamp(5.000001), 5.0);
    assert_eq!(clamp(-5.000001), -5.0);
    assert_eq!(clamp(f32::MAX), 5.0);
    assert_eq!(clamp(f32::MIN), -5.0);
    assert_eq!(clamp(f32::INFINITY), 5.0);
    assert_eq!(clamp(f32::NEG_INFINITY), -5.0);
}

#[test]
fn clamp_of_nan_is_in_range() {
    let r = clamp(f32::NAN);
    assert!(r == 5.0 || r == -5.0);
    let r = clamp(-f32::NAN);
    assert!(r == 5.0 || r == -5.0);
}

#[test]
fn clamp_agrees_with_the_floating_point_clamp() {
    let mut v = -8.0f32;
    while v <= 8.0 {
        assert_eq!(clamp(v), v.clamp(-5.0, 5.0));
        v += 0.0625;
    }
}

#[test]
fn clamp_twice_is_clamp_once() {
    for bits in [0u32, 1, 0x40A0_0001, 0x7FC0_0000, 0xFFFF_FFFF, 0xC0A0_0001, 0x8000_0000] {
        let once = clamp_coordinate(bits);
        assert_eq!(clamp_coordinate(once), once);
    }
}

#[test]
fn camera_starts_at_five_minus_five_five() {
    let c = Camera::initial();
    assert_eq!(f32::from_bits(c.x()), 5.0);
    assert_eq!(f32::from_bits(c.y()), -5.0);
    assert_eq!(f32::from_bits(c.z()), 5.0);
}

#[test]
fn camera_new_clamps_each_coordinate() {
    let c = Camera::new(9.0f32.to_bits(), (-0.25f32).to_bits(), (-100.0f32).to_bits());
    assert_eq!(f32::from_bits(c.x()), 5.0);
    assert_eq!(f32::from_bits(c.y()), -0.25);
    assert_eq!(f32::from_bits(c.z()), -5.0);
}

#[test]
fn camera_edits_are_clamped_and_independent() {
    let mut c = Camera::initial();
    c.set_x(1.5f32.to_bits());
    assert_eq!((f32::from_bits(c.x()), f32::from_bits(c.y()), f32::from_bits(c.z())), (1.5, -5.0, 5.0));
    c.set_y(6.0f32.to_bits());
    assert_eq!((f32::from_bits(c.x()), f32::from_bits(c.y()), f32::from_bits(c.z())), (1.5, 5.0, 5.0));
    c.set_z((-6.0f32).to_bits());
    assert_eq!((f32::from_bits(c.x()), f32::from_bits(c.y()), f32::from_bits(c.z())), (1.5, 5.0, -5.0));
    c.set_x(f32::INFINITY.to_bits());
    assert_eq!(f32::from_bits(c.x()), 5.0);
}
