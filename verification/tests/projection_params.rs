use gl_sandbox::projection::{Projection, FAR_BITS, FOV_DEGREES_BITS, NEAR_BITS};

#[test]
fn projection_constants_are_the_floats_they_stand_for() {
    assert_eq!(f32::from_bits(FOV_DEGREES_BITS), 70.0);
    assert_eq!(f32::from_bits(NEAR_BITS), 0.001);
    assert_eq!(f32::from_bits(FAR_BITS), 1000.0);
}

#[test]
fn new_projection_takes_the_viewport_size() {
    let p = Projection::new(800, 600);
    assert_eq!(
        p,
        Projection {
            fov_degrees: 70.0f32.to_bits(),
            width: 800,
            height: 600,
            near: 0.001f32.to_bits(),
            far: 1000.0f32.to_bits(),
        }
    );
}

#[test]
fn resize_changes_the_aspect_and_nothing_else() {
    let before = Projection::new(800, 600);
    let after = before.resized(1024, 768);
    assert_eq!((after.width, after.height), (1024, 768));
    assert_eq!(after.width as f32 / after.height as f32, 1024.0 / 768.0);
    assert_eq!(after.fov_degrees, before.fov_degrees);
    assert_eq!(after.near, before.near);
    assert_eq!(after.far, before.far);
}
