use fly_camera::camera::{direction, held_pitch, Camera, Direction, Heading, Tilt};
use fly_camera::projection::Projection;
use fly_camera::units::{
    add_saturating_i128, add_saturating_i32, scaled, time_step, AMOUNT_LIMIT, DEGREE, HEADING_ONE,
    HEADING_ONE_SQUARED, HEADING_SLACK, LENGTH_ONE, PITCH_LIMIT,
};

#[test]
fn new_camera_holds_its_pitch() {
    let camera = Camera::new(1, 2, 3, -90 * DEGREE, -5 * DEGREE);
    assert_eq!(camera, Camera { x: 1, y: 2, z: 3, yaw: -90 * DEGREE, pitch: -5 * DEGREE });
    assert_eq!(Camera::new(0, 0, 0, 0, 90 * DEGREE).pitch, 89 * DEGREE);
    assert_eq!(Camera::new(0, 0, 0, 0, -90 * DEGREE).pitch, -89 * DEGREE);
    assert_eq!(Camera::new(0, 0, 0, 0, PITCH_LIMIT).pitch, PITCH_LIMIT);
    assert_eq!(Camera::new(0, 0, 0, 0, PITCH_LIMIT + 1).pitch, PITCH_LIMIT);
    assert_eq!(Camera::new(0, 0, 0, 0, -PITCH_LIMIT - 1).pitch, -PITCH_LIMIT);
}

#[test]
fn held_pitch_is_a_clamp() {
    assert_eq!(held_pitch(0), 0);
    assert_eq!(held_pitch(PITCH_LIMIT - 1), PITCH_LIMIT - 1);
    assert_eq!(held_pitch(i128::MAX), PITCH_LIMIT);
    assert_eq!(held_pitch(i128::MIN), -PITCH_LIMIT);
}

#[test]
fn heading_is_a_unit_vector() {
    assert_eq!(Heading::new(HEADING_ONE, 0), Some(Heading { cos: HEADING_ONE, sin: 0 }));
    assert_eq!(Heading::new(0, -HEADING_ONE), Some(Heading { cos: 0, sin: -HEADING_ONE }));
    assert_eq!(Heading::new(-600_000, 800_000), Some(Heading { cos: -600_000, sin: 800_000 }));
    assert_eq!(Heading::new(707_107, 707_107), Some(Heading { cos: 707_107, sin: 707_107 }));
    assert_eq!(Heading::new(0, 0), None);
    assert_eq!(Heading::new(HEADING_ONE, -HEADING_ONE), None);
    assert_eq!(Heading::new(HEADING_ONE + 1, 0), None);
    assert_eq!(Heading::new(0, HEADING_ONE + 1), None);
    assert_eq!(Heading::new(-HEADING_ONE - 1, 0), None);
    assert_eq!(Heading::new(0, -HEADING_ONE - 1), None);
    assert_eq!(Heading::new(i32::MAX, i32::MIN), None);
}

#[test]
fn heading_slack_is_exact() {
    // 999_999^2 = 999_998_000_001 lies just inside the slack of 2_000_000.
    assert_eq!(HEADING_ONE_SQUARED - HEADING_SLACK, 999_998_000_000);
    assert_eq!(Heading::new(999_999, 0), Some(Heading { cos: 999_999, sin: 0 }));
    assert_eq!(Heading::new(999_998, 0), None);
    // 1_000_000^2 + 1_414^2 = 1_000_001_999_396 is inside, with 1_415 it is outside.
    assert_eq!(Heading::new(HEADING_ONE, 1_414), Some(Heading { cos: HEADING_ONE, sin: 1_414 }));
    assert_eq!(Heading::new(HEADING_ONE, 1_415), None);
}

#[test]
fn projection_needs_a_viewport_and_ordered_planes() {
    let near = LENGTH_ONE / 10;
    let far = 100 * LENGTH_ONE;
    let projection = Projection::new(800, 600, 45 * DEGREE, near, far).unwrap();
    assert_eq!(projection.aspect_ratio(), (800, 600));
    assert_eq!(projection.fov_y, 45 * DEGREE);
    assert_eq!(projection.z_near, near);
    assert_eq!(projection.z_far, far);
    assert_eq!(Projection::new(0, 600, 45 * DEGREE, near, far), None);
    assert_eq!(Projection::new(800, 0, 45 * DEGREE, near, far), None);
    assert_eq!(Projection::new(800, 600, 45 * DEGREE, 0, far), None);
    assert_eq!(Projection::new(800, 600, 45 * DEGREE, -1, far), None);
    assert_eq!(Projection::new(800, 600, 45 * DEGREE, far, far), None);
    assert_eq!(Projection::new(800, 600, 45 * DEGREE, far, near), None);
}

#[test]
fn resize_changes_only_the_viewport() {
    let mut projection = Projection::new(800, 600, 45 * DEGREE, 1, 2).unwrap();
    projection.resize(1920, 1080);
    assert_eq!(
        projection,
        Projection { width: 1920, height: 1080, fov_y: 45 * DEGREE, z_near: 1, z_far: 2 }
    );
}

#[test]
fn resize_twice_is_resize_once() {
    let mut once = Projection::new(800, 600, 45 * DEGREE, 1, 2).unwrap();
    once.resize(1024, 768);
    let mut twice = once;
    twice.resize(1024, 768);
    assert_eq!(once, twice);
    assert_eq!(twice.aspect_ratio(), (1024, 768));
}

#[test]
fn saturating_sums() {
    assert_eq!(add_saturating_i32(1, 2), 3);
    assert_eq!(add_saturating_i32(i32::MAX, 1), i32::MAX);
    assert_eq!(add_saturating_i32(i32::MIN, -1), i32::MIN);
    assert_eq!(add_saturating_i32(i32::MIN, i32::MAX), -1);
    assert_eq!(add_saturating_i128(-4, 9), 5);
    assert_eq!(add_saturating_i128(i128::MAX, 1), i128::MAX);
    assert_eq!(add_saturating_i128(i128::MAX, i128::MAX), i128::MAX);
    assert_eq!(add_saturating_i128(i128::MIN, -1), i128::MIN);
    assert_eq!(add_saturating_i128(i128::MIN, i128::MIN), i128::MIN);
    assert_eq!(add_saturating_i128(i128::MIN, i128::MAX), -1);
    assert_eq!(add_saturating_i128(i128::MAX, i128::MIN), -1);
}

#[test]
fn scaled_is_the_exact_product() {
    assert_eq!(scaled(3, 5, 7), 105);
    assert_eq!(scaled(-3, 5, 7), -105);
    assert_eq!(scaled(0, u32::MAX, u32::MAX), 0);
    assert_eq!(scaled(9, 0, 7), 0);
    let rate = u32::MAX as i128;
    assert_eq!(scaled(AMOUNT_LIMIT, u32::MAX, u32::MAX), AMOUNT_LIMIT as i128 * rate * rate);
    assert_eq!(scaled(-AMOUNT_LIMIT, u32::MAX, u32::MAX), -(AMOUNT_LIMIT as i128) * rate * rate);
}

#[test]
fn time_step_stops_at_the_longest_frame() {
    assert_eq!(time_step(0), 0);
    assert_eq!(time_step(16_667), 16_667);
    assert_eq!(time_step(u32::MAX as u128), u32::MAX);
    assert_eq!(time_step(u32::MAX as u128 + 1), u32::MAX);
    assert_eq!(time_step(u128::MAX), u32::MAX);
}

#[test]
fn tilt_is_a_unit_vector_off_the_poles() {
    assert_eq!(Tilt::new(HEADING_ONE, 0), Some(Tilt { cos: HEADING_ONE, sin: 0 }));
    assert_eq!(Tilt::new(600_000, -800_000), Some(Tilt { cos: 600_000, sin: -800_000 }));
    assert_eq!(Tilt::new(17_452, 999_848), Some(Tilt { cos: 17_452, sin: 999_848 }));
    assert_eq!(Tilt::new(1, HEADING_ONE), Some(Tilt { cos: 1, sin: HEADING_ONE }));
    assert_eq!(Tilt::new(0, HEADING_ONE), None);
    assert_eq!(Tilt::new(0, -HEADING_ONE), None);
    assert_eq!(Tilt::new(-600_000, 800_000), None);
    assert_eq!(Tilt::new(500_000, 500_000), None);
    assert_eq!(Tilt::new(HEADING_ONE + 1, 0), None);
}

#[test]
fn direction_follows_heading_and_tilt() {
    let east = Heading::new(HEADING_ONE, 0).unwrap();
    let level = Tilt::new(HEADING_ONE, 0).unwrap();
    assert_eq!(
        direction(east, level),
        Direction { x: HEADING_ONE_SQUARED, y: 0, z: 0 }
    );
    let heading = Heading::new(-600_000, 800_000).unwrap();
    let tilt = Tilt::new(800_000, -600_000).unwrap();
    assert_eq!(
        direction(heading, tilt),
        Direction { x: -480_000_000_000, y: -600_000_000_000, z: 640_000_000_000 }
    );
    assert_eq!(
        direction(heading, level),
        Direction { x: -600_000_000_000, y: 0, z: 800_000_000_000 }
    );
}
