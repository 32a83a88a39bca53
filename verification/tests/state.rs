use fly_camera::camera::{Camera, Heading};
use fly_camera::controller::{along, net, CameraController, Key, ScrollDelta};
use fly_camera::projection::Projection;
use fly_camera::state::{InputEvent, State, LOOK_BUTTON};
use fly_camera::units::{DEGREE, HEADING_ONE, LENGTH_ONE, RATE_ONE, SECOND};

fn fresh() -> State {
    State::new(
        Camera::new(0, 0, 0, 0, 0),
        Projection::new(800, 600, 45 * DEGREE, LENGTH_ONE / 10, 100 * LENGTH_ONE).unwrap(),
        CameraController::new(4 * RATE_ONE, RATE_ONE),
    )
}

#[test]
fn new_state_has_the_look_button_up() {
    let state = fresh();
    assert!(!state.mouse_pressed);
    assert_eq!(state.camera, Camera::new(0, 0, 0, 0, 0));
    assert_eq!(state.camera_controller, CameraController::new(4 * RATE_ONE, RATE_ONE));
    assert_eq!(state.projection.aspect_ratio(), (800, 600));
}

#[test]
fn keys_reach_the_controller() {
    let mut state = fresh();
    assert!(state.input(InputEvent::Key { key: Key::Left, pressed: true }));
    assert!(state.camera_controller.left);
    assert!(state.input(InputEvent::Key { key: Key::Left, pressed: false }));
    assert_eq!(state, fresh());
    assert!(!state.input(InputEvent::Key { key: Key::Other, pressed: true }));
    assert_eq!(state, fresh());
}

#[test]
fn pointer_turns_only_while_the_button_is_held() {
    let mut state = fresh();
    assert!(state.input(InputEvent::MouseMotion { dx: 5, dy: 6 }));
    assert_eq!(state, fresh());
    assert!(state.input(InputEvent::Button { button: LOOK_BUTTON, pressed: true }));
    assert!(state.mouse_pressed);
    assert!(state.input(InputEvent::MouseMotion { dx: 5, dy: 6 }));
    assert!(state.input(InputEvent::MouseMotion { dx: 1, dy: 1 }));
    assert_eq!(state.camera_controller.rotate_horizontal, 6);
    assert_eq!(state.camera_controller.rotate_vertical, 7);
    assert!(state.input(InputEvent::Button { button: LOOK_BUTTON, pressed: false }));
    assert!(!state.mouse_pressed);
    assert!(state.input(InputEvent::MouseMotion { dx: 5, dy: 6 }));
    assert_eq!(state.camera_controller.rotate_horizontal, 6);
    assert_eq!(state.camera_controller.rotate_vertical, 7);
}

#[test]
fn other_buttons_and_events_are_passed_over() {
    let mut state = fresh();
    assert!(!state.input(InputEvent::Button { button: 2, pressed: true }));
    assert!(!state.input(InputEvent::Button { button: 0, pressed: true }));
    assert!(!state.input(InputEvent::Other));
    assert_eq!(state, fresh());
}

#[test]
fn wheel_reaches_the_controller() {
    let mut state = fresh();
    assert!(state.input(InputEvent::MouseWheel { delta: ScrollDelta::Lines(1) }));
    assert!(state.input(InputEvent::MouseWheel { delta: ScrollDelta::Pixels(-30) }));
    assert_eq!(state.camera_controller.scroll, 70);
}

#[test]
fn resize_with_a_zero_dimension_is_passed_over() {
    let mut state = fresh();
    assert!(!state.resize(0, 600));
    assert!(!state.resize(800, 0));
    assert!(!state.resize(0, 0));
    assert_eq!(state, fresh());
    assert!(state.resize(1280, 720));
    assert_eq!(state.projection.aspect_ratio(), (1280, 720));
    assert_eq!(state.projection.fov_y, 45 * DEGREE);
    let once = state;
    assert!(state.resize(1280, 720));
    assert_eq!(state, once);
}

#[test]
fn a_frame_advances_the_camera() {
    let mut state = fresh();
    state.input(InputEvent::Key { key: Key::Forward, pressed: true });
    state.input(InputEvent::Button { button: LOOK_BUTTON, pressed: true });
    state.input(InputEvent::MouseMotion { dx: 90, dy: 0 });
    let heading = Heading::new(HEADING_ONE, 0).unwrap();
    state.update(heading, SECOND / 2);
    assert_eq!(state.camera, Camera::new(2 * LENGTH_ONE, 0, 0, 45 * DEGREE, 0));
    assert!(state.mouse_pressed);
    assert!(state.camera_controller.forward);
    assert_eq!(state.camera_controller.rotate_horizontal, 0);
    assert_eq!(state.projection, fresh().projection);
}

#[test]
fn net_of_two_keys() {
    assert_eq!(net(false, false), 0);
    assert_eq!(net(true, false), 1);
    assert_eq!(net(false, true), -1);
    assert_eq!(net(true, true), 0);
}

#[test]
fn share_along_an_axis() {
    assert_eq!(along(HEADING_ONE, 1), 1_000_000);
    assert_eq!(along(-HEADING_ONE, 3), -3_000_000);
    assert_eq!(along(250_000, -4), -1_000_000);
    assert_eq!(along(0, i32::MAX), 0);
    assert_eq!(along(-HEADING_ONE, i32::MIN), 2_147_483_648_000_000);
}
