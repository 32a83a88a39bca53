//! The viewer's state as far as the camera goes, and the routing of events to it.

use vstd::prelude::*;
use crate::camera::{Camera, Heading};
use crate::controller::{CameraController, Key, ScrollDelta};
use crate::projection::Projection;

verus! {

/// The number of the pointer button that, while held, lets the pointer turn
/// the camera.
pub const LOOK_BUTTON: u32 = 1;

/// An event from an input device.
#[derive(Clone, Copy, Debug, PartialEq, Eq, Structural)]
pub enum InputEvent {
    /// A key went down (`pressed`) or up.
    Key { key: Key, pressed: bool },
    /// The wheel turned.
    MouseWheel { delta: ScrollDelta },
    /// A pointer button went down (`pressed`) or up.
    Button { button: u32, pressed: bool },
    /// The pointer moved, in pointer counts.
    MouseMotion { dx: i32, dy: i32 },
    /// Anything else.
    Other,
}

/// Camera, projection and controller, and whether the look button is held.
#[derive(Clone, Copy, Debug, PartialEq, Eq, Structural)]
pub struct State {
    pub camera: Camera,
    pub projection: Projection,
    pub camera_controller: CameraController,
    pub mouse_pressed: bool,
}

impl State {
    /// Whether an event in this state is one that the viewer acts on.
    pub open spec fn handles(self, event: InputEvent) -> bool {
        match event {
            InputEvent::Key { key, pressed } => key != Key::Other,
            InputEvent::MouseWheel { delta } => true,
            InputEvent::Button { button, pressed } => button == LOOK_BUTTON,
            InputEvent::MouseMotion { dx, dy } => true,
            InputEvent::Other => false,
        }
    }

    /// The state once `event` has been routed. The pointer turns the camera
    /// only while the look button is held.
    pub open spec fn after_input(self, event: InputEvent) -> State {
        match event {
            InputEvent::Key { key, pressed } => State {
                camera_controller: self.camera_controller.after_key(key, pressed),
                ..self
            },
            InputEvent::MouseWheel { delta } => State {
                camera_controller: self.camera_controller.after_scroll(delta),
                ..self
            },
            InputEvent::Button { button, pressed } => if button == LOOK_BUTTON {
                State { mouse_pressed: pressed, ..self }
            } else {
                self
            },
            InputEvent::MouseMotion { dx, dy } => if self.mouse_pressed {
                State { camera_controller: self.camera_controller.after_mouse(dx, dy), ..self }
            } else {
                self
            },
            InputEvent::Other => self,
        }
    }

    /// The state once the viewport has taken a new size. A size with a zero
    /// dimension is passed over.
    pub open spec fn after_resize(self, width: u32, height: u32) -> State {
        if width > 0 && height > 0 {
            State { projection: self.projection.resized(width, height), ..self }
        } else {
            self
        }
    }

    /// The state after a frame of `dt` microseconds.
    pub open spec fn after_update(self, heading: Heading, dt: u32) -> State {
        State {
            camera: self.camera_controller.advance(self.camera, heading, dt),
            camera_controller: self.camera_controller.after_update(),
            ..self
        }
    }

    /// A state with the look button not held.
    pub fn new(camera: Camera, projection: Projection, camera_controller: CameraController) -> (state:
        State)
        ensures
            state == (State { camera, projection, camera_controller, mouse_pressed: false }),
    {
        State { camera, projection, camera_controller, mouse_pressed: false }
    }

    /// Routes an event to the controller and says whether the viewer acted on
    /// it, so that the caller can give other events another meaning.
    pub fn input(&mut self, event: InputEvent) -> (handled: bool)
        ensures
            *final(self) == old(self).after_input(event),
            handled == old(self).handles(event),
    {
        match event {
            InputEvent::Key { key, pressed } => self.camera_controller.process_key(key, pressed),
            InputEvent::MouseWheel { delta } => {
                self.camera_controller.process_scroll(delta);
                true
            },
            InputEvent::Button { button, pressed } => {
                if button == LOOK_BUTTON {
                    self.mouse_pressed = pressed;
                    true
                } else {
                    false
                }
            },
            InputEvent::MouseMotion { dx, dy } => {
                if self.mouse_pressed {
                    self.camera_controller.process_mouse(dx, dy);
                }
                true
            },
            InputEvent::Other => false,
        }
    }

    /// Takes a new viewport size; says whether it was applied. A size with a
    /// zero dimension changes nothing.
    pub fn resize(&mut self, width: u32, height: u32) -> (applied: bool)
        ensures
            *final(self) == old(self).after_resize(width, height),
            applied == (width > 0 && height > 0),
            old(self).projection.wf() ==> final(self).projection.wf(),
    {
        if width > 0 && height > 0 {
            self.projection.resize(width, height);
            true
        } else {
            false
        }
    }

    /// Advances the camera by one frame of `dt` microseconds, with `heading`
    /// the direction that the camera's yaw looks along.
    pub fn update(&mut self, heading: Heading, dt: u32)
        requires
            heading.wf(),
        ensures
            *final(self) == old(self).after_update(heading, dt),
            final(self).camera.wf(),
    {
        self.camera_controller.update(&mut self.camera, heading, dt);
    }
}

} // verus!
