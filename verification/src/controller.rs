//! The buffer between input events, which arrive at any time, and the update
//! that integrates them into the camera once per frame.

use vstd::prelude::*;
use crate::camera::{clamp_pitch, held_pitch, Camera, Heading};
use crate::units::{
    add_saturating_i128, add_saturating_i32, saturate_i128, saturate_i32, scale, scaled,
    AMOUNT_LIMIT, HEADING_ONE,
};

verus! {

/// A key, by what it asks of the camera.
#[derive(Clone, Copy, Debug, PartialEq, Eq, Structural)]
pub enum Key {
    Forward,
    Backward,
    Left,
    Right,
    Up,
    Down,
    /// Any key that does not steer the camera.
    Other,
}

/// A key of the keyboard, as far as the viewer tells keys apart.
#[derive(Clone, Copy, Debug, PartialEq, Eq, Structural)]
pub enum KeyCode {
    W,
    A,
    S,
    D,
    ArrowUp,
    ArrowDown,
    ArrowLeft,
    ArrowRight,
    Space,
    LeftShift,
    /// Any other key.
    Other,
}

impl Key {
    /// What each key of the keyboard asks of the camera: the letters and the
    /// arrows move it on the ground, space lifts it and left shift lowers it.
    pub open spec fn binding(code: KeyCode) -> Key {
        match code {
            KeyCode::W | KeyCode::ArrowUp => Key::Forward,
            KeyCode::S | KeyCode::ArrowDown => Key::Backward,
            KeyCode::A | KeyCode::ArrowLeft => Key::Left,
            KeyCode::D | KeyCode::ArrowRight => Key::Right,
            KeyCode::Space => Key::Up,
            KeyCode::LeftShift => Key::Down,
            KeyCode::Other => Key::Other,
        }
    }

    /// What the key `code` asks of the camera.
    pub fn bound_to(code: KeyCode) -> (key: Key)
        ensures
            key == Key::binding(code),
    {
        match code {
            KeyCode::W => Key::Forward,
            KeyCode::ArrowUp => Key::Forward,
            KeyCode::S => Key::Backward,
            KeyCode::ArrowDown => Key::Backward,
            KeyCode::A => Key::Left,
            KeyCode::ArrowLeft => Key::Left,
            KeyCode::D => Key::Right,
            KeyCode::ArrowRight => Key::Right,
            KeyCode::Space => Key::Up,
            KeyCode::LeftShift => Key::Down,
            KeyCode::Other => Key::Other,
        }
    }
}

/// What a wheel event reports: whole lines, or pixels.
#[derive(Clone, Copy, Debug, PartialEq, Eq, Structural)]
pub enum ScrollDelta {
    Lines(i32),
    Pixels(i32),
}

/// The number of pixels that one line of scrolling counts for.
pub const PIXELS_PER_LINE: i32 = 100;

impl ScrollDelta {
    /// The scroll amount in pixels, held within the range of `i32`.
    pub open spec fn amount(self) -> int {
        match self {
            ScrollDelta::Lines(lines) => saturate_i32(lines * PIXELS_PER_LINE),
            ScrollDelta::Pixels(pixels) => pixels as int,
        }
    }

    /// The scroll amount in pixels, whichever way the event reported it.
    pub fn normalized(self) -> (pixels: i32)
        ensures
            pixels == self.amount(),
    {
        match self {
            ScrollDelta::Lines(lines) => {
                proof {
                    let count: int = lines as int;
                    let per_line: int = PIXELS_PER_LINE as int;
                    assert(-0x8000_0000 * 100 <= count * per_line <= 0x8000_0000 * 100)
                        by (nonlinear_arith)
                        requires
                            -0x8000_0000 <= count <= 0x8000_0000,
                            per_line == 100,
                    ;
                }
                let wide: i64 = lines as i64 * PIXELS_PER_LINE as i64;
                if wide > i32::MAX as i64 {
                    i32::MAX
                } else if wide < i32::MIN as i64 {
                    i32::MIN
                } else {
                    wide as i32
                }
            },
            ScrollDelta::Pixels(pixels) => pixels,
        }
    }
}

/// 1 for a key that is held, 0 for one that is not.
pub open spec fn intent(held: bool) -> int {
    if held {
        1
    } else {
        0
    }
}

/// Input received and not yet integrated, together with the keys that are held.
#[derive(Clone, Copy, Debug, PartialEq, Eq, Structural)]
pub struct CameraController {
    pub forward: bool,
    pub backward: bool,
    pub left: bool,
    pub right: bool,
    pub up: bool,
    pub down: bool,
    /// Pointer motion to the right since the last update, in pointer counts.
    pub rotate_horizontal: i32,
    /// Pointer motion downwards since the last update, in pointer counts.
    pub rotate_vertical: i32,
    /// Scrolling since the last update, in pixels.
    pub scroll: i32,
    /// Speed of movement.
    pub move_speed: u32,
    /// Angle turned per pointer count and second.
    pub look_sensitivity: u32,
}

impl CameraController {
    /// Movement asked for along the forward direction: -1, 0 or 1.
    pub open spec fn net_forward(self) -> int {
        intent(self.forward) - intent(self.backward)
    }

    /// Movement asked for to the right: -1, 0 or 1.
    pub open spec fn net_right(self) -> int {
        intent(self.right) - intent(self.left)
    }

    /// Movement asked for upwards: -1, 0 or 1.
    pub open spec fn net_up(self) -> int {
        intent(self.up) - intent(self.down)
    }

    /// The controller once `key` went down (`pressed`) or up.
    pub open spec fn after_key(self, key: Key, pressed: bool) -> CameraController {
        match key {
            Key::Forward => CameraController { forward: pressed, ..self },
            Key::Backward => CameraController { backward: pressed, ..self },
            Key::Left => CameraController { left: pressed, ..self },
            Key::Right => CameraController { right: pressed, ..self },
            Key::Up => CameraController { up: pressed, ..self },
            Key::Down => CameraController { down: pressed, ..self },
            Key::Other => self,
        }
    }

    /// The controller once the pointer moved by `(dx, dy)`.
    pub open spec fn after_mouse(self, dx: i32, dy: i32) -> CameraController {
        CameraController {
            rotate_horizontal: saturate_i32(self.rotate_horizontal + dx) as i32,
            rotate_vertical: saturate_i32(self.rotate_vertical + dy) as i32,
            ..self
        }
    }

    /// The controller once the pointer made each of `motions` in turn.
    pub open spec fn after_motions(self, motions: Seq<(i32, i32)>) -> CameraController
        decreases motions.len(),
    {
        if motions.len() == 0 {
            self
        } else {
            self.after_mouse(motions[0].0, motions[0].1).after_motions(motions.skip(1))
        }
    }

    /// The controller once the wheel turned by `delta`.
    pub open spec fn after_scroll(self, delta: ScrollDelta) -> CameraController {
        CameraController { scroll: saturate_i32(self.scroll + delta.amount()) as i32, ..self }
    }

    /// The controller once an update has consumed what was buffered: the held
    /// keys stay, pointer motion and scrolling start again from zero.
    pub open spec fn after_update(self) -> CameraController {
        CameraController { rotate_horizontal: 0, rotate_vertical: 0, scroll: 0, ..self }
    }

    /// Movement along the x axis over `dt`: forward, to the right, and forward
    /// again by the scroll amount.
    pub open spec fn displacement_x(self, heading: Heading, dt: u32) -> int {
        scale(heading.cos * self.net_forward(), self.move_speed as int, dt as int)
            + scale(-heading.sin * self.net_right(), self.move_speed as int, dt as int)
            + scale(heading.cos * self.scroll, self.move_speed as int, dt as int)
    }

    /// Movement along the z axis over `dt`: forward, to the right, and forward
    /// again by the scroll amount.
    pub open spec fn displacement_z(self, heading: Heading, dt: u32) -> int {
        scale(heading.sin * self.net_forward(), self.move_speed as int, dt as int)
            + scale(heading.cos * self.net_right(), self.move_speed as int, dt as int)
            + scale(heading.sin * self.scroll, self.move_speed as int, dt as int)
    }

    /// Movement upwards over `dt`. Looking up or down does not enter into it.
    pub open spec fn displacement_y(self, dt: u32) -> int {
        scale(HEADING_ONE * self.net_up(), self.move_speed as int, dt as int)
    }

    /// The angle by which the yaw grows over `dt`.
    pub open spec fn turn_yaw(self, dt: u32) -> int {
        scale(self.rotate_horizontal as int, self.look_sensitivity as int, dt as int)
    }

    /// The angle by which the pitch grows over `dt`: moving the pointer up
    /// looks up.
    pub open spec fn turn_pitch(self, dt: u32) -> int {
        scale(-self.rotate_vertical, self.look_sensitivity as int, dt as int)
    }

    /// `camera` after `dt` under this controller's input. Position and yaw stop
    /// at the ends of the range of `i128`; the pitch stops at `PITCH_LIMIT`.
    pub open spec fn advance(self, camera: Camera, heading: Heading, dt: u32) -> Camera {
        Camera {
            x: saturate_i128(camera.x + self.displacement_x(heading, dt)) as i128,
            y: saturate_i128(camera.y + self.displacement_y(dt)) as i128,
            z: saturate_i128(camera.z + self.displacement_z(heading, dt)) as i128,
            yaw: saturate_i128(camera.yaw + self.turn_yaw(dt)) as i128,
            pitch: clamp_pitch(camera.pitch + self.turn_pitch(dt)) as i128,
        }
    }

    /// A controller with no key held and nothing buffered.
    pub fn new(move_speed: u32, look_sensitivity: u32) -> (controller: CameraController)
        ensures
            controller == (CameraController {
                forward: false,
                backward: false,
                left: false,
                right: false,
                up: false,
                down: false,
                rotate_horizontal: 0,
                rotate_vertical: 0,
                scroll: 0,
                move_speed,
                look_sensitivity,
            }),
    {
        CameraController {
            forward: false,
            backward: false,
            left: false,
            right: false,
            up: false,
            down: false,
            rotate_horizontal: 0,
            rotate_vertical: 0,
            scroll: 0,
            move_speed,
            look_sensitivity,
        }
    }

    /// Records that `key` went down (`pressed`) or up. Says whether the key
    /// steers the camera; any other key changes nothing.
    pub fn process_key(&mut self, key: Key, pressed: bool) -> (handled: bool)
        ensures
            *final(self) == old(self).after_key(key, pressed),
            handled == (key != Key::Other),
    {
        match key {
            Key::Forward => {
                self.forward = pressed;
                true
            },
            Key::Backward => {
                self.backward = pressed;
                true
            },
            Key::Left => {
                self.left = pressed;
                true
            },
            Key::Right => {
                self.right = pressed;
                true
            },
            Key::Up => {
                self.up = pressed;
                true
            },
            Key::Down => {
                self.down = pressed;
                true
            },
            Key::Other => false,
        }
    }

    /// Adds a pointer motion to what is buffered. Motions between two updates
    /// sum up; the sums stop at the ends of the range of `i32`.
    pub fn process_mouse(&mut self, dx: i32, dy: i32)
        ensures
            *final(self) == old(self).after_mouse(dx, dy),
    {
        self.rotate_horizontal = add_saturating_i32(self.rotate_horizontal, dx);
        self.rotate_vertical = add_saturating_i32(self.rotate_vertical, dy);
    }

    /// Adds a turn of the wheel, in pixels, to what is buffered.
    pub fn process_scroll(&mut self, delta: ScrollDelta)
        ensures
            *final(self) == old(self).after_scroll(delta),
    {
        self.scroll = add_saturating_i32(self.scroll, delta.normalized());
    }

    /// Integrates the buffered input into `camera` over `dt` microseconds, with
    /// `heading` the direction that the camera's yaw looks along, and empties
    /// the buffers. Held keys stay held.
    pub fn update(&mut self, camera: &mut Camera, heading: Heading, dt: u32)
        requires
            heading.wf(),
        ensures
            *final(camera) == old(self).advance(*old(camera), heading, dt),
            *final(self) == old(self).after_update(),
            final(camera).wf(),
    {
        let forward: i32 = net(self.forward, self.backward);
        let right: i32 = net(self.right, self.left);
        let up: i32 = net(self.up, self.down);
        let speed: u32 = self.move_speed;

        let dx: i128 = scaled(along(heading.cos, forward), speed, dt)
            + scaled(along(-heading.sin, right), speed, dt)
            + scaled(along(heading.cos, self.scroll), speed, dt);
        let dz: i128 = scaled(along(heading.sin, forward), speed, dt)
            + scaled(along(heading.cos, right), speed, dt)
            + scaled(along(heading.sin, self.scroll), speed, dt);
        let dy: i128 = scaled(along(HEADING_ONE, up), speed, dt);
        let dyaw: i128 = scaled(self.rotate_horizontal as i64, self.look_sensitivity, dt);
        let dpitch: i128 = scaled(-(self.rotate_vertical as i64), self.look_sensitivity, dt);

        camera.x = add_saturating_i128(camera.x, dx);
        camera.y = add_saturating_i128(camera.y, dy);
        camera.z = add_saturating_i128(camera.z, dz);
        camera.yaw = add_saturating_i128(camera.yaw, dyaw);
        camera.pitch = held_pitch(add_saturating_i128(camera.pitch, dpitch));

        self.rotate_horizontal = 0;
        self.rotate_vertical = 0;
        self.scroll = 0;
    }
}

/// The net intent of two opposing keys: -1, 0 or 1.
pub fn net(positive: bool, negative: bool) -> (intent_sum: i32)
    ensures
        intent_sum == intent(positive) - intent(negative),
{
    let gain: i32 = if positive { 1 } else { 0 };
    let loss: i32 = if negative { 1 } else { 0 };
    gain - loss
}

/// The share `component * amount` of an amount that falls to one axis.
pub fn along(component: i32, amount: i32) -> (share: i64)
    requires
        -HEADING_ONE <= component <= HEADING_ONE,
    ensures
        share == component * amount,
        -AMOUNT_LIMIT <= share <= AMOUNT_LIMIT,
{
    proof {
        let c: int = component as int;
        let a: int = amount as int;
        assert(-1_000_000 * 0x8000_0000 <= c * a <= 1_000_000 * 0x8000_0000) by (nonlinear_arith)
            requires
                -1_000_000 <= c <= 1_000_000,
                -0x8000_0000 <= a <= 0x8000_0000,
        ;
    }
    component as i64 * amount as i64
}

} // verus!
