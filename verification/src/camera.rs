//! The viewpoint: a position and an upright orientation.

use vstd::prelude::*;
use crate::units::{clamp, HEADING_ONE, HEADING_ONE_SQUARED, HEADING_SLACK, PITCH_LIMIT};

verus! {

/// A viewpoint in world space. The camera never rolls: it is turned by `yaw`
/// about the vertical axis and tilted by `pitch` towards it.
#[derive(Clone, Copy, Debug, PartialEq, Eq, Structural)]
pub struct Camera {
    /// Position along the axis that a yaw of zero looks along, as a length.
    pub x: i128,
    /// Height, as a length.
    pub y: i128,
    /// Position along the axis that a yaw of 90 degrees looks along, as a length.
    pub z: i128,
    /// Horizontal look angle.
    pub yaw: i128,
    /// Vertical look angle, positive upwards.
    pub pitch: i128,
}

/// The horizontal direction that a camera looks along: the cosine and the sine
/// of its yaw, as heading components. The forward direction on the ground is
/// `(cos, 0, sin)` and the direction to the right of it is `(-sin, 0, cos)`.
///
/// The caller derives it from the yaw each time it is needed; nothing is cached.
#[derive(Clone, Copy, Debug, PartialEq, Eq, Structural)]
pub struct Heading {
    /// Cosine of the yaw.
    pub cos: i32,
    /// Sine of the yaw.
    pub sin: i32,
}

impl Heading {
    /// The squared length `cos^2 + sin^2`, of which `HEADING_ONE_SQUARED` stands for 1.
    pub open spec fn norm_squared(self) -> int {
        self.cos * self.cos + self.sin * self.sin
    }

    /// The heading is a unit vector, as far as whole millionths can tell:
    /// neither component is longer than 1, and the squared length is within
    /// `HEADING_SLACK` of 1.
    pub open spec fn wf(self) -> bool {
        &&& -HEADING_ONE <= self.cos <= HEADING_ONE
        &&& -HEADING_ONE <= self.sin <= HEADING_ONE
        &&& HEADING_ONE_SQUARED - HEADING_SLACK <= self.norm_squared() <= HEADING_ONE_SQUARED
            + HEADING_SLACK
    }

    /// The heading with the given components, or `None` where they are not
    /// those of a unit vector.
    pub fn new(cos: i32, sin: i32) -> (heading: Option<Heading>)
        ensures
            heading == if (Heading { cos, sin }).wf() {
                Some(Heading { cos, sin })
            } else {
                None
            },
    {
        if -HEADING_ONE <= cos && cos <= HEADING_ONE && -HEADING_ONE <= sin && sin <= HEADING_ONE {
            proof {
                let c: int = cos as int;
                let s: int = sin as int;
                assert(0 <= c * c <= 1_000_000 * 1_000_000) by (nonlinear_arith)
                    requires
                        -1_000_000 <= c <= 1_000_000,
                ;
                assert(0 <= s * s <= 1_000_000 * 1_000_000) by (nonlinear_arith)
                    requires
                        -1_000_000 <= s <= 1_000_000,
                ;
            }
            let norm: i64 = cos as i64 * cos as i64 + sin as i64 * sin as i64;
            if HEADING_ONE_SQUARED - HEADING_SLACK <= norm && norm <= HEADING_ONE_SQUARED
                + HEADING_SLACK {
                Some(Heading { cos, sin })
            } else {
                None
            }
        } else {
            None
        }
    }
}

/// The tilt of a camera: the cosine and the sine of its pitch, as heading
/// components. Like the heading, the caller derives it from the angle.
#[derive(Clone, Copy, Debug, PartialEq, Eq, Structural)]
pub struct Tilt {
    /// Cosine of the pitch.
    pub cos: i32,
    /// Sine of the pitch.
    pub sin: i32,
}

impl Tilt {
    /// The tilt is a unit vector, as a heading is, and it points neither
    /// straight up nor straight down: its cosine is positive.
    pub open spec fn wf(self) -> bool {
        &&& (Heading { cos: self.cos, sin: self.sin }).wf()
        &&& self.cos > 0
    }

    /// The tilt with the given components, or `None` where they are not those
    /// of a unit vector or the cosine is not positive.
    pub fn new(cos: i32, sin: i32) -> (tilt: Option<Tilt>)
        ensures
            tilt == if (Tilt { cos, sin }).wf() {
                Some(Tilt { cos, sin })
            } else {
                None
            },
    {
        match Heading::new(cos, sin) {
            Some(_) => if cos > 0 {
                Some(Tilt { cos, sin })
            } else {
                None
            },
            None => None,
        }
    }
}

/// A direction in space. Each component is a product of two heading
/// components, so `HEADING_ONE_SQUARED` stands for 1.
#[derive(Clone, Copy, Debug, PartialEq, Eq, Structural)]
pub struct Direction {
    pub x: i64,
    pub y: i64,
    pub z: i64,
}

/// The direction that a camera with the given heading and tilt looks along:
/// `(cos(pitch) cos(yaw), sin(pitch), cos(pitch) sin(yaw))`.
pub open spec fn look_direction(heading: Heading, tilt: Tilt) -> (int, int, int) {
    (tilt.cos * heading.cos, tilt.sin * HEADING_ONE, tilt.cos * heading.sin)
}

/// The direction that a camera with the given heading and tilt looks along.
pub fn direction(heading: Heading, tilt: Tilt) -> (forward: Direction)
    requires
        heading.wf(),
        tilt.wf(),
    ensures
        (forward.x as int, forward.y as int, forward.z as int) == look_direction(heading, tilt),
{
    proof {
        lemma_component_product(tilt.cos as int, heading.cos as int);
        lemma_component_product(tilt.sin as int, HEADING_ONE as int);
        lemma_component_product(tilt.cos as int, heading.sin as int);
    }
    Direction {
        x: tilt.cos as i64 * heading.cos as i64,
        y: tilt.sin as i64 * HEADING_ONE as i64,
        z: tilt.cos as i64 * heading.sin as i64,
    }
}

/// The product of two heading components is at most 1.
proof fn lemma_component_product(a: int, b: int)
    requires
        -HEADING_ONE <= a <= HEADING_ONE,
        -HEADING_ONE <= b <= HEADING_ONE,
    ensures
        -HEADING_ONE_SQUARED <= a * b <= HEADING_ONE_SQUARED,
{
    assert(-1_000_000 * 1_000_000 <= a * b <= 1_000_000 * 1_000_000) by (nonlinear_arith)
        requires
            -1_000_000 <= a <= 1_000_000,
            -1_000_000 <= b <= 1_000_000,
    ;
}

/// `pitch` held within `PITCH_LIMIT` of the horizon.
pub open spec fn clamp_pitch(pitch: int) -> int {
    clamp(pitch, -PITCH_LIMIT as int, PITCH_LIMIT as int)
}

impl Camera {
    /// The view basis is well defined: the camera looks neither straight up nor
    /// straight down.
    pub open spec fn wf(self) -> bool {
        -PITCH_LIMIT <= self.pitch <= PITCH_LIMIT
    }

    /// A camera at `(x, y, z)` looking along `yaw`, with `pitch` held within
    /// `PITCH_LIMIT` of the horizon.
    pub fn new(x: i128, y: i128, z: i128, yaw: i128, pitch: i128) -> (camera: Camera)
        ensures
            camera == (Camera { x, y, z, yaw, pitch: clamp_pitch(pitch as int) as i128 }),
            camera.wf(),
    {
        Camera { x, y, z, yaw, pitch: held_pitch(pitch) }
    }
}

/// `pitch` held within `PITCH_LIMIT` of the horizon.
pub fn held_pitch(pitch: i128) -> (held: i128)
    ensures
        held == clamp_pitch(pitch as int),
{
    if pitch < -PITCH_LIMIT {
        -PITCH_LIMIT
    } else if pitch > PITCH_LIMIT {
        PITCH_LIMIT
    } else {
        pitch
    }
}

} // verus!
