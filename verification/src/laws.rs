//! What holds of the camera types over several calls.

use vstd::prelude::*;
use crate::camera::{look_direction, Camera, Heading, Tilt};
use crate::controller::{CameraController, Key};
use crate::projection::Projection;
use crate::units::{scale, PITCH_LIMIT};

verus! {

/// Whatever motions the pointer made since the last update and however long
/// the frame, an update leaves the pitch within `PITCH_LIMIT` of the horizon.
pub proof fn lemma_pitch_stays_within_limit(
    controller: CameraController,
    motions: Seq<(i32, i32)>,
    camera: Camera,
    heading: Heading,
    dt: u32,
)
    ensures
        -PITCH_LIMIT <= controller.after_motions(motions).advance(camera, heading, dt).pitch
            <= PITCH_LIMIT,
        controller.after_motions(motions).advance(camera, heading, dt).wf(),
{
}

/// An update empties the pointer buffers: a second update with no pointer
/// motion in between leaves yaw and pitch as the first one left them.
pub proof fn lemma_second_update_keeps_orientation(
    controller: CameraController,
    camera: Camera,
    first_heading: Heading,
    first_dt: u32,
    second_heading: Heading,
    second_dt: u32,
)
    ensures
        ({
            let once = controller.advance(camera, first_heading, first_dt);
            let twice = controller.after_update().advance(once, second_heading, second_dt);
            &&& controller.after_update().rotate_horizontal == 0
            &&& controller.after_update().rotate_vertical == 0
            &&& twice.yaw == once.yaw
            &&& twice.pitch == once.pitch
        }),
{
    let emptied = controller.after_update();
    assert(emptied.turn_yaw(second_dt) == 0) by (nonlinear_arith)
        requires
            emptied.turn_yaw(second_dt) == 0 * (emptied.look_sensitivity as int) * (
            second_dt as int),
    ;
    assert(emptied.turn_pitch(second_dt) == 0) by (nonlinear_arith)
        requires
            emptied.turn_pitch(second_dt) == 0 * (emptied.look_sensitivity as int) * (
            second_dt as int),
    ;
}

/// An update does not release a key: after the forward key went down, a second
/// update moves the camera by what the held keys ask for, as the first one did.
/// Only the scroll amount, which the first update consumed, is missing from it.
pub proof fn lemma_held_key_outlasts_update(
    controller: CameraController,
    heading: Heading,
    dt: u32,
)
    ensures
        ({
            let held = controller.after_key(Key::Forward, true);
            let later = held.after_update();
            &&& later.forward
            &&& later.net_forward() == held.net_forward()
            &&& later.net_right() == held.net_right()
            &&& later.net_up() == held.net_up()
            &&& !controller.backward ==> later.net_forward() == 1
            &&& later.displacement_x(heading, dt) == held.displacement_x(heading, dt) - scale(
                heading.cos * held.scroll,
                held.move_speed as int,
                dt as int,
            )
            &&& later.displacement_z(heading, dt) == held.displacement_z(heading, dt) - scale(
                heading.sin * held.scroll,
                held.move_speed as int,
                dt as int,
            )
            &&& later.displacement_y(dt) == held.displacement_y(dt)
        }),
{
    let held = controller.after_key(Key::Forward, true);
    let later = held.after_update();
    lemma_scale_of_nothing(heading.cos as int, later.move_speed as int, dt as int);
    lemma_scale_of_nothing(heading.sin as int, later.move_speed as int, dt as int);
}

/// With the forward and the backward key both down, the two cancel: an update
/// moves the camera only sideways, up or down, and by the scroll amount.
pub proof fn lemma_opposing_keys_cancel(controller: CameraController, heading: Heading, dt: u32)
    ensures
        ({
            let both = controller.after_key(Key::Forward, true).after_key(Key::Backward, true);
            &&& both.net_forward() == 0
            &&& scale(heading.cos * both.net_forward(), both.move_speed as int, dt as int) == 0
            &&& scale(heading.sin * both.net_forward(), both.move_speed as int, dt as int) == 0
            &&& both.displacement_x(heading, dt) == scale(
                -heading.sin * both.net_right(),
                both.move_speed as int,
                dt as int,
            ) + scale(heading.cos * both.scroll, both.move_speed as int, dt as int)
            &&& both.displacement_z(heading, dt) == scale(
                heading.cos * both.net_right(),
                both.move_speed as int,
                dt as int,
            ) + scale(heading.sin * both.scroll, both.move_speed as int, dt as int)
        }),
{
    let both = controller.after_key(Key::Forward, true).after_key(Key::Backward, true);
    lemma_scale_of_nothing(heading.cos as int, both.move_speed as int, dt as int);
    lemma_scale_of_nothing(heading.sin as int, both.move_speed as int, dt as int);
}

/// Resizing to the same size twice gives what resizing once gives, so the
/// projection made from it is the same both times.
pub proof fn lemma_resize_is_idempotent(projection: Projection, width: u32, height: u32)
    ensures
        projection.resized(width, height).resized(width, height) == projection.resized(
            width,
            height,
        ),
        projection.resized(width, height).aspect() == (width as int, height as int),
{
}

/// A camera that looks neither straight up nor straight down has a view basis:
/// its direction has a part on the ground, so "to the right" is defined, and
/// that part runs along the heading, the way the forward key moves the camera.
pub proof fn lemma_view_basis_is_defined(heading: Heading, tilt: Tilt)
    requires
        heading.wf(),
        tilt.wf(),
    ensures
        look_direction(heading, tilt).0 != 0 || look_direction(heading, tilt).2 != 0,
        look_direction(heading, tilt).0 * heading.sin == look_direction(heading, tilt).2
            * heading.cos,
{
    let tc: int = tilt.cos as int;
    let hc: int = heading.cos as int;
    let hs: int = heading.sin as int;
    assert(hc != 0 || hs != 0) by (nonlinear_arith)
        requires
            hc * hc + hs * hs >= 1,
    ;
    assert(tc * hc != 0 || tc * hs != 0) by (nonlinear_arith)
        requires
            tc > 0,
            hc != 0 || hs != 0,
    ;
    assert(tc * hc * hs == tc * hs * hc) by (nonlinear_arith);
}

/// An amount of zero along any direction moves nothing.
proof fn lemma_scale_of_nothing(component: int, rate: int, dt: int)
    ensures
        scale(component * 0, rate, dt) == 0,
{
    assert(component * 0 * rate * dt == 0) by (nonlinear_arith);
}

} // verus!
