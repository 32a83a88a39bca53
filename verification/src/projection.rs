//! The parameters of the perspective projection, which follow the viewport.

use vstd::prelude::*;

verus! {

/// What a perspective projection is made from. The aspect ratio is kept as the
/// viewport's width and height in pixels, so it is exact.
#[derive(Clone, Copy, Debug, PartialEq, Eq, Structural)]
pub struct Projection {
    /// Width of the viewport in pixels.
    pub width: u32,
    /// Height of the viewport in pixels.
    pub height: u32,
    /// Vertical field of view, as an angle.
    pub fov_y: i128,
    /// Distance of the near clip plane, as a length.
    pub z_near: i128,
    /// Distance of the far clip plane, as a length.
    pub z_far: i128,
}

impl Projection {
    /// The aspect ratio is a positive number and the near plane lies in front
    /// of the far plane.
    pub open spec fn wf(self) -> bool {
        &&& self.width > 0
        &&& self.height > 0
        &&& 0 < self.z_near < self.z_far
    }

    /// The aspect ratio, as a numerator and a denominator.
    pub open spec fn aspect(self) -> (int, int) {
        (self.width as int, self.height as int)
    }

    /// This projection for a viewport of `width` by `height` pixels.
    pub open spec fn resized(self, width: u32, height: u32) -> Projection {
        Projection { width, height, ..self }
    }

    /// The projection for a viewport of `width` by `height` pixels, or `None`
    /// where a dimension is zero or the clip planes are not `0 < z_near < z_far`.
    pub fn new(width: u32, height: u32, fov_y: i128, z_near: i128, z_far: i128) -> (projection:
        Option<Projection>)
        ensures
            projection == if (Projection { width, height, fov_y, z_near, z_far }).wf() {
                Some(Projection { width, height, fov_y, z_near, z_far })
            } else {
                None
            },
    {
        if width > 0 && height > 0 && 0 < z_near && z_near < z_far {
            Some(Projection { width, height, fov_y, z_near, z_far })
        } else {
            None
        }
    }

    /// Follows the viewport to its new size. Field of view and clip planes stay.
    pub fn resize(&mut self, width: u32, height: u32)
        requires
            width > 0,
            height > 0,
        ensures
            *final(self) == old(self).resized(width, height),
            final(self).aspect() == (width as int, height as int),
            old(self).wf() ==> final(self).wf(),
    {
        self.width = width;
        self.height = height;
    }

    /// The aspect ratio, as a numerator and a denominator.
    pub fn aspect_ratio(&self) -> (ratio: (u32, u32))
        ensures
            ratio.0 == self.aspect().0,
            ratio.1 == self.aspect().1,
    {
        (self.width, self.height)
    }
}

} // verus!
