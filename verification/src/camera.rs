//! The pinhole camera a scene is sampled from.
//!
//! The orchestrator never computes with camera parameters: it only decides
//! whether a staged camera is usable and, if not, substitutes the default.
//! Each scalar is carried as a raw single-precision bit pattern (see
//! [`crate::f32bits`]); the unverified driver reinterprets the bits as
//! floats when it derives the projection matrices the GPU kernel consumes.

use crate::f32bits::{
    positive_f32_bits,
    F32_FORTY_FIVE_BITS,
    F32_INFINITY_BITS,
    F32_MINUS_ONE_BITS,
    F32_ONE_BITS,
    F32_TENTH_BITS,
    F32_THOUSAND_BITS,
    F32_ZERO_BITS,
};
use vstd::prelude::*;

verus! {

/// Position, orientation and frustum of the camera, each scalar stored as an
/// IEEE-754 single-precision bit pattern.
#[derive(Clone, Copy, Debug, PartialEq, Eq)]
pub struct Camera {
    /// World-space position, x/y/z.
    pub position: [u32; 3],
    /// View direction, x/y/z; unit length by convention.
    pub forward: [u32; 3],
    /// Width-over-height ratio of the image.
    pub aspect: u32,
    /// Vertical field of view, in degrees.
    pub fovy: u32,
    /// Near clipping plane distance.
    pub znear: u32,
    /// Far clipping plane distance.
    pub zfar: u32,
}

impl Camera {
    /// A camera is usable when its aspect ratio and both clipping plane
    /// distances are strictly positive; an unusable one is replaced by the
    /// default rather than rendered from.
    pub open spec fn spec_valid(self) -> bool {
        positive_f32_bits(self.aspect) && positive_f32_bits(self.znear) && positive_f32_bits(
            self.zfar,
        )
    }

    /// The fallback camera: at `(0, 0, 1)` looking down the negative z axis,
    /// square aspect, 45-degree field of view, planes at `0.1` and `1000`.
    pub open spec fn spec_default() -> Camera {
        Camera {
            position: [F32_ZERO_BITS, F32_ZERO_BITS, F32_ONE_BITS],
            forward: [F32_ZERO_BITS, F32_ZERO_BITS, F32_MINUS_ONE_BITS],
            aspect: F32_ONE_BITS,
            fovy: F32_FORTY_FIVE_BITS,
            znear: F32_TENTH_BITS,
            zfar: F32_THOUSAND_BITS,
        }
    }

    /// Decide whether this camera may be rendered from.
    pub fn validate(&self) -> (r: bool)
        ensures
            r == self.spec_valid(),
    {
        0 < self.aspect && self.aspect <= F32_INFINITY_BITS && 0 < self.znear && self.znear
            <= F32_INFINITY_BITS && 0 < self.zfar && self.zfar <= F32_INFINITY_BITS
    }
}

/// The camera a staged value is applied as: itself when valid, the default
/// otherwise.
pub open spec fn effective_camera(c: Camera) -> Camera {
    if c.spec_valid() {
        c
    } else {
        Camera::spec_default()
    }
}

impl Default for Camera {
    /// The fallback camera substituted for an invalid one.
    fn default() -> (r: Camera)
        ensures
            r == Camera::spec_default(),
            r.spec_valid(),
    {
        Camera {
            position: [F32_ZERO_BITS, F32_ZERO_BITS, F32_ONE_BITS],
            forward: [F32_ZERO_BITS, F32_ZERO_BITS, F32_MINUS_ONE_BITS],
            aspect: F32_ONE_BITS,
            fovy: F32_FORTY_FIVE_BITS,
            znear: F32_TENTH_BITS,
            zfar: F32_THOUSAND_BITS,
        }
    }
}

} // verus!
