use vstd::prelude::*;

use crate::swapchain::Extent2D;

verus! {

/// An integer 3-vector, in model units.
#[derive(Clone, Copy, Debug, PartialEq, Eq, Structural)]
pub struct Vec3i {
    pub x: i32,
    pub y: i32,
    pub z: i32,
}

/// Model rotation speed around the Y axis, in microradians per elapsed
/// millisecond. 300 urad/ms is exactly 0.3 radians per second.
pub const ANGLE_URAD_PER_MS: u64 = 300;

/// Camera eye point of the fixed view transform.
pub const EYE_X: i32 = 2;
pub const EYE_Y: i32 = 2;
pub const EYE_Z: i32 = 2;

/// Vertical field of view of the projection, as the fraction
/// `FOVY_PI_NUM / FOVY_PI_DEN` of pi radians (one quarter pi).
pub const FOVY_PI_NUM: u32 = 1;
pub const FOVY_PI_DEN: u32 = 4;

/// Near and far clip planes, in hundredths of a model unit.
pub const ZNEAR_CENTI: u32 = 10;
pub const ZFAR_CENTI: u32 = 10000;

/// The transform block written before each frame's recording, over exact
/// integers. The shell turns it into the floating-point model, view and
/// projection matrices the vertex shader reads: the model matrix is the
/// pure Y-axis rotation by `model_angle_urad` microradians; the view
/// matrix looks from `eye` at `target` with `up` upward; the projection
/// is the perspective with the given field of view, clip planes, and the
/// aspect ratio `aspect_width / aspect_height`.
#[derive(Clone, Copy, Debug, PartialEq, Eq, Structural)]
pub struct UniformParams {
    /// Y-axis model rotation angle, in microradians.
    pub model_angle_urad: u64,
    /// Camera eye point.
    pub eye: Vec3i,
    /// Point the camera looks at.
    pub target: Vec3i,
    /// Up direction of the camera.
    pub up: Vec3i,
    /// Field-of-view numerator, in the fraction of pi.
    pub fovy_pi_num: u32,
    /// Field-of-view denominator, in the fraction of pi.
    pub fovy_pi_den: u32,
    /// Near clip plane, in hundredths of a unit.
    pub znear_centi: u32,
    /// Far clip plane, in hundredths of a unit.
    pub zfar_centi: u32,
    /// Width the aspect ratio is derived from: the current extent's.
    pub aspect_width: u32,
    /// Height the aspect ratio is derived from: the current extent's.
    pub aspect_height: u32,
}

/// The uniform data owed for elapsed time `elapsed_ms` at extent `extent`:
/// a model rotation of exactly `ANGLE_URAD_PER_MS * elapsed_ms`
/// microradians, the session-constant view and projection, and the aspect
/// ratio of the given extent.
pub open spec fn uniform_params(elapsed_ms: u64, extent: Extent2D) -> UniformParams
    recommends
        elapsed_ms <= u64::MAX / ANGLE_URAD_PER_MS,
{
    UniformParams {
        model_angle_urad: (ANGLE_URAD_PER_MS * elapsed_ms) as u64,
        eye: Vec3i { x: EYE_X, y: EYE_Y, z: EYE_Z },
        target: Vec3i { x: 0, y: 0, z: 0 },
        up: Vec3i { x: 0, y: 1, z: 0 },
        fovy_pi_num: FOVY_PI_NUM,
        fovy_pi_den: FOVY_PI_DEN,
        znear_centi: ZNEAR_CENTI,
        zfar_centi: ZFAR_CENTI,
        aspect_width: extent.width,
        aspect_height: extent.height,
    }
}

/// Computes the uniform block for one frame from the wall-clock time
/// elapsed since startup and the swapchain's current extent.
pub fn update_uniform(elapsed_ms: u64, extent: Extent2D) -> (u: UniformParams)
    requires
        elapsed_ms <= u64::MAX / ANGLE_URAD_PER_MS,
    ensures
        u == uniform_params(elapsed_ms, extent),
        u.model_angle_urad == ANGLE_URAD_PER_MS * elapsed_ms,
{
    UniformParams {
        model_angle_urad: ANGLE_URAD_PER_MS * elapsed_ms,
        eye: Vec3i { x: EYE_X, y: EYE_Y, z: EYE_Z },
        target: Vec3i { x: 0, y: 0, z: 0 },
        up: Vec3i { x: 0, y: 1, z: 0 },
        fovy_pi_num: FOVY_PI_NUM,
        fovy_pi_den: FOVY_PI_DEN,
        znear_centi: ZNEAR_CENTI,
        zfar_centi: ZFAR_CENTI,
        aspect_width: extent.width,
        aspect_height: extent.height,
    }
}

/// Uniform data written for elapsed time T is a pure Y-axis rotation of
/// exactly 0.3·T radians — 300·T microradians for T in milliseconds —
/// and the view and projection parameters are the session constants at
/// every extent, except the aspect ratio, which tracks the extent exactly.
pub proof fn lemma_uniform_round_trip(elapsed_ms: u64, e1: Extent2D, e2: Extent2D)
    requires
        elapsed_ms <= u64::MAX / ANGLE_URAD_PER_MS,
    ensures
        ({
            let p1 = uniform_params(elapsed_ms, e1);
            let p2 = uniform_params(elapsed_ms, e2);
            &&& p1.model_angle_urad == 300 * elapsed_ms
            &&& p1.aspect_width == e1.width
            &&& p1.aspect_height == e1.height
            &&& p2 == (UniformParams {
                aspect_width: e2.width,
                aspect_height: e2.height,
                ..p1
            })
        }),
{
}

} // verus!
