use vstd::prelude::*;

verus! {

/// Failure taxonomy of the renderer.
///
/// `SurfaceInvalidated` is expected and recoverable: it triggers a rebuild
/// and never escapes the frame scheduler. All other variants are fatal and
/// propagate to the process boundary.
#[derive(Clone, Copy, Debug, PartialEq, Eq, Structural)]
pub enum RenderError {
    /// Device, surface or shader construction failed during startup.
    SetupError,
    /// The presentation surface no longer matches the swapchain.
    SurfaceInvalidated,
    /// Unexpected GPU or driver failure during acquire, submit or present.
    DeviceError,
    /// Allocation failed while rebuilding the swapchain.
    ResourceExhausted,
}

impl RenderError {
    /// True for the only variant the frame scheduler recovers from.
    pub fn is_recoverable(&self) -> (r: bool)
        ensures
            r == (*self == RenderError::SurfaceInvalidated),
    {
        matches!(self, RenderError::SurfaceInvalidated)
    }
}

} // verus!
