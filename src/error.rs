use vstd::prelude::*;

verus! {

/// The fatal conditions of the engine; stale-surface conditions are not errors
/// and are handled by swapchain recreation.
#[derive(Clone, Copy, Debug, PartialEq, Eq, Structural)]
pub enum RenderError {
    /// No physical device meets the minimum capability.
    DeviceSelectionFailure,
    /// No device memory type matches a resource's requirements.
    NoSuitableMemoryType,
    /// The texture format does not support linear-filtered blits.
    UnsupportedBlitFormat,
    /// Any other native API error code.
    Api(i32),
}

} // verus!
