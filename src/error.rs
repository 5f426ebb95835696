use vstd::prelude::*;

verus! {

/// Every way in which bootstrapping or running the renderer can fail.
#[derive(Clone, Copy, Debug, PartialEq, Eq, Structural)]
pub enum RunError {
    /// The native Vulkan loader could not be found or loaded.
    AshEntryError,
    /// A native call returned a status other than success (its raw `VkResult`).
    VulkanResult(i32),
    /// Enumeration succeeded, but no device met the renderer's requirements.
    NoSuitableDevice,
    /// The surface reported no supported format at all.
    NoSurfaceFormat,
    /// The windowing system could not create the window or its native handle.
    WindowError,
}

} // verus!
