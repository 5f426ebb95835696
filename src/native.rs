//! The few values the library takes from the `ash` bindings: Vulkan's enum
//! values and extension names. Each item states what `ash` defines.
use vstd::prelude::*;

verus! {

/// Relies on `ash::vk::Format::B8G8R8_SRGB`, whose raw value is 36.
#[verifier::external_body]
pub(crate) fn format_b8g8r8_srgb() -> (r: i32)
    ensures
        r == 36,
{
    ash::vk::Format::B8G8R8_SRGB.as_raw()
}

/// Relies on `ash::vk::ColorSpaceKHR::SRGB_NONLINEAR`, whose raw value is 0.
#[verifier::external_body]
pub(crate) fn color_space_srgb_nonlinear() -> (r: i32)
    ensures
        r == 0,
{
    ash::vk::ColorSpaceKHR::SRGB_NONLINEAR.as_raw()
}


/// Relies on `ash::vk::PresentModeKHR::FIFO`, whose raw value is 2.
#[verifier::external_body]
pub(crate) fn present_mode_fifo() -> (r: i32)
    ensures
        r == 2,
{
    ash::vk::PresentModeKHR::FIFO.as_raw()
}

/// Relies on `ash::vk::QueueFlags::GRAPHICS`, whose raw value is the bit `0b1`.
#[verifier::external_body]
pub(crate) fn queue_flag_graphics() -> (r: u32)
    ensures
        r == 1,
{
    ash::vk::QueueFlags::GRAPHICS.as_raw()
}

/// Relies on `ash::vk::QueueFlags::contains`, which is `self & other == other`
/// on the raw bits.
#[verifier::external_body]
pub(crate) fn queue_flags_contain(flags: u32, wanted: u32) -> (r: bool)
    ensures
        r == (flags & wanted == wanted),
{
    ash::vk::QueueFlags::from_raw(flags).contains(ash::vk::QueueFlags::from_raw(wanted))
}

/// Relies on `ash::extensions::khr::Swapchain::name`, the C string
/// `"VK_KHR_swapchain"`.
#[verifier::external_body]
pub(crate) fn swapchain_extension_name() -> (r: String)
    ensures
        r@ == "VK_KHR_swapchain"@,
{
    ash::extensions::khr::Swapchain::name().to_string_lossy().into_owned()
}


/// The version number that `ash::vk::make_api_version` packs.
pub open spec fn packed_version(variant: u32, major: u32, minor: u32, patch: u32) -> u32 {
    (variant << 29u32) | (major << 22u32) | (minor << 12u32) | patch
}

/// Relies on `ash::vk::make_api_version`, which packs
/// `(variant << 29) | (major << 22) | (minor << 12) | patch`.
#[verifier::external_body]
pub(crate) fn make_api_version(variant: u32, major: u32, minor: u32, patch: u32) -> (r: u32)
    ensures
        r == packed_version(variant, major, minor, patch),
{
    ash::vk::make_api_version(variant, major, minor, patch)
}

/// Relies on `ash::extensions::ext::DebugUtils::name`, the C string
/// `"VK_EXT_debug_utils"`.
#[verifier::external_body]
pub(crate) fn debug_utils_extension_name() -> (r: String)
    ensures
        r@ == "VK_EXT_debug_utils"@,
{
    ash::extensions::ext::DebugUtils::name().to_string_lossy().into_owned()
}

/// Relies on `ash::extensions::khr::Surface::name`, the C string
/// `"VK_KHR_surface"`.
#[verifier::external_body]
pub(crate) fn surface_extension_name() -> (r: String)
    ensures
        r@ == "VK_KHR_surface"@,
{
    ash::extensions::khr::Surface::name().to_string_lossy().into_owned()
}

/// Relies on `ash::extensions::khr::XlibSurface::name`, the C string
/// `"VK_KHR_xlib_surface"`.
#[verifier::external_body]
pub(crate) fn xlib_surface_extension_name() -> (r: String)
    ensures
        r@ == "VK_KHR_xlib_surface"@,
{
    ash::extensions::khr::XlibSurface::name().to_string_lossy().into_owned()
}

} // verus!
