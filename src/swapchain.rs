//! Swap-chain negotiation: format, presentation mode, extent, image count and
//! sharing mode, chosen from what the surface and the device support.
use vstd::prelude::*;

use crate::device::VulkanQueuesIndices;
use crate::error::RunError;
use crate::native;

verus! {

/// Raw value of the format preferred for swap-chain images (`B8G8R8_SRGB`).
pub const PREFERRED_FORMAT: i32 = 36;

/// Raw value of the preferred color space (`SRGB_NONLINEAR`).
pub const PREFERRED_COLOR_SPACE: i32 = 0;

/// A format/color-space pair that a surface supports, as raw Vulkan values.
#[derive(Clone, Copy, Debug, PartialEq, Eq, Structural)]
pub struct SurfaceFormat {
    pub format: i32,
    pub color_space: i32,
}

impl SurfaceFormat {
    pub open spec fn is_preferred(self) -> bool {
        self.format == PREFERRED_FORMAT && self.color_space == PREFERRED_COLOR_SPACE
    }
}

/// The format the renderer settles on: the first preferred entry if there is
/// one, otherwise the first entry; nothing for an empty list.
pub open spec fn chosen_format(formats: Seq<SurfaceFormat>) -> Option<SurfaceFormat> {
    if formats.len() == 0 {
        None
    } else if exists|i: int| 0 <= i < formats.len() && formats[i].is_preferred() {
        Some(formats[first_preferred(formats)])
    } else {
        Some(formats[0])
    }
}

/// Index of the first preferred entry (meaningful when there is one).
pub open spec fn first_preferred(formats: Seq<SurfaceFormat>) -> int {
    choose|i: int|
        0 <= i < formats.len() && formats[i].is_preferred() && forall|k: int|
            0 <= k < i ==> !(#[trigger] formats[k]).is_preferred()
}

proof fn lemma_first_preferred(formats: Seq<SurfaceFormat>, i: int)
    requires
        0 <= i < formats.len(),
        formats[i].is_preferred(),
        forall|k: int| 0 <= k < i ==> !(#[trigger] formats[k]).is_preferred(),
    ensures
        first_preferred(formats) == i,
{
    let j = first_preferred(formats);
    assert(0 <= j < formats.len() && formats[j].is_preferred() && forall|k: int|
        0 <= k < j ==> !(#[trigger] formats[k]).is_preferred());
    if j < i {
        assert(!formats[j].is_preferred());
    } else if i < j {
        assert(!formats[i].is_preferred());
    }
}

/// Picks the swap-chain format from the formats a surface supports.
pub fn choose_swap_surface_format(formats: &Vec<SurfaceFormat>) -> (r: Option<SurfaceFormat>)
    ensures
        r == chosen_format(formats@),
{
    let preferred_format = native::format_b8g8r8_srgb();
    let preferred_space = native::color_space_srgb_nonlinear();
    let mut i: usize = 0;
    while i < formats.len()
        invariant
            0 <= i <= formats@.len(),
            preferred_format == PREFERRED_FORMAT,
            preferred_space == PREFERRED_COLOR_SPACE,
            forall|k: int| 0 <= k < i ==> !(#[trigger] formats@[k]).is_preferred(),
        decreases formats.len() - i,
    {
        let f = formats[i];
        if f.format == preferred_format && f.color_space == preferred_space {
            proof {
                lemma_first_preferred(formats@, i as int);
            }
            return Some(f);
        }
        i = i + 1;
    }
    if formats.len() == 0 {
        None
    } else {
        Some(formats[0])
    }
}

/// What a device supports of the surface, as queried at selection time.
#[derive(Clone, Debug)]
pub struct SurfaceSupport {
    pub capabilities: SurfaceCapabilities,
    pub formats: Vec<SurfaceFormat>,
    /// Raw `VkPresentModeKHR` values.
    pub present_modes: Vec<i32>,
}

/// A width and height in pixels.
#[derive(Clone, Copy, Debug, PartialEq, Eq, Structural)]
pub struct Extent2D {
    pub width: u32,
    pub height: u32,
}

/// The surface capabilities that swap-chain negotiation reads.
#[derive(Clone, Copy, Debug, PartialEq, Eq, Structural)]
pub struct SurfaceCapabilities {
    pub min_image_count: u32,
    /// 0 means that the surface sets no maximum.
    pub max_image_count: u32,
    /// `SENTINEL_MATCH_WINDOW` as width means "as large as the window".
    pub current_extent: Extent2D,
    pub min_image_extent: Extent2D,
    pub max_image_extent: Extent2D,
    /// Raw `VkSurfaceTransformFlagsKHR` currently applied by the surface.
    pub current_transform: u32,
}

/// Width that a surface reports when the swap chain is to match the window.
pub const SENTINEL_MATCH_WINDOW: u32 = 0xffff_ffff;

/// Raw value of the FIFO presentation mode.
pub const PRESENT_MODE_FIFO: i32 = 2;

/// `v` brought into `[lo, hi]`: `lo` below it, `hi` above it.
pub open spec fn clamp_spec(v: u32, lo: u32, hi: u32) -> u32 {
    if v < lo {
        lo
    } else if v > hi {
        hi
    } else {
        v
    }
}

/// The swap-chain extent: the surface's own extent, or the window's
/// framebuffer size clamped into the allowed range when the surface defers
/// to the window.
pub open spec fn chosen_extent(caps: SurfaceCapabilities, window: Extent2D) -> Extent2D {
    if caps.current_extent.width != SENTINEL_MATCH_WINDOW {
        caps.current_extent
    } else {
        Extent2D {
            width: clamp_spec(window.width, caps.min_image_extent.width, caps.max_image_extent.width),
            height: clamp_spec(
                window.height,
                caps.min_image_extent.height,
                caps.max_image_extent.height,
            ),
        }
    }
}

/// Number of images asked of the swap chain.
pub open spec fn requested_image_count(caps: SurfaceCapabilities) -> int {
    if caps.max_image_count == 0 {
        caps.min_image_count + 1
    } else {
        caps.max_image_count as int
    }
}

/// The requested image count is representable.
pub open spec fn image_count_fits(caps: SurfaceCapabilities) -> bool {
    requested_image_count(caps) <= u32::MAX
}

/// How swap-chain images are shared between queue families.
#[derive(Clone, Copy, Debug, PartialEq, Eq, Structural)]
pub enum SharingMode {
    Exclusive,
    Concurrent,
}

/// Sharing mode and the families named with it.
#[derive(Clone, Debug)]
pub struct SharingPlan {
    pub mode: SharingMode,
    pub queue_family_indices: Vec<u32>,
}

/// Everything the swap chain is created with that is decided rather than fixed.
#[derive(Clone, Debug)]
pub struct SwapchainPlan {
    pub format: SurfaceFormat,
    /// Raw `VkPresentModeKHR`.
    pub present_mode: i32,
    pub extent: Extent2D,
    pub image_count: u32,
    pub sharing: SharingPlan,
    /// Raw `VkSurfaceTransformFlagsKHR`, passed on from the capabilities.
    pub pre_transform: u32,
}

/// The presentation mode: always FIFO, which every surface supports.
pub fn choose_presentation_mode(support: &SurfaceSupport) -> (r: i32)
    ensures
        r == PRESENT_MODE_FIFO,
{
    native::present_mode_fifo()
}

fn clamp_u32(v: u32, lo: u32, hi: u32) -> (r: u32)
    ensures
        r == clamp_spec(v, lo, hi),
{
    if v < lo {
        lo
    } else if v > hi {
        hi
    } else {
        v
    }
}

/// Picks the swap-chain extent from the surface capabilities and the window's
/// current framebuffer size.
pub fn choose_swap_extent(capabilities: &SurfaceCapabilities, window: Extent2D) -> (r: Extent2D)
    ensures
        r == chosen_extent(*capabilities, window),
{
    if capabilities.current_extent.width != SENTINEL_MATCH_WINDOW {
        capabilities.current_extent
    } else {
        Extent2D {
            width: clamp_u32(
                window.width,
                capabilities.min_image_extent.width,
                capabilities.max_image_extent.width,
            ),
            height: clamp_u32(
                window.height,
                capabilities.min_image_extent.height,
                capabilities.max_image_extent.height,
            ),
        }
    }
}

/// The number of images to ask of the swap chain: one more than the minimum
/// when the surface sets no maximum, else the maximum.
pub fn choose_image_count(capabilities: &SurfaceCapabilities) -> (r: u32)
    requires
        image_count_fits(*capabilities),
    ensures
        r == requested_image_count(*capabilities),
{
    if capabilities.max_image_count == 0 {
        capabilities.min_image_count + 1
    } else {
        capabilities.max_image_count
    }
}

/// Concurrent sharing between the two families when they differ, exclusive
/// ownership with no family list when they coincide.
pub fn choose_sharing(queues: &VulkanQueuesIndices) -> (r: SharingPlan)
    ensures
        queues.graphic_family_i != queues.present_family_i ==> r.mode == SharingMode::Concurrent
            && r.queue_family_indices@ == seq![queues.graphic_family_i, queues.present_family_i],
        queues.graphic_family_i == queues.present_family_i ==> r.mode == SharingMode::Exclusive
            && r.queue_family_indices@.len() == 0,
{
    if queues.graphic_family_i != queues.present_family_i {
        let mut indices: Vec<u32> = Vec::new();
        indices.push(queues.graphic_family_i);
        indices.push(queues.present_family_i);
        SharingPlan { mode: SharingMode::Concurrent, queue_family_indices: indices }
    } else {
        SharingPlan { mode: SharingMode::Exclusive, queue_family_indices: Vec::new() }
    }
}

/// Negotiates the swap chain against the surface and the device; fails with
/// `NoSurfaceFormat` exactly when the surface reports no format.
pub fn get_swapchain(
    support: &SurfaceSupport,
    queues: &VulkanQueuesIndices,
    window: Extent2D,
) -> (r: Result<SwapchainPlan, RunError>)
    requires
        image_count_fits(support.capabilities),
    ensures
        support.formats@.len() == 0 <==> r == Err::<SwapchainPlan, RunError>(RunError::NoSurfaceFormat),
        support.formats@.len() > 0 <==> r is Ok,
        r is Ok ==> {
            let plan = r->Ok_0;
            &&& Some(plan.format) == chosen_format(support.formats@)
            &&& plan.present_mode == PRESENT_MODE_FIFO
            &&& plan.extent == chosen_extent(support.capabilities, window)
            &&& plan.image_count == requested_image_count(support.capabilities)
            &&& plan.pre_transform == support.capabilities.current_transform
            &&& (queues.graphic_family_i != queues.present_family_i ==> plan.sharing.mode
                == SharingMode::Concurrent && plan.sharing.queue_family_indices@ == seq![
                queues.graphic_family_i,
                queues.present_family_i,
            ])
            &&& (queues.graphic_family_i == queues.present_family_i ==> plan.sharing.mode
                == SharingMode::Exclusive && plan.sharing.queue_family_indices@.len() == 0)
        },
{
    let format = match choose_swap_surface_format(&support.formats) {
        Some(f) => f,
        None => {
            return Err(RunError::NoSurfaceFormat);
        },
    };
    Ok(
        SwapchainPlan {
            format,
            present_mode: choose_presentation_mode(support),
            extent: choose_swap_extent(&support.capabilities, window),
            image_count: choose_image_count(&support.capabilities),
            sharing: choose_sharing(queues),
            pre_transform: support.capabilities.current_transform,
        },
    )
}

/// The chosen format is a member of a non-empty supported list: the first
/// preferred entry when the list holds one, else the first entry.
pub proof fn lemma_chosen_format_in_list(formats: Seq<SurfaceFormat>)
    requires
        formats.len() > 0,
    ensures
        chosen_format(formats) is Some,
        formats.contains(chosen_format(formats)->Some_0),
        (exists|i: int| 0 <= i < formats.len() && formats[i].is_preferred()) ==> chosen_format(
            formats,
        )->Some_0.is_preferred(),
        !(exists|i: int| 0 <= i < formats.len() && formats[i].is_preferred()) ==> chosen_format(
            formats,
        ) == Some(formats[0]),
{
    if exists|i: int| 0 <= i < formats.len() && formats[i].is_preferred() {
        let w = choose|i: int| 0 <= i < formats.len() && formats[i].is_preferred();
        lemma_first_preferred_exists(formats, w);
        let j = first_preferred(formats);
        assert(formats[j] == chosen_format(formats)->Some_0);
    } else {
        assert(formats[0] == chosen_format(formats)->Some_0);
    }
}

proof fn lemma_first_preferred_exists(formats: Seq<SurfaceFormat>, w: int)
    requires
        0 <= w < formats.len(),
        formats[w].is_preferred(),
    ensures
        exists|i: int|
            0 <= i < formats.len() && formats[i].is_preferred() && forall|k: int|
                0 <= k < i ==> !(#[trigger] formats[k]).is_preferred(),
    decreases w,
{
    if exists|k: int| 0 <= k < w && (#[trigger] formats[k]).is_preferred() {
        let k = choose|k: int| 0 <= k < w && (#[trigger] formats[k]).is_preferred();
        lemma_first_preferred_exists(formats, k);
    } else {
        assert(forall|k: int| 0 <= k < w ==> !(#[trigger] formats[k]).is_preferred());
    }
}

/// When the surface defers to the window and its range is well formed, the
/// chosen extent is the window size clamped into that range, component-wise;
/// otherwise it is the surface's extent. Recomputing with the same
/// capabilities and window gives the same extent.
pub proof fn lemma_swap_extent(caps: SurfaceCapabilities, window: Extent2D)
    ensures
        caps.current_extent.width != SENTINEL_MATCH_WINDOW ==> chosen_extent(caps, window)
            == caps.current_extent,
        caps.current_extent.width == SENTINEL_MATCH_WINDOW && caps.min_image_extent.width
            <= caps.max_image_extent.width ==> caps.min_image_extent.width <= chosen_extent(
            caps,
            window,
        ).width <= caps.max_image_extent.width && (caps.min_image_extent.width <= window.width
            <= caps.max_image_extent.width ==> chosen_extent(caps, window).width == window.width),
        caps.current_extent.width == SENTINEL_MATCH_WINDOW && caps.min_image_extent.height
            <= caps.max_image_extent.height ==> caps.min_image_extent.height <= chosen_extent(
            caps,
            window,
        ).height <= caps.max_image_extent.height && (caps.min_image_extent.height
            <= window.height <= caps.max_image_extent.height ==> chosen_extent(caps, window).height
            == window.height),
        forall|c2: SurfaceCapabilities, w2: Extent2D|
            c2 == caps && w2 == window ==> #[trigger] chosen_extent(c2, w2) == chosen_extent(
                caps,
                window,
            ),
{
}

/// How an image view reads its image: a 2D color view of the first mip level
/// and the first array layer, with channels mapped as they are.
#[derive(Clone, Copy, Debug, PartialEq, Eq, Structural)]
pub struct ImageViewDesc {
    /// Index of the image in the swap chain.
    pub image: usize,
    /// Raw `VkFormat`.
    pub format: i32,
    pub base_mip_level: u32,
    pub level_count: u32,
    pub base_array_layer: u32,
    pub layer_count: u32,
}

/// One image view per swap-chain image, in the images' order.
pub fn create_image_views(format: i32, image_count: usize) -> (r: Vec<ImageViewDesc>)
    ensures
        r@.len() == image_count,
        forall|k: int|
            0 <= k < image_count ==> #[trigger] r@[k] == (ImageViewDesc {
                image: k as usize,
                format,
                base_mip_level: 0,
                level_count: 1,
                base_array_layer: 0,
                layer_count: 1,
            }),
{
    let mut views: Vec<ImageViewDesc> = Vec::new();
    let mut k: usize = 0;
    while k < image_count
        invariant
            k <= image_count,
            views@.len() == k,
            forall|j: int|
                0 <= j < k ==> #[trigger] views@[j] == (ImageViewDesc {
                    image: j as usize,
                    format,
                    base_mip_level: 0,
                    level_count: 1,
                    base_array_layer: 0,
                    layer_count: 1,
                }),
        decreases image_count - k,
    {
        views.push(
            ImageViewDesc {
                image: k,
                format,
                base_mip_level: 0,
                level_count: 1,
                base_array_layer: 0,
                layer_count: 1,
            },
        );
        k = k + 1;
    }
    views
}

} // verus!
