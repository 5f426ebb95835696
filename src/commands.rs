//! Framebuffers, the command pool, and what one frame records.
use vstd::prelude::*;

use crate::device::VulkanQueuesIndices;
use crate::swapchain::Extent2D;

verus! {

/// One framebuffer: the swap-chain image view it wraps, and its size.
#[derive(Clone, Copy, Debug, PartialEq, Eq, Structural)]
pub struct FramebufferDesc {
    /// Index of the image view in the swap chain.
    pub image_view: usize,
    pub width: u32,
    pub height: u32,
    pub layers: u32,
}

/// One framebuffer per image view, in the views' order, each of the swap
/// chain's extent and one layer.
pub fn get_framebuffers(view_count: usize, extent: Extent2D) -> (r: Vec<FramebufferDesc>)
    ensures
        r@.len() == view_count,
        forall|k: int|
            0 <= k < view_count ==> #[trigger] r@[k] == (FramebufferDesc {
                image_view: k as usize,
                width: extent.width,
                height: extent.height,
                layers: 1,
            }),
{
    let mut framebuffers: Vec<FramebufferDesc> = Vec::new();
    let mut k: usize = 0;
    while k < view_count
        invariant
            k <= view_count,
            framebuffers@.len() == k,
            forall|j: int|
                0 <= j < k ==> #[trigger] framebuffers@[j] == (FramebufferDesc {
                    image_view: j as usize,
                    width: extent.width,
                    height: extent.height,
                    layers: 1,
                }),
        decreases view_count - k,
    {
        framebuffers.push(
            FramebufferDesc { image_view: k, width: extent.width, height: extent.height, layers: 1 },
        );
        k = k + 1;
    }
    framebuffers
}

/// The command pool: on the graphics family, with buffers that can be reset
/// one by one, and the primary buffers allocated from it.
#[derive(Clone, Copy, Debug, PartialEq, Eq, Structural)]
pub struct VulkanCommands {
    pub queue_family_index: u32,
    pub reset_command_buffer: bool,
    pub primary_buffer_count: u32,
}

/// Describes the command pool: one resettable primary buffer on the graphics
/// family.
pub fn get_commandpool(queues: &VulkanQueuesIndices) -> (r: VulkanCommands)
    ensures
        r == (VulkanCommands {
            queue_family_index: queues.graphic_family_i,
            reset_command_buffer: true,
            primary_buffer_count: 1,
        }),
{
    VulkanCommands {
        queue_family_index: queues.graphic_family_i,
        reset_command_buffer: true,
        primary_buffer_count: 1,
    }
}

/// What one frame records: the render pass over the image's framebuffer,
/// cleared to opaque black, the viewport and scissor over the extent, and one
/// draw of three vertices and one instance with no vertex buffer.
#[derive(Clone, Copy, Debug, PartialEq, Eq, Structural)]
pub struct DrawRecord {
    pub framebuffer: u32,
    pub render_area: Extent2D,
    pub viewport: Extent2D,
    pub scissor: Extent2D,
    pub vertex_count: u32,
    pub instance_count: u32,
    pub first_vertex: u32,
    pub first_instance: u32,
}

/// Describes the recording for the acquired image.
pub fn record_frame(image: u32, extent: Extent2D) -> (r: DrawRecord)
    ensures
        r == (DrawRecord {
            framebuffer: image,
            render_area: extent,
            viewport: extent,
            scissor: extent,
            vertex_count: 3,
            instance_count: 1,
            first_vertex: 0,
            first_instance: 0,
        }),
{
    DrawRecord {
        framebuffer: image,
        render_area: extent,
        viewport: extent,
        scissor: extent,
        vertex_count: 3,
        instance_count: 1,
        first_vertex: 0,
        first_instance: 0,
    }
}

/// The frame's synchronization objects: how many semaphores (image available,
/// render finished) and whether the in-flight fence starts signaled.
#[derive(Clone, Copy, Debug, PartialEq, Eq, Structural)]
pub struct VulkanSync {
    pub semaphore_count: u32,
    pub fence_starts_signaled: bool,
}

/// The synchronization objects the renderer creates.
pub open spec fn sync_objects() -> VulkanSync {
    VulkanSync { semaphore_count: 2, fence_starts_signaled: true }
}

/// Describes the synchronization objects: two semaphores, and a fence created
/// signaled so that the first frame's wait returns at once.
pub fn get_sync_objects() -> (r: VulkanSync)
    ensures
        r == sync_objects(),
{
    VulkanSync { semaphore_count: 2, fence_starts_signaled: true }
}

} // verus!
