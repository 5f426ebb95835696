//! The GPU resource sets of the renderer and the one order in which they are
//! created; they are released in exactly the reverse order.
use vstd::prelude::*;

verus! {

/// One owned resource set of the renderer.
#[derive(Clone, Copy, Debug, PartialEq, Eq, Structural)]
pub enum Resource {
    /// The API entry and the instance.
    Instance,
    /// The diagnostics messenger.
    Debug,
    /// The presentation surface bound to the window.
    Surface,
    /// The logical device and its queues.
    Device,
    /// The swap chain and its image views.
    Swapchain,
    RenderPass,
    /// The pipeline layout and the graphics pipeline.
    Pipeline,
    /// One framebuffer per swap-chain image view.
    Framebuffers,
    /// The command pool and its command buffer.
    CommandPool,
    /// The two semaphores and the in-flight fence.
    Sync,
}

/// Number of resource sets.
pub const RESOURCE_COUNT: usize = 10;

/// Creation order: each set needs those before it.
pub open spec fn creation_seq() -> Seq<Resource> {
    seq![
        Resource::Instance,
        Resource::Debug,
        Resource::Surface,
        Resource::Device,
        Resource::Swapchain,
        Resource::RenderPass,
        Resource::Pipeline,
        Resource::Framebuffers,
        Resource::CommandPool,
        Resource::Sync,
    ]
}

/// Release order: the creation order reversed.
pub open spec fn teardown_seq() -> Seq<Resource> {
    creation_seq().reverse()
}

/// The resource set created at position `k` of the creation order.
pub fn resource_at(k: usize) -> (r: Resource)
    requires
        k < RESOURCE_COUNT,
    ensures
        r == creation_seq()[k as int],
{
    match k {
        0 => Resource::Instance,
        1 => Resource::Debug,
        2 => Resource::Surface,
        3 => Resource::Device,
        4 => Resource::Swapchain,
        5 => Resource::RenderPass,
        6 => Resource::Pipeline,
        7 => Resource::Framebuffers,
        8 => Resource::CommandPool,
        _ => Resource::Sync,
    }
}

/// The resource sets in creation order.
pub fn creation_order() -> (r: Vec<Resource>)
    ensures
        r@ == creation_seq(),
{
    let mut v: Vec<Resource> = Vec::new();
    let mut k: usize = 0;
    while k < RESOURCE_COUNT
        invariant
            k <= RESOURCE_COUNT,
            v@ == creation_seq().take(k as int),
        decreases RESOURCE_COUNT - k,
    {
        v.push(resource_at(k));
        assert(creation_seq().take(k + 1) == creation_seq().take(k as int).push(creation_seq()[k as int]));
        k = k + 1;
    }
    assert(creation_seq().take(10) == creation_seq());
    v
}

/// The resource sets in release order.
pub fn teardown_order() -> (r: Vec<Resource>)
    ensures
        r@ == teardown_seq(),
{
    let mut v: Vec<Resource> = Vec::new();
    let mut k: usize = RESOURCE_COUNT;
    while k > 0
        invariant
            k <= RESOURCE_COUNT,
            v@.len() == RESOURCE_COUNT - k,
            forall|j: int| 0 <= j < v@.len() ==> #[trigger] v@[j] == creation_seq()[RESOURCE_COUNT - 1 - j],
        decreases k,
    {
        k = k - 1;
        v.push(resource_at(k));
    }
    assert(v@ =~= teardown_seq());
    v
}

} // verus!
