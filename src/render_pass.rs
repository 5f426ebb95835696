//! The render pass: one color attachment on the swap-chain format, one
//! graphics subpass, and the dependency that keeps this frame's color writes
//! after the presentation engine's read of the previous frame.
use vstd::prelude::*;

verus! {

#[derive(Clone, Copy, Debug, PartialEq, Eq, Structural)]
pub enum LoadOp {
    Clear,
    DontCare,
}

#[derive(Clone, Copy, Debug, PartialEq, Eq, Structural)]
pub enum StoreOp {
    Store,
    DontCare,
}

#[derive(Clone, Copy, Debug, PartialEq, Eq, Structural)]
pub enum ImageLayout {
    Undefined,
    ColorAttachmentOptimal,
    PresentSrc,
}

/// A pipeline stage that a dependency names.
#[derive(Clone, Copy, Debug, PartialEq, Eq, Structural)]
pub enum PipelineStage {
    ColorAttachmentOutput,
}

/// The memory accesses a dependency orders.
#[derive(Clone, Copy, Debug, PartialEq, Eq, Structural)]
pub enum Access {
    NoAccess,
    ColorAttachmentWrite,
}

/// One side of a subpass dependency.
#[derive(Clone, Copy, Debug, PartialEq, Eq, Structural)]
pub enum SubpassRef {
    /// Work before or after the render pass.
    External,
    Subpass(u32),
}

#[derive(Clone, Copy, Debug, PartialEq, Eq, Structural)]
pub struct AttachmentDesc {
    /// Raw `VkFormat`.
    pub format: i32,
    pub samples: u32,
    pub load_op: LoadOp,
    pub store_op: StoreOp,
    pub stencil_load_op: LoadOp,
    pub stencil_store_op: StoreOp,
    pub initial_layout: ImageLayout,
    pub final_layout: ImageLayout,
}

#[derive(Clone, Copy, Debug, PartialEq, Eq, Structural)]
pub struct SubpassDesc {
    /// Index of the sole color attachment.
    pub color_attachment: u32,
    pub color_layout: ImageLayout,
}

#[derive(Clone, Copy, Debug, PartialEq, Eq, Structural)]
pub struct DependencyDesc {
    pub src_subpass: SubpassRef,
    pub dst_subpass: SubpassRef,
    pub src_stage: PipelineStage,
    pub dst_stage: PipelineStage,
    pub src_access: Access,
    pub dst_access: Access,
}

/// A render pass with one attachment, one graphics subpass and one dependency.
#[derive(Clone, Copy, Debug, PartialEq, Eq, Structural)]
pub struct VulkanRendererPass {
    pub attachment: AttachmentDesc,
    pub subpass: SubpassDesc,
    pub dependency: DependencyDesc,
}

/// The render pass for swap-chain images of the given raw format.
pub open spec fn renderer_pass_for(format: i32) -> VulkanRendererPass {
    VulkanRendererPass {
        attachment: AttachmentDesc {
            format,
            samples: 1,
            load_op: LoadOp::Clear,
            store_op: StoreOp::Store,
            stencil_load_op: LoadOp::DontCare,
            stencil_store_op: StoreOp::DontCare,
            initial_layout: ImageLayout::Undefined,
            final_layout: ImageLayout::PresentSrc,
        },
        subpass: SubpassDesc { color_attachment: 0, color_layout: ImageLayout::ColorAttachmentOptimal },
        dependency: DependencyDesc {
            src_subpass: SubpassRef::External,
            dst_subpass: SubpassRef::Subpass(0),
            src_stage: PipelineStage::ColorAttachmentOutput,
            dst_stage: PipelineStage::ColorAttachmentOutput,
            src_access: Access::NoAccess,
            dst_access: Access::ColorAttachmentWrite,
        },
    }
}

/// Describes the render pass for swap-chain images of the given raw format:
/// clear on load, store at the end, no stencil use, from an undefined layout to
/// one ready for presentation, with color writes ordered after the external
/// color-attachment-output stage.
pub fn get_rendererpass(format: i32) -> (r: VulkanRendererPass)
    ensures
        r == renderer_pass_for(format),
{
    VulkanRendererPass {
        attachment: AttachmentDesc {
            format,
            samples: 1,
            load_op: LoadOp::Clear,
            store_op: StoreOp::Store,
            stencil_load_op: LoadOp::DontCare,
            stencil_store_op: StoreOp::DontCare,
            initial_layout: ImageLayout::Undefined,
            final_layout: ImageLayout::PresentSrc,
        },
        subpass: SubpassDesc { color_attachment: 0, color_layout: ImageLayout::ColorAttachmentOptimal },
        dependency: DependencyDesc {
            src_subpass: SubpassRef::External,
            dst_subpass: SubpassRef::Subpass(0),
            src_stage: PipelineStage::ColorAttachmentOutput,
            dst_stage: PipelineStage::ColorAttachmentOutput,
            src_access: Access::NoAccess,
            dst_access: Access::ColorAttachmentWrite,
        },
    }
}

} // verus!
