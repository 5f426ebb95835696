//! The fixed graphics pipeline: two shader stages, triangle lists, viewport
//! and scissor as dynamic state, back-face culling, one sample, no blending,
//! and an empty layout.
use vstd::prelude::*;

use crate::swapchain::Extent2D;

verus! {

#[derive(Clone, Copy, Debug, PartialEq, Eq, Structural)]
pub enum ShaderStage {
    Vertex,
    Fragment,
}

#[derive(Clone, Copy, Debug, PartialEq, Eq, Structural)]
pub enum Topology {
    TriangleList,
}

#[derive(Clone, Copy, Debug, PartialEq, Eq, Structural)]
pub enum DynamicState {
    Viewport,
    Scissor,
}

#[derive(Clone, Copy, Debug, PartialEq, Eq, Structural)]
pub enum PolygonMode {
    Fill,
}

#[derive(Clone, Copy, Debug, PartialEq, Eq, Structural)]
pub enum CullMode {
    Back,
}

#[derive(Clone, Copy, Debug, PartialEq, Eq, Structural)]
pub enum FrontFace {
    Clockwise,
}

#[derive(Clone, Copy, Debug, PartialEq, Eq, Structural)]
pub enum LogicOp {
    Copy,
}

/// Which color channels the attachment writes.
#[derive(Clone, Copy, Debug, PartialEq, Eq, Structural)]
pub struct ColorWriteMask {
    pub r: bool,
    pub g: bool,
    pub b: bool,
    pub a: bool,
}

/// A shader stage and its entry point.
#[derive(Clone, Debug)]
pub struct ShaderStageDesc {
    pub stage: ShaderStage,
    pub entry_point: String,
}

/// The whole fixed state of the graphics pipeline. The rasterizer's line
/// width is 1 and the viewport depth range is [0, 1].
#[derive(Clone, Debug)]
pub struct PipelineDesc {
    pub stages: Vec<ShaderStageDesc>,
    pub topology: Topology,
    pub primitive_restart: bool,
    /// Initial size of the viewport and of the scissor; both are dynamic.
    pub viewport_extent: Extent2D,
    pub dynamic_states: Vec<DynamicState>,
    pub depth_clamp: bool,
    pub rasterizer_discard: bool,
    pub polygon_mode: PolygonMode,
    pub cull_mode: CullMode,
    pub front_face: FrontFace,
    pub depth_bias: bool,
    pub samples: u32,
    pub sample_shading: bool,
    pub blend_enable: bool,
    pub color_write_mask: ColorWriteMask,
    pub logic_op_enable: bool,
    pub logic_op: LogicOp,
    /// Descriptor-set layouts and push-constant ranges of the layout.
    pub set_layout_count: u32,
    pub push_constant_range_count: u32,
    /// The subpass of the render pass the pipeline is used in.
    pub subpass: u32,
}

impl PipelineDesc {
    /// The fixed state, for a swap chain of the given extent.
    pub open spec fn is_fixed_for(self, extent: Extent2D) -> bool {
        &&& self.stages@.len() == 2
        &&& self.stages@[0].stage == ShaderStage::Vertex
        &&& self.stages@[1].stage == ShaderStage::Fragment
        &&& self.stages@[0].entry_point@ == "main"@
        &&& self.stages@[1].entry_point@ == "main"@
        &&& self.topology == Topology::TriangleList
        &&& !self.primitive_restart
        &&& self.viewport_extent == extent
        &&& self.dynamic_states@ == seq![DynamicState::Viewport, DynamicState::Scissor]
        &&& !self.depth_clamp
        &&& !self.rasterizer_discard
        &&& self.polygon_mode == PolygonMode::Fill
        &&& self.cull_mode == CullMode::Back
        &&& self.front_face == FrontFace::Clockwise
        &&& !self.depth_bias
        &&& self.samples == 1
        &&& !self.sample_shading
        &&& !self.blend_enable
        &&& self.color_write_mask == ColorWriteMask { r: true, g: true, b: true, a: true }
        &&& !self.logic_op_enable
        &&& self.logic_op == LogicOp::Copy
        &&& self.set_layout_count == 0
        &&& self.push_constant_range_count == 0
        &&& self.subpass == 0
    }
}

fn stage_desc(stage: ShaderStage) -> (r: ShaderStageDesc)
    ensures
        r.stage == stage,
        r.entry_point@ == "main"@,
{
    ShaderStageDesc { stage, entry_point: "main".to_owned() }
}

/// Describes the graphics pipeline for a swap chain of the given extent.
pub fn get_pipeline(extent: Extent2D) -> (r: PipelineDesc)
    ensures
        r.is_fixed_for(extent),
{
    let mut stages: Vec<ShaderStageDesc> = Vec::new();
    stages.push(stage_desc(ShaderStage::Vertex));
    stages.push(stage_desc(ShaderStage::Fragment));
    let mut dynamic_states: Vec<DynamicState> = Vec::new();
    dynamic_states.push(DynamicState::Viewport);
    dynamic_states.push(DynamicState::Scissor);
    assert(dynamic_states@ =~= seq![DynamicState::Viewport, DynamicState::Scissor]);
    PipelineDesc {
        stages,
        topology: Topology::TriangleList,
        primitive_restart: false,
        viewport_extent: extent,
        dynamic_states,
        depth_clamp: false,
        rasterizer_discard: false,
        polygon_mode: PolygonMode::Fill,
        cull_mode: CullMode::Back,
        front_face: FrontFace::Clockwise,
        depth_bias: false,
        samples: 1,
        sample_shading: false,
        blend_enable: false,
        color_write_mask: ColorWriteMask { r: true, g: true, b: true, a: true },
        logic_op_enable: false,
        logic_op: LogicOp::Copy,
        set_layout_count: 0,
        push_constant_range_count: 0,
        subpass: 0,
    }
}

} // verus!
