use vk_triangle::commands::{
    get_commandpool, get_framebuffers, get_sync_objects, record_frame, FramebufferDesc,
};
use vk_triangle::device::VulkanQueuesIndices;
use vk_triangle::instance::{get_debug, get_instance};
use vk_triangle::pipeline::{
    get_pipeline, ColorWriteMask, CullMode, DynamicState, FrontFace, ShaderStage, Topology,
};
use vk_triangle::render_pass::{Access, ImageLayout, LoadOp, StoreOp, SubpassRef};
use vk_triangle::render_pass::get_rendererpass;
use vk_triangle::swapchain::Extent2D;

#[test]
fn instance_versions_and_names() {
    let d = get_instance();
    assert_eq!(d.application_name, "Second real try");
    assert_eq!(d.engine_name, "There's an engine?");
    assert_eq!(d.application_version, 1 << 29);
    assert_eq!(d.api_version, (1 << 22) | (3 << 12));
    assert_eq!(d.api_version, ash::vk::API_VERSION_1_3);
    assert_eq!(d.layers, vec!["VK_LAYER_KHRONOS_validation".to_string()]);
    assert_eq!(
        d.extensions,
        vec![
            "VK_EXT_debug_utils".to_string(),
            "VK_KHR_surface".to_string(),
            "VK_KHR_xlib_surface".to_string(),
        ]
    );
}

#[test]
fn messenger_takes_validation_warnings_and_errors() {
    let d = get_debug();
    assert!(d.error && d.warning && d.validation);
    assert!(!d.info && !d.verbose && !d.general && !d.performance);
}

#[test]
fn render_pass_has_the_presentation_dependency() {
    let rp = get_rendererpass(36);
    assert_eq!(rp.attachment.format, 36);
    assert_eq!(rp.attachment.samples, 1);
    assert_eq!(rp.attachment.load_op, LoadOp::Clear);
    assert_eq!(rp.attachment.store_op, StoreOp::Store);
    assert_eq!(rp.attachment.stencil_load_op, LoadOp::DontCare);
    assert_eq!(rp.attachment.stencil_store_op, StoreOp::DontCare);
    assert_eq!(rp.attachment.initial_layout, ImageLayout::Undefined);
    assert_eq!(rp.attachment.final_layout, ImageLayout::PresentSrc);
    assert_eq!(rp.subpass.color_attachment, 0);
    assert_eq!(rp.subpass.color_layout, ImageLayout::ColorAttachmentOptimal);
    assert_eq!(rp.dependency.src_subpass, SubpassRef::External);
    assert_eq!(rp.dependency.dst_subpass, SubpassRef::Subpass(0));
    assert_eq!(rp.dependency.src_access, Access::NoAccess);
    assert_eq!(rp.dependency.dst_access, Access::ColorAttachmentWrite);
}

#[test]
fn pipeline_state_is_fixed() {
    let p = get_pipeline(Extent2D { width: 800, height: 600 });
    assert_eq!(p.stages.len(), 2);
    assert_eq!(p.stages[0].stage, ShaderStage::Vertex);
    assert_eq!(p.stages[1].stage, ShaderStage::Fragment);
    assert_eq!(p.stages[0].entry_point, "main");
    assert_eq!(p.stages[1].entry_point, "main");
    assert_eq!(p.topology, Topology::TriangleList);
    assert!(!p.primitive_restart);
    assert_eq!(p.viewport_extent, Extent2D { width: 800, height: 600 });
    assert_eq!(p.dynamic_states, vec![DynamicState::Viewport, DynamicState::Scissor]);
    assert_eq!(p.cull_mode, CullMode::Back);
    assert_eq!(p.front_face, FrontFace::Clockwise);
    assert!(!p.blend_enable);
    assert_eq!(p.color_write_mask, ColorWriteMask { r: true, g: true, b: true, a: true });
    assert_eq!(p.samples, 1);
    assert_eq!(p.set_layout_count, 0);
    assert_eq!(p.push_constant_range_count, 0);
}

#[test]
fn one_framebuffer_per_view() {
    let e = Extent2D { width: 640, height: 480 };
    let fbs = get_framebuffers(3, e);
    assert_eq!(
        fbs,
        vec![
            FramebufferDesc { image_view: 0, width: 640, height: 480, layers: 1 },
            FramebufferDesc { image_view: 1, width: 640, height: 480, layers: 1 },
            FramebufferDesc { image_view: 2, width: 640, height: 480, layers: 1 },
        ]
    );
}

#[test]
fn command_pool_on_graphics_family() {
    let c = get_commandpool(&VulkanQueuesIndices { graphic_family_i: 2, present_family_i: 0 });
    assert_eq!(c.queue_family_index, 2);
    assert!(c.reset_command_buffer);
    assert_eq!(c.primary_buffer_count, 1);
}

#[test]
fn frame_draws_three_vertices() {
    let e = Extent2D { width: 10, height: 20 };
    let r = record_frame(1, e);
    assert_eq!(r.framebuffer, 1);
    assert_eq!(r.vertex_count, 3);
    assert_eq!(r.instance_count, 1);
    assert_eq!(r.first_vertex, 0);
    assert_eq!(r.viewport, e);
    assert_eq!(r.scissor, e);
}

#[test]
fn fence_starts_signaled() {
    let s = get_sync_objects();
    assert_eq!(s.semaphore_count, 2);
    assert!(s.fence_starts_signaled);
}
