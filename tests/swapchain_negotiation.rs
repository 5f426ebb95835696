use vk_triangle::device::VulkanQueuesIndices;
use vk_triangle::swapchain::{
    choose_image_count, choose_presentation_mode, choose_sharing, choose_swap_extent,
    choose_swap_surface_format, create_image_views, get_swapchain, Extent2D, ImageViewDesc,
    SharingMode, SurfaceCapabilities, SurfaceFormat, SurfaceSupport, PREFERRED_COLOR_SPACE,
    PREFERRED_FORMAT, PRESENT_MODE_FIFO, SENTINEL_MATCH_WINDOW,
};
use vk_triangle::RunError;

fn ext(width: u32, height: u32) -> Extent2D {
    Extent2D { width, height }
}

fn caps(min_count: u32, max_count: u32, current: Extent2D) -> SurfaceCapabilities {
    SurfaceCapabilities {
        min_image_count: min_count,
        max_image_count: max_count,
        current_extent: current,
        min_image_extent: ext(100, 50),
        max_image_extent: ext(1920, 1080),
        current_transform: 1,
    }
}

fn fmt(format: i32, color_space: i32) -> SurfaceFormat {
    SurfaceFormat { format, color_space }
}

#[test]
fn preferred_values_match_ash() {
    assert_eq!(PREFERRED_FORMAT, ash::vk::Format::B8G8R8_SRGB.as_raw());
    assert_eq!(PREFERRED_COLOR_SPACE, ash::vk::ColorSpaceKHR::SRGB_NONLINEAR.as_raw());
    assert_eq!(PRESENT_MODE_FIFO, ash::vk::PresentModeKHR::FIFO.as_raw());
}

#[test]
fn preferred_format_is_chosen_when_present() {
    let formats = vec![fmt(44, 0), fmt(36, 1), fmt(36, 0), fmt(50, 0)];
    assert_eq!(choose_swap_surface_format(&formats), Some(fmt(36, 0)));
}

#[test]
fn first_format_is_the_fallback() {
    let formats = vec![fmt(44, 0), fmt(36, 1), fmt(50, 0)];
    assert_eq!(choose_swap_surface_format(&formats), Some(fmt(44, 0)));
}

#[test]
fn chosen_format_is_a_member() {
    let formats = vec![fmt(37, 0), fmt(36, 0)];
    let chosen = choose_swap_surface_format(&formats).unwrap();
    assert!(formats.contains(&chosen));
}

#[test]
fn empty_format_list_is_an_error() {
    assert_eq!(choose_swap_surface_format(&vec![]), None);
    let support = SurfaceSupport {
        capabilities: caps(2, 0, ext(800, 600)),
        formats: vec![],
        present_modes: vec![2],
    };
    let q = VulkanQueuesIndices { graphic_family_i: 0, present_family_i: 0 };
    assert!(matches!(get_swapchain(&support, &q, ext(800, 600)), Err(RunError::NoSurfaceFormat)));
}

#[test]
fn fixed_extent_is_used_verbatim() {
    let c = caps(2, 3, ext(640, 480));
    assert_eq!(choose_swap_extent(&c, ext(3000, 10)), ext(640, 480));
    assert_eq!(choose_swap_extent(&c, ext(3000, 10)), choose_swap_extent(&c, ext(3000, 10)));
}

#[test]
fn window_size_is_clamped_when_surface_defers() {
    let c = caps(2, 3, ext(SENTINEL_MATCH_WINDOW, SENTINEL_MATCH_WINDOW));
    assert_eq!(choose_swap_extent(&c, ext(3000, 10)), ext(1920, 50));
    assert_eq!(choose_swap_extent(&c, ext(10, 2000)), ext(100, 1080));
    assert_eq!(choose_swap_extent(&c, ext(800, 600)), ext(800, 600));
    assert_eq!(SENTINEL_MATCH_WINDOW, u32::MAX);
}

#[test]
fn image_count_without_maximum_is_min_plus_one() {
    assert_eq!(choose_image_count(&caps(2, 0, ext(1, 1))), 3);
}

#[test]
fn image_count_with_maximum_is_the_maximum() {
    assert_eq!(choose_image_count(&caps(2, 8, ext(1, 1))), 8);
}

#[test]
fn present_mode_is_fifo() {
    let support = SurfaceSupport {
        capabilities: caps(2, 0, ext(1, 1)),
        formats: vec![fmt(44, 0)],
        present_modes: vec![0, 1, 3],
    };
    assert_eq!(choose_presentation_mode(&support), 2);
}

#[test]
fn sharing_follows_family_equality() {
    let same = choose_sharing(&VulkanQueuesIndices { graphic_family_i: 1, present_family_i: 1 });
    assert_eq!(same.mode, SharingMode::Exclusive);
    assert!(same.queue_family_indices.is_empty());
    let diff = choose_sharing(&VulkanQueuesIndices { graphic_family_i: 0, present_family_i: 2 });
    assert_eq!(diff.mode, SharingMode::Concurrent);
    assert_eq!(diff.queue_family_indices, vec![0, 2]);
}

#[test]
fn swapchain_plan_combines_the_choices() {
    let support = SurfaceSupport {
        capabilities: caps(2, 0, ext(SENTINEL_MATCH_WINDOW, SENTINEL_MATCH_WINDOW)),
        formats: vec![fmt(44, 0), fmt(36, 0)],
        present_modes: vec![0, 2],
    };
    let q = VulkanQueuesIndices { graphic_family_i: 0, present_family_i: 1 };
    let plan = get_swapchain(&support, &q, ext(2000, 700)).unwrap();
    assert_eq!(plan.format, fmt(36, 0));
    assert_eq!(plan.present_mode, 2);
    assert_eq!(plan.extent, ext(1920, 700));
    assert_eq!(plan.image_count, 3);
    assert_eq!(plan.sharing.mode, SharingMode::Concurrent);
    assert_eq!(plan.sharing.queue_family_indices, vec![0, 1]);
    assert_eq!(plan.pre_transform, 1);
}

#[test]
fn one_view_per_image() {
    let views = create_image_views(36, 3);
    assert_eq!(views.len(), 3);
    for (k, v) in views.iter().enumerate() {
        assert_eq!(
            *v,
            ImageViewDesc {
                image: k,
                format: 36,
                base_mip_level: 0,
                level_count: 1,
                base_array_layer: 0,
                layer_count: 1,
            }
        );
    }
    assert!(create_image_views(36, 0).is_empty());
}
