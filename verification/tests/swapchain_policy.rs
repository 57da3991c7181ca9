use cube_renderer::instance::QueueFamilyIndices;
use cube_renderer::swapchain::{
    choose_image_count, choose_swap_extent, choose_swap_present_mode, choose_swap_surface_format,
    plan_swapchain, Extent2d, SharingMode, SurfaceCapabilities, SurfaceFormat,
    SwapchainSupportDetails, COLOR_SPACE_SRGB_NONLINEAR, FORMAT_B8G8R8A8_SRGB, PRESENT_MODE_FIFO,
    PRESENT_MODE_MAILBOX, UNDEFINED_EXTENT,
};

fn caps(
    min_count: u32,
    max_count: u32,
    current: (u32, u32),
    min_extent: (u32, u32),
    max_extent: (u32, u32),
) -> SurfaceCapabilities {
    SurfaceCapabilities {
        min_image_count: min_count,
        max_image_count: max_count,
        current_extent: Extent2d {
            width: current.0,
            height: current.1,
        },
        min_image_extent: Extent2d {
            width: min_extent.0,
            height: min_extent.1,
        },
        max_image_extent: Extent2d {
            width: max_extent.0,
            height: max_extent.1,
        },
    }
}

#[test]
fn present_mode_fifo_only_yields_fifo() {
    let modes = vec![PRESENT_MODE_FIFO];
    assert_eq!(choose_swap_present_mode(&modes), PRESENT_MODE_FIFO);
}

#[test]
fn present_mode_with_mailbox_yields_mailbox() {
    let modes = vec![PRESENT_MODE_FIFO, PRESENT_MODE_MAILBOX];
    assert_eq!(choose_swap_present_mode(&modes), PRESENT_MODE_MAILBOX);
}

#[test]
fn surface_format_prefers_bgra8_srgb() {
    let formats = vec![
        SurfaceFormat {
            format: 44,
            color_space: 0,
        },
        SurfaceFormat {
            format: FORMAT_B8G8R8A8_SRGB,
            color_space: COLOR_SPACE_SRGB_NONLINEAR,
        },
    ];
    let chosen = choose_swap_surface_format(&formats);
    assert_eq!(chosen.format, FORMAT_B8G8R8A8_SRGB);
    assert_eq!(chosen.color_space, COLOR_SPACE_SRGB_NONLINEAR);
}

#[test]
fn surface_format_without_preferred_takes_first_not_an_error() {
    let formats = vec![
        SurfaceFormat {
            format: 44,
            color_space: 7,
        },
        SurfaceFormat {
            format: 97,
            color_space: 0,
        },
    ];
    let chosen = choose_swap_surface_format(&formats);
    assert_eq!(
        chosen,
        SurfaceFormat {
            format: 44,
            color_space: 7
        }
    );
}

#[test]
fn surface_format_wrong_color_space_is_not_preferred() {
    let formats = vec![
        SurfaceFormat {
            format: FORMAT_B8G8R8A8_SRGB,
            color_space: 5,
        },
        SurfaceFormat {
            format: FORMAT_B8G8R8A8_SRGB,
            color_space: COLOR_SPACE_SRGB_NONLINEAR,
        },
    ];
    let chosen = choose_swap_surface_format(&formats);
    assert_eq!(chosen.color_space, COLOR_SPACE_SRGB_NONLINEAR);
}

#[test]
fn image_count_is_min_plus_one_when_unbounded() {
    let c = caps(2, 0, (800, 600), (1, 1), (4096, 4096));
    assert_eq!(choose_image_count(&c), 3);
}

#[test]
fn image_count_clamps_to_declared_maximum() {
    let c = caps(3, 3, (800, 600), (1, 1), (4096, 4096));
    assert_eq!(choose_image_count(&c), 3);
    let c2 = caps(2, 8, (800, 600), (1, 1), (4096, 4096));
    assert_eq!(choose_image_count(&c2), 3);
}

#[test]
fn extent_defined_current_is_taken_verbatim() {
    let c = caps(2, 0, (800, 600), (1, 1), (4096, 4096));
    let e = choose_swap_extent(&c, 1024, 768);
    assert_eq!(
        e,
        Extent2d {
            width: 800,
            height: 600
        }
    );
}

#[test]
fn extent_sentinel_clamps_window_size_componentwise() {
    let c = caps(2, 0, (UNDEFINED_EXTENT, UNDEFINED_EXTENT), (640, 480), (1920, 1080));
    let small = choose_swap_extent(&c, 100, 2000);
    assert_eq!(
        small,
        Extent2d {
            width: 640,
            height: 1080
        }
    );
    let inside = choose_swap_extent(&c, 800, 600);
    assert_eq!(
        inside,
        Extent2d {
            width: 800,
            height: 600
        }
    );
}

fn support_800_600() -> SwapchainSupportDetails {
    SwapchainSupportDetails {
        capabilities: caps(2, 4, (800, 600), (1, 1), (4096, 4096)),
        formats: vec![SurfaceFormat {
            format: FORMAT_B8G8R8A8_SRGB,
            color_space: COLOR_SPACE_SRGB_NONLINEAR,
        }],
        present_modes: vec![PRESENT_MODE_FIFO],
    }
}

#[test]
fn differing_families_share_concurrently_across_exactly_those_two() {
    let indices = QueueFamilyIndices {
        graphics_family: Some(0),
        present_family: Some(2),
    };
    let plan = plan_swapchain(&support_800_600(), &indices, 800, 600);
    assert_eq!(plan.sharing_mode, SharingMode::Concurrent);
    assert_eq!(plan.queue_family_indices, vec![0, 2]);
}

#[test]
fn equal_families_use_exclusive_sharing() {
    let indices = QueueFamilyIndices {
        graphics_family: Some(1),
        present_family: Some(1),
    };
    let plan = plan_swapchain(&support_800_600(), &indices, 800, 600);
    assert_eq!(plan.sharing_mode, SharingMode::Exclusive);
    assert!(plan.queue_family_indices.is_empty());
}

#[test]
fn replanning_same_support_leaves_plan_unchanged() {
    let indices = QueueFamilyIndices {
        graphics_family: Some(0),
        present_family: Some(0),
    };
    let first = plan_swapchain(&support_800_600(), &indices, 800, 600);
    let second = plan_swapchain(&support_800_600(), &indices, 800, 600);
    assert_eq!(first.image_count, second.image_count);
    assert_eq!(first.format, second.format);
    assert_eq!(first.extent, second.extent);
    assert_eq!(first, second);
}
