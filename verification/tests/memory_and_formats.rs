use cube_renderer::buffers::{
    create_uniform_buffers, find_memory_type, index_buffer_request, vertex_buffer_request,
    BUFFER_USAGE_INDEX, BUFFER_USAGE_UNIFORM, BUFFER_USAGE_VERTEX, MEMORY_PROPERTY_HOST_COHERENT,
    MEMORY_PROPERTY_HOST_VISIBLE, UNIFORM_BUFFER_SIZE_BYTES,
};
use cube_renderer::error::SetupError;
use cube_renderer::images::{
    depth_format_candidates, depth_image_request, find_depth_format, find_supported_format,
    FormatProperties, ImageTiling, FORMAT_D24_UNORM_S8_UINT, FORMAT_D32_SFLOAT,
    FORMAT_D32_SFLOAT_S8_UINT, FORMAT_FEATURE_DEPTH_STENCIL_ATTACHMENT,
};

#[test]
fn memory_type_returns_lowest_qualifying_index() {
    // Index 0 fails the filter, index 1 lacks a property bit, index 2 and 3
    // both qualify: the lowest, 2, must win.
    let types = vec![0x6, 0x2, 0x6, 0x6];
    let r = find_memory_type(0b1110, &types, 0x6);
    assert_eq!(r, Ok(2));
}

#[test]
fn memory_type_respects_type_bit_filter() {
    let types = vec![0x6, 0x6];
    assert_eq!(find_memory_type(0b10, &types, 0x6), Ok(1));
}

#[test]
fn memory_type_requires_property_superset() {
    // 0x2 alone is not a superset of 0x6.
    let types = vec![0x2, 0x7];
    assert_eq!(find_memory_type(0b11, &types, 0x6), Ok(1));
}

#[test]
fn memory_type_fails_rather_than_defaulting() {
    let types = vec![0x1, 0x2];
    assert_eq!(
        find_memory_type(0b11, &types, 0x4),
        Err(SetupError::NoMatchingMemoryType)
    );
    assert_eq!(
        find_memory_type(0, &types, 0x1),
        Err(SetupError::NoMatchingMemoryType)
    );
}

#[test]
fn depth_candidates_are_probed_in_fixed_order() {
    assert_eq!(
        depth_format_candidates(),
        vec![
            FORMAT_D32_SFLOAT,
            FORMAT_D32_SFLOAT_S8_UINT,
            FORMAT_D24_UNORM_S8_UINT
        ]
    );
}

fn props(format: u32, optimal: u32) -> FormatProperties {
    FormatProperties {
        format,
        linear_tiling_features: 0,
        optimal_tiling_features: optimal,
    }
}

#[test]
fn depth_format_takes_first_qualifying_candidate() {
    let candidates = vec![
        props(FORMAT_D32_SFLOAT, 0),
        props(
            FORMAT_D32_SFLOAT_S8_UINT,
            FORMAT_FEATURE_DEPTH_STENCIL_ATTACHMENT,
        ),
        props(
            FORMAT_D24_UNORM_S8_UINT,
            FORMAT_FEATURE_DEPTH_STENCIL_ATTACHMENT,
        ),
    ];
    assert_eq!(find_depth_format(&candidates), Ok(FORMAT_D32_SFLOAT_S8_UINT));
}

#[test]
fn depth_format_fails_when_no_candidate_qualifies() {
    let candidates = vec![
        props(FORMAT_D32_SFLOAT, 0x80),
        props(FORMAT_D32_SFLOAT_S8_UINT, 0),
        props(FORMAT_D24_UNORM_S8_UINT, 0x1),
    ];
    assert_eq!(
        find_depth_format(&candidates),
        Err(SetupError::NoSupportedFormat)
    );
}

#[test]
fn linear_tiling_reads_linear_features() {
    let candidates = vec![FormatProperties {
        format: 7,
        linear_tiling_features: 0x200,
        optimal_tiling_features: 0,
    }];
    assert_eq!(
        find_supported_format(&candidates, ImageTiling::Linear, 0x200),
        Ok(7)
    );
    assert_eq!(
        find_supported_format(&candidates, ImageTiling::Optimal, 0x200),
        Err(SetupError::NoSupportedFormat)
    );
}

#[test]
fn vertex_buffer_request_sizes_by_stride() {
    let r = vertex_buffer_request(8);
    assert_eq!(r.size, 8 * 24);
    assert_eq!(r.usage, BUFFER_USAGE_VERTEX);
    assert_eq!(
        r.properties,
        MEMORY_PROPERTY_HOST_VISIBLE | MEMORY_PROPERTY_HOST_COHERENT
    );
}

#[test]
fn index_buffer_request_sizes_by_index_width() {
    let r = index_buffer_request(36);
    assert_eq!(r.size, 72);
    assert_eq!(r.usage, BUFFER_USAGE_INDEX);
}

#[test]
fn one_uniform_slot_per_swapchain_image() {
    let requests = create_uniform_buffers(3);
    assert_eq!(requests.len(), 3);
    for r in &requests {
        assert_eq!(r.size, UNIFORM_BUFFER_SIZE_BYTES);
        assert_eq!(r.usage, BUFFER_USAGE_UNIFORM);
        assert_eq!(
            r.properties,
            MEMORY_PROPERTY_HOST_VISIBLE | MEMORY_PROPERTY_HOST_COHERENT
        );
    }
    assert!(create_uniform_buffers(0).is_empty());
}

#[test]
fn depth_image_request_matches_extent() {
    let extent = cube_renderer::swapchain::Extent2d {
        width: 800,
        height: 600,
    };
    let r = depth_image_request(extent, FORMAT_D32_SFLOAT);
    assert_eq!(r.width, 800);
    assert_eq!(r.height, 600);
    assert_eq!(r.format, FORMAT_D32_SFLOAT);
    assert_eq!(r.tiling, ImageTiling::Optimal);
    assert_eq!(r.mip_levels, 1);
    assert_eq!(r.array_layers, 1);
}
