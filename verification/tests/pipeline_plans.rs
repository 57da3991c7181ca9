use ash::vk;
use cube_renderer::pipeline::{
    create_framebuffers, create_graphics_pipeline, create_render_pass, create_wireframe_pipeline,
    TOPOLOGY_LINE_LIST, TOPOLOGY_TRIANGLE_LIST,
};
use cube_renderer::swapchain::Extent2d;

const EXTENT: Extent2d = Extent2d {
    width: 800,
    height: 600,
};

#[test]
fn render_pass_clears_both_and_stores_color_only() {
    let plan = create_render_pass(50, 126);
    assert_eq!(plan.color.format, 50);
    assert!(plan.color.clear_on_load);
    assert!(plan.color.store_result);
    assert_eq!(plan.depth.format, 126);
    assert!(plan.depth.clear_on_load);
    assert!(!plan.depth.store_result);
}

#[test]
fn solid_pipeline_draws_culled_triangles_with_depth() {
    let plan = create_graphics_pipeline(EXTENT);
    assert_eq!(plan.topology, TOPOLOGY_TRIANGLE_LIST);
    assert!(plan.cull_back_faces);
    assert!(plan.depth_test);
    assert!(plan.depth_write);
    assert_eq!(plan.viewport, EXTENT);
    assert_eq!(plan.scissor, EXTENT);
}

#[test]
fn wireframe_pipeline_differs_only_in_topology_and_culling() {
    let solid = create_graphics_pipeline(EXTENT);
    let wire = create_wireframe_pipeline(EXTENT);
    assert_eq!(wire.topology, TOPOLOGY_LINE_LIST);
    assert!(!wire.cull_back_faces);
    assert_eq!(wire.depth_test, solid.depth_test);
    assert_eq!(wire.depth_write, solid.depth_write);
    assert_eq!(wire.viewport, solid.viewport);
    assert_eq!(wire.scissor, solid.scissor);
}

#[test]
fn one_framebuffer_per_view_sharing_the_depth_view() {
    let plans = create_framebuffers(3, EXTENT);
    assert_eq!(plans.len(), 3);
    for (i, plan) in plans.iter().enumerate() {
        assert_eq!(plan.color_view_index, i);
        assert!(plan.binds_shared_depth_view);
        assert_eq!(plan.extent, EXTENT);
    }
}

#[test]
fn topology_ids_match_the_api() {
    assert_eq!(
        TOPOLOGY_TRIANGLE_LIST as i32,
        vk::PrimitiveTopology::TRIANGLE_LIST.as_raw()
    );
    assert_eq!(
        TOPOLOGY_LINE_LIST as i32,
        vk::PrimitiveTopology::LINE_LIST.as_raw()
    );
}
