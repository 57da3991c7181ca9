//! Render pass, pipeline and framebuffer planning.
//!
//! The fixed-function state of both pipelines is decided here as plain
//! values: the solid pipeline draws triangle lists with depth test and
//! write and back-face culling; the wireframe pipeline reuses the same
//! layout and differs only in topology and culling.  Both are always
//! rebuilt together with the render pass when the chain's format or extent
//! changes.  The render pass clears then stores color for presentation and
//! clears then discards depth.

use vstd::prelude::*;

use crate::swapchain::Extent2d;

verus! {

/// Primitive topology id: a list of independent lines.
pub const TOPOLOGY_LINE_LIST: u32 = 1;

/// Primitive topology id: a list of independent triangles.
pub const TOPOLOGY_TRIANGLE_LIST: u32 = 3;

/// How one attachment is loaded and stored across the render pass.
#[derive(Clone, Copy, Debug, PartialEq, Eq, Structural)]
pub struct AttachmentPlan {
    /// Pixel format id.
    pub format: u32,
    /// Clear the attachment when the pass begins.
    pub clear_on_load: bool,
    /// Keep the attachment's contents when the pass ends.
    pub store_result: bool,
}

/// The single-subpass render pass: one color and one depth attachment.
#[derive(Clone, Copy, Debug, PartialEq, Eq, Structural)]
pub struct RenderPassPlan {
    /// The color attachment: cleared, then stored for presentation.
    pub color: AttachmentPlan,
    /// The depth attachment: cleared, then discarded.
    pub depth: AttachmentPlan,
}

/// Plans the render pass for the chain's color format and the chosen depth
/// format: color is cleared then stored (it transitions to a presentable
/// layout), depth is cleared then discarded.
pub fn create_render_pass(format: u32, depth_format: u32) -> (r: RenderPassPlan)
    ensures
        r.color == (AttachmentPlan { format, clear_on_load: true, store_result: true }),
        r.depth == (AttachmentPlan {
            format: depth_format,
            clear_on_load: true,
            store_result: false,
        }),
{
    RenderPassPlan {
        color: AttachmentPlan { format, clear_on_load: true, store_result: true },
        depth: AttachmentPlan { format: depth_format, clear_on_load: true, store_result: false },
    }
}

/// The fixed-function state of one pipeline.
#[derive(Clone, Copy, Debug, PartialEq, Eq, Structural)]
pub struct PipelinePlan {
    /// Primitive topology id.
    pub topology: u32,
    /// Cull back faces.
    pub cull_back_faces: bool,
    /// Depth test fragments against the depth buffer.
    pub depth_test: bool,
    /// Write surviving fragments' depth.
    pub depth_write: bool,
    /// Fixed viewport, matching the chain's extent.
    pub viewport: Extent2d,
    /// Fixed scissor, matching the chain's extent.
    pub scissor: Extent2d,
}

/// The solid-fill pipeline for the given extent.
pub open spec fn spec_solid_pipeline(extent: Extent2d) -> PipelinePlan {
    PipelinePlan {
        topology: TOPOLOGY_TRIANGLE_LIST,
        cull_back_faces: true,
        depth_test: true,
        depth_write: true,
        viewport: extent,
        scissor: extent,
    }
}

/// The wireframe pipeline for the given extent.
pub open spec fn spec_wireframe_pipeline(extent: Extent2d) -> PipelinePlan {
    PipelinePlan {
        topology: TOPOLOGY_LINE_LIST,
        cull_back_faces: false,
        depth_test: true,
        depth_write: true,
        viewport: extent,
        scissor: extent,
    }
}

/// Plans the solid-fill pipeline: triangle lists, depth test and write
/// enabled, back-face culling, fixed viewport and scissor matching the
/// extent.
pub fn create_graphics_pipeline(extent: Extent2d) -> (r: PipelinePlan)
    ensures
        r == spec_solid_pipeline(extent),
{
    PipelinePlan {
        topology: TOPOLOGY_TRIANGLE_LIST,
        cull_back_faces: true,
        depth_test: true,
        depth_write: true,
        viewport: extent,
        scissor: extent,
    }
}

/// Plans the wireframe pipeline: it reuses the shared layout and switches
/// to line lists without culling, leaving everything else as the solid
/// pipeline has it.
pub fn create_wireframe_pipeline(extent: Extent2d) -> (r: PipelinePlan)
    ensures
        r == spec_wireframe_pipeline(extent),
{
    PipelinePlan {
        topology: TOPOLOGY_LINE_LIST,
        cull_back_faces: false,
        depth_test: true,
        depth_write: true,
        viewport: extent,
        scissor: extent,
    }
}

/// The two pipelines differ in topology and culling alone: depth state,
/// viewport and scissor agree, so the wireframe overlays the solid draw
/// without a depth-write conflict.
pub proof fn lemma_pipelines_differ_only_in_topology_and_culling(extent: Extent2d)
    ensures
        spec_solid_pipeline(extent).topology == TOPOLOGY_TRIANGLE_LIST,
        spec_wireframe_pipeline(extent).topology == TOPOLOGY_LINE_LIST,
        spec_solid_pipeline(extent).cull_back_faces,
        !spec_wireframe_pipeline(extent).cull_back_faces,
        spec_solid_pipeline(extent).depth_test == spec_wireframe_pipeline(extent).depth_test,
        spec_solid_pipeline(extent).depth_write == spec_wireframe_pipeline(extent).depth_write,
        spec_solid_pipeline(extent).viewport == spec_wireframe_pipeline(extent).viewport,
        spec_solid_pipeline(extent).scissor == spec_wireframe_pipeline(extent).scissor,
{
}

/// One framebuffer: which color view it binds, together with the shared
/// depth view and the pass's extent.
#[derive(Clone, Copy, Debug, PartialEq, Eq, Structural)]
pub struct FramebufferPlan {
    /// Index of the color view the framebuffer binds.
    pub color_view_index: usize,
    /// The framebuffer binds the one shared depth view.
    pub binds_shared_depth_view: bool,
    /// The framebuffer's extent.
    pub extent: Extent2d,
}

/// The framebuffer planned for view `i`.
pub open spec fn spec_framebuffer_plan(i: int, extent: Extent2d) -> FramebufferPlan {
    FramebufferPlan {
        color_view_index: i as usize,
        binds_shared_depth_view: true,
        extent,
    }
}

/// Plans one framebuffer per swapchain image view, in view order, each
/// paired with the same depth view and sized to the extent.
pub fn create_framebuffers(view_count: usize, extent: Extent2d) -> (r: Vec<FramebufferPlan>)
    ensures
        r@.len() == view_count,
        forall|i: int| 0 <= i < view_count ==> r@[i] == spec_framebuffer_plan(i, extent),
{
    let mut plans: Vec<FramebufferPlan> = Vec::new();
    let mut i: usize = 0;
    while i < view_count
        invariant
            i <= view_count,
            plans@.len() == i,
            forall|j: int| 0 <= j < i ==> plans@[j] == spec_framebuffer_plan(j, extent),
        decreases view_count - i,
    {
        plans.push(
            FramebufferPlan { color_view_index: i, binds_shared_depth_view: true, extent },
        );
        i += 1;
    }
    plans
}

} // verus!
