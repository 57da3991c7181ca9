//! Command-stream planning for one frame.
//!
//! Each frame records the same fixed shape: one render pass that clears
//! color and depth, draws the solid cube indexed, then draws the wireframe
//! overlay non-indexed.  The plan is a plain list of steps the caller
//! replays into a command buffer.

use vstd::prelude::*;

verus! {

/// Indices drawn for the solid cube: 12 triangles over 8 corners.
pub const CUBE_INDEX_COUNT: u32 = 36;

/// One step of the per-frame command stream.
#[derive(Clone, Copy, Debug, PartialEq, Eq, Structural)]
pub enum DrawStep {
    /// Begin the render pass on the framebuffer of the acquired image,
    /// clearing color and depth.
    BeginRenderPass { image_index: usize },
    /// Bind the solid-fill pipeline.
    BindSolidPipeline,
    /// Bind the solid cube's vertex buffer.
    BindSolidVertexBuffer,
    /// Bind the cube's 16-bit index buffer.
    BindIndexBuffer,
    /// Bind the descriptor set of the acquired image.
    BindDescriptorSet { set_index: usize },
    /// Draw the solid cube by index.
    DrawIndexed { index_count: u32 },
    /// Bind the wireframe pipeline.
    BindWireframePipeline,
    /// Bind the wireframe vertex buffer.
    BindWireframeVertexBuffer,
    /// Draw the wireframe lines non-indexed.
    Draw { vertex_count: u32 },
    /// End the render pass.
    EndRenderPass,
}

/// The fixed command stream for the frame drawing image `image_index` with
/// `wireframe_vertex_count` wireframe vertices.
pub open spec fn spec_command_stream(image_index: usize, wireframe_vertex_count: u32) -> Seq<
    DrawStep,
> {
    seq![
        DrawStep::BeginRenderPass { image_index },
        DrawStep::BindSolidPipeline,
        DrawStep::BindSolidVertexBuffer,
        DrawStep::BindIndexBuffer,
        DrawStep::BindDescriptorSet { set_index: image_index },
        DrawStep::DrawIndexed { index_count: CUBE_INDEX_COUNT },
        DrawStep::BindWireframePipeline,
        DrawStep::BindWireframeVertexBuffer,
        DrawStep::Draw { vertex_count: wireframe_vertex_count },
        DrawStep::EndRenderPass,
    ]
}

/// Plans the command stream for one frame: begin the render pass on the
/// acquired image, bind the solid pipeline with its vertex buffer, index
/// buffer and the image's descriptor set, draw all cube indices, switch to
/// the wireframe pipeline and its vertex buffer, draw all wireframe
/// vertices, end the pass.
pub fn record_command_buffer(image_index: usize, wireframe_vertex_count: u32) -> (r: Vec<DrawStep>)
    ensures
        r@ == spec_command_stream(image_index, wireframe_vertex_count),
{
    let mut steps: Vec<DrawStep> = Vec::new();
    steps.push(DrawStep::BeginRenderPass { image_index });
    steps.push(DrawStep::BindSolidPipeline);
    steps.push(DrawStep::BindSolidVertexBuffer);
    steps.push(DrawStep::BindIndexBuffer);
    steps.push(DrawStep::BindDescriptorSet { set_index: image_index });
    steps.push(DrawStep::DrawIndexed { index_count: CUBE_INDEX_COUNT });
    steps.push(DrawStep::BindWireframePipeline);
    steps.push(DrawStep::BindWireframeVertexBuffer);
    steps.push(DrawStep::Draw { vertex_count: wireframe_vertex_count });
    steps.push(DrawStep::EndRenderPass);
    proof {
        assert(steps@ =~= spec_command_stream(image_index, wireframe_vertex_count));
    }
    steps
}

/// The stream is bracketed by the render pass, binds before it draws, and
/// touches only the acquired image's framebuffer and descriptor set.
pub proof fn lemma_command_stream_well_formed(image_index: usize, wireframe_vertex_count: u32)
    ensures
        ({
            let s = spec_command_stream(image_index, wireframe_vertex_count);
            &&& s.len() == 10
            &&& s[0] == (DrawStep::BeginRenderPass { image_index })
            &&& s[s.len() - 1] == DrawStep::EndRenderPass
            &&& s[4] == (DrawStep::BindDescriptorSet { set_index: image_index })
            &&& s[5] == (DrawStep::DrawIndexed { index_count: CUBE_INDEX_COUNT })
            &&& s[8] == (DrawStep::Draw { vertex_count: wireframe_vertex_count })
            &&& forall|i: int|
                0 < i < s.len() - 1 ==> s[i] !is BeginRenderPass && s[i] !is EndRenderPass
        }),
{
    let s = spec_command_stream(image_index, wireframe_vertex_count);
    assert forall|i: int| 0 < i < s.len() - 1 implies s[i] !is BeginRenderPass && s[i]
        !is EndRenderPass by {
        if i == 1 || i == 2 || i == 3 || i == 4 || i == 5 || i == 6 || i == 7 || i == 8 {
        }
    }
}

} // verus!
