//! Ownership and destruction order of the GPU object graph.
//!
//! The swapchain-dependent objects form a dependency graph: a framebuffer
//! refers to image views, a render pass and the depth buffer; a pipeline
//! refers to the render pass and the shared layout; an image view refers to
//! the chain.  On staleness or resize the whole group is torn down in an
//! order that destroys every object before anything it refers to, then
//! rebuilt in the reverse discipline.  The ledger below tracks which groups
//! are alive and lets a destroy or create happen only when its dependency
//! rule allows it; full shutdown extends the same discipline to the
//! device-lifetime objects.

use vstd::prelude::*;

verus! {

/// The swapchain-dependent object groups, torn down and rebuilt together.
#[derive(Clone, Copy, Debug, PartialEq, Eq, Structural)]
pub enum SwapchainObjectGroup {
    /// The per-image uniform buffers and their memory.
    UniformBuffers,
    /// One framebuffer per image view.
    Framebuffers,
    /// The solid and wireframe pipelines, rebuilt together.
    Pipelines,
    /// The descriptor pool and the sets allocated from it.
    DescriptorPool,
    /// The pipeline layout shared by both pipelines.
    PipelineLayout,
    /// The render pass.
    RenderPass,
    /// The per-image color views.
    ImageViews,
    /// The depth image, its memory and its view.
    DepthResources,
    /// The chain handle itself.
    SwapchainHandle,
}

/// Group `a` refers to group `b`, so `a` must die first and `b` must exist
/// before `a` is created.
pub open spec fn spec_depends_on(a: SwapchainObjectGroup, b: SwapchainObjectGroup) -> bool {
    ||| (a == SwapchainObjectGroup::Framebuffers && (b == SwapchainObjectGroup::ImageViews || b
        == SwapchainObjectGroup::RenderPass || b == SwapchainObjectGroup::DepthResources))
    ||| (a == SwapchainObjectGroup::Pipelines && (b == SwapchainObjectGroup::RenderPass || b
        == SwapchainObjectGroup::PipelineLayout))
    ||| (a == SwapchainObjectGroup::ImageViews && b == SwapchainObjectGroup::SwapchainHandle)
}

/// Which swapchain-dependent groups currently exist.
#[derive(Clone, Copy, Debug, PartialEq, Eq, Structural)]
pub struct SwapchainLedger {
    /// The per-image uniform buffers exist.
    pub uniform_buffers: bool,
    /// The framebuffers exist.
    pub framebuffers: bool,
    /// Both pipelines exist.
    pub pipelines: bool,
    /// The descriptor pool exists.
    pub descriptor_pool: bool,
    /// The pipeline layout exists.
    pub pipeline_layout: bool,
    /// The render pass exists.
    pub render_pass: bool,
    /// The per-image color views exist.
    pub image_views: bool,
    /// The depth resources exist.
    pub depth_resources: bool,
    /// The chain handle exists.
    pub swapchain_handle: bool,
}

/// Group `g` exists in ledger `l`.
pub open spec fn spec_alive(l: SwapchainLedger, g: SwapchainObjectGroup) -> bool {
    match g {
        SwapchainObjectGroup::UniformBuffers => l.uniform_buffers,
        SwapchainObjectGroup::Framebuffers => l.framebuffers,
        SwapchainObjectGroup::Pipelines => l.pipelines,
        SwapchainObjectGroup::DescriptorPool => l.descriptor_pool,
        SwapchainObjectGroup::PipelineLayout => l.pipeline_layout,
        SwapchainObjectGroup::RenderPass => l.render_pass,
        SwapchainObjectGroup::ImageViews => l.image_views,
        SwapchainObjectGroup::DepthResources => l.depth_resources,
        SwapchainObjectGroup::SwapchainHandle => l.swapchain_handle,
    }
}

/// Every group exists.
pub open spec fn spec_all_alive(l: SwapchainLedger) -> bool {
    &&& l.uniform_buffers
    &&& l.framebuffers
    &&& l.pipelines
    &&& l.descriptor_pool
    &&& l.pipeline_layout
    &&& l.render_pass
    &&& l.image_views
    &&& l.depth_resources
    &&& l.swapchain_handle
}

/// No group exists.
pub open spec fn spec_all_destroyed(l: SwapchainLedger) -> bool {
    &&& !l.uniform_buffers
    &&& !l.framebuffers
    &&& !l.pipelines
    &&& !l.descriptor_pool
    &&& !l.pipeline_layout
    &&& !l.render_pass
    &&& !l.image_views
    &&& !l.depth_resources
    &&& !l.swapchain_handle
}

/// Nothing that refers to `g` still exists.
pub open spec fn spec_no_live_dependents(l: SwapchainLedger, g: SwapchainObjectGroup) -> bool {
    match g {
        SwapchainObjectGroup::ImageViews => !l.framebuffers,
        SwapchainObjectGroup::RenderPass => !l.framebuffers && !l.pipelines,
        SwapchainObjectGroup::PipelineLayout => !l.pipelines,
        SwapchainObjectGroup::DepthResources => !l.framebuffers,
        SwapchainObjectGroup::SwapchainHandle => !l.image_views,
        _ => true,
    }
}

/// Everything `g` refers to already exists.
pub open spec fn spec_dependencies_alive(l: SwapchainLedger, g: SwapchainObjectGroup) -> bool {
    match g {
        SwapchainObjectGroup::Framebuffers => l.image_views && l.render_pass && l.depth_resources,
        SwapchainObjectGroup::Pipelines => l.render_pass && l.pipeline_layout,
        SwapchainObjectGroup::ImageViews => l.swapchain_handle,
        _ => true,
    }
}

/// `g` may be destroyed: it exists and nothing alive refers to it.
pub open spec fn spec_can_destroy(l: SwapchainLedger, g: SwapchainObjectGroup) -> bool {
    spec_alive(l, g) && spec_no_live_dependents(l, g)
}

/// `g` may be created: it does not exist yet and what it refers to does.
pub open spec fn spec_can_create(l: SwapchainLedger, g: SwapchainObjectGroup) -> bool {
    !spec_alive(l, g) && spec_dependencies_alive(l, g)
}

/// The per-variant destroy rule agrees with the dependency relation: a
/// destroy is allowed exactly when the group is alive and every dependent
/// group is gone.
pub proof fn lemma_destroy_rule_matches_dependencies(l: SwapchainLedger, g: SwapchainObjectGroup)
    ensures
        spec_can_destroy(l, g) <==> (spec_alive(l, g) && forall|d: SwapchainObjectGroup|
            spec_depends_on(d, g) ==> !spec_alive(l, d)),
{
    if spec_alive(l, g) && spec_no_live_dependents(l, g) {
        assert forall|d: SwapchainObjectGroup| spec_depends_on(d, g) implies !spec_alive(
            l,
            d,
        ) by {}
    }
    if spec_alive(l, g) && (forall|d: SwapchainObjectGroup|
        spec_depends_on(d, g) ==> !spec_alive(l, d)) {
        assert(!spec_depends_on(SwapchainObjectGroup::Framebuffers, g) || !spec_alive(
            l,
            SwapchainObjectGroup::Framebuffers,
        ));
        assert(!spec_depends_on(SwapchainObjectGroup::Pipelines, g) || !spec_alive(
            l,
            SwapchainObjectGroup::Pipelines,
        ));
        assert(!spec_depends_on(SwapchainObjectGroup::ImageViews, g) || !spec_alive(
            l,
            SwapchainObjectGroup::ImageViews,
        ));
    }
}

/// The per-variant create rule agrees with the dependency relation: a
/// create is allowed exactly when the group is absent and every group it
/// refers to is alive.
pub proof fn lemma_create_rule_matches_dependencies(l: SwapchainLedger, g: SwapchainObjectGroup)
    ensures
        spec_can_create(l, g) <==> (!spec_alive(l, g) && forall|d: SwapchainObjectGroup|
            spec_depends_on(g, d) ==> spec_alive(l, d)),
{
    if !spec_alive(l, g) && spec_dependencies_alive(l, g) {
        assert forall|d: SwapchainObjectGroup| spec_depends_on(g, d) implies spec_alive(
            l,
            d,
        ) by {}
    }
    if !spec_alive(l, g) && (forall|d: SwapchainObjectGroup|
        spec_depends_on(g, d) ==> spec_alive(l, d)) {
        assert(!spec_depends_on(g, SwapchainObjectGroup::ImageViews) || spec_alive(
            l,
            SwapchainObjectGroup::ImageViews,
        ));
        assert(!spec_depends_on(g, SwapchainObjectGroup::RenderPass) || spec_alive(
            l,
            SwapchainObjectGroup::RenderPass,
        ));
        assert(!spec_depends_on(g, SwapchainObjectGroup::DepthResources) || spec_alive(
            l,
            SwapchainObjectGroup::DepthResources,
        ));
        assert(!spec_depends_on(g, SwapchainObjectGroup::PipelineLayout) || spec_alive(
            l,
            SwapchainObjectGroup::PipelineLayout,
        ));
        assert(!spec_depends_on(g, SwapchainObjectGroup::SwapchainHandle) || spec_alive(
            l,
            SwapchainObjectGroup::SwapchainHandle,
        ));
    }
}

impl SwapchainLedger {
    /// A ledger with every group alive, as right after a full build.
    pub fn fully_built() -> (r: SwapchainLedger)
        ensures
            spec_all_alive(r),
    {
        SwapchainLedger {
            uniform_buffers: true,
            framebuffers: true,
            pipelines: true,
            descriptor_pool: true,
            pipeline_layout: true,
            render_pass: true,
            image_views: true,
            depth_resources: true,
            swapchain_handle: true,
        }
    }

    /// Records the destruction of `group`.  Allowed only while nothing
    /// alive still refers to the group: destroying under a live dependent
    /// would leave a dangling reference.
    pub fn destroy(&mut self, group: SwapchainObjectGroup)
        requires
            spec_can_destroy(*old(self), group),
        ensures
            !spec_alive(*final(self), group),
            forall|g: SwapchainObjectGroup|
                g != group ==> spec_alive(*final(self), g) == spec_alive(*old(self), g),
    {
        match group {
            SwapchainObjectGroup::UniformBuffers => self.uniform_buffers = false,
            SwapchainObjectGroup::Framebuffers => self.framebuffers = false,
            SwapchainObjectGroup::Pipelines => self.pipelines = false,
            SwapchainObjectGroup::DescriptorPool => self.descriptor_pool = false,
            SwapchainObjectGroup::PipelineLayout => self.pipeline_layout = false,
            SwapchainObjectGroup::RenderPass => self.render_pass = false,
            SwapchainObjectGroup::ImageViews => self.image_views = false,
            SwapchainObjectGroup::DepthResources => self.depth_resources = false,
            SwapchainObjectGroup::SwapchainHandle => self.swapchain_handle = false,
        }
    }

    /// Records the creation of `group`.  Allowed only once everything the
    /// group refers to exists, and the group does not exist twice.
    pub fn create(&mut self, group: SwapchainObjectGroup)
        requires
            spec_can_create(*old(self), group),
        ensures
            spec_alive(*final(self), group),
            forall|g: SwapchainObjectGroup|
                g != group ==> spec_alive(*final(self), g) == spec_alive(*old(self), g),
    {
        match group {
            SwapchainObjectGroup::UniformBuffers => self.uniform_buffers = true,
            SwapchainObjectGroup::Framebuffers => self.framebuffers = true,
            SwapchainObjectGroup::Pipelines => self.pipelines = true,
            SwapchainObjectGroup::DescriptorPool => self.descriptor_pool = true,
            SwapchainObjectGroup::PipelineLayout => self.pipeline_layout = true,
            SwapchainObjectGroup::RenderPass => self.render_pass = true,
            SwapchainObjectGroup::ImageViews => self.image_views = true,
            SwapchainObjectGroup::DepthResources => self.depth_resources = true,
            SwapchainObjectGroup::SwapchainHandle => self.swapchain_handle = true,
        }
    }

    /// Tears every group down in the documented order — uniform buffers,
    /// framebuffers, pipelines, descriptor pool, pipeline layout, render
    /// pass, image views, depth resources, then the chain handle — each
    /// destruction happening only after every object that refers to it is
    /// gone.
    pub fn cleanup_swapchain(&mut self)
        requires
            spec_all_alive(*old(self)),
        ensures
            spec_all_destroyed(*final(self)),
    {
        self.destroy(SwapchainObjectGroup::UniformBuffers);
        self.destroy(SwapchainObjectGroup::Framebuffers);
        self.destroy(SwapchainObjectGroup::Pipelines);
        self.destroy(SwapchainObjectGroup::DescriptorPool);
        self.destroy(SwapchainObjectGroup::PipelineLayout);
        self.destroy(SwapchainObjectGroup::RenderPass);
        self.destroy(SwapchainObjectGroup::ImageViews);
        self.destroy(SwapchainObjectGroup::DepthResources);
        self.destroy(SwapchainObjectGroup::SwapchainHandle);
    }

    /// Builds every group back in creation order — the chain handle, image
    /// views, render pass, pipeline layout, pipelines, depth resources,
    /// framebuffers, uniform buffers, then the descriptor pool — each
    /// creation happening only after everything it refers to exists.
    pub fn rebuild(&mut self)
        requires
            spec_all_destroyed(*old(self)),
        ensures
            spec_all_alive(*final(self)),
    {
        self.create(SwapchainObjectGroup::SwapchainHandle);
        self.create(SwapchainObjectGroup::ImageViews);
        self.create(SwapchainObjectGroup::RenderPass);
        self.create(SwapchainObjectGroup::PipelineLayout);
        self.create(SwapchainObjectGroup::Pipelines);
        self.create(SwapchainObjectGroup::DepthResources);
        self.create(SwapchainObjectGroup::Framebuffers);
        self.create(SwapchainObjectGroup::UniformBuffers);
        self.create(SwapchainObjectGroup::DescriptorPool);
    }
}

/// The documented teardown order of the swapchain-dependent groups.
pub open spec fn spec_teardown_order() -> Seq<SwapchainObjectGroup> {
    seq![
        SwapchainObjectGroup::UniformBuffers,
        SwapchainObjectGroup::Framebuffers,
        SwapchainObjectGroup::Pipelines,
        SwapchainObjectGroup::DescriptorPool,
        SwapchainObjectGroup::PipelineLayout,
        SwapchainObjectGroup::RenderPass,
        SwapchainObjectGroup::ImageViews,
        SwapchainObjectGroup::DepthResources,
        SwapchainObjectGroup::SwapchainHandle,
    ]
}

/// The documented creation order of the swapchain-dependent groups.
pub open spec fn spec_rebuild_order() -> Seq<SwapchainObjectGroup> {
    seq![
        SwapchainObjectGroup::SwapchainHandle,
        SwapchainObjectGroup::ImageViews,
        SwapchainObjectGroup::RenderPass,
        SwapchainObjectGroup::PipelineLayout,
        SwapchainObjectGroup::Pipelines,
        SwapchainObjectGroup::DepthResources,
        SwapchainObjectGroup::Framebuffers,
        SwapchainObjectGroup::UniformBuffers,
        SwapchainObjectGroup::DescriptorPool,
    ]
}

/// The teardown order, as a list the caller can walk.
pub fn teardown_order() -> (r: Vec<SwapchainObjectGroup>)
    ensures
        r@ == spec_teardown_order(),
{
    let mut v: Vec<SwapchainObjectGroup> = Vec::new();
    v.push(SwapchainObjectGroup::UniformBuffers);
    v.push(SwapchainObjectGroup::Framebuffers);
    v.push(SwapchainObjectGroup::Pipelines);
    v.push(SwapchainObjectGroup::DescriptorPool);
    v.push(SwapchainObjectGroup::PipelineLayout);
    v.push(SwapchainObjectGroup::RenderPass);
    v.push(SwapchainObjectGroup::ImageViews);
    v.push(SwapchainObjectGroup::DepthResources);
    v.push(SwapchainObjectGroup::SwapchainHandle);
    proof {
        assert(v@ =~= spec_teardown_order());
    }
    v
}

/// The creation order, as a list the caller can walk.
pub fn rebuild_order() -> (r: Vec<SwapchainObjectGroup>)
    ensures
        r@ == spec_rebuild_order(),
{
    let mut v: Vec<SwapchainObjectGroup> = Vec::new();
    v.push(SwapchainObjectGroup::SwapchainHandle);
    v.push(SwapchainObjectGroup::ImageViews);
    v.push(SwapchainObjectGroup::RenderPass);
    v.push(SwapchainObjectGroup::PipelineLayout);
    v.push(SwapchainObjectGroup::Pipelines);
    v.push(SwapchainObjectGroup::DepthResources);
    v.push(SwapchainObjectGroup::Framebuffers);
    v.push(SwapchainObjectGroup::UniformBuffers);
    v.push(SwapchainObjectGroup::DescriptorPool);
    proof {
        assert(v@ =~= spec_rebuild_order());
    }
    v
}

/// Teardown lists every group exactly once, so nothing leaks and nothing is
/// destroyed twice; rebuild recreates exactly the groups teardown
/// destroyed, in reverse dependency discipline.
pub proof fn lemma_orders_cover_every_group_once()
    ensures
        spec_teardown_order().len() == 9,
        spec_rebuild_order().len() == 9,
        forall|g: SwapchainObjectGroup| spec_teardown_order().contains(g),
        forall|g: SwapchainObjectGroup| spec_rebuild_order().contains(g),
        forall|i: int, j: int|
            0 <= i < j < spec_teardown_order().len() ==> spec_teardown_order()[i]
                != spec_teardown_order()[j],
        forall|i: int, j: int|
            0 <= i < j < spec_rebuild_order().len() ==> spec_rebuild_order()[i]
                != spec_rebuild_order()[j],
{
    assert forall|g: SwapchainObjectGroup| spec_teardown_order().contains(g) by {
        let s = spec_teardown_order();
        match g {
            SwapchainObjectGroup::UniformBuffers => assert(s[0] == g),
            SwapchainObjectGroup::Framebuffers => assert(s[1] == g),
            SwapchainObjectGroup::Pipelines => assert(s[2] == g),
            SwapchainObjectGroup::DescriptorPool => assert(s[3] == g),
            SwapchainObjectGroup::PipelineLayout => assert(s[4] == g),
            SwapchainObjectGroup::RenderPass => assert(s[5] == g),
            SwapchainObjectGroup::ImageViews => assert(s[6] == g),
            SwapchainObjectGroup::DepthResources => assert(s[7] == g),
            SwapchainObjectGroup::SwapchainHandle => assert(s[8] == g),
        }
    }
    assert forall|g: SwapchainObjectGroup| spec_rebuild_order().contains(g) by {
        let s = spec_rebuild_order();
        match g {
            SwapchainObjectGroup::SwapchainHandle => assert(s[0] == g),
            SwapchainObjectGroup::ImageViews => assert(s[1] == g),
            SwapchainObjectGroup::RenderPass => assert(s[2] == g),
            SwapchainObjectGroup::PipelineLayout => assert(s[3] == g),
            SwapchainObjectGroup::Pipelines => assert(s[4] == g),
            SwapchainObjectGroup::DepthResources => assert(s[5] == g),
            SwapchainObjectGroup::Framebuffers => assert(s[6] == g),
            SwapchainObjectGroup::UniformBuffers => assert(s[7] == g),
            SwapchainObjectGroup::DescriptorPool => assert(s[8] == g),
        }
    }
}

/// In the teardown order, every group stands before anything it refers to:
/// dependents die first.
pub proof fn lemma_teardown_respects_dependencies()
    ensures
        forall|i: int, j: int|
            0 <= i < spec_teardown_order().len() && 0 <= j < spec_teardown_order().len()
                && spec_depends_on(spec_teardown_order()[i], spec_teardown_order()[j]) ==> i < j,
{
}

/// In the rebuild order, everything a group refers to stands before it:
/// dependencies are created first.
pub proof fn lemma_rebuild_respects_dependencies()
    ensures
        forall|i: int, j: int|
            0 <= i < spec_rebuild_order().len() && 0 <= j < spec_rebuild_order().len()
                && spec_depends_on(spec_rebuild_order()[i], spec_rebuild_order()[j]) ==> j < i,
{
}

/// One step of full shutdown, after the device has drained all work.
#[derive(Clone, Copy, Debug, PartialEq, Eq, Structural)]
pub enum ShutdownStep {
    /// The whole swapchain-dependent teardown, in its documented order.
    SwapchainDependents,
    /// The cube's index buffer and its memory.
    IndexBuffer,
    /// The wireframe vertex buffer and its memory.
    WireframeVertexBuffer,
    /// The solid cube's vertex buffer and its memory.
    VertexBuffer,
    /// The image-available signal.
    ImageAvailableSemaphore,
    /// The render-finished signal.
    RenderFinishedSemaphore,
    /// The in-flight-work fence.
    InFlightFence,
    /// The command pool and its buffers.
    CommandPool,
    /// The descriptor set layout.
    DescriptorSetLayout,
    /// The logical device.
    Device,
    /// The surface.
    Surface,
    /// The debug messenger.
    DebugMessenger,
    /// The GPU API instance.
    ApiInstance,
}

/// The full shutdown order: the swapchain-dependent graph first, then the
/// device-lifetime objects, then the device itself, and the instance last.
pub open spec fn spec_shutdown_order() -> Seq<ShutdownStep> {
    seq![
        ShutdownStep::SwapchainDependents,
        ShutdownStep::IndexBuffer,
        ShutdownStep::WireframeVertexBuffer,
        ShutdownStep::VertexBuffer,
        ShutdownStep::ImageAvailableSemaphore,
        ShutdownStep::RenderFinishedSemaphore,
        ShutdownStep::InFlightFence,
        ShutdownStep::CommandPool,
        ShutdownStep::DescriptorSetLayout,
        ShutdownStep::Device,
        ShutdownStep::Surface,
        ShutdownStep::DebugMessenger,
        ShutdownStep::ApiInstance,
    ]
}

/// The full shutdown order, as a list the caller walks exactly once after a
/// device drain.  Every step appears once: nothing leaks, nothing is freed
/// twice.
pub fn shutdown_order() -> (r: Vec<ShutdownStep>)
    ensures
        r@ == spec_shutdown_order(),
{
    let mut v: Vec<ShutdownStep> = Vec::new();
    v.push(ShutdownStep::SwapchainDependents);
    v.push(ShutdownStep::IndexBuffer);
    v.push(ShutdownStep::WireframeVertexBuffer);
    v.push(ShutdownStep::VertexBuffer);
    v.push(ShutdownStep::ImageAvailableSemaphore);
    v.push(ShutdownStep::RenderFinishedSemaphore);
    v.push(ShutdownStep::InFlightFence);
    v.push(ShutdownStep::CommandPool);
    v.push(ShutdownStep::DescriptorSetLayout);
    v.push(ShutdownStep::Device);
    v.push(ShutdownStep::Surface);
    v.push(ShutdownStep::DebugMessenger);
    v.push(ShutdownStep::ApiInstance);
    proof {
        assert(v@ =~= spec_shutdown_order());
    }
    v
}

/// Shutdown frees each step exactly once, destroys every device-owned
/// object before the device, and destroys the instance last.
pub proof fn lemma_shutdown_order_sound()
    ensures
        forall|i: int, j: int|
            0 <= i < j < spec_shutdown_order().len() ==> spec_shutdown_order()[i]
                != spec_shutdown_order()[j],
        forall|g: ShutdownStep| spec_shutdown_order().contains(g),
        spec_shutdown_order()[spec_shutdown_order().len() - 1] == ShutdownStep::ApiInstance,
        forall|i: int|
            0 <= i < spec_shutdown_order().len() && spec_shutdown_order()[i] == ShutdownStep::Device
                ==> forall|j: int|
                0 <= j < i ==> #[trigger] spec_shutdown_order()[j] != ShutdownStep::Surface
                    && spec_shutdown_order()[j] != ShutdownStep::ApiInstance,
{
    assert forall|g: ShutdownStep| spec_shutdown_order().contains(g) by {
        let s = spec_shutdown_order();
        match g {
            ShutdownStep::SwapchainDependents => assert(s[0] == g),
            ShutdownStep::IndexBuffer => assert(s[1] == g),
            ShutdownStep::WireframeVertexBuffer => assert(s[2] == g),
            ShutdownStep::VertexBuffer => assert(s[3] == g),
            ShutdownStep::ImageAvailableSemaphore => assert(s[4] == g),
            ShutdownStep::RenderFinishedSemaphore => assert(s[5] == g),
            ShutdownStep::InFlightFence => assert(s[6] == g),
            ShutdownStep::CommandPool => assert(s[7] == g),
            ShutdownStep::DescriptorSetLayout => assert(s[8] == g),
            ShutdownStep::Device => assert(s[9] == g),
            ShutdownStep::Surface => assert(s[10] == g),
            ShutdownStep::DebugMessenger => assert(s[11] == g),
            ShutdownStep::ApiInstance => assert(s[12] == g),
        }
    }
}

} // verus!
