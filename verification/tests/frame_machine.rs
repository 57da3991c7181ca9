use cube_renderer::commands::{record_command_buffer, DrawStep, CUBE_INDEX_COUNT};
use cube_renderer::frame::{FrameAction, FrameEvent, FrameOrchestrator, FrameState};
use cube_renderer::lifecycle::{
    rebuild_order, shutdown_order, teardown_order, ShutdownStep, SwapchainLedger,
    SwapchainObjectGroup,
};

#[test]
fn first_frame_at_800_600_draws_and_returns_to_idle() {
    // The window is 800×600; the first acquire hands back image 0, so the
    // uniform slot and command buffer of index 0 are prepared, submitted
    // and presented, and the orchestrator ends the tick idle.
    let mut orch = FrameOrchestrator::new();
    assert_eq!(orch.state, FrameState::Idle);

    assert_eq!(orch.step(FrameEvent::Tick), FrameAction::WaitFenceAndAcquire);
    assert_eq!(
        orch.step(FrameEvent::AcquireSuccess {
            image_index: 0,
            suboptimal: false
        }),
        FrameAction::PrepareFrame { image_index: 0 }
    );
    assert_eq!(
        orch.step(FrameEvent::RecordingDone),
        FrameAction::SubmitCommands { image_index: 0 }
    );
    assert_eq!(
        orch.step(FrameEvent::SubmitSucceeded),
        FrameAction::PresentImage { image_index: 0 }
    );
    assert_eq!(
        orch.step(FrameEvent::PresentSuccess { suboptimal: false }),
        FrameAction::FinishTick
    );
    assert_eq!(orch.state, FrameState::Idle);
    assert!(!orch.resize_requested);
}

#[test]
fn out_of_date_present_drains_rebuilds_and_acquires_again() {
    let mut orch = FrameOrchestrator::new();
    orch.step(FrameEvent::Tick);
    orch.step(FrameEvent::AcquireSuccess {
        image_index: 1,
        suboptimal: false,
    });
    orch.step(FrameEvent::RecordingDone);
    orch.step(FrameEvent::SubmitSucceeded);

    assert_eq!(
        orch.step(FrameEvent::PresentOutOfDate),
        FrameAction::DrainDevice
    );
    assert_eq!(orch.state, FrameState::StaleSwapchain);
    assert_eq!(
        orch.step(FrameEvent::DeviceDrained),
        FrameAction::RebuildSwapchain
    );
    assert_eq!(orch.state, FrameState::Rebuilding);
    assert_eq!(orch.step(FrameEvent::RebuildDone), FrameAction::FinishTick);
    assert_eq!(orch.state, FrameState::Idle);

    // The next tick acquires against the new chain.
    assert_eq!(orch.step(FrameEvent::Tick), FrameAction::WaitFenceAndAcquire);
    assert_eq!(orch.state, FrameState::Acquiring);
}

#[test]
fn out_of_date_acquire_skips_the_tick_without_partial_submission() {
    let mut orch = FrameOrchestrator::new();
    orch.step(FrameEvent::Tick);
    assert_eq!(
        orch.step(FrameEvent::AcquireOutOfDate),
        FrameAction::DrainDevice
    );
    assert_eq!(orch.state, FrameState::StaleSwapchain);
}

#[test]
fn external_resize_signal_forces_a_rebuild_after_a_clean_present() {
    let mut orch = FrameOrchestrator::new();
    assert_eq!(orch.step(FrameEvent::ResizeSignaled), FrameAction::Ignore);
    assert!(orch.resize_requested);

    orch.step(FrameEvent::Tick);
    orch.step(FrameEvent::AcquireSuccess {
        image_index: 0,
        suboptimal: false,
    });
    orch.step(FrameEvent::RecordingDone);
    orch.step(FrameEvent::SubmitSucceeded);
    assert_eq!(
        orch.step(FrameEvent::PresentSuccess { suboptimal: false }),
        FrameAction::DrainDevice
    );
    assert_eq!(orch.state, FrameState::StaleSwapchain);
    assert!(!orch.resize_requested);
}

#[test]
fn suboptimal_acquire_finishes_the_frame_then_rebuilds() {
    let mut orch = FrameOrchestrator::new();
    orch.step(FrameEvent::Tick);
    assert_eq!(
        orch.step(FrameEvent::AcquireSuccess {
            image_index: 2,
            suboptimal: true
        }),
        FrameAction::PrepareFrame { image_index: 2 }
    );
    assert!(orch.resize_requested);
    orch.step(FrameEvent::RecordingDone);
    orch.step(FrameEvent::SubmitSucceeded);
    assert_eq!(
        orch.step(FrameEvent::PresentSuccess { suboptimal: false }),
        FrameAction::DrainDevice
    );
}

#[test]
fn suboptimal_present_rebuilds_at_end_of_tick() {
    let mut orch = FrameOrchestrator::new();
    orch.step(FrameEvent::Tick);
    orch.step(FrameEvent::AcquireSuccess {
        image_index: 0,
        suboptimal: false,
    });
    orch.step(FrameEvent::RecordingDone);
    orch.step(FrameEvent::SubmitSucceeded);
    assert_eq!(
        orch.step(FrameEvent::PresentSuccess { suboptimal: true }),
        FrameAction::DrainDevice
    );
    assert_eq!(orch.state, FrameState::StaleSwapchain);
}

#[test]
fn unexpected_gpu_errors_are_fatal() {
    let mut orch = FrameOrchestrator::new();
    orch.step(FrameEvent::Tick);
    assert_eq!(orch.step(FrameEvent::AcquireFailed), FrameAction::Fatal);

    let mut second = FrameOrchestrator::new();
    second.step(FrameEvent::Tick);
    second.step(FrameEvent::AcquireSuccess {
        image_index: 0,
        suboptimal: false,
    });
    second.step(FrameEvent::RecordingDone);
    assert_eq!(second.step(FrameEvent::SubmitFailed), FrameAction::Fatal);
}

#[test]
fn command_stream_draws_solid_then_wireframe_inside_one_pass() {
    let steps = record_command_buffer(1, 576);
    assert_eq!(steps.len(), 10);
    assert_eq!(steps[0], DrawStep::BeginRenderPass { image_index: 1 });
    assert_eq!(steps[4], DrawStep::BindDescriptorSet { set_index: 1 });
    assert_eq!(
        steps[5],
        DrawStep::DrawIndexed {
            index_count: CUBE_INDEX_COUNT
        }
    );
    assert_eq!(steps[6], DrawStep::BindWireframePipeline);
    assert_eq!(steps[8], DrawStep::Draw { vertex_count: 576 });
    assert_eq!(steps[9], DrawStep::EndRenderPass);
}

#[test]
fn teardown_destroys_all_nine_groups_in_documented_order() {
    let order = teardown_order();
    assert_eq!(
        order,
        vec![
            SwapchainObjectGroup::UniformBuffers,
            SwapchainObjectGroup::Framebuffers,
            SwapchainObjectGroup::Pipelines,
            SwapchainObjectGroup::DescriptorPool,
            SwapchainObjectGroup::PipelineLayout,
            SwapchainObjectGroup::RenderPass,
            SwapchainObjectGroup::ImageViews,
            SwapchainObjectGroup::DepthResources,
            SwapchainObjectGroup::SwapchainHandle,
        ]
    );
}

#[test]
fn rebuild_recreates_every_group_destroyed() {
    let mut down = teardown_order();
    let mut up = rebuild_order();
    assert_eq!(down.len(), 9);
    assert_eq!(up.len(), 9);
    down.sort_by_key(|g| format!("{:?}", g));
    up.sort_by_key(|g| format!("{:?}", g));
    assert_eq!(down, up);
}

#[test]
fn ledger_round_trip_leaves_every_group_alive() {
    let mut ledger = SwapchainLedger::fully_built();
    ledger.cleanup_swapchain();
    assert!(!ledger.swapchain_handle);
    assert!(!ledger.uniform_buffers);
    ledger.rebuild();
    assert!(
        ledger.uniform_buffers
            && ledger.framebuffers
            && ledger.pipelines
            && ledger.descriptor_pool
            && ledger.pipeline_layout
            && ledger.render_pass
            && ledger.image_views
            && ledger.depth_resources
            && ledger.swapchain_handle
    );
}

#[test]
fn shutdown_frees_each_step_once_and_instance_last() {
    let order = shutdown_order();
    assert_eq!(order.len(), 13);
    assert_eq!(order[0], ShutdownStep::SwapchainDependents);
    assert_eq!(order[order.len() - 1], ShutdownStep::ApiInstance);
    let device_at = order
        .iter()
        .position(|s| *s == ShutdownStep::Device)
        .unwrap();
    let surface_at = order
        .iter()
        .position(|s| *s == ShutdownStep::Surface)
        .unwrap();
    assert!(device_at < surface_at);
    for (i, a) in order.iter().enumerate() {
        for b in order.iter().skip(i + 1) {
            assert_ne!(a, b);
        }
    }
}
