//! The per-frame state machine.
//!
//! One tick runs: wait for the previous frame's fence, acquire an image,
//! write that image's uniform slot and record its commands, submit, present,
//! and watch for staleness.  Staleness — reported by acquisition or
//! presentation, or signalled externally as a resize — diverts through a
//! drain-and-rebuild path and skips drawing for the tick.  Exactly one
//! frame is ever in flight.  The orchestrator decides; the caller performs
//! each returned action against the GPU and reports what happened as the
//! next event.

use vstd::prelude::*;

verus! {

/// Where the orchestrator stands within a tick.
#[derive(Clone, Copy, Debug, PartialEq, Eq, Structural)]
pub enum FrameState {
    /// Between ticks; nothing in progress.
    Idle,
    /// Waiting for the fence and an acquired image.
    Acquiring,
    /// Writing uniforms and recording commands for the acquired image.
    Recording { image_index: usize },
    /// Commands for the image are being submitted.
    Submitted { image_index: usize },
    /// The image is being presented.
    Presenting { image_index: usize },
    /// The chain is stale; the device must drain before rebuild.
    StaleSwapchain,
    /// The swapchain-dependent object graph is being rebuilt.
    Rebuilding,
}

/// What the caller reports back to the orchestrator.
#[derive(Clone, Copy, Debug, PartialEq, Eq, Structural)]
pub enum FrameEvent {
    /// The host loop starts a tick.
    Tick,
    /// Acquisition returned an image, possibly noting the chain suboptimal.
    AcquireSuccess { image_index: usize, suboptimal: bool },
    /// Acquisition reported the chain out of date.
    AcquireOutOfDate,
    /// Acquisition failed with an unexpected error.
    AcquireFailed,
    /// Uniform write and command recording finished.
    RecordingDone,
    /// The queue accepted the submission.
    SubmitSucceeded,
    /// Submission failed with an unexpected error.
    SubmitFailed,
    /// Presentation happened, possibly noting the chain suboptimal.
    PresentSuccess { suboptimal: bool },
    /// Presentation reported the chain out of date.
    PresentOutOfDate,
    /// Presentation failed with an unexpected error.
    PresentFailed,
    /// The host noticed a resize since the last tick.
    ResizeSignaled,
    /// The device finished draining all outstanding work.
    DeviceDrained,
    /// The swapchain-dependent object graph has been rebuilt.
    RebuildDone,
}

/// What the caller must do next against the GPU.
#[derive(Clone, Copy, Debug, PartialEq, Eq, Structural)]
pub enum FrameAction {
    /// Wait on the in-flight fence, then acquire the next image.
    WaitFenceAndAcquire,
    /// Write the image's uniform slot, reset the fence and the command
    /// buffer, and record the frame's commands.
    PrepareFrame { image_index: usize },
    /// Submit the image's command buffer, fencing the frame.
    SubmitCommands { image_index: usize },
    /// Present the image, waiting on the render-finished signal.
    PresentImage { image_index: usize },
    /// Wait until the device drains all outstanding work.
    DrainDevice,
    /// Tear down and recreate the swapchain-dependent object graph.
    RebuildSwapchain,
    /// The tick is over; nothing to do until the next one.
    FinishTick,
    /// An unrecoverable GPU error: abort with diagnostic context.
    Fatal,
    /// The event changes no GPU state.
    Ignore,
}

/// The transition rule: from a state, a resize flag and an event to the
/// next state, the next flag and the action the caller must perform.
pub open spec fn spec_step(state: FrameState, resize_requested: bool, event: FrameEvent) -> (
    FrameState,
    bool,
    FrameAction,
) {
    match (state, event) {
        (_, FrameEvent::ResizeSignaled) => (state, true, FrameAction::Ignore),
        (FrameState::Idle, FrameEvent::Tick) => (
            FrameState::Acquiring,
            resize_requested,
            FrameAction::WaitFenceAndAcquire,
        ),
        (FrameState::Acquiring, FrameEvent::AcquireSuccess { image_index, suboptimal }) => (
            FrameState::Recording { image_index },
            resize_requested || suboptimal,
            FrameAction::PrepareFrame { image_index },
        ),
        (FrameState::Acquiring, FrameEvent::AcquireOutOfDate) => (
            FrameState::StaleSwapchain,
            resize_requested,
            FrameAction::DrainDevice,
        ),
        (FrameState::Acquiring, FrameEvent::AcquireFailed) => (
            state,
            resize_requested,
            FrameAction::Fatal,
        ),
        (FrameState::Recording { image_index }, FrameEvent::RecordingDone) => (
            FrameState::Submitted { image_index },
            resize_requested,
            FrameAction::SubmitCommands { image_index },
        ),
        (FrameState::Submitted { image_index }, FrameEvent::SubmitSucceeded) => (
            FrameState::Presenting { image_index },
            resize_requested,
            FrameAction::PresentImage { image_index },
        ),
        (FrameState::Submitted { .. }, FrameEvent::SubmitFailed) => (
            state,
            resize_requested,
            FrameAction::Fatal,
        ),
        (FrameState::Presenting { .. }, FrameEvent::PresentSuccess { suboptimal }) => if suboptimal
            || resize_requested {
            (FrameState::StaleSwapchain, false, FrameAction::DrainDevice)
        } else {
            (FrameState::Idle, false, FrameAction::FinishTick)
        },
        (FrameState::Presenting { .. }, FrameEvent::PresentOutOfDate) => (
            FrameState::StaleSwapchain,
            false,
            FrameAction::DrainDevice,
        ),
        (FrameState::Presenting { .. }, FrameEvent::PresentFailed) => (
            state,
            resize_requested,
            FrameAction::Fatal,
        ),
        (FrameState::StaleSwapchain, FrameEvent::DeviceDrained) => (
            FrameState::Rebuilding,
            resize_requested,
            FrameAction::RebuildSwapchain,
        ),
        (FrameState::Rebuilding, FrameEvent::RebuildDone) => (
            FrameState::Idle,
            resize_requested,
            FrameAction::FinishTick,
        ),
        _ => (state, resize_requested, FrameAction::Ignore),
    }
}

/// The per-frame state machine, driving one frame in flight.
#[derive(Clone, Copy, Debug, PartialEq, Eq, Structural)]
pub struct FrameOrchestrator {
    /// Where the current tick stands.
    pub state: FrameState,
    /// A rebuild is owed at the end of the tick: set by an external resize
    /// signal or a suboptimal acquisition, cleared when the stale path is
    /// taken or the tick ends cleanly.
    pub resize_requested: bool,
}

impl FrameOrchestrator {
    /// Starts idle with no resize pending.
    pub fn new() -> (r: FrameOrchestrator)
        ensures
            r.state == FrameState::Idle,
            !r.resize_requested,
    {
        FrameOrchestrator { state: FrameState::Idle, resize_requested: false }
    }

    /// Feeds one event through the transition rule and returns the action
    /// the caller must perform next.
    pub fn step(&mut self, event: FrameEvent) -> (action: FrameAction)
        ensures
            (final(self).state, final(self).resize_requested, action) == spec_step(
                old(self).state,
                old(self).resize_requested,
                event,
            ),
    {
        match (self.state, event) {
            (_, FrameEvent::ResizeSignaled) => {
                self.resize_requested = true;
                FrameAction::Ignore
            },
            (FrameState::Idle, FrameEvent::Tick) => {
                self.state = FrameState::Acquiring;
                FrameAction::WaitFenceAndAcquire
            },
            (FrameState::Acquiring, FrameEvent::AcquireSuccess { image_index, suboptimal }) => {
                self.state = FrameState::Recording { image_index };
                if suboptimal {
                    self.resize_requested = true;
                }
                FrameAction::PrepareFrame { image_index }
            },
            (FrameState::Acquiring, FrameEvent::AcquireOutOfDate) => {
                self.state = FrameState::StaleSwapchain;
                FrameAction::DrainDevice
            },
            (FrameState::Acquiring, FrameEvent::AcquireFailed) => FrameAction::Fatal,
            (FrameState::Recording { image_index }, FrameEvent::RecordingDone) => {
                self.state = FrameState::Submitted { image_index };
                FrameAction::SubmitCommands { image_index }
            },
            (FrameState::Submitted { image_index }, FrameEvent::SubmitSucceeded) => {
                self.state = FrameState::Presenting { image_index };
                FrameAction::PresentImage { image_index }
            },
            (FrameState::Submitted { .. }, FrameEvent::SubmitFailed) => FrameAction::Fatal,
            (FrameState::Presenting { .. }, FrameEvent::PresentSuccess { suboptimal }) => {
                if suboptimal || self.resize_requested {
                    self.state = FrameState::StaleSwapchain;
                    self.resize_requested = false;
                    FrameAction::DrainDevice
                } else {
                    self.state = FrameState::Idle;
                    self.resize_requested = false;
                    FrameAction::FinishTick
                }
            },
            (FrameState::Presenting { .. }, FrameEvent::PresentOutOfDate) => {
                self.state = FrameState::StaleSwapchain;
                self.resize_requested = false;
                FrameAction::DrainDevice
            },
            (FrameState::Presenting { .. }, FrameEvent::PresentFailed) => FrameAction::Fatal,
            (FrameState::StaleSwapchain, FrameEvent::DeviceDrained) => {
                self.state = FrameState::Rebuilding;
                FrameAction::RebuildSwapchain
            },
            (FrameState::Rebuilding, FrameEvent::RebuildDone) => {
                self.state = FrameState::Idle;
                FrameAction::FinishTick
            },
            _ => FrameAction::Ignore,
        }
    }
}

/// The states and actions of a whole run: feed each event in order through
/// the transition rule, collecting the action of each step.
pub open spec fn spec_run_actions(state: FrameState, resize_requested: bool, events: Seq<
    FrameEvent,
>) -> Seq<FrameAction>
    decreases events.len(),
{
    if events.len() == 0 {
        Seq::empty()
    } else {
        let (next, flag, action) = spec_step(state, resize_requested, events[0]);
        seq![action] + spec_run_actions(next, flag, events.drop_first())
    }
}

/// Step `k` of a run respects the frame protocol: a preparation happens on
/// the acquisition reporting that index, a submission comes after that
/// index's preparation, and a presentation comes after that index's
/// submission.
pub open spec fn spec_step_in_order(actions: Seq<FrameAction>, events: Seq<FrameEvent>, k: int) -> bool {
    &&& (actions[k] matches FrameAction::PrepareFrame { image_index } ==> (events[k]
        == (FrameEvent::AcquireSuccess { image_index, suboptimal: false }) || events[k]
        == (FrameEvent::AcquireSuccess { image_index, suboptimal: true })))
    &&& (actions[k] matches FrameAction::SubmitCommands { image_index } ==> exists|j: int|
        0 <= j < k && #[trigger] actions[j] == (FrameAction::PrepareFrame { image_index }))
    &&& (actions[k] matches FrameAction::PresentImage { image_index } ==> exists|j: int|
        0 <= j < k && #[trigger] actions[j] == (FrameAction::SubmitCommands { image_index }))
}

/// Every step from `from` on respects the frame protocol.
pub open spec fn spec_run_in_order(
    actions: Seq<FrameAction>,
    events: Seq<FrameEvent>,
    from: int,
) -> bool {
    forall|k: int| from <= k < actions.len() ==> #[trigger] spec_step_in_order(actions, events, k)
}

proof fn lemma_run_protocol(
    state: FrameState,
    resize_requested: bool,
    events: Seq<FrameEvent>,
    prior: Seq<FrameAction>,
    prior_events: Seq<FrameEvent>,
)
    requires
        prior.len() == prior_events.len(),
        state matches FrameState::Recording { image_index } ==> prior.contains(
            FrameAction::PrepareFrame { image_index },
        ),
        state matches FrameState::Submitted { image_index } ==> prior.contains(
            FrameAction::SubmitCommands { image_index },
        ),
    ensures
        spec_run_in_order(
            prior + spec_run_actions(state, resize_requested, events),
            prior_events + events,
            prior.len() as int,
        ),
    decreases events.len(),
{
    let run = spec_run_actions(state, resize_requested, events);
    let all = prior + run;
    let all_events = prior_events + events;
    if events.len() == 0 {
        assert forall|k: int| prior.len() <= k < all.len() implies #[trigger] spec_step_in_order(
            all,
            all_events,
            k,
        ) by {}
    } else {
        let (next, flag, action) = spec_step(state, resize_requested, events[0]);
        let rest = spec_run_actions(next, flag, events.drop_first());
        let prior1 = prior.push(action);
        let prior_events1 = prior_events.push(events[0]);

        // The requirements carry to the next state: an in-tick state is
        // either kept, or entered by the very action that discharges it.
        if let FrameState::Recording { image_index } = next {
            if state == (FrameState::Recording { image_index }) {
                let w = choose|w: int|
                    0 <= w < prior.len() && prior[w] == (FrameAction::PrepareFrame { image_index });
                assert(prior1[w] == (FrameAction::PrepareFrame { image_index }));
            } else {
                assert(action == (FrameAction::PrepareFrame { image_index }));
                assert(prior1[prior.len() as int] == (FrameAction::PrepareFrame { image_index }));
            }
            assert(prior1.contains(FrameAction::PrepareFrame { image_index }));
        }
        if let FrameState::Submitted { image_index } = next {
            if state == (FrameState::Submitted { image_index }) {
                let w = choose|w: int|
                    0 <= w < prior.len() && prior[w] == (FrameAction::SubmitCommands {
                        image_index,
                    });
                assert(prior1[w] == (FrameAction::SubmitCommands { image_index }));
            } else {
                assert(action == (FrameAction::SubmitCommands { image_index }));
                assert(prior1[prior.len() as int] == (FrameAction::SubmitCommands { image_index }));
            }
            assert(prior1.contains(FrameAction::SubmitCommands { image_index }));
        }

        lemma_run_protocol(next, flag, events.drop_first(), prior1, prior_events1);

        assert(all =~= prior1 + rest);
        assert(all_events =~= prior_events1 + events.drop_first());

        // The step emitted now respects the protocol: an emission is only
        // possible from the state whose requirement names its predecessor.
        assert(spec_step_in_order(all, all_events, prior.len() as int)) by {
            assert(all[prior.len() as int] == action);
            assert(all_events[prior.len() as int] == events[0]);
            if let FrameAction::SubmitCommands { image_index } = action {
                assert(state == (FrameState::Recording { image_index }));
                let w = choose|w: int|
                    0 <= w < prior.len() && prior[w] == (FrameAction::PrepareFrame { image_index });
                assert(all[w] == (FrameAction::PrepareFrame { image_index }));
            }
            if let FrameAction::PresentImage { image_index } = action {
                assert(state == (FrameState::Submitted { image_index }));
                let w = choose|w: int|
                    0 <= w < prior.len() && prior[w] == (FrameAction::SubmitCommands {
                        image_index,
                    });
                assert(all[w] == (FrameAction::SubmitCommands { image_index }));
            }
        }

        assert forall|k: int| prior.len() <= k < all.len() implies #[trigger] spec_step_in_order(
            all,
            all_events,
            k,
        ) by {
            if k > prior.len() {
                assert(spec_run_in_order(prior1 + rest, prior_events1 + events.drop_first(), prior1.len() as int));
                assert(spec_step_in_order(prior1 + rest, prior_events1 + events.drop_first(), k));
            }
        }
    }
}

/// The ordering guarantee of the frame protocol, over whole runs: however
/// the GPU answers, in every run from idle each preparation happens on the
/// acquisition that reported its image index, each submission comes after
/// that index's preparation, and each presentation comes after that index's
/// submission.
pub proof fn lemma_run_orders_frame_steps(events: Seq<FrameEvent>, resize_requested: bool)
    ensures
        spec_run_in_order(
            spec_run_actions(FrameState::Idle, resize_requested, events),
            events,
            0,
        ),
{
    lemma_run_protocol(
        FrameState::Idle,
        resize_requested,
        events,
        Seq::empty(),
        Seq::empty(),
    );
    assert(Seq::<FrameAction>::empty() + spec_run_actions(FrameState::Idle, resize_requested, events)
        =~= spec_run_actions(FrameState::Idle, resize_requested, events));
    assert(Seq::<FrameEvent>::empty() + events =~= events);
}

/// Commands for an image are submitted only from that image's recording
/// state, and an image is presented only after its own submission: within a
/// tick, acquisition strictly precedes recording, recording precedes
/// submission, and submission precedes presentation of the same index.
pub proof fn lemma_actions_follow_acquired_index(
    state: FrameState,
    resize_requested: bool,
    event: FrameEvent,
)
    ensures
        ({
            let (_, _, action) = spec_step(state, resize_requested, event);
            &&& action matches FrameAction::PrepareFrame { image_index } ==> state
                == FrameState::Acquiring && (event == (FrameEvent::AcquireSuccess {
                image_index,
                suboptimal: false,
            }) || event == (FrameEvent::AcquireSuccess { image_index, suboptimal: true }))
            &&& action matches FrameAction::SubmitCommands { image_index } ==> state
                == (FrameState::Recording { image_index }) && event == FrameEvent::RecordingDone
            &&& action matches FrameAction::PresentImage { image_index } ==> state
                == (FrameState::Submitted { image_index }) && event == FrameEvent::SubmitSucceeded
        }),
{
}

/// The tick keeps one image index from acquisition to presentation: each
/// in-tick state carries the index unchanged through recording, submission
/// and presentation.
pub proof fn lemma_index_carried_through_tick(
    state: FrameState,
    resize_requested: bool,
    event: FrameEvent,
)
    ensures
        ({
            let (next, _, _) = spec_step(state, resize_requested, event);
            &&& state matches FrameState::Recording { image_index } ==> next
                == (FrameState::Submitted { image_index }) || next == state
            &&& state matches FrameState::Submitted { image_index } ==> next
                == (FrameState::Presenting { image_index }) || next == state
        }),
{
}

/// A clean first frame: from idle, a tick acquires an image, prepares that
/// image's uniforms and commands, submits them, presents, and returns to
/// idle with no rebuild owed — in exactly that order.
pub proof fn lemma_first_frame_happy_path(image_index: usize)
    ensures
        ({
            let s0 = FrameState::Idle;
            let (s1, f1, a1) = spec_step(s0, false, FrameEvent::Tick);
            let (s2, f2, a2) = spec_step(
                s1,
                f1,
                FrameEvent::AcquireSuccess { image_index, suboptimal: false },
            );
            let (s3, f3, a3) = spec_step(s2, f2, FrameEvent::RecordingDone);
            let (s4, f4, a4) = spec_step(s3, f3, FrameEvent::SubmitSucceeded);
            let (s5, f5, a5) = spec_step(s4, f4, FrameEvent::PresentSuccess { suboptimal: false });
            &&& a1 == FrameAction::WaitFenceAndAcquire
            &&& a2 == (FrameAction::PrepareFrame { image_index })
            &&& a3 == (FrameAction::SubmitCommands { image_index })
            &&& a4 == (FrameAction::PresentImage { image_index })
            &&& a5 == FrameAction::FinishTick
            &&& s5 == FrameState::Idle
            &&& !f5
        }),
{
}

/// The out-of-date protocol: when presentation reports the chain out of
/// date, the orchestrator drains the device, rebuilds the swapchain-
/// dependent objects, returns to idle without drawing, and the next tick
/// acquires against the new chain.
pub proof fn lemma_out_of_date_rebuild_path(image_index: usize, resize_requested: bool)
    ensures
        ({
            let s0 = FrameState::Presenting { image_index };
            let (s1, f1, a1) = spec_step(s0, resize_requested, FrameEvent::PresentOutOfDate);
            let (s2, f2, a2) = spec_step(s1, f1, FrameEvent::DeviceDrained);
            let (s3, f3, a3) = spec_step(s2, f2, FrameEvent::RebuildDone);
            let (s4, f4, a4) = spec_step(s3, f3, FrameEvent::Tick);
            &&& s1 == FrameState::StaleSwapchain
            &&& a1 == FrameAction::DrainDevice
            &&& s2 == FrameState::Rebuilding
            &&& a2 == FrameAction::RebuildSwapchain
            &&& s3 == FrameState::Idle
            &&& a3 == FrameAction::FinishTick
            &&& !f3
            &&& s4 == FrameState::Acquiring
            &&& a4 == FrameAction::WaitFenceAndAcquire
        }),
{
}

/// An out-of-date acquisition takes the same rebuild path and skips the
/// rest of the tick: no partial submission ever follows a stale acquire.
pub proof fn lemma_stale_acquire_skips_tick(resize_requested: bool)
    ensures
        ({
            let (s1, f1, a1) = spec_step(
                FrameState::Acquiring,
                resize_requested,
                FrameEvent::AcquireOutOfDate,
            );
            &&& s1 == FrameState::StaleSwapchain
            &&& a1 == FrameAction::DrainDevice
            &&& a1 != FrameAction::FinishTick
        }),
{
}

/// An externally signalled resize is remembered, whatever the state, and a
/// clean present afterwards takes the rebuild path instead of finishing
/// the tick.
pub proof fn lemma_resize_signal_forces_rebuild(image_index: usize)
    ensures
        ({
            let (s1, f1, a1) = spec_step(FrameState::Idle, false, FrameEvent::ResizeSignaled);
            &&& f1
            &&& s1 == FrameState::Idle
        }),
        ({
            let (s2, f2, a2) = spec_step(
                FrameState::Presenting { image_index },
                true,
                FrameEvent::PresentSuccess { suboptimal: false },
            );
            &&& s2 == FrameState::StaleSwapchain
            &&& f2 == false
            &&& a2 == FrameAction::DrainDevice
        }),
{
}

} // verus!
