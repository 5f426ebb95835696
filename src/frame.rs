//! The renderer's protocol as a state machine: create the resource sets in
//! order, run frames (wait on the in-flight fence, reset it, acquire an image,
//! record, submit, present), and on a close request or a failure wait for the
//! device to go idle and release the resource sets in reverse order.
//!
//! The machine makes no native call. Each `tick` takes the outcome of the
//! action it asked for last (or an event of the window) and returns the next
//! action for the caller to perform.
use vstd::prelude::*;

use crate::commands::{get_sync_objects, sync_objects};
use crate::error::RunError;
use crate::lifecycle::{creation_seq, resource_at, Resource, RESOURCE_COUNT};

verus! {

/// Where the machine stands.
#[derive(Clone, Copy, Debug, PartialEq, Eq, Structural)]
pub enum Phase {
    /// Sets `[0, next)` exist; set `next` is being created.
    Creating { next: usize },
    /// Between frames.
    Idle,
    /// Waiting for the in-flight fence.
    Waiting,
    /// Resetting the in-flight fence.
    Resetting,
    /// Acquiring the next swap-chain image.
    Acquiring,
    /// Recording the command buffer for an image.
    Recording { image: u32 },
    /// Submitting the recorded commands.
    Submitting { image: u32 },
    /// Presenting the image.
    Presenting { image: u32 },
    /// Waiting for the device to go idle before teardown.
    Draining,
    /// Sets `[0, remaining)` exist; set `remaining - 1` is being released.
    Releasing { remaining: usize },
    /// Everything is released.
    Finished,
}

/// What the caller reports to the machine.
#[derive(Clone, Copy, Debug, PartialEq, Eq, Structural)]
pub enum LoopEvent {
    /// The requested resource set was created.
    Created,
    /// The requested native call failed.
    Failed(RunError),
    /// The window asks for a new frame.
    Redraw,
    /// The wait on the in-flight fence returned: the fence is signaled.
    FenceSignaled,
    /// The in-flight fence was reset.
    FenceReset,
    /// The swap chain handed out this image index.
    ImageAcquired(u32),
    /// The command buffer was reset and recorded.
    Recorded,
    /// The commands were submitted.
    Submitted,
    /// The image was queued for presentation.
    Presented,
    /// The window asks to close.
    CloseRequested,
    /// The device has gone idle.
    DeviceIdle,
    /// The requested resource set was released.
    Released,
}

/// What the machine asks the caller to do next.
#[derive(Clone, Copy, Debug, PartialEq, Eq, Structural)]
pub enum LoopAction {
    /// Create this resource set.
    Create(Resource),
    /// Block until the in-flight fence is signaled.
    WaitForFence,
    /// Reset the in-flight fence.
    ResetFence,
    /// Acquire the next image, signaling the image-available semaphore.
    AcquireImage,
    /// Reset the command buffer and record the frame's draw for this image.
    Record(u32),
    /// Submit the command buffer: wait on image-available, signal
    /// render-finished and the in-flight fence.
    Submit,
    /// Present this image once render-finished is signaled.
    Present(u32),
    /// Block until every queue of the device has drained.
    WaitDeviceIdle,
    /// Release this resource set.
    Release(Resource),
    /// Everything is released; the run is over.
    Exit,
    /// Nothing to do until the next event.
    Nothing,
}

/// The renderer's protocol state.
#[derive(Clone, Copy, Debug, PartialEq, Eq, Structural)]
pub struct FrameLoop {
    pub phase: Phase,
    /// The in-flight fence is known to be signaled.
    pub fence_signaled: bool,
    /// Submitted GPU work may still be running.
    pub gpu_busy: bool,
    /// The first failure, if any.
    pub error: Option<RunError>,
}

impl FrameLoop {
    /// The states the machine can be in.
    pub open spec fn wf(self) -> bool {
        match self.phase {
            Phase::Creating { next } => next < RESOURCE_COUNT && !self.fence_signaled
                && !self.gpu_busy,
            Phase::Idle | Phase::Waiting => self.fence_signaled != self.gpu_busy,
            Phase::Resetting => self.fence_signaled && !self.gpu_busy,
            Phase::Acquiring | Phase::Recording { .. } | Phase::Submitting { .. } => !self.fence_signaled
                && !self.gpu_busy,
            Phase::Presenting { .. } => self.gpu_busy && !self.fence_signaled,
            Phase::Releasing { remaining } => 1 <= remaining <= RESOURCE_COUNT,
            Phase::Draining | Phase::Finished => true,
        }
    }

    /// Frames are being run (resources all exist, no teardown begun).
    pub open spec fn is_running(self) -> bool {
        match self.phase {
            Phase::Idle | Phase::Waiting | Phase::Resetting | Phase::Acquiring | Phase::Recording {
                ..
            } | Phase::Submitting { .. } | Phase::Presenting { .. } => true,
            _ => false,
        }
    }

    /// Teardown has begun or is over.
    pub open spec fn is_closing(self) -> bool {
        match self.phase {
            Phase::Draining | Phase::Releasing { .. } | Phase::Finished => true,
            _ => false,
        }
    }
}

/// The state before anything exists, while the instance is being created.
pub open spec fn start_state() -> FrameLoop {
    FrameLoop {
        phase: Phase::Creating { next: 0 },
        fence_signaled: false,
        gpu_busy: false,
        error: None,
    }
}

/// Keep the first failure.
pub open spec fn note_error(s: FrameLoop, e: Option<RunError>) -> FrameLoop {
    if s.error is None {
        FrameLoop { error: e, ..s }
    } else {
        s
    }
}

/// Begin releasing, with sets `[0, alive)` in existence.
pub open spec fn release_from(s: FrameLoop, alive: usize) -> (FrameLoop, LoopAction) {
    if alive == 0 {
        (FrameLoop { phase: Phase::Finished, ..s }, LoopAction::Exit)
    } else {
        (
            FrameLoop { phase: Phase::Releasing { remaining: alive }, ..s },
            LoopAction::Release(creation_seq()[alive - 1]),
        )
    }
}

/// Stop running frames: wait for the device before anything is released.
pub open spec fn drain(s: FrameLoop, e: Option<RunError>) -> (FrameLoop, LoopAction) {
    (FrameLoop { phase: Phase::Draining, ..note_error(s, e) }, LoopAction::WaitDeviceIdle)
}

/// One transition: the next state and the action asked of the caller.
pub open spec fn step(s: FrameLoop, e: LoopEvent) -> (FrameLoop, LoopAction) {
    match s.phase {
        Phase::Creating { next } => match e {
            LoopEvent::Created => if next + 1 < RESOURCE_COUNT {
                (
                    FrameLoop { phase: Phase::Creating { next: (next + 1) as usize }, ..s },
                    LoopAction::Create(creation_seq()[next + 1]),
                )
            } else {
                // The fence is created signaled, so the first frame does not block.
                (
                    FrameLoop {
                        phase: Phase::Idle,
                        fence_signaled: sync_objects().fence_starts_signaled,
                        ..s
                    },
                    LoopAction::Nothing,
                )
            },
            LoopEvent::Failed(err) => release_from(note_error(s, Some(err)), next),
            // Nothing has been submitted yet, so there is nothing to drain.
            LoopEvent::CloseRequested => release_from(s, next),
            _ => (s, LoopAction::Nothing),
        },
        Phase::Draining => match e {
            LoopEvent::DeviceIdle => release_from(s, RESOURCE_COUNT),
            LoopEvent::Failed(err) => release_from(note_error(s, Some(err)), RESOURCE_COUNT),
            _ => (s, LoopAction::Nothing),
        },
        Phase::Releasing { remaining } => match e {
            LoopEvent::Released => release_from(s, (remaining - 1) as usize),
            _ => (s, LoopAction::Nothing),
        },
        Phase::Finished => (s, LoopAction::Nothing),
        _ => match e {
            LoopEvent::CloseRequested => drain(s, None),
            LoopEvent::Failed(err) => drain(s, Some(err)),
            _ => running_step(s, e),
        },
    }
}

/// A transition of a running frame on an event other than close or failure.
pub open spec fn running_step(s: FrameLoop, e: LoopEvent) -> (FrameLoop, LoopAction) {
    match (s.phase, e) {
        (Phase::Idle, LoopEvent::Redraw) => (
            FrameLoop { phase: Phase::Waiting, ..s },
            LoopAction::WaitForFence,
        ),
        (Phase::Waiting, LoopEvent::FenceSignaled) => (
            FrameLoop { phase: Phase::Resetting, fence_signaled: true, gpu_busy: false, ..s },
            LoopAction::ResetFence,
        ),
        (Phase::Resetting, LoopEvent::FenceReset) => (
            FrameLoop { phase: Phase::Acquiring, fence_signaled: false, ..s },
            LoopAction::AcquireImage,
        ),
        (Phase::Acquiring, LoopEvent::ImageAcquired(i)) => (
            FrameLoop { phase: Phase::Recording { image: i }, ..s },
            LoopAction::Record(i),
        ),
        (Phase::Recording { image }, LoopEvent::Recorded) => (
            FrameLoop { phase: Phase::Submitting { image }, ..s },
            LoopAction::Submit,
        ),
        (Phase::Submitting { image }, LoopEvent::Submitted) => (
            FrameLoop { phase: Phase::Presenting { image }, gpu_busy: true, ..s },
            LoopAction::Present(image),
        ),
        (Phase::Presenting { .. }, LoopEvent::Presented) => (
            FrameLoop { phase: Phase::Idle, ..s },
            LoopAction::Nothing,
        ),
        _ => (s, LoopAction::Nothing),
    }
}

/// The actions asked for along a sequence of events, from state `s`.
pub open spec fn trace(s: FrameLoop, events: Seq<LoopEvent>) -> Seq<LoopAction>
    decreases events.len(),
{
    if events.len() == 0 {
        seq![]
    } else {
        let (t, a) = step(s, events[0]);
        seq![a] + trace(t, events.drop_first())
    }
}

/// The state reached from `s` along a sequence of events.
pub open spec fn after(s: FrameLoop, events: Seq<LoopEvent>) -> FrameLoop
    decreases events.len(),
{
    if events.len() == 0 {
        s
    } else {
        after(step(s, events[0]).0, events.drop_first())
    }
}

fn note_error_exec(s: FrameLoop, e: Option<RunError>) -> (r: FrameLoop)
    ensures
        r == note_error(s, e),
{
    if s.error.is_none() {
        FrameLoop { error: e, ..s }
    } else {
        s
    }
}

fn release_from_exec(s: FrameLoop, alive: usize) -> (r: (FrameLoop, LoopAction))
    requires
        alive <= RESOURCE_COUNT,
    ensures
        r == release_from(s, alive),
{
    if alive == 0 {
        (FrameLoop { phase: Phase::Finished, ..s }, LoopAction::Exit)
    } else {
        (
            FrameLoop { phase: Phase::Releasing { remaining: alive }, ..s },
            LoopAction::Release(resource_at(alive - 1)),
        )
    }
}

fn drain_exec(s: FrameLoop, e: Option<RunError>) -> (r: (FrameLoop, LoopAction))
    ensures
        r == drain(s, e),
{
    (FrameLoop { phase: Phase::Draining, ..note_error_exec(s, e) }, LoopAction::WaitDeviceIdle)
}

fn running_step_exec(s: FrameLoop, e: LoopEvent) -> (r: (FrameLoop, LoopAction))
    ensures
        r == running_step(s, e),
{
    match (s.phase, e) {
        (Phase::Idle, LoopEvent::Redraw) => (
            FrameLoop { phase: Phase::Waiting, ..s },
            LoopAction::WaitForFence,
        ),
        (Phase::Waiting, LoopEvent::FenceSignaled) => (
            FrameLoop { phase: Phase::Resetting, fence_signaled: true, gpu_busy: false, ..s },
            LoopAction::ResetFence,
        ),
        (Phase::Resetting, LoopEvent::FenceReset) => (
            FrameLoop { phase: Phase::Acquiring, fence_signaled: false, ..s },
            LoopAction::AcquireImage,
        ),
        (Phase::Acquiring, LoopEvent::ImageAcquired(i)) => (
            FrameLoop { phase: Phase::Recording { image: i }, ..s },
            LoopAction::Record(i),
        ),
        (Phase::Recording { image }, LoopEvent::Recorded) => (
            FrameLoop { phase: Phase::Submitting { image }, ..s },
            LoopAction::Submit,
        ),
        (Phase::Submitting { image }, LoopEvent::Submitted) => (
            FrameLoop { phase: Phase::Presenting { image }, gpu_busy: true, ..s },
            LoopAction::Present(image),
        ),
        (Phase::Presenting { .. }, LoopEvent::Presented) => (
            FrameLoop { phase: Phase::Idle, ..s },
            LoopAction::Nothing,
        ),
        _ => (s, LoopAction::Nothing),
    }
}

fn step_exec(s: FrameLoop, e: LoopEvent) -> (r: (FrameLoop, LoopAction))
    requires
        s.wf(),
    ensures
        r == step(s, e),
{
    match s.phase {
        Phase::Creating { next } => match e {
            LoopEvent::Created => if next + 1 < RESOURCE_COUNT {
                (
                    FrameLoop { phase: Phase::Creating { next: next + 1 }, ..s },
                    LoopAction::Create(resource_at(next + 1)),
                )
            } else {
                (
                    FrameLoop {
                        phase: Phase::Idle,
                        fence_signaled: get_sync_objects().fence_starts_signaled,
                        ..s
                    },
                    LoopAction::Nothing,
                )
            },
            LoopEvent::Failed(err) => release_from_exec(note_error_exec(s, Some(err)), next),
            LoopEvent::CloseRequested => release_from_exec(s, next),
            _ => (s, LoopAction::Nothing),
        },
        Phase::Draining => match e {
            LoopEvent::DeviceIdle => release_from_exec(s, RESOURCE_COUNT),
            LoopEvent::Failed(err) => release_from_exec(
                note_error_exec(s, Some(err)),
                RESOURCE_COUNT,
            ),
            _ => (s, LoopAction::Nothing),
        },
        Phase::Releasing { remaining } => match e {
            LoopEvent::Released => release_from_exec(s, remaining - 1),
            _ => (s, LoopAction::Nothing),
        },
        Phase::Finished => (s, LoopAction::Nothing),
        _ => match e {
            LoopEvent::CloseRequested => drain_exec(s, None),
            LoopEvent::Failed(err) => drain_exec(s, Some(err)),
            _ => running_step_exec(s, e),
        },
    }
}

impl FrameLoop {
    /// A fresh machine, with the first action it asks for: create the
    /// instance.
    pub fn new() -> (r: (FrameLoop, LoopAction))
        ensures
            r.0 == start_state(),
            r.1 == LoopAction::Create(Resource::Instance),
            r.0.wf(),
    {
        (
            FrameLoop {
                phase: Phase::Creating { next: 0 },
                fence_signaled: false,
                gpu_busy: false,
                error: None,
            },
            LoopAction::Create(resource_at(0)),
        )
    }

    /// Takes one event and returns the next action to perform.
    pub fn tick(&mut self, event: LoopEvent) -> (a: LoopAction)
        requires
            old(self).wf(),
        ensures
            (*final(self), a) == step(*old(self), event),
            final(self).wf(),
    {
        proof {
            lemma_step_wf(*self, event);
        }
        let (t, a) = step_exec(*self, event);
        *self = t;
        a
    }

    /// How the run ended: the first failure, if any.
    pub fn outcome(&self) -> (r: Result<(), RunError>)
        ensures
            match self.error {
                Some(e) => r == Err::<(), RunError>(e),
                None => r == Ok::<(), RunError>(()),
            },
    {
        match self.error {
            Some(e) => Err(e),
            None => Ok(()),
        }
    }

    /// Whether everything has been released.
    pub fn is_finished(&self) -> (r: bool)
        ensures
            r == (self.phase == Phase::Finished),
    {
        match self.phase {
            Phase::Finished => true,
            _ => false,
        }
    }
}

/// Every transition keeps the machine in one of its states.
pub proof fn lemma_step_wf(s: FrameLoop, e: LoopEvent)
    requires
        s.wf(),
    ensures
        step(s, e).0.wf(),
{
}

proof fn lemma_trace_push(s: FrameLoop, events: Seq<LoopEvent>, e: LoopEvent)
    ensures
        trace(s, events.push(e)) == trace(s, events) + seq![step(after(s, events), e).1],
        after(s, events.push(e)) == step(after(s, events), e).0,
    decreases events.len(),
{
    if events.len() == 0 {
        let t = step(s, e).0;
        assert(events.push(e).drop_first() =~= events);
        assert(events.push(e)[0] == e);
        assert(trace(t, events) == Seq::<LoopAction>::empty());
        assert(after(t, events) == t);
        assert(trace(s, events.push(e)) =~= seq![step(s, e).1]);
    } else {
        let t = step(s, events[0]).0;
        assert(events.push(e).drop_first() =~= events.drop_first().push(e));
        lemma_trace_push(t, events.drop_first(), e);
        assert(trace(s, events.push(e)) =~= trace(s, events) + seq![step(after(s, events), e).1]);
    }
}

proof fn lemma_after_wf(s: FrameLoop, events: Seq<LoopEvent>)
    requires
        s.wf(),
    ensures
        after(s, events).wf(),
    decreases events.len(),
{
    if events.len() > 0 {
        lemma_step_wf(s, events[0]);
        lemma_after_wf(step(s, events[0]).0, events.drop_first());
    }
}

/// Drives the protocol over a sequence of reported events, from a fresh
/// machine, and returns every action asked for: first the creation of the
/// instance, then one action per event.
pub fn run(events: &Vec<LoopEvent>) -> (r: Vec<LoopAction>)
    ensures
        r@ == seq![LoopAction::Create(Resource::Instance)] + trace(start_state(), events@),
{
    let (mut machine, first) = FrameLoop::new();
    let mut actions: Vec<LoopAction> = Vec::new();
    actions.push(first);
    let mut i: usize = 0;
    while i < events.len()
        invariant
            0 <= i <= events@.len(),
            machine == after(start_state(), events@.take(i as int)),
            machine.wf(),
            actions@ == seq![LoopAction::Create(Resource::Instance)] + trace(
                start_state(),
                events@.take(i as int),
            ),
        decreases events.len() - i,
    {
        proof {
            lemma_trace_push(start_state(), events@.take(i as int), events@[i as int]);
            assert(events@.take(i as int).push(events@[i as int]) =~= events@.take(i + 1));
        }
        let a = machine.tick(events[i]);
        actions.push(a);
        i = i + 1;
    }
    assert(events@.take(events@.len() as int) =~= events@);
    actions
}

/// The fence discipline of the frame loop, in every state the machine can be
/// in: a reset of the in-flight fence is asked for exactly when a wait on it
/// has just returned signaled; recording is asked for only when no submitted
/// work is outstanding and the fence has been reset since that wait; and image
/// acquisition, the only way into recording, is entered only from the reset.
pub proof fn lemma_fence_discipline(s: FrameLoop, e: LoopEvent)
    requires
        s.wf(),
    ensures
        (step(s, e).1 == LoopAction::ResetFence) <==> (s.phase == Phase::Waiting && e
            == LoopEvent::FenceSignaled),
        step(s, e).1 == LoopAction::ResetFence ==> step(s, e).0.fence_signaled && !step(
            s,
            e,
        ).0.gpu_busy,
        step(s, e).1 is Record ==> s.phase == Phase::Acquiring && !s.gpu_busy
            && !s.fence_signaled,
        step(s, e).0.phase == Phase::Acquiring && s.phase != Phase::Acquiring ==> s.phase
            == Phase::Resetting && e == LoopEvent::FenceReset && s.fence_signaled,
        step(s, e).0.phase is Recording ==> (s.phase is Recording && step(s, e).0.phase == s.phase)
            || s.phase == Phase::Acquiring,
{
}

/// A reset of the fence may come before the next submission.
pub open spec fn reset_may_come(s: FrameLoop) -> bool {
    match s.phase {
        Phase::Creating { .. } | Phase::Idle | Phase::Waiting | Phase::Submitting { .. }
        | Phase::Presenting { .. } => true,
        _ => false,
    }
}

proof fn lemma_no_reset_before_submit(s: FrameLoop, events: Seq<LoopEvent>)
    requires
        s.wf(),
        !reset_may_come(s),
    ensures
        forall|j: int|
            0 <= j < trace(s, events).len() && trace(s, events)[j] == LoopAction::ResetFence
                ==> exists|k: int| 0 <= k < j && trace(s, events)[k] == LoopAction::Submit,
    decreases events.len(),
{
    if events.len() > 0 {
        let (t, a) = step(s, events[0]);
        let rest = trace(t, events.drop_first());
        let tr = trace(s, events);
        assert(tr == seq![a] + rest);
        lemma_step_wf(s, events[0]);
        if a != LoopAction::Submit {
            assert(!reset_may_come(t));
            lemma_no_reset_before_submit(t, events.drop_first());
            assert forall|j: int|
                0 <= j < tr.len() && tr[j] == LoopAction::ResetFence implies exists|k: int|
                    0 <= k < j && tr[k] == LoopAction::Submit by {
                assert(j > 0);
                assert(rest[j - 1] == tr[j]);
                let k = choose|k: int| 0 <= k < j - 1 && rest[k] == LoopAction::Submit;
                assert(tr[k + 1] == LoopAction::Submit);
            }
        } else {
            assert forall|j: int|
                0 <= j < tr.len() && tr[j] == LoopAction::ResetFence implies exists|k: int|
                    0 <= k < j && tr[k] == LoopAction::Submit by {
                assert(tr[0] == LoopAction::Submit);
            }
        }
    }
}

/// The fence is never reset twice without a submission in between: along any
/// sequence of events, between two requested resets there is a requested
/// submission.
pub proof fn lemma_no_double_reset(s: FrameLoop, events: Seq<LoopEvent>)
    requires
        s.wf(),
    ensures
        forall|i: int, j: int|
            0 <= i < j < trace(s, events).len() && trace(s, events)[i] == LoopAction::ResetFence
                && trace(s, events)[j] == LoopAction::ResetFence ==> exists|k: int|
                i < k < j && trace(s, events)[k] == LoopAction::Submit,
    decreases events.len(),
{
    if events.len() > 0 {
        let (t, a) = step(s, events[0]);
        let rest = trace(t, events.drop_first());
        let tr = trace(s, events);
        assert(tr == seq![a] + rest);
        lemma_step_wf(s, events[0]);
        lemma_no_double_reset(t, events.drop_first());
        if a == LoopAction::ResetFence {
            assert(!reset_may_come(t));
            lemma_no_reset_before_submit(t, events.drop_first());
        }
        assert forall|i: int, j: int|
            0 <= i < j < tr.len() && tr[i] == LoopAction::ResetFence && tr[j]
                == LoopAction::ResetFence implies exists|k: int|
                i < k < j && tr[k] == LoopAction::Submit by {
            assert(rest[j - 1] == tr[j]);
            if i == 0 {
                let k = choose|k: int| 0 <= k < j - 1 && rest[k] == LoopAction::Submit;
                assert(tr[k + 1] == LoopAction::Submit);
            } else {
                assert(rest[i - 1] == tr[i]);
                let k = choose|k: int| i - 1 < k < j - 1 && rest[k] == LoopAction::Submit;
                assert(tr[k + 1] == LoopAction::Submit);
            }
        }
    }
}

/// Work of a frame, or creation of a resource set.
pub open spec fn is_frame_or_create(a: LoopAction) -> bool {
    match a {
        LoopAction::Create(_) | LoopAction::WaitForFence | LoopAction::ResetFence
        | LoopAction::AcquireImage | LoopAction::Record(_) | LoopAction::Submit
        | LoopAction::Present(_) => true,
        _ => false,
    }
}

/// A close request while frames run stops them: the next action is the wait
/// for the device to go idle, and the machine is then closing.
pub proof fn lemma_close_drains(s: FrameLoop)
    requires
        s.wf(),
        s.is_running(),
    ensures
        step(s, LoopEvent::CloseRequested).1 == LoopAction::WaitDeviceIdle,
        step(s, LoopEvent::CloseRequested).0.phase == Phase::Draining,
{
}

/// Once closing, whatever is reported, no frame work is asked for again (no
/// wait, reset, acquisition, recording, submission or presentation) and
/// nothing is created.
pub proof fn lemma_closing_is_final(s: FrameLoop, events: Seq<LoopEvent>)
    requires
        s.wf(),
        s.is_closing(),
    ensures
        forall|k: int|
            0 <= k < trace(s, events).len() ==> !is_frame_or_create(#[trigger] trace(s, events)[k]),
    decreases events.len(),
{
    if events.len() > 0 {
        let (t, a) = step(s, events[0]);
        let rest = trace(t, events.drop_first());
        let tr = trace(s, events);
        assert(tr == seq![a] + rest);
        lemma_step_wf(s, events[0]);
        lemma_closing_is_final(t, events.drop_first());
        assert forall|k: int| 0 <= k < tr.len() implies !is_frame_or_create(#[trigger] tr[k]) by {
            if k > 0 {
                assert(tr[k] == rest[k - 1]);
            }
        }
    }
}

/// `n` reports of a released set.
pub open spec fn released_events(n: nat) -> Seq<LoopEvent> {
    Seq::new(n, |i: int| LoopEvent::Released)
}

/// The releases of sets `[0, remaining)`, last created first, then the exit.
pub open spec fn release_actions(remaining: nat) -> Seq<LoopAction> {
    Seq::new(
        remaining,
        |i: int|
            if i < remaining - 1 {
                LoopAction::Release(creation_seq()[remaining - 2 - i])
            } else {
                LoopAction::Exit
            },
    )
}

proof fn lemma_release_run(s: FrameLoop, remaining: usize)
    requires
        s.phase == (Phase::Releasing { remaining }),
        1 <= remaining <= RESOURCE_COUNT,
    ensures
        trace(s, released_events(remaining as nat)) == release_actions(remaining as nat),
    decreases remaining,
{
    let evs = released_events(remaining as nat);
    let (t, a) = step(s, evs[0]);
    assert(evs.drop_first() =~= released_events((remaining - 1) as nat));
    if remaining == 1 {
        assert(a == LoopAction::Exit);
        assert(trace(t, evs.drop_first()) == Seq::<LoopAction>::empty());
        assert(trace(s, evs) =~= release_actions(1));
    } else {
        lemma_release_run(t, (remaining - 1) as usize);
        assert(trace(s, evs) =~= release_actions(remaining as nat));
    }
}

/// After the device has gone idle, each reported release leads to the next
/// one in exactly the reverse of the creation order, and the last to the exit.
pub proof fn lemma_teardown_order(s: FrameLoop)
    requires
        s.phase == Phase::Draining,
    ensures
        trace(s, seq![LoopEvent::DeviceIdle] + released_events(RESOURCE_COUNT as nat)) == Seq::new(
            RESOURCE_COUNT as nat,
            |i: int| LoopAction::Release(crate::lifecycle::teardown_seq()[i]),
        ).push(LoopAction::Exit),
{
    let evs = seq![LoopEvent::DeviceIdle] + released_events(RESOURCE_COUNT as nat);
    let (t, a) = step(s, evs[0]);
    assert(evs.drop_first() =~= released_events(RESOURCE_COUNT as nat));
    lemma_release_run(t, RESOURCE_COUNT);
    assert(trace(s, evs) =~= Seq::new(
        RESOURCE_COUNT as nat,
        |i: int| LoopAction::Release(crate::lifecycle::teardown_seq()[i]),
    ).push(LoopAction::Exit));
}

/// The fence has been reset (or its reset asked for) and nothing submitted since.
pub open spec fn reset_pending_use(s: FrameLoop) -> bool {
    s.phase == Phase::Resetting || s.phase == Phase::Acquiring
}

/// Action `j` of `tr` comes after a requested fence reset, with no submission
/// in between.
pub open spec fn after_reset_without_submit(tr: Seq<LoopAction>, j: int) -> bool {
    exists|i: int|
        0 <= i < j && tr[i] == LoopAction::ResetFence && forall|k: int|
            i < k < j ==> tr[k] != LoopAction::Submit
}

proof fn lemma_record_guarded(s: FrameLoop, events: Seq<LoopEvent>)
    requires
        s.wf(),
    ensures
        forall|j: int|
            0 <= j < trace(s, events).len() && (#[trigger] trace(s, events)[j]) is Record
                ==> after_reset_without_submit(trace(s, events), j) || (reset_pending_use(s)
                && forall|k: int| 0 <= k < j ==> trace(s, events)[k] != LoopAction::Submit),
    decreases events.len(),
{
    if events.len() > 0 {
        let (t, a) = step(s, events[0]);
        let rest = trace(t, events.drop_first());
        let tr = trace(s, events);
        assert(tr == seq![a] + rest);
        lemma_step_wf(s, events[0]);
        lemma_record_guarded(t, events.drop_first());
        assert forall|j: int|
            0 <= j < tr.len() && (#[trigger] tr[j]) is Record implies after_reset_without_submit(
                tr,
                j,
            ) || (reset_pending_use(s) && forall|k: int| 0 <= k < j ==> tr[k] != LoopAction::Submit) by {
            if j > 0 {
                assert(rest[j - 1] == tr[j]);
                if after_reset_without_submit(rest, j - 1) {
                    let i = choose|i: int|
                        0 <= i < j - 1 && rest[i] == LoopAction::ResetFence && forall|k: int|
                            i < k < j - 1 ==> rest[k] != LoopAction::Submit;
                    assert(tr[i + 1] == LoopAction::ResetFence);
                    assert forall|k: int| i + 1 < k < j implies tr[k] != LoopAction::Submit by {
                        assert(tr[k] == rest[k - 1]);
                    }
                    assert(after_reset_without_submit(tr, j));
                } else if a == LoopAction::ResetFence {
                    assert forall|k: int| 0 < k < j implies tr[k] != LoopAction::Submit by {
                        assert(tr[k] == rest[k - 1]);
                    }
                    assert(tr[0] == LoopAction::ResetFence);
                    assert(after_reset_without_submit(tr, j));
                } else {
                    assert(reset_pending_use(s) && a != LoopAction::Submit);
                    assert forall|k: int| 0 <= k < j implies tr[k] != LoopAction::Submit by {
                        if k > 0 {
                            assert(tr[k] == rest[k - 1]);
                        }
                    }
                }
            } else {
                lemma_fence_discipline(s, events[0]);
            }
        }
    }
}

/// From a fresh machine, whatever is reported, every requested recording comes
/// after a requested reset of the in-flight fence, with no submission in
/// between: the command buffer is never recorded while earlier work that reads
/// it may still be running.
pub proof fn lemma_record_after_reset(events: Seq<LoopEvent>)
    ensures
        forall|j: int|
            0 <= j < trace(start_state(), events).len() && (#[trigger] trace(
                start_state(),
                events,
            )[j]) is Record ==> after_reset_without_submit(trace(start_state(), events), j),
{
    lemma_record_guarded(start_state(), events);
}

} // verus!
