//! The discipline by which one command buffer is recorded anew for every
//! frame: it is paired with a fence, and it is recorded only after the fence
//! has told that its previous run on the GPU is over.

use vstd::prelude::*;

verus! {

/// Timeout of a wait that never gives up.
pub const WAIT_FOREVER: u64 = 0xFFFF_FFFF_FFFF_FFFF;

/// The steps of one use of a command buffer.
#[derive(Clone, Copy, Debug, PartialEq, Eq, Structural)]
pub enum SubmitStep {
    /// Block until the fence is signaled.
    WaitForFence,
    ResetFence,
    ResetCommandBuffer,
    BeginRecording,
    /// The caller fills in its commands.
    RecordCommands,
    EndRecording,
    /// Hand the buffer to the queue; the fence is signaled when the GPU is done with it.
    QueueSubmit,
}

/// One step with the handles it is made on.
#[derive(Clone, Copy, Debug, PartialEq, Eq, Structural)]
pub enum DeviceCall {
    WaitForFence { fence: u64, timeout: u64 },
    ResetFence { fence: u64 },
    /// `release_resources`: the buffer gives back the memory it held.
    ResetCommandBuffer { command_buffer: u64, release_resources: bool },
    /// `one_time_submit`: the recording is submitted once and then recorded anew.
    BeginRecording { command_buffer: u64, one_time_submit: bool },
    RecordCommands { command_buffer: u64 },
    EndRecording { command_buffer: u64 },
    QueueSubmit { queue: u64, command_buffer: u64, signal_fence: u64 },
}

impl DeviceCall {
    pub open spec fn step(self) -> SubmitStep {
        match self {
            DeviceCall::WaitForFence { .. } => SubmitStep::WaitForFence,
            DeviceCall::ResetFence { .. } => SubmitStep::ResetFence,
            DeviceCall::ResetCommandBuffer { .. } => SubmitStep::ResetCommandBuffer,
            DeviceCall::BeginRecording { .. } => SubmitStep::BeginRecording,
            DeviceCall::RecordCommands { .. } => SubmitStep::RecordCommands,
            DeviceCall::EndRecording { .. } => SubmitStep::EndRecording,
            DeviceCall::QueueSubmit { .. } => SubmitStep::QueueSubmit,
        }
    }

    pub fn kind(&self) -> (r: SubmitStep)
        ensures
            r == self.step(),
    {
        match self {
            DeviceCall::WaitForFence { .. } => SubmitStep::WaitForFence,
            DeviceCall::ResetFence { .. } => SubmitStep::ResetFence,
            DeviceCall::ResetCommandBuffer { .. } => SubmitStep::ResetCommandBuffer,
            DeviceCall::BeginRecording { .. } => SubmitStep::BeginRecording,
            DeviceCall::RecordCommands { .. } => SubmitStep::RecordCommands,
            DeviceCall::EndRecording { .. } => SubmitStep::EndRecording,
            DeviceCall::QueueSubmit { .. } => SubmitStep::QueueSubmit,
        }
    }
}

/// The steps of one use, in the order in which they are made.
pub open spec fn submit_steps() -> Seq<SubmitStep> {
    seq![
        SubmitStep::WaitForFence,
        SubmitStep::ResetFence,
        SubmitStep::ResetCommandBuffer,
        SubmitStep::BeginRecording,
        SubmitStep::RecordCommands,
        SubmitStep::EndRecording,
        SubmitStep::QueueSubmit,
    ]
}

/// The calls of one use of `command_buffer`, gated by `fence`, on `queue`.
pub open spec fn submit_calls(command_buffer: u64, fence: u64, queue: u64) -> Seq<DeviceCall> {
    seq![
        DeviceCall::WaitForFence { fence, timeout: WAIT_FOREVER },
        DeviceCall::ResetFence { fence },
        DeviceCall::ResetCommandBuffer { command_buffer, release_resources: true },
        DeviceCall::BeginRecording { command_buffer, one_time_submit: true },
        DeviceCall::RecordCommands { command_buffer },
        DeviceCall::EndRecording { command_buffer },
        DeviceCall::QueueSubmit { queue, command_buffer, signal_fence: fence },
    ]
}

/// One use of a command buffer: the calls to make, in their order, and
/// what the submission waits for and signals.
#[derive(Clone, Debug, PartialEq, Eq)]
pub struct Submission {
    pub calls: Vec<DeviceCall>,
    /// For each semaphore waited for, the pipeline stages that wait.
    pub wait_mask: Vec<u32>,
    /// The semaphores that the submission waits for.
    pub wait_semaphores: Vec<u64>,
    /// The semaphores that the submission signals when it has run.
    pub signal_semaphores: Vec<u64>,
}

/// One use of `command_buffer`: the calls that record it and submit it to
/// `submit_queue`, in the order in which they must be made. The first
/// waits, without a limit, for `command_buffer_reuse_fence`; the last hands
/// the same fence to the queue, which signals it when the buffer has run.
/// The submission waits for `wait_semaphores` at the stages in `wait_mask`
/// and signals `signal_semaphores`, as the caller gave them. A fence that
/// is made signaled lets the first use pass at once. Any call that fails
/// ends the use: none of the later calls may be made.
pub fn record_submit_commandbuffer(
    command_buffer: u64,
    command_buffer_reuse_fence: u64,
    submit_queue: u64,
    wait_mask: Vec<u32>,
    wait_semaphores: Vec<u64>,
    signal_semaphores: Vec<u64>,
) -> (r: Submission)
    ensures
        r.calls@ == submit_calls(command_buffer, command_buffer_reuse_fence, submit_queue),
        r.calls@.map_values(|c: DeviceCall| c.step()) == submit_steps(),
        r.wait_mask == wait_mask,
        r.wait_semaphores == wait_semaphores,
        r.signal_semaphores == signal_semaphores,
{
    let fence = command_buffer_reuse_fence;
    let mut calls: Vec<DeviceCall> = Vec::new();
    calls.push(DeviceCall::WaitForFence { fence, timeout: WAIT_FOREVER });
    calls.push(DeviceCall::ResetFence { fence });
    calls.push(DeviceCall::ResetCommandBuffer { command_buffer, release_resources: true });
    calls.push(DeviceCall::BeginRecording { command_buffer, one_time_submit: true });
    calls.push(DeviceCall::RecordCommands { command_buffer });
    calls.push(DeviceCall::EndRecording { command_buffer });
    calls.push(DeviceCall::QueueSubmit { queue: submit_queue, command_buffer, signal_fence: fence });
    proof {
        assert(calls@ =~= submit_calls(command_buffer, fence, submit_queue));
        assert(calls@.map_values(|c: DeviceCall| c.step()) =~= submit_steps());
    }
    Submission { calls, wait_mask, wait_semaphores, signal_semaphores }
}

/// Where a command buffer stands between two uses.
#[derive(Clone, Copy, Debug, PartialEq, Eq, Structural)]
pub enum BufferState {
    /// Empty: never recorded, or reset.
    Initial,
    Recording,
    /// Recorded and not yet submitted.
    Executable,
    /// Submitted; the GPU has not finished it.
    Pending,
    /// Its one submission has run; it must be reset before it is recorded again.
    Spent,
}

/// What a device sees happen to one command buffer and its fence.
#[derive(Clone, Copy, Debug, PartialEq, Eq, Structural)]
pub enum SyncEvent {
    /// The caller made this step, and it returned.
    Call(SubmitStep),
    /// The GPU finished the submitted buffer and signaled the fence.
    Completed,
}

/// What must never be seen.
#[derive(Clone, Copy, Debug, PartialEq, Eq, Structural)]
pub enum SyncViolation {
    /// The wait returned although the fence was not signaled.
    WaitReturnedUnsignaled,
    /// The fence was reset while the submission that signals it was still running.
    FenceResetInFlight,
    /// The buffer was reset, recorded or submitted while the GPU was still running it.
    BufferTouchedInFlight,
    /// The step does not fit the state of the buffer.
    OutOfOrder,
    /// The fence handed to the queue was signaled already.
    FenceNotReset,
    /// Completion was reported although nothing was submitted.
    NothingSubmitted,
}

/// A command buffer and its fence, as a device sees them.
#[derive(Clone, Copy, Debug, PartialEq, Eq, Structural)]
pub struct SubmissionState {
    pub fence_signaled: bool,
    pub buffer: BufferState,
}

impl SubmissionState {
    /// A buffer that was never recorded, with a fence that was made signaled.
    pub open spec fn fresh() -> SubmissionState {
        SubmissionState { fence_signaled: true, buffer: BufferState::Initial }
    }

    /// The GPU is running the buffer: the previous use is not over.
    pub open spec fn in_flight(self) -> bool {
        self.buffer == BufferState::Pending
    }

    /// What an event makes of a state, or why it must never be seen there.
    pub open spec fn after(self, event: SyncEvent) -> Result<SubmissionState, SyncViolation> {
        match event {
            SyncEvent::Completed => if self.buffer == BufferState::Pending {
                Ok(SubmissionState { fence_signaled: true, buffer: BufferState::Spent })
            } else {
                Err(SyncViolation::NothingSubmitted)
            },
            SyncEvent::Call(SubmitStep::WaitForFence) => if self.fence_signaled {
                Ok(self)
            } else {
                Err(SyncViolation::WaitReturnedUnsignaled)
            },
            SyncEvent::Call(SubmitStep::ResetFence) => if self.in_flight() {
                Err(SyncViolation::FenceResetInFlight)
            } else {
                Ok(SubmissionState { fence_signaled: false, ..self })
            },
            SyncEvent::Call(SubmitStep::ResetCommandBuffer) => if self.in_flight() {
                Err(SyncViolation::BufferTouchedInFlight)
            } else {
                Ok(SubmissionState { buffer: BufferState::Initial, ..self })
            },
            SyncEvent::Call(SubmitStep::BeginRecording) => if self.in_flight() {
                Err(SyncViolation::BufferTouchedInFlight)
            } else if self.buffer == BufferState::Initial {
                Ok(SubmissionState { buffer: BufferState::Recording, ..self })
            } else {
                Err(SyncViolation::OutOfOrder)
            },
            SyncEvent::Call(SubmitStep::RecordCommands) => if self.buffer
                == BufferState::Recording {
                Ok(self)
            } else {
                Err(SyncViolation::OutOfOrder)
            },
            SyncEvent::Call(SubmitStep::EndRecording) => if self.buffer == BufferState::Recording {
                Ok(SubmissionState { buffer: BufferState::Executable, ..self })
            } else {
                Err(SyncViolation::OutOfOrder)
            },
            SyncEvent::Call(SubmitStep::QueueSubmit) => if self.in_flight() {
                Err(SyncViolation::BufferTouchedInFlight)
            } else if self.buffer != BufferState::Executable {
                Err(SyncViolation::OutOfOrder)
            } else if self.fence_signaled {
                Err(SyncViolation::FenceNotReset)
            } else {
                Ok(SubmissionState { buffer: BufferState::Pending, ..self })
            },
        }
    }

    /// What a sequence of events makes of a state: the state after the last
    /// of them, or the first violation.
    pub open spec fn after_all(self, events: Seq<SyncEvent>) -> Result<
        SubmissionState,
        SyncViolation,
    >
        decreases events.len(),
    {
        if events.len() == 0 {
            Ok(self)
        } else {
            match self.after(events[0]) {
                Ok(next) => next.after_all(events.drop_first()),
                Err(v) => Err(v),
            }
        }
    }

    pub fn new() -> (r: SubmissionState)
        ensures
            r == Self::fresh(),
    {
        SubmissionState { fence_signaled: true, buffer: BufferState::Initial }
    }

    /// Takes note of an event. Where the event must never be seen in this
    /// state, the state stays as it is and the violation is returned.
    pub fn observe(&mut self, event: SyncEvent) -> (r: Result<(), SyncViolation>)
        ensures
            match old(self).after(event) {
                Ok(next) => r == Ok::<(), SyncViolation>(()) && *final(self) == next,
                Err(v) => r == Err::<(), SyncViolation>(v) && *final(self) == *old(self),
            },
    {
        let pending = match self.buffer {
            BufferState::Pending => true,
            _ => false,
        };
        match event {
            SyncEvent::Completed => {
                if pending {
                    self.fence_signaled = true;
                    self.buffer = BufferState::Spent;
                    Ok(())
                } else {
                    Err(SyncViolation::NothingSubmitted)
                }
            },
            SyncEvent::Call(SubmitStep::WaitForFence) => {
                if self.fence_signaled {
                    Ok(())
                } else {
                    Err(SyncViolation::WaitReturnedUnsignaled)
                }
            },
            SyncEvent::Call(SubmitStep::ResetFence) => {
                if pending {
                    Err(SyncViolation::FenceResetInFlight)
                } else {
                    self.fence_signaled = false;
                    Ok(())
                }
            },
            SyncEvent::Call(SubmitStep::ResetCommandBuffer) => {
                if pending {
                    Err(SyncViolation::BufferTouchedInFlight)
                } else {
                    self.buffer = BufferState::Initial;
                    Ok(())
                }
            },
            SyncEvent::Call(SubmitStep::BeginRecording) => {
                match self.buffer {
                    BufferState::Pending => Err(SyncViolation::BufferTouchedInFlight),
                    BufferState::Initial => {
                        self.buffer = BufferState::Recording;
                        Ok(())
                    },
                    _ => Err(SyncViolation::OutOfOrder),
                }
            },
            SyncEvent::Call(SubmitStep::RecordCommands) => {
                match self.buffer {
                    BufferState::Recording => Ok(()),
                    _ => Err(SyncViolation::OutOfOrder),
                }
            },
            SyncEvent::Call(SubmitStep::EndRecording) => {
                match self.buffer {
                    BufferState::Recording => {
                        self.buffer = BufferState::Executable;
                        Ok(())
                    },
                    _ => Err(SyncViolation::OutOfOrder),
                }
            },
            SyncEvent::Call(SubmitStep::QueueSubmit) => {
                match self.buffer {
                    BufferState::Pending => Err(SyncViolation::BufferTouchedInFlight),
                    BufferState::Executable => {
                        if self.fence_signaled {
                            Err(SyncViolation::FenceNotReset)
                        } else {
                            self.buffer = BufferState::Pending;
                            Ok(())
                        }
                    },
                    _ => Err(SyncViolation::OutOfOrder),
                }
            },
        }
    }
}

/// The steps of one use, as the events that a device sees.
pub open spec fn use_events() -> Seq<SyncEvent> {
    submit_steps().map_values(|s: SubmitStep| SyncEvent::Call(s))
}

/// What a device sees of `count` uses of the same command buffer and fence,
/// one after the other: between two uses, the GPU completes the earlier one.
pub open spec fn uses(count: nat) -> Seq<SyncEvent>
    decreases count,
{
    if count == 0 {
        Seq::empty()
    } else if count == 1 {
        use_events()
    } else {
        uses((count - 1) as nat) + seq![SyncEvent::Completed] + use_events()
    }
}

/// The state that every use leaves behind: the buffer runs on the GPU, and
/// the fence waits to be signaled.
pub open spec fn submitted() -> SubmissionState {
    SubmissionState { fence_signaled: false, buffer: BufferState::Pending }
}

/// Events seen one sequence after another have the effect of the two
/// sequences in turn.
pub proof fn lemma_after_all_concat(s: SubmissionState, a: Seq<SyncEvent>, b: Seq<SyncEvent>)
    ensures
        s.after_all(a + b) == match s.after_all(a) {
            Ok(mid) => mid.after_all(b),
            Err(v) => Err(v),
        },
    decreases a.len(),
{
    if a.len() == 0 {
        assert(a + b =~= b);
    } else {
        assert((a + b)[0] == a[0]);
        assert((a + b).drop_first() =~= a.drop_first() + b);
        match s.after(a[0]) {
            Ok(next) => {
                lemma_after_all_concat(next, a.drop_first(), b);
            },
            Err(_) => {},
        }
    }
}

/// One use is accepted in every state in which the fence is signaled and
/// the GPU does not run the buffer, whatever became of the buffer before.
/// It leaves the buffer on the GPU and the fence unsignaled.
pub proof fn lemma_use_accepted(s: SubmissionState)
    requires
        s.fence_signaled,
        !s.in_flight(),
    ensures
        s.after_all(use_events()) == Ok::<SubmissionState, SyncViolation>(submitted()),
{
    let e = use_events();
    assert(e.len() == 7);
    assert(e[0] == SyncEvent::Call(SubmitStep::WaitForFence));
    assert(e[1] == SyncEvent::Call(SubmitStep::ResetFence));
    assert(e[2] == SyncEvent::Call(SubmitStep::ResetCommandBuffer));
    assert(e[3] == SyncEvent::Call(SubmitStep::BeginRecording));
    assert(e[4] == SyncEvent::Call(SubmitStep::RecordCommands));
    assert(e[5] == SyncEvent::Call(SubmitStep::EndRecording));
    assert(e[6] == SyncEvent::Call(SubmitStep::QueueSubmit));
    let e1 = e.drop_first();
    let e2 = e1.drop_first();
    let e3 = e2.drop_first();
    let e4 = e3.drop_first();
    let e5 = e4.drop_first();
    let e6 = e5.drop_first();
    let e7 = e6.drop_first();
    assert(e7.len() == 0);
    let s1 = s;
    let s2 = SubmissionState { fence_signaled: false, ..s1 };
    let s3 = SubmissionState { buffer: BufferState::Initial, ..s2 };
    let s4 = SubmissionState { buffer: BufferState::Recording, ..s3 };
    let s6 = SubmissionState { buffer: BufferState::Executable, ..s4 };
    assert(submitted().after_all(e7) == Ok::<SubmissionState, SyncViolation>(submitted()));
    assert(s6.after_all(e6) == Ok::<SubmissionState, SyncViolation>(submitted()));
    assert(s4.after_all(e5) == Ok::<SubmissionState, SyncViolation>(submitted()));
    assert(s4.after_all(e4) == Ok::<SubmissionState, SyncViolation>(submitted()));
    assert(s3.after_all(e3) == Ok::<SubmissionState, SyncViolation>(submitted()));
    assert(s2.after_all(e2) == Ok::<SubmissionState, SyncViolation>(submitted()));
    assert(s1.after_all(e1) == Ok::<SubmissionState, SyncViolation>(submitted()));
}

/// While the GPU runs the buffer, the device accepts nothing but the
/// completion: no step of the next use returns before it, so the next use
/// never begins to record before the earlier one is over.
pub proof fn lemma_next_use_waits(event: SyncEvent)
    requires
        submitted().after(event) is Ok,
    ensures
        event == SyncEvent::Completed,
{
}

/// Recording never begins on a buffer that the GPU still runs.
pub proof fn lemma_recording_refused_in_flight(s: SubmissionState)
    requires
        s.in_flight(),
    ensures
        s.after(SyncEvent::Call(SubmitStep::BeginRecording)) == Err::<
            SubmissionState,
            SyncViolation,
        >(SyncViolation::BufferTouchedInFlight),
{
}

/// Any number of uses of one command buffer and its fence, starting with a
/// fresh buffer and a fence that was made signaled, is accepted by the
/// device: every use finds the earlier one completed.
pub proof fn lemma_uses_accepted(count: nat)
    requires
        count > 0,
    ensures
        SubmissionState::fresh().after_all(uses(count)) == Ok::<SubmissionState, SyncViolation>(
            submitted(),
        ),
    decreases count,
{
    if count == 1 {
        lemma_use_accepted(SubmissionState::fresh());
    } else {
        let earlier = uses((count - 1) as nat);
        let done = seq![SyncEvent::Completed];
        lemma_uses_accepted((count - 1) as nat);
        lemma_after_all_concat(SubmissionState::fresh(), earlier + done, use_events());
        lemma_after_all_concat(SubmissionState::fresh(), earlier, done);
        let ready = SubmissionState { fence_signaled: true, buffer: BufferState::Spent };
        assert(done.drop_first().len() == 0);
        assert(submitted().after_all(done) == Ok::<SubmissionState, SyncViolation>(ready)) by {
            assert(done[0] == SyncEvent::Completed);
            assert(ready.after_all(done.drop_first()) == Ok::<SubmissionState, SyncViolation>(ready));
        }
        lemma_use_accepted(ready);
    }
}

} // verus!
