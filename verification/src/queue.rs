//! Queues: their types, what is handed to the driver with a submission, and when a submission
//! counts as complete.

use crate::device::{QueueAllocation, RayTracingProperties};
use crate::error::{Error, VkResult};
use crate::pipeline::builders::RayTracingPipelineBuilder;
use crate::vulkan;
use vstd::prelude::*;

verus! {

/// The type of queue that is asked for.
#[derive(Debug, Clone, Copy, PartialEq, Eq, Hash, Structural)]
pub enum QueueType {
    /// A queue for graphics. It can transfer and compute as well.
    Graphics,
    /// A queue for compute work, preferably of a family that has no graphics.
    Compute,
    /// A queue for transfers, preferably of a family that has no graphics.
    Transfer,
}

impl QueueType {
    /// The queue flag that the type stands for.
    pub open spec fn flag(self) -> u32 {
        match self {
            QueueType::Graphics => vulkan::QUEUE_GRAPHICS,
            QueueType::Compute => vulkan::QUEUE_COMPUTE,
            QueueType::Transfer => vulkan::QUEUE_TRANSFER,
        }
    }

    /// The name of the type.
    pub open spec fn name_of(self) -> Seq<char> {
        match self {
            QueueType::Graphics => "Graphics"@,
            QueueType::Compute => "Compute"@,
            QueueType::Transfer => "Transfer"@,
        }
    }

    /// The queue flags that the type needs.
    pub fn required_flags(self) -> (r: u32)
        ensures
            r == self.flag(),
    {
        match self {
            QueueType::Graphics => vulkan::QUEUE_GRAPHICS,
            QueueType::Compute => vulkan::QUEUE_COMPUTE,
            QueueType::Transfer => vulkan::QUEUE_TRANSFER,
        }
    }

    /// The name of the type.
    pub fn name(&self) -> (r: &'static str)
        ensures
            r@ == self.name_of(),
    {
        match self {
            QueueType::Graphics => "Graphics",
            QueueType::Compute => "Compute",
            QueueType::Transfer => "Transfer",
        }
    }
}

/// `VK_TIMEOUT`.
pub const RESULT_TIMEOUT: i32 = 2;

/// A queue of the device.
#[derive(Debug, Clone, Copy, PartialEq, Eq, Structural)]
pub struct AsyncQueue {
    /// Handle of the queue.
    pub handle: u64,
    /// Queue family.
    pub family: u32,
    /// Index within the family.
    pub index: u32,
    /// Capability flags of the family.
    pub flags: u32,
    /// Timeline semaphore of the queue, if it has one.
    pub timeline: Option<u64>,
}

impl AsyncQueue {
    /// Queue family.
    pub fn family_index(&self) -> (r: u32)
        ensures
            r == self.family,
    {
        self.family
    }

    /// Index within the family.
    pub fn queue_index(&self) -> (r: u32)
        ensures
            r == self.index,
    {
        self.index
    }

    /// Capability flags of the family.
    pub fn capabilities(&self) -> (r: u32)
        ensures
            r == self.flags,
    {
        self.flags
    }

    /// The timeline semaphore of the queue.
    pub fn timeline(&self) -> (r: Option<u64>)
        ensures
            r == self.timeline,
    {
        self.timeline
    }

    /// Whether the queue can do work of a type.
    pub fn supports(&self, queue_type: QueueType) -> (r: bool)
        ensures
            r == vulkan::has_flags(self.flags, queue_type.flag()),
    {
        vulkan::contains_flags(self.flags, queue_type.required_flags())
    }

    /// Begins a submission to this queue.
    pub fn submit(&self) -> (r: SubmitBuilder)
        ensures
            r@ == (SubmissionParts {
                queue: *self,
                command_buffers: seq![],
                wait_semaphores: seq![],
                wait_stages: seq![],
                signal_semaphores: seq![],
                timeline_watcher: false,
                fence_watcher: false,
            }),
            r.wf(),
    {
        let r: SubmitBuilder = SubmitBuilder {
            queue: *self,
            command_buffers: Vec::new(),
            wait_semaphores: Vec::new(),
            wait_stages: Vec::new(),
            signal_semaphores: Vec::new(),
            timeline_watcher: false,
            fence_watcher: false,
        };
        assert(r@.command_buffers =~= seq![]);
        assert(r@.wait_semaphores =~= seq![]);
        assert(r@.wait_stages =~= seq![]);
        assert(r@.signal_semaphores =~= seq![]);
        r
    }

    /// A submission of one command buffer to this queue, without semaphores of the caller.
    pub fn submit_simple(&self, command_buffer: u64, target_value: u64) -> (r: Submission)
        ensures
            r.describes(
                SubmissionParts {
                    queue: *self,
                    command_buffers: seq![command_buffer],
                    wait_semaphores: seq![],
                    wait_stages: seq![],
                    signal_semaphores: seq![],
                    timeline_watcher: false,
                    fence_watcher: false,
                },
                target_value,
            ),
    {
        let b: SubmitBuilder = self.submit().command_buffer(command_buffer);
        assert(b@.command_buffers =~= seq![command_buffer]);
        b.build(target_value)
    }
}

/// Builder of a submission.
#[derive(Debug)]
pub struct SubmitBuilder {
    queue: AsyncQueue,
    command_buffers: Vec<u64>,
    wait_semaphores: Vec<u64>,
    wait_stages: Vec<u32>,
    signal_semaphores: Vec<u64>,
    timeline_watcher: bool,
    fence_watcher: bool,
}

/// What a submission is made of.
#[verifier::ext_equal]
pub struct SubmissionParts {
    /// The queue that is submitted to.
    pub queue: AsyncQueue,
    /// Command buffers.
    pub command_buffers: Seq<u64>,
    /// Semaphores that are waited on.
    pub wait_semaphores: Seq<u64>,
    /// Stage that waits, per semaphore.
    pub wait_stages: Seq<u32>,
    /// Semaphores that are signaled.
    pub signal_semaphores: Seq<u64>,
    /// A timeline watcher wakes whoever waits for the submission.
    pub timeline_watcher: bool,
    /// A fence watcher is attached.
    pub fence_watcher: bool,
}

impl SubmitBuilder {
    /// The parts so far.
    pub closed spec fn view(&self) -> SubmissionParts {
        SubmissionParts {
            queue: self.queue,
            command_buffers: self.command_buffers@,
            wait_semaphores: self.wait_semaphores@,
            wait_stages: self.wait_stages@,
            signal_semaphores: self.signal_semaphores@,
            timeline_watcher: self.timeline_watcher,
            fence_watcher: self.fence_watcher,
        }
    }

    /// Each semaphore that is waited on has its stage.
    pub closed spec fn wf(&self) -> bool {
        self.wait_stages@.len() == self.wait_semaphores@.len()
    }

    /// Adds a command buffer.
    pub fn command_buffer(self, buffer: u64) -> (r: SubmitBuilder)
        requires
            self.wf(),
        ensures
            r.wf(),
            r@ == (SubmissionParts {
                command_buffers: self@.command_buffers.push(buffer),
                ..self@
            }),
    {
        let mut b: SubmitBuilder = self;
        b.command_buffers.push(buffer);
        b
    }

    /// Adds command buffers.
    pub fn command_buffers(self, buffers: &Vec<u64>) -> (r: SubmitBuilder)
        requires
            self.wf(),
        ensures
            r.wf(),
            r@ == (SubmissionParts {
                command_buffers: self@.command_buffers + buffers@,
                ..self@
            }),
    {
        let mut b: SubmitBuilder = self;
        let mut i: usize = 0;
        assert(b@ =~= SubmissionParts {
            command_buffers: self@.command_buffers + buffers@.take(0),
            ..self@
        });
        while i < buffers.len()
            invariant
                i <= buffers@.len(),
                b.wf(),
                b@ == (SubmissionParts {
                    command_buffers: self@.command_buffers + buffers@.take(i as int),
                    ..self@
                }),
            decreases buffers@.len() - i,
        {
            b.command_buffers.push(buffers[i]);
            i = i + 1;
            assert(b@ =~= SubmissionParts {
                command_buffers: self@.command_buffers + buffers@.take(i as int),
                ..self@
            });
        }
        assert(buffers@.take(i as int) =~= buffers@);
        b
    }

    /// Adds a semaphore to wait on and the stage that waits.
    pub fn wait_semaphore(self, semaphore: u64, stage_mask: u32) -> (r: SubmitBuilder)
        requires
            self.wf(),
        ensures
            r.wf(),
            r@ == (SubmissionParts {
                wait_semaphores: self@.wait_semaphores.push(semaphore),
                wait_stages: self@.wait_stages.push(stage_mask),
                ..self@
            }),
    {
        let mut b: SubmitBuilder = self;
        b.wait_semaphores.push(semaphore);
        b.wait_stages.push(stage_mask);
        b
    }

    /// Adds a semaphore to signal.
    pub fn signal_semaphore(self, semaphore: u64) -> (r: SubmitBuilder)
        requires
            self.wf(),
        ensures
            r.wf(),
            r@ == (SubmissionParts {
                signal_semaphores: self@.signal_semaphores.push(semaphore),
                ..self@
            }),
    {
        let mut b: SubmitBuilder = self;
        b.signal_semaphores.push(semaphore);
        b
    }

    /// Lets a timeline watcher wake whoever waits for the submission.
    pub fn with_timeline_watcher(self) -> (r: SubmitBuilder)
        requires
            self.wf(),
        ensures
            r.wf(),
            r@ == (SubmissionParts { timeline_watcher: true, ..self@ }),
    {
        SubmitBuilder { timeline_watcher: true, ..self }
    }

    /// Attaches a fence watcher.
    pub fn with_fence_watcher(self) -> (r: SubmitBuilder)
        requires
            self.wf(),
        ensures
            r.wf(),
            r@ == (SubmissionParts { fence_watcher: true, ..self@ }),
    {
        SubmitBuilder { fence_watcher: true, ..self }
    }

    /// Attaches a fence watcher.
    pub fn with_watcher(self) -> (r: SubmitBuilder)
        requires
            self.wf(),
        ensures
            r.wf(),
            r@ == (SubmissionParts { fence_watcher: true, ..self@ }),
    {
        self.with_fence_watcher()
    }

    /// What is handed to the driver. A queue with a timeline semaphore signals it with the
    /// target value and needs no fence. Any other queue needs a fence.
    pub fn build(self, target_value: u64) -> (r: Submission)
        requires
            self.wf(),
        ensures
            r.describes(self@, target_value),
    {
        match self.queue.timeline {
            Some(semaphore) => {
                let wait_values: Vec<u64> = zeros(self.wait_semaphores.len());
                let mut signal_values: Vec<u64> = zeros(self.signal_semaphores.len());
                let mut signal_semaphores: Vec<u64> = self.signal_semaphores;
                signal_semaphores.push(semaphore);
                signal_values.push(target_value);
                Submission {
                    queue: self.queue.handle,
                    command_buffers: self.command_buffers,
                    wait_semaphores: self.wait_semaphores,
                    wait_stages: self.wait_stages,
                    wait_values,
                    signal_semaphores,
                    signal_values,
                    point: Some(
                        TimelinePoint {
                            semaphore,
                            target_value,
                            watched: self.timeline_watcher,
                        },
                    ),
                    fence_watched: self.fence_watcher,
                }
            },
            None => {
                let r: Submission = Submission {
                    queue: self.queue.handle,
                    command_buffers: self.command_buffers,
                    wait_semaphores: self.wait_semaphores,
                    wait_stages: self.wait_stages,
                    wait_values: Vec::new(),
                    signal_semaphores: self.signal_semaphores,
                    signal_values: Vec::new(),
                    point: None,
                    fence_watched: self.fence_watcher,
                };
                assert(r.wait_values@ =~= seq![]);
                assert(r.signal_values@ =~= seq![]);
                r
            },
        }
    }
}

fn zeros(n: usize) -> (r: Vec<u64>)
    ensures
        r@ == no_values(n as int),
{
    let r: Vec<u64> = vec![0u64; n];
    assert(r@ =~= no_values(n as int));
    r
}

/// Values of semaphores that have none.
pub open spec fn no_values(n: int) -> Seq<u64> {
    Seq::new(n as nat, |i: int| 0u64)
}

/// The point of a timeline that a submission reaches.
#[derive(Debug, Clone, Copy, PartialEq, Eq, Structural)]
pub struct TimelinePoint {
    /// The timeline semaphore.
    pub semaphore: u64,
    /// The value that it reaches.
    pub target_value: u64,
    /// Whether a watcher wakes whoever waits.
    pub watched: bool,
}

/// The fence that a submission signals.
#[derive(Debug, Clone, Copy, PartialEq, Eq, Structural)]
pub struct FencePoint {
    /// The fence.
    pub fence: u64,
    /// Whether a watcher wakes whoever waits.
    pub watched: bool,
}

/// What is handed to the driver.
#[derive(Debug)]
pub struct Submission {
    /// Handle of the queue that is submitted to.
    pub queue: u64,
    /// Command buffers.
    pub command_buffers: Vec<u64>,
    /// Semaphores that are waited on.
    pub wait_semaphores: Vec<u64>,
    /// Stage that waits, per semaphore.
    pub wait_stages: Vec<u32>,
    /// Value that is waited for, per semaphore; none without a timeline.
    pub wait_values: Vec<u64>,
    /// Semaphores that are signaled.
    pub signal_semaphores: Vec<u64>,
    /// Value that is signaled, per semaphore; none without a timeline.
    pub signal_values: Vec<u64>,
    /// The point of the timeline that is reached. Without one a fence is needed.
    pub point: Option<TimelinePoint>,
    /// Whether a watcher wakes whoever waits for the fence.
    pub fence_watched: bool,
}

impl Submission {
    /// The submission is what the parts ask for on their queue.
    pub open spec fn describes(&self, parts: SubmissionParts, target_value: u64) -> bool {
        &&& self.queue == parts.queue.handle
        &&& self.command_buffers@ == parts.command_buffers
        &&& self.wait_semaphores@ == parts.wait_semaphores
        &&& self.wait_stages@ == parts.wait_stages
        &&& self.fence_watched == parts.fence_watcher
        &&& match parts.queue.timeline {
            Some(semaphore) => {
                &&& self.wait_values@ == no_values(parts.wait_semaphores.len() as int)
                &&& self.signal_semaphores@ == parts.signal_semaphores.push(semaphore)
                &&& self.signal_values@ == no_values(
                    parts.signal_semaphores.len() as int,
                ).push(target_value)
                &&& self.point == Some(
                    TimelinePoint { semaphore, target_value, watched: parts.timeline_watcher },
                )
            },
            None => {
                &&& self.wait_values@ == Seq::<u64>::empty()
                &&& self.signal_semaphores@ == parts.signal_semaphores
                &&& self.signal_values@ == Seq::<u64>::empty()
                &&& self.point is None
            },
        }
    }

    /// Whether a fence has to be made for the submission.
    pub fn needs_fence(&self) -> (r: bool)
        ensures
            r == self.point is None,
    {
        self.point.is_none()
    }

    /// What becomes of the submission once the driver has answered. `fence` is the fence that was
    /// made for it. A fence of a submission that failed has to be destroyed.
    pub fn submitted(&self, outcome: Result<(), VkResult>, fence: u64) -> (r: (
        Result<GpuFuture, Error>,
        Option<u64>,
    ))
        ensures
            match outcome {
                Ok(_) => {
                    &&& r.0 == Ok::<GpuFuture, Error>(
                        GpuFuture {
                            kind: match self.point {
                                Some(point) => FutureKind::Timeline(point),
                                None => FutureKind::Fence(
                                    FencePoint { fence, watched: self.fence_watched },
                                ),
                            },
                            completed: false,
                        },
                    )
                    &&& r.1 is None
                },
                Err(code) => {
                    &&& r.0 == Err::<GpuFuture, Error>(Error::Vulkan(code))
                    &&& r.1 == if self.point is None {
                        Some(fence)
                    } else {
                        None
                    }
                },
            },
    {
        match outcome {
            Ok(_) => {
                let kind: FutureKind = match self.point {
                    Some(point) => FutureKind::Timeline(point),
                    None => FutureKind::Fence(
                        FencePoint { fence, watched: self.fence_watched },
                    ),
                };
                (Ok(GpuFuture { kind, completed: false }), None)
            },
            Err(code) => {
                let left: Option<u64> = if self.point.is_none() {
                    Some(fence)
                } else {
                    None
                };
                (Err(Error::Vulkan(code)), left)
            },
        }
    }
}

/// What tells that work is done.
#[derive(Debug, Clone, Copy, PartialEq, Eq, Structural)]
pub enum FutureKind {
    /// A timeline semaphore reaches a value.
    Timeline(TimelinePoint),
    /// A fence is signaled.
    Fence(FencePoint),
}

/// Work that is in flight.
#[derive(Debug, Clone, Copy, PartialEq, Eq, Structural)]
pub struct GpuFuture {
    /// What tells that the work is done.
    pub kind: FutureKind,
    /// Whether it is known to be over.
    pub completed: bool,
}

/// What the driver says of work that is in flight.
#[derive(Debug, Clone, Copy, PartialEq, Eq, Structural)]
pub enum Progress {
    /// The value of the timeline semaphore.
    Value(u64),
    /// Whether the fence is signaled.
    Signaled(bool),
}

/// What a poll comes to.
#[derive(Debug)]
pub enum PollStep {
    /// The work is over.
    Ready(Result<(), Error>),
    /// The watcher is to wake the task once the timeline reaches the point.
    Register(TimelinePoint),
    /// The watcher is to wake the task once the fence is signaled.
    RegisterFence(u64),
    /// The task is to be woken at once, to poll again.
    WakeAndRetry,
}

impl GpuFuture {
    /// The driver was asked about what tells that the work is done.
    pub open spec fn answers(&self, seen: Progress) -> bool {
        match self.kind {
            FutureKind::Timeline(_) => seen is Value,
            FutureKind::Fence(_) => seen is Signaled,
        }
    }

    /// The work is done, by what the driver says.
    pub open spec fn done_at(&self, seen: Progress) -> bool {
        match (self.kind, seen) {
            (FutureKind::Timeline(point), Progress::Value(v)) => v >= point.target_value,
            (FutureKind::Fence(_), Progress::Signaled(b)) => b,
            _ => false,
        }
    }

    fn done(&self, seen: Progress) -> (r: bool)
        ensures
            r == self.done_at(seen),
    {
        match (self.kind, seen) {
            (FutureKind::Timeline(point), Progress::Value(v)) => v >= point.target_value,
            (FutureKind::Fence(_), Progress::Signaled(b)) => b,
            _ => false,
        }
    }

    /// Whether the work is done. `seen` is what the driver says; where the work is known to be
    /// over the driver need not be asked.
    pub fn is_complete(&self, seen: Result<Progress, VkResult>) -> (r: Result<bool, Error>)
        requires
            seen matches Ok(p) ==> self.answers(p),
        ensures
            r == if self.completed {
                Ok::<bool, Error>(true)
            } else {
                match seen {
                    Ok(p) => Ok(self.done_at(p)),
                    Err(code) => Err(Error::Vulkan(code)),
                }
            },
    {
        if self.completed {
            return Ok(true);
        }
        match seen {
            Ok(p) => Ok(self.done(p)),
            Err(code) => Err(Error::Vulkan(code)),
        }
    }

    /// What a blocking wait comes to. `outcome` is what the driver says.
    pub fn wait(&self, outcome: Result<(), VkResult>) -> (r: Result<(), Error>)
        ensures
            r == if self.completed {
                Ok::<(), Error>(())
            } else {
                match outcome {
                    Ok(_) => Ok(()),
                    Err(code) => Err(Error::Vulkan(code)),
                }
            },
    {
        if self.completed {
            return Ok(());
        }
        match outcome {
            Ok(_) => Ok(()),
            Err(code) => Err(Error::Vulkan(code)),
        }
    }

    /// What a blocking wait with a timeout comes to: whether the work is done. `outcome` is what
    /// the driver says; that the time is over is no error.
    pub fn wait_timeout(&self, outcome: Result<(), VkResult>) -> (r: Result<bool, Error>)
        ensures
            r == if self.completed {
                Ok::<bool, Error>(true)
            } else {
                match outcome {
                    Ok(_) => Ok(true),
                    Err(code) => if code.raw == RESULT_TIMEOUT {
                        Ok(false)
                    } else {
                        Err(Error::Vulkan(code))
                    },
                }
            },
    {
        if self.completed {
            return Ok(true);
        }
        match outcome {
            Ok(_) => Ok(true),
            Err(code) => if code.raw == RESULT_TIMEOUT {
                Ok(false)
            } else {
                Err(Error::Vulkan(code))
            },
        }
    }

    /// One poll. `seen` is what the driver says. A future that is over, by success or by an error,
    /// is over for good. A timeline or a fence that has a watcher is left to it; what nobody watches
    /// is polled again at once.
    pub fn poll(&mut self, seen: Result<Progress, VkResult>) -> (r: PollStep)
        requires
            seen matches Ok(p) ==> old(self).answers(p),
        ensures
            final(self).kind == old(self).kind,
            final(self).completed == r is Ready,
            if old(self).completed {
                r == PollStep::Ready(Ok(()))
            } else {
                match seen {
                    Err(code) => r == PollStep::Ready(Err(Error::Vulkan(code))),
                    Ok(p) => if old(self).done_at(p) {
                        r == PollStep::Ready(Ok(()))
                    } else {
                        match old(self).kind {
                            FutureKind::Timeline(point) => r == if point.watched {
                                PollStep::Register(point)
                            } else {
                                PollStep::WakeAndRetry
                            },
                            FutureKind::Fence(point) => r == if point.watched {
                                PollStep::RegisterFence(point.fence)
                            } else {
                                PollStep::WakeAndRetry
                            },
                        }
                    },
                }
            },
    {
        if self.completed {
            return PollStep::Ready(Ok(()));
        }
        match seen {
            Err(code) => {
                self.completed = true;
                PollStep::Ready(Err(Error::Vulkan(code)))
            },
            Ok(p) => {
                if self.done(p) {
                    self.completed = true;
                    return PollStep::Ready(Ok(()));
                }
                match self.kind {
                    FutureKind::Timeline(point) => {
                        if point.watched {
                            PollStep::Register(point)
                        } else {
                            PollStep::WakeAndRetry
                        }
                    },
                    FutureKind::Fence(point) => {
                        if point.watched {
                            PollStep::RegisterFence(point.fence)
                        } else {
                            PollStep::WakeAndRetry
                        }
                    },
                }
            },
        }
    }

    /// The value that the timeline reaches, with a timeline.
    pub fn timeline_value(&self) -> (r: Option<u64>)
        ensures
            r == match self.kind {
                FutureKind::Timeline(point) => Some(point.target_value),
                FutureKind::Fence(_) => None,
            },
    {
        match self.kind {
            FutureKind::Timeline(point) => Some(point.target_value),
            FutureKind::Fence(_) => None,
        }
    }

    /// The timeline semaphore, with a timeline.
    pub fn timeline_semaphore(&self) -> (r: Option<u64>)
        ensures
            r == match self.kind {
                FutureKind::Timeline(point) => Some(point.semaphore),
                FutureKind::Fence(_) => None,
            },
    {
        match self.kind {
            FutureKind::Timeline(point) => Some(point.semaphore),
            FutureKind::Fence(_) => None,
        }
    }

    /// The fence, without a timeline.
    pub fn fence(&self) -> (r: Option<u64>)
        ensures
            r == match self.kind {
                FutureKind::Timeline(_) => None,
                FutureKind::Fence(point) => Some(point.fence),
            },
    {
        match self.kind {
            FutureKind::Timeline(_) => None,
            FutureKind::Fence(point) => Some(point.fence),
        }
    }

    /// What dropping the future takes: whether to wait for its fence first, and the fence to
    /// destroy. With a timeline nothing is to be done.
    pub fn on_drop(&self) -> (r: (bool, Option<u64>))
        ensures
            r == match self.kind {
                FutureKind::Timeline(_) => (false, None::<u64>),
                FutureKind::Fence(point) => (!self.completed, Some(point.fence)),
            },
    {
        match self.kind {
            FutureKind::Timeline(_) => (false, None),
            FutureKind::Fence(point) => (!self.completed, Some(point.fence)),
        }
    }
}

/// A timeout in nanoseconds, cut off at what the driver takes.
pub fn timeout_nanos(nanos: u128) -> (r: u64)
    ensures
        r == if nanos > u64::MAX { u64::MAX as int } else { nanos as int },
{
    if nanos > u64::MAX as u128 {
        u64::MAX
    } else {
        nanos as u64
    }
}

/// A timeline that has reached a point stays beyond it: work that is done stays done.
pub proof fn law_done_stays_done(f: GpuFuture, a: u64, b: u64)
    requires
        f.done_at(Progress::Value(a)),
        a <= b,
    ensures
        f.done_at(Progress::Value(b)),
{
}

/// On a queue with a timeline each semaphore has its value, and the timeline semaphore is
/// signaled last, with the target value.
pub proof fn law_every_signal_has_its_value(
    s: Submission,
    parts: SubmissionParts,
    semaphore: u64,
    target_value: u64,
)
    requires
        s.describes(parts, target_value),
        parts.queue.timeline == Some(semaphore),
    ensures
        s.signal_values@.len() == s.signal_semaphores@.len(),
        s.wait_values@.len() == s.wait_semaphores@.len(),
        s.signal_semaphores@.last() == semaphore,
        s.signal_values@.last() == target_value,
{
}

/// `VK_COMMAND_POOL_CREATE_RESET_COMMAND_BUFFER_BIT`.
pub const POOL_RESET_COMMAND_BUFFER: u32 = 2;

/// What a command pool is created with.
#[derive(Debug, Clone, Copy, PartialEq, Eq, Structural)]
pub struct CommandPoolInfo {
    /// Queue family.
    pub family_index: u32,
    /// Flags of the pool.
    pub flags: u32,
}

/// The number that SPIR-V code begins with.
pub const SPIRV_MAGIC: u32 = 0x0723_0203;

/// The words begin as SPIR-V code does.
pub open spec fn is_spirv(words: Seq<u32>) -> bool {
    words.len() > 0 && words[0] == SPIRV_MAGIC
}

/// The queues and properties of a device.
#[derive(Debug)]
pub struct Ignis {
    /// The queues.
    pub queues: Vec<AsyncQueue>,
    /// Whether the ray tracing functions are loaded.
    pub raytracing: bool,
    /// Whether timeline semaphores are available.
    pub timelines: bool,
    /// Ray tracing properties.
    pub rt_properties: Option<RayTracingProperties>,
}

/// Queue `i` can do work of a type and, unless graphics is asked for, has no graphics.
pub open spec fn is_dedicated(q: AsyncQueue, t: QueueType) -> bool {
    vulkan::has_flags(q.flags, t.flag()) && (t == QueueType::Graphics || !vulkan::has_flags(
        q.flags,
        vulkan::QUEUE_GRAPHICS,
    ))
}

/// Some queue is dedicated to a type of work.
pub open spec fn has_dedicated(queues: Seq<AsyncQueue>, t: QueueType) -> bool {
    exists|i: int| 0 <= i < queues.len() && is_dedicated(#[trigger] queues[i], t)
}

/// Some queue can do a type of work.
pub open spec fn has_capable(queues: Seq<AsyncQueue>, t: QueueType) -> bool {
    exists|i: int|
        0 <= i < queues.len() && vulkan::has_flags((#[trigger] queues[i]).flags, t.flag())
}

/// `i` is the first queue that is dedicated to a type of work.
pub open spec fn is_first_dedicated(queues: Seq<AsyncQueue>, t: QueueType, i: int) -> bool {
    &&& 0 <= i < queues.len()
    &&& is_dedicated(queues[i], t)
    &&& forall|j: int| 0 <= j < i ==> !is_dedicated(#[trigger] queues[j], t)
}

/// `i` is the first queue that can do a type of work.
pub open spec fn is_first_capable(queues: Seq<AsyncQueue>, t: QueueType, i: int) -> bool {
    &&& 0 <= i < queues.len()
    &&& vulkan::has_flags(queues[i].flags, t.flag())
    &&& forall|j: int|
        0 <= j < i ==> !vulkan::has_flags((#[trigger] queues[j]).flags, t.flag())
}

impl Ignis {
    /// The context of a device. `semaphores` holds, per queue, the timeline semaphore that was
    /// made for it; there is none where making it failed, and none is used where timelines are
    /// not available.
    pub fn build_queues(
        allocations: &Vec<QueueAllocation>,
        semaphores: &Vec<Option<u64>>,
        timelines: bool,
    ) -> (r: Vec<AsyncQueue>)
        requires
            semaphores@.len() == allocations@.len(),
        ensures
            r@.len() == allocations@.len(),
            forall|i: int|
                0 <= i < r@.len() ==> #[trigger] r@[i] == (AsyncQueue {
                    handle: allocations@[i].handle,
                    family: allocations@[i].family_index,
                    index: allocations@[i].queue_index,
                    flags: allocations@[i].capabilities,
                    timeline: if timelines {
                        semaphores@[i]
                    } else {
                        None
                    },
                }),
    {
        let mut r: Vec<AsyncQueue> = Vec::new();
        let mut i: usize = 0;
        while i < allocations.len()
            invariant
                i <= allocations@.len(),
                semaphores@.len() == allocations@.len(),
                r@.len() == i,
                forall|j: int|
                    0 <= j < i ==> #[trigger] r@[j] == (AsyncQueue {
                        handle: allocations@[j].handle,
                        family: allocations@[j].family_index,
                        index: allocations@[j].queue_index,
                        flags: allocations@[j].capabilities,
                        timeline: if timelines {
                            semaphores@[j]
                        } else {
                            None
                        },
                    }),
            decreases allocations@.len() - i,
        {
            let a: QueueAllocation = allocations[i];
            r.push(
                AsyncQueue {
                    handle: a.handle,
                    family: a.family_index,
                    index: a.queue_index,
                    flags: a.capabilities,
                    timeline: if timelines {
                        semaphores[i]
                    } else {
                        None
                    },
                },
            );
            i = i + 1;
        }
        r
    }

    /// Finds a queue for a type of work: the first that is dedicated to it, else the first that
    /// can do it. The result is its index.
    pub fn queue(&self, queue_type: QueueType) -> (r: Result<usize, Error>)
        ensures
            if has_dedicated(self.queues@, queue_type) {
                r matches Ok(i) && is_first_dedicated(self.queues@, queue_type, i as int)
            } else if has_capable(self.queues@, queue_type) {
                r matches Ok(i) && is_first_capable(self.queues@, queue_type, i as int)
            } else {
                r == Err::<usize, Error>(Error::NoSuitableQueueFamily(queue_type))
            },
    {
        let mut i: usize = 0;
        while i < self.queues.len()
            invariant
                i <= self.queues@.len(),
                forall|j: int|
                    0 <= j < i ==> !is_dedicated(#[trigger] self.queues@[j], queue_type),
            decreases self.queues@.len() - i,
        {
            let q: AsyncQueue = self.queues[i];
            if q.supports(queue_type) && (queue_type == QueueType::Graphics || !q.supports(
                QueueType::Graphics,
            )) {
                return Ok(i);
            }
            i = i + 1;
        }
        let mut k: usize = 0;
        while k < self.queues.len()
            invariant
                k <= self.queues@.len(),
                !has_dedicated(self.queues@, queue_type),
                forall|j: int|
                    0 <= j < k ==> !vulkan::has_flags(
                        (#[trigger] self.queues@[j]).flags,
                        queue_type.flag(),
                    ),
            decreases self.queues@.len() - k,
        {
            if self.queues[k].supports(queue_type) {
                return Ok(k);
            }
            k = k + 1;
        }
        Err(Error::NoSuitableQueueFamily(queue_type))
    }

    /// All queues.
    pub fn all_queues(&self) -> (r: &[AsyncQueue])
        ensures
            r@ == self.queues@,
    {
        self.queues.as_slice()
    }

    /// What a command pool for a type of work is created with: it belongs to the family of the
    /// queue that is found, and its command buffers can be reset one by one.
    pub fn create_command_pool(&self, queue_type: QueueType) -> (r: Result<CommandPoolInfo, Error>)
        ensures
            r is Ok <==> has_capable(self.queues@, queue_type),
            r matches Err(e) ==> e == Error::NoSuitableQueueFamily(queue_type),
            r matches Ok(info) ==> info.flags == POOL_RESET_COMMAND_BUFFER && exists|i: int|
                {
                    &&& if has_dedicated(self.queues@, queue_type) {
                        #[trigger] is_first_dedicated(self.queues@, queue_type, i)
                    } else {
                        is_first_capable(self.queues@, queue_type, i)
                    }
                    &&& info.family_index == self.queues@[i].family
                },
    {
        match self.queue(queue_type) {
            Ok(i) => {
                assert(is_first_dedicated(self.queues@, queue_type, i as int) || is_first_capable(
                    self.queues@,
                    queue_type,
                    i as int,
                ));
                proof {
                    law_found_queue_can_do_the_work(self.queues@, queue_type, i as int);
                }
                Ok(
                    CommandPoolInfo {
                        family_index: self.queues[i].family,
                        flags: POOL_RESET_COMMAND_BUFFER,
                    },
                )
            },
            Err(e) => Err(e),
        }
    }

    /// Checks SPIR-V code and takes in the shader module that the driver made of it. The driver is
    /// asked for one only where the code begins with the magic number.
    pub fn create_shader_module(&self, spirv: &[u32], module: Result<u64, VkResult>) -> (r: Result<
        u64,
        Error,
    >)
        ensures
            r == if !is_spirv(spirv@) {
                Err::<u64, Error>(Error::InvalidSpirv)
            } else {
                match module {
                    Ok(handle) => Ok(handle),
                    Err(code) => Err(Error::Vulkan(code)),
                }
            },
    {
        if spirv.len() == 0 || spirv[0] != SPIRV_MAGIC {
            return Err(Error::InvalidSpirv);
        }
        match module {
            Ok(handle) => Ok(handle),
            Err(code) => Err(Error::Vulkan(code)),
        }
    }

    /// Begins a ray tracing pipeline, where the ray tracing functions are loaded.
    pub fn raytracing_pipeline_builder(&self) -> (r: Result<RayTracingPipelineBuilder, Error>)
        ensures
            r is Ok <==> self.raytracing,
            r matches Err(e) ==> e.is_feature_not_enabled("VK_KHR_ray_tracing_pipeline"@),
            r matches Ok(b) ==> {
                &&& b.stages@.len() == 0
                &&& b.groups@.len() == 0
                &&& b.max_recursion_depth == 1
                &&& b.layout == 0
                &&& b.cache == 0
            },
    {
        if !self.raytracing {
            return Err(Error::FeatureNotEnabled("VK_KHR_ray_tracing_pipeline"));
        }
        Ok(RayTracingPipelineBuilder::new())
    }

    /// Whether the ray tracing functions are loaded.
    pub fn supports_ray_tracing(&self) -> (r: bool)
        ensures
            r == self.raytracing,
    {
        self.raytracing
    }

    /// Whether timeline semaphores are available.
    pub fn supports_timelines(&self) -> (r: bool)
        ensures
            r == self.timelines,
    {
        self.timelines
    }

    /// Ray tracing properties.
    pub fn ray_tracing_properties(&self) -> (r: Option<RayTracingProperties>)
        ensures
            r == self.rt_properties,
    {
        self.rt_properties
    }
}

/// Whichever queue is found, it can do the work.
pub proof fn law_found_queue_can_do_the_work(queues: Seq<AsyncQueue>, t: QueueType, i: int)
    requires
        is_first_dedicated(queues, t, i) || is_first_capable(queues, t, i),
    ensures
        vulkan::has_flags(queues[i].flags, t.flag()),
        has_capable(queues, t),
{
}

} // verus!
