//! A model of the native graphics layer. Every call answers with the status
//! code and handles the layer was configured with, and the layer keeps the
//! observable state the backend's guarantees speak about: which instance and
//! device handles are live, the order in which handles were released, the
//! signaled flag of every fence, and per-queue logs of accepted and executed
//! command buffers with execution timestamps.
//!
//! The model is deliberately simple where the real layer is free: it accepts
//! batches in call order, executes each queue's work first-in first-out, and
//! completes submissions (signaling their fences) oldest first. It makes no
//! progress while a caller waits, so a bounded wait on an unsignaled fence
//! reports timeout expiry.

use vstd::prelude::*;

use crate::resources::DispatchableHandle;
use crate::resources::Fence;
use crate::status::spec_from_code;
use crate::status::VkResult;

verus! {

/// One release of a native object, in the order the layer performed them.
#[derive(Copy, Clone, PartialEq, Eq, Debug, Structural)]
pub enum ReleaseEvent {
    Device(DispatchableHandle),
    Instance(DispatchableHandle),
}

/// The outcome of waiting on a fence: signaled, timeout expiry (distinct
/// from an error), or device loss.
#[derive(Copy, Clone, PartialEq, Eq, Debug, Structural)]
pub enum WaitOutcome {
    Signaled,
    TimedOut,
    DeviceLost,
}

/// One native queue: the command buffers it has accepted, in acceptance
/// order, and for each executed buffer the timestamp at which it ran.
/// `executed[i]` is the timestamp of `accepted[i]`; execution is first-in
/// first-out, so `executed` is always a prefix of `accepted`'s positions.
pub struct QueueState {
    pub accepted: Vec<u64>,
    pub executed: Vec<u64>,
}

impl QueueState {
    /// Well-formedness against the layer's clock: no more buffers executed
    /// than accepted, timestamps strictly increasing along the queue, and
    /// every timestamp in the past.
    pub open spec fn wf(self, clock: u64) -> bool {
        &&& self.executed@.len() <= self.accepted@.len()
        &&& forall|i: int, j: int|
            0 <= i < j < self.executed@.len() ==> self.executed@[i] < self.executed@[j]
        &&& forall|i: int| 0 <= i < self.executed@.len() ==> self.executed@[i] < clock
    }
}

/// The native layer model: configured answers, plus observable state.
pub struct NativeLayer {
    /// Status code the instance-creation call answers with.
    pub instance_status: i32,
    /// Instance handle issued when instance creation succeeds.
    pub instance_handle: DispatchableHandle,
    /// Status code the physical-device enumeration answers with.
    pub enumerate_status: i32,
    /// The physical devices the enumeration reports.
    pub physical_devices: Vec<DispatchableHandle>,
    /// Status code the device-creation call answers with.
    pub device_status: i32,
    /// Logical-device handle issued when device creation succeeds.
    pub device_handle: DispatchableHandle,
    /// Status code a submission is answered with when the device is not lost.
    pub submit_status: i32,
    /// Whether the device is lost: submissions are rejected and waits report
    /// device loss.
    pub device_lost: bool,
    /// Instance handles created and not yet released, in creation order.
    pub live_instances: Vec<u64>,
    /// Logical-device handles created and not yet released, in creation order.
    pub live_devices: Vec<u64>,
    /// Every release the layer performed, in order.
    pub releases: Vec<ReleaseEvent>,
    /// The signaled flag of each fence; a fence's handle is its index here.
    pub fences: Vec<bool>,
    /// The native queues.
    pub queues: Vec<QueueState>,
    /// Fence handles attached to accepted submissions, oldest first.
    pub pending_signals: Vec<u64>,
    /// How many of the pending submissions have completed on the GPU side.
    pub completed: usize,
    /// The execution timestamp counter.
    pub clock: u64,
}

impl NativeLayer {
    /// Well-formedness: completions never outrun submissions, every pending
    /// fence handle is a real fence, and every queue is well formed against
    /// the clock.
    pub open spec fn wf(self) -> bool {
        &&& self.completed <= self.pending_signals@.len()
        &&& forall|i: int|
            0 <= i < self.pending_signals@.len() ==> (self.pending_signals@[i] as int)
                < self.fences@.len()
        &&& forall|q: int| 0 <= q < self.queues@.len() ==> (#[trigger] self.queues@[q]).wf(self.clock)
    }

    /// The configured answers are the same in both states.
    pub open spec fn same_config(pre: Self, post: Self) -> bool {
        &&& post.instance_status == pre.instance_status
        &&& post.instance_handle == pre.instance_handle
        &&& post.enumerate_status == pre.enumerate_status
        &&& post.physical_devices@ == pre.physical_devices@
        &&& post.device_status == pre.device_status
        &&& post.device_handle == pre.device_handle
        &&& post.submit_status == pre.submit_status
        &&& post.device_lost == pre.device_lost
    }

    /// Fences, queues, pending completions and the clock are the same in
    /// both states.
    pub open spec fn same_sync(pre: Self, post: Self) -> bool {
        &&& post.fences@ == pre.fences@
        &&& post.queues@ == pre.queues@
        &&& post.pending_signals@ == pre.pending_signals@
        &&& post.completed == pre.completed
        &&& post.clock == pre.clock
    }

    /// Live handles and the release log are the same in both states.
    pub open spec fn same_handles(pre: Self, post: Self) -> bool {
        &&& post.live_instances@ == pre.live_instances@
        &&& post.live_devices@ == pre.live_devices@
        &&& post.releases@ == pre.releases@
    }

    /// A fresh layer with the given configured answers, no live handles, no
    /// fences, `queue_count` empty queues, and the clock at zero.
    pub fn new(
        instance_status: i32,
        instance_handle: u64,
        enumerate_status: i32,
        physical_devices: Vec<u64>,
        device_status: i32,
        device_handle: u64,
        submit_status: i32,
        device_lost: bool,
        queue_count: usize,
    ) -> (n: NativeLayer)
        ensures
            n.instance_status == instance_status,
            n.instance_handle == instance_handle,
            n.enumerate_status == enumerate_status,
            n.physical_devices@ == physical_devices@,
            n.device_status == device_status,
            n.device_handle == device_handle,
            n.submit_status == submit_status,
            n.device_lost == device_lost,
            n.live_instances@.len() == 0,
            n.live_devices@.len() == 0,
            n.releases@.len() == 0,
            n.fences@.len() == 0,
            n.queues@.len() == queue_count,
            forall|q: int|
                0 <= q < queue_count ==> (#[trigger] n.queues@[q]).accepted@.len() == 0
                    && n.queues@[q].executed@.len() == 0,
            n.pending_signals@.len() == 0,
            n.completed == 0,
            n.clock == 0,
            n.wf(),
    {
        let mut queues: Vec<QueueState> = Vec::new();
        let mut q: usize = 0;
        while q < queue_count
            invariant
                q <= queue_count,
                queues@.len() == q,
                forall|k: int|
                    0 <= k < q ==> (#[trigger] queues@[k]).accepted@.len() == 0
                        && queues@[k].executed@.len() == 0,
            decreases queue_count - q,
        {
            queues.push(QueueState { accepted: Vec::new(), executed: Vec::new() });
            q = q + 1;
        }
        NativeLayer {
            instance_status,
            instance_handle,
            enumerate_status,
            physical_devices,
            device_status,
            device_handle,
            submit_status,
            device_lost,
            live_instances: Vec::new(),
            live_devices: Vec::new(),
            releases: Vec::new(),
            fences: Vec::new(),
            queues,
            pending_signals: Vec::new(),
            completed: 0,
            clock: 0,
        }
    }

    /// The instance-creation call: answers the configured status and handle;
    /// on a non-error status the handle becomes live.
    pub fn create_instance(&mut self) -> (r: (i32, u64))
        ensures
            r.0 == old(self).instance_status,
            r.1 == old(self).instance_handle,
            Self::same_config(*old(self), *final(self)),
            Self::same_sync(*old(self), *final(self)),
            final(self).releases@ == old(self).releases@,
            final(self).live_devices@ == old(self).live_devices@,
            !spec_from_code(r.0 as int).spec_is_error() ==> final(self).live_instances@ == old(
                self,
            ).live_instances@.push(old(self).instance_handle),
            spec_from_code(r.0 as int).spec_is_error() ==> final(self).live_instances@ == old(
                self,
            ).live_instances@,
            old(self).wf() ==> final(self).wf(),
    {
        let status = self.instance_status;
        let st = VkResult::from_i32(status);
        if !st.is_error() {
            let h = self.instance_handle;
            self.live_instances.push(h);
        }
        (status, self.instance_handle)
    }

    /// Releases an instance handle; it must be the most recently created
    /// live instance (handles are released in reverse creation order).
    pub fn destroy_instance(&mut self, h: u64)
        requires
            old(self).live_instances@.len() > 0,
            old(self).live_instances@.last() == h,
        ensures
            Self::same_config(*old(self), *final(self)),
            Self::same_sync(*old(self), *final(self)),
            final(self).live_instances@ == old(self).live_instances@.drop_last(),
            final(self).live_devices@ == old(self).live_devices@,
            final(self).releases@ == old(self).releases@.push(ReleaseEvent::Instance(h)),
            old(self).wf() ==> final(self).wf(),
    {
        let _ = self.live_instances.pop();
        self.releases.push(ReleaseEvent::Instance(h));
    }

    /// The physical-device enumeration: answers the configured status and
    /// the configured device list.
    pub fn enumerate_physical_devices(&self) -> (r: (i32, Vec<u64>))
        ensures
            r.0 == self.enumerate_status,
            r.1@ == self.physical_devices@,
    {
        let mut out: Vec<u64> = Vec::new();
        let mut i: usize = 0;
        while i < self.physical_devices.len()
            invariant
                i <= self.physical_devices@.len(),
                out@ == self.physical_devices@.subrange(0, i as int),
            decreases self.physical_devices@.len() - i,
        {
            out.push(self.physical_devices[i]);
            assert(self.physical_devices@.subrange(0, i + 1) =~= self.physical_devices@.subrange(
                0,
                i as int,
            ).push(self.physical_devices@[i as int]));
            i = i + 1;
        }
        assert(out@ =~= self.physical_devices@);
        (self.enumerate_status, out)
    }

    /// The logical-device-creation call on a selected physical device:
    /// answers the configured status and handle; on a non-error status the
    /// handle becomes live.
    pub fn create_device(&mut self, _phys: u64) -> (r: (i32, u64))
        ensures
            r.0 == old(self).device_status,
            r.1 == old(self).device_handle,
            Self::same_config(*old(self), *final(self)),
            Self::same_sync(*old(self), *final(self)),
            final(self).releases@ == old(self).releases@,
            final(self).live_instances@ == old(self).live_instances@,
            !spec_from_code(r.0 as int).spec_is_error() ==> final(self).live_devices@ == old(
                self,
            ).live_devices@.push(old(self).device_handle),
            spec_from_code(r.0 as int).spec_is_error() ==> final(self).live_devices@ == old(
                self,
            ).live_devices@,
            old(self).wf() ==> final(self).wf(),
    {
        let status = self.device_status;
        let st = VkResult::from_i32(status);
        if !st.is_error() {
            let h = self.device_handle;
            self.live_devices.push(h);
        }
        (status, self.device_handle)
    }

    /// Releases a logical-device handle; it must be the most recently
    /// created live device (handles are released in reverse creation order).
    pub fn destroy_device(&mut self, h: u64)
        requires
            old(self).live_devices@.len() > 0,
            old(self).live_devices@.last() == h,
        ensures
            Self::same_config(*old(self), *final(self)),
            Self::same_sync(*old(self), *final(self)),
            final(self).live_devices@ == old(self).live_devices@.drop_last(),
            final(self).live_instances@ == old(self).live_instances@,
            final(self).releases@ == old(self).releases@.push(ReleaseEvent::Device(h)),
            old(self).wf() ==> final(self).wf(),
    {
        let _ = self.live_devices.pop();
        self.releases.push(ReleaseEvent::Device(h));
    }

    /// Whether a fence handle names a fence of this layer.
    pub open spec fn fence_valid(self, f: Fence) -> bool {
        (f.0 as int) < self.fences@.len()
    }

    /// Whether a fence reports signaled when polled.
    pub open spec fn spec_poll(self, f: Fence) -> bool {
        self.fences@[f.0 as int]
    }

    /// What a bounded wait on a fence reports: device loss first, then the
    /// signaled state; an unsignaled fence times out (the layer makes no
    /// progress while the caller waits), which is distinct from both success
    /// and device loss.
    pub open spec fn spec_wait(self, f: Fence) -> WaitOutcome {
        if self.device_lost {
            WaitOutcome::DeviceLost
        } else if self.fences@[f.0 as int] {
            WaitOutcome::Signaled
        } else {
            WaitOutcome::TimedOut
        }
    }

    /// Creates a fence, signaled or unsignaled per the flag; the new handle
    /// is the next index.
    pub fn create_fence(&mut self, signaled: bool) -> (f: Fence)
        requires
            old(self).fences@.len() < u64::MAX,
        ensures
            f.0 as int == old(self).fences@.len(),
            final(self).fences@ == old(self).fences@.push(signaled),
            Self::same_config(*old(self), *final(self)),
            Self::same_handles(*old(self), *final(self)),
            final(self).queues@ == old(self).queues@,
            final(self).pending_signals@ == old(self).pending_signals@,
            final(self).completed == old(self).completed,
            final(self).clock == old(self).clock,
            old(self).wf() ==> final(self).wf(),
    {
        let h = self.fences.len() as u64;
        self.fences.push(signaled);
        Fence(h)
    }

    /// Resets a fence to unsignaled. Valid only once the caller has observed
    /// the signaled state: a fence still attached to pending work cannot be
    /// reset.
    pub fn reset_fence(&mut self, f: Fence)
        requires
            old(self).fence_valid(f),
            old(self).spec_poll(f),
        ensures
            final(self).fences@ == old(self).fences@.update(f.0 as int, false),
            Self::same_config(*old(self), *final(self)),
            Self::same_handles(*old(self), *final(self)),
            final(self).queues@ == old(self).queues@,
            final(self).pending_signals@ == old(self).pending_signals@,
            final(self).completed == old(self).completed,
            final(self).clock == old(self).clock,
            old(self).wf() ==> final(self).wf(),
    {
        let len: usize = self.fences.len();
        assert(f.0 < len as u64);
        let idx = f.0 as usize;
        let slot = &mut self.fences[idx];
        *slot = false;
    }

    /// Polls a fence without blocking: reports exactly its signaled flag.
    pub fn poll_fence(&self, f: Fence) -> (b: bool)
        requires
            self.fence_valid(f),
        ensures
            b == self.spec_poll(f),
    {
        let len: usize = self.fences.len();
        assert(f.0 < len as u64);
        self.fences[f.0 as usize]
    }

    /// Waits on a fence, bounded by a timeout in nanoseconds. The layer makes
    /// no progress while the caller waits, so an unsignaled fence reports
    /// timeout expiry whatever the bound; the bound is part of the call's
    /// shape, not of the model's answer.
    pub fn wait_fence(&self, f: Fence, _timeout_ns: u64) -> (r: WaitOutcome)
        requires
            self.fence_valid(f),
        ensures
            r == self.spec_wait(f),
    {
        let len: usize = self.fences.len();
        assert(f.0 < len as u64);
        if self.device_lost {
            WaitOutcome::DeviceLost
        } else if self.fences[f.0 as usize] {
            WaitOutcome::Signaled
        } else {
            WaitOutcome::TimedOut
        }
    }

    /// The status a submission is answered with: device loss overrides the
    /// configured answer.
    pub open spec fn spec_submit_status(self) -> int {
        if self.device_lost {
            -4
        } else {
            self.submit_status as int
        }
    }

    /// Whether the layer accepts a submission.
    pub open spec fn spec_submit_accepted(self) -> bool {
        !spec_from_code(self.spec_submit_status()).spec_is_error()
    }

    /// Hands one batch of recorded command buffers to a queue, with a fence
    /// to signal on completion. On acceptance the queue's log grows by the
    /// batch, in submission order, and the fence joins the pending
    /// completions; fence flags never change at submission. On rejection
    /// nothing is recorded: none of the batch's work is guaranteed to run.
    pub fn submit_batch(&mut self, queue: usize, cbs: &Vec<u64>, signal: Option<Fence>) -> (status:
        i32)
        requires
            old(self).wf(),
            queue < old(self).queues@.len(),
            signal matches Some(f) ==> old(self).fence_valid(f) && !old(self).spec_poll(f),
        ensures
            status as int == old(self).spec_submit_status(),
            Self::same_config(*old(self), *final(self)),
            Self::same_handles(*old(self), *final(self)),
            final(self).fences@ == old(self).fences@,
            final(self).completed == old(self).completed,
            final(self).clock == old(self).clock,
            final(self).queues@.len() == old(self).queues@.len(),
            old(self).spec_submit_accepted() ==> {
                &&& final(self).queues@[queue as int].accepted@ == old(self).queues@[
                    queue as int].accepted@ + cbs@
                &&& final(self).queues@[queue as int].executed@ == old(self).queues@[
                    queue as int].executed@
                &&& forall|q: int|
                    0 <= q < old(self).queues@.len() && q != queue ==> final(self).queues@[q] == old(
                        self,
                    ).queues@[q]
                &&& (signal matches Some(f) ==> final(self).pending_signals@ == old(
                    self,
                ).pending_signals@.push(f.0))
                &&& (signal is None ==> final(self).pending_signals@ == old(
                    self,
                ).pending_signals@)
            },
            !old(self).spec_submit_accepted() ==> final(self).queues@ == old(self).queues@
                && final(self).pending_signals@ == old(self).pending_signals@,
            final(self).wf(),
    {
        if self.device_lost {
            return -4;
        }
        let status = self.submit_status;
        let st = VkResult::from_i32(status);
        if st.is_error() {
            return status;
        }
        let target = &mut self.queues[queue];
        let mut i: usize = 0;
        while i < cbs.len()
            invariant
                i <= cbs@.len(),
                target.accepted@ == old(self).queues@[queue as int].accepted@ + cbs@.subrange(
                    0,
                    i as int,
                ),
                target.executed@ == old(self).queues@[queue as int].executed@,
            decreases cbs@.len() - i,
        {
            target.accepted.push(cbs[i]);
            assert(cbs@.subrange(0, i + 1) =~= cbs@.subrange(0, i as int).push(cbs@[i as int]));
            i = i + 1;
        }
        assert(cbs@.subrange(0, cbs@.len() as int) =~= cbs@);
        if let Some(f) = signal {
            self.pending_signals.push(f.0);
        }
        assert forall|q: int| 0 <= q < self.queues@.len() implies (#[trigger] self.queues@[q]).wf(
            self.clock,
        ) by {
            assert(old(self).queues@[q].wf(old(self).clock));
        }
        status
    }

    /// Executes the next command buffer of a queue, first-in first-out:
    /// always the earliest accepted buffer not yet executed, at the next
    /// timestamp. Returns the buffer and its timestamp.
    pub fn execute_next(&mut self, queue: usize) -> (r: (u64, u64))
        requires
            old(self).wf(),
            queue < old(self).queues@.len(),
            old(self).queues@[queue as int].executed@.len() < old(self).queues@[
                queue as int].accepted@.len(),
            old(self).clock < u64::MAX,
        ensures
            r.0 == old(self).queues@[queue as int].accepted@[old(self).queues@[
                queue as int].executed@.len() as int],
            r.1 == old(self).clock,
            Self::same_config(*old(self), *final(self)),
            Self::same_handles(*old(self), *final(self)),
            final(self).fences@ == old(self).fences@,
            final(self).pending_signals@ == old(self).pending_signals@,
            final(self).completed == old(self).completed,
            final(self).clock == old(self).clock + 1,
            final(self).queues@.len() == old(self).queues@.len(),
            final(self).queues@[queue as int].accepted@ == old(self).queues@[
                queue as int].accepted@,
            final(self).queues@[queue as int].executed@ == old(self).queues@[
                queue as int].executed@.push(old(self).clock),
            forall|q: int|
                0 <= q < old(self).queues@.len() && q != queue ==> final(self).queues@[q] == old(
                    self,
                ).queues@[q],
            final(self).wf(),
    {
        let ts = self.clock;
        let target = &mut self.queues[queue];
        let idx = target.executed.len();
        let cb = target.accepted[idx];
        target.executed.push(ts);
        self.clock = ts + 1;
        assert forall|q: int| 0 <= q < self.queues@.len() implies (#[trigger] self.queues@[q]).wf(
            self.clock,
        ) by {
            assert(old(self).queues@[q].wf(old(self).clock));
        }
        (cb, ts)
    }

    /// Completes the oldest still-pending submission: its fence becomes
    /// signaled. This is the only transition that signals a fence.
    pub fn signal_next(&mut self)
        requires
            old(self).wf(),
            old(self).completed < old(self).pending_signals@.len(),
        ensures
            final(self).fences@ == old(self).fences@.update(
                old(self).pending_signals@[old(self).completed as int] as int,
                true,
            ),
            final(self).completed == old(self).completed + 1,
            Self::same_config(*old(self), *final(self)),
            Self::same_handles(*old(self), *final(self)),
            final(self).queues@ == old(self).queues@,
            final(self).pending_signals@ == old(self).pending_signals@,
            final(self).clock == old(self).clock,
            final(self).wf(),
    {
        let pending_len: usize = self.pending_signals.len();
        assert(self.completed < pending_len);
        let h = self.pending_signals[self.completed];
        let len: usize = self.fences.len();
        assert(h < len as u64);
        let idx = h as usize;
        let slot = &mut self.fences[idx];
        *slot = true;
        self.completed = self.completed + 1;
    }
}

/// Execution on one queue is first-in first-out: of two command buffers a
/// queue accepted, the earlier one executes at the earlier timestamp. With
/// submission appending a batch to the queue in submission order, two
/// command buffers submitted together on one queue execute in submission
/// order. No such bound relates positions on different queues: their
/// timestamps interleave freely with the order of execution steps.
pub proof fn lemma_queue_fifo(n: NativeLayer, queue: int, i: int, j: int)
    requires
        n.wf(),
        0 <= queue < n.queues@.len(),
        0 <= i < j < n.queues@[queue].executed@.len(),
    ensures
        n.queues@[queue].executed@[i] < n.queues@[queue].executed@[j],
{
    assert(n.queues@[queue].wf(n.clock));
}

/// The fence state machine: a fence created unsignaled is never reported
/// signaled before its associated submission completes. Submission leaves
/// every fence flag unchanged (the ensures of handing a batch over), so in
/// any state carrying the same flags the fence still polls false, and a
/// bounded wait on it — a zero timeout included — reports timeout expiry,
/// not an error. Only a completion transition signals it.
pub proof fn lemma_fence_unsignaled_until_completion(
    created: NativeLayer,
    f: Fence,
    submitted: NativeLayer,
)
    requires
        created.fence_valid(f),
        !created.spec_poll(f),
        submitted.fences@ == created.fences@,
    ensures
        !submitted.spec_poll(f),
        !submitted.device_lost ==> submitted.spec_wait(f) == WaitOutcome::TimedOut,
{
}

/// What a fence reports, in every layer state: an unsignaled fence on a
/// healthy device is never reported signaled — a poll answers false and a
/// bounded wait, however short the bound, answers timeout expiry, never an
/// error; a signaled fence is reported signaled; a lost device overrides
/// both.
pub proof fn lemma_fence_reports(n: NativeLayer, f: Fence)
    requires
        n.fence_valid(f),
    ensures
        !n.spec_poll(f) && !n.device_lost ==> n.spec_wait(f) == WaitOutcome::TimedOut,
        n.spec_poll(f) && !n.device_lost ==> n.spec_wait(f) == WaitOutcome::Signaled,
        n.device_lost ==> n.spec_wait(f) == WaitOutcome::DeviceLost,
{
}

} // verus!

