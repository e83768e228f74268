//! The backend device: two-phase bootstrap (instance creation, then
//! physical-device enumeration, selection and logical-device creation),
//! capability query, command submission and teardown. Bootstrap is
//! all-or-nothing: either every phase succeeds and a fully constructed
//! device comes back, or the first error encountered is propagated verbatim
//! and no handle stays live.

use vstd::prelude::*;

use crate::native::NativeLayer;
use crate::native::ReleaseEvent;
use crate::native::WaitOutcome;
use crate::resources::DispatchableHandle;
use crate::resources::Fence;
use crate::status::spec_from_code;
use crate::status::VkResult;

verus! {

/// The reserved maximum number of physical devices the bootstrap probes.
/// Enumeration beyond this bound is a reportable configuration condition,
/// never a silent truncation.
pub const PHYS_DEVICE_MAX_ENUM: u32 = 8;

/// What can go wrong in the backend: a native status error surfaced
/// verbatim (including the catch-all for an unrecognized code), or a
/// structural condition of the backend's own, reported distinctly so a
/// caller can tell configuration problems from driver problems.
#[derive(Copy, Clone, PartialEq, Eq, Debug, Structural)]
pub enum BackendError {
    /// A native call answered with an error status; it is propagated as is.
    Native(VkResult),
    /// Physical-device enumeration exceeded the reserved maximum.
    TooManyPhysicalDevices(usize),
    /// Enumeration reported no physical device to select.
    NoPhysicalDevice,
}

/// Backend limits and supported features, computed once at device creation
/// and read-only afterwards.
#[derive(Copy, Clone, PartialEq, Eq, Debug, Structural)]
pub struct Capabilities {
    /// How many physical devices the bootstrap is prepared to probe.
    pub max_physical_devices: u32,
    /// Whether unordered-access views are supported; this backend binds them
    /// to an empty placeholder, so it reports false.
    pub supports_unordered_access_views: bool,
}

impl Capabilities {
    /// The default limits this backend reports.
    pub open spec fn spec_baseline() -> Capabilities {
        Capabilities { max_physical_devices: PHYS_DEVICE_MAX_ENUM, supports_unordered_access_views: false }
    }

    /// The default limits, as executable code.
    pub fn baseline() -> (c: Capabilities)
        ensures
            c == Self::spec_baseline(),
    {
        Capabilities { max_physical_devices: PHYS_DEVICE_MAX_ENUM, supports_unordered_access_views: false }
    }
}

/// An opaque recording of GPU work, submitted as a unit; the backend never
/// interprets it beyond handing its identifier to the native queue.
#[derive(Copy, Clone, PartialEq, Eq, Hash, Debug, Structural)]
pub struct CommandBuffer(pub DispatchableHandle);

/// One submission request: an ordered sequence of recorded command buffers,
/// the queue to run them on, fences the work waits on, and a fence to
/// signal once the batch completes.
pub struct SubmitInfo {
    /// The queue the batch is enqueued on.
    pub queue: usize,
    /// The recorded command buffers, in the order they must execute.
    pub command_buffers: Vec<CommandBuffer>,
    /// Fences the batch waits on before executing. They ride with the
    /// request: execution steps of the layer are driven explicitly, so
    /// honoring a dependency is the driver's choice of execution order —
    /// nothing but an explicit dependency orders independent submissions.
    pub wait_fences: Vec<Fence>,
    /// The fence signaled when the batch completes, if any.
    pub signal_fence: Option<Fence>,
}

impl SubmitInfo {
    /// The raw identifiers of the recorded command buffers, in submission
    /// order.
    pub open spec fn buffer_ids(self) -> Seq<u64> {
        Seq::new(self.command_buffers@.len(), |i: int| self.command_buffers@[i].0)
    }
}

/// A ready backend device: the instance and logical-device handles it owns,
/// its capabilities, and its lifecycle state. A device is observable only
/// fully constructed: bootstrap never returns a partial one.
pub struct Device {
    /// The native instance handle this device owns.
    pub instance: DispatchableHandle,
    /// The native logical-device handle this device owns.
    pub device: DispatchableHandle,
    /// The limits computed at creation.
    pub caps: Capabilities,
    /// False once `cleanup` ran; no further calls are valid then.
    pub alive: bool,
    /// Whether the command-recording state is at its baseline.
    pub at_baseline: bool,
}

/// The outcome bootstrap owes for a given native layer: the first error of
/// the strictly ordered phases — instance creation, enumeration (bounded by
/// the reserved maximum and requiring at least one candidate), logical-device
/// creation — or a fully constructed device from the configured handles.
pub open spec fn bootstrap_outcome(n: NativeLayer) -> Result<Device, BackendError> {
    let ist = spec_from_code(n.instance_status as int);
    if ist.spec_is_error() {
        Err(BackendError::Native(ist))
    } else {
        let est = spec_from_code(n.enumerate_status as int);
        if est.spec_is_error() {
            Err(BackendError::Native(est))
        } else if n.physical_devices@.len() > PHYS_DEVICE_MAX_ENUM as int {
            Err(BackendError::TooManyPhysicalDevices(n.physical_devices@.len() as usize))
        } else if n.physical_devices@.len() == 0 {
            Err(BackendError::NoPhysicalDevice)
        } else {
            let dst = spec_from_code(n.device_status as int);
            if dst.spec_is_error() {
                Err(BackendError::Native(dst))
            } else {
                Ok(
                    Device {
                        instance: n.instance_handle,
                        device: n.device_handle,
                        caps: Capabilities::spec_baseline(),
                        alive: true,
                        at_baseline: true,
                    },
                )
            }
        }
    }
}

impl Device {
    /// Two-phase bootstrap. Creates the instance, enumerates physical
    /// devices under it (bounded by the reserved maximum), selects the first
    /// enumerated device, and creates the logical device. Every native
    /// status passes through the translator; any error variant aborts at
    /// once and is surfaced verbatim, with nothing retried. All-or-nothing:
    /// on success both handles are live and the device is fully constructed;
    /// on failure the bootstrap has released whatever it created, so no live
    /// handle remains with the caller.
    pub fn new(native: &mut NativeLayer) -> (r: Result<Device, BackendError>)
        requires
            old(native).wf(),
        ensures
            r == bootstrap_outcome(*old(native)),
            NativeLayer::same_config(*old(native), *final(native)),
            NativeLayer::same_sync(*old(native), *final(native)),
            r is Ok ==> final(native).live_instances@ == old(native).live_instances@.push(
                old(native).instance_handle,
            ) && final(native).live_devices@ == old(native).live_devices@.push(
                old(native).device_handle,
            ) && final(native).releases@ == old(native).releases@,
            r is Err ==> final(native).live_instances@ == old(native).live_instances@ && final(native).live_devices@ == old(native).live_devices@,
            final(native).wf(),
    {
        let (icode, ihandle) = native.create_instance();
        let ist = VkResult::from_i32(icode);
        if ist.is_error() {
            return Err(BackendError::Native(ist));
        }
        let (ecode, phys) = native.enumerate_physical_devices();
        let est = VkResult::from_i32(ecode);
        if est.is_error() {
            native.destroy_instance(ihandle);
            proof {
                assert(native.live_instances@ =~= old(native).live_instances@);
            }
            return Err(BackendError::Native(est));
        }
        if phys.len() > PHYS_DEVICE_MAX_ENUM as usize {
            let count = phys.len();
            native.destroy_instance(ihandle);
            proof {
                assert(native.live_instances@ =~= old(native).live_instances@);
            }
            return Err(BackendError::TooManyPhysicalDevices(count));
        }
        if phys.len() == 0 {
            native.destroy_instance(ihandle);
            proof {
                assert(native.live_instances@ =~= old(native).live_instances@);
            }
            return Err(BackendError::NoPhysicalDevice);
        }
        // Selection policy: the first enumerated device is acceptable here;
        // a fuller backend would score candidates at this point.
        let selected = phys[0];
        let (dcode, dhandle) = native.create_device(selected);
        let dst = VkResult::from_i32(dcode);
        if dst.is_error() {
            native.destroy_instance(ihandle);
            proof {
                assert(native.live_instances@ =~= old(native).live_instances@);
            }
            return Err(BackendError::Native(dst));
        }
        Ok(
            Device {
                instance: ihandle,
                device: dhandle,
                caps: Capabilities::baseline(),
                alive: true,
                at_baseline: true,
            },
        )
    }

    /// Read-only view of the backend limits, fixed at device creation. No
    /// side effects, idempotent, never fails.
    pub fn get_capabilities(&self) -> (c: &Capabilities)
        requires
            self.alive,
        ensures
            *c == self.caps,
    {
        &self.caps
    }

    /// Restores the command-recording state to its known baseline, as
    /// between frames. Nothing else about the device changes.
    pub fn reset_state(&mut self)
        requires
            old(self).alive,
        ensures
            final(self).at_baseline,
            final(self).instance == old(self).instance,
            final(self).device == old(self).device,
            final(self).caps == old(self).caps,
            final(self).alive == old(self).alive,
    {
        self.at_baseline = true;
    }

    /// Submits one batch: hands the recorded command buffers, in order, to
    /// the chosen native queue, with the synchronization the request names.
    /// The call returns once the native layer has accepted the batch, not
    /// once the GPU has finished it; no fence is signaled by submission
    /// itself. On rejection the error status is surfaced and none of the
    /// batch's work is recorded, so the caller must assume none of it runs;
    /// the device itself stays usable.
    pub fn submit(&mut self, native: &mut NativeLayer, info: &SubmitInfo) -> (r: Result<
        (),
        BackendError,
    >)
        requires
            old(self).alive,
            old(native).wf(),
            info.queue < old(native).queues@.len(),
            info.signal_fence matches Some(f) ==> old(native).fence_valid(f) && !old(native).spec_poll(f),
        ensures
            final(native).wf(),
            NativeLayer::same_config(*old(native), *final(native)),
            NativeLayer::same_handles(*old(native), *final(native)),
            final(native).fences@ == old(native).fences@,
            final(native).completed == old(native).completed,
            final(native).clock == old(native).clock,
            final(native).queues@.len() == old(native).queues@.len(),
            r is Ok <==> old(native).spec_submit_accepted(),
            r matches Err(e) ==> e == BackendError::Native(
                spec_from_code(old(native).spec_submit_status()),
            ),
            old(native).spec_submit_accepted() ==> {
                &&& final(native).queues@[info.queue as int].accepted@ == old(native).queues@[
                    info.queue as int].accepted@ + info.buffer_ids()
                &&& final(native).queues@[info.queue as int].executed@ == old(native).queues@[
                    info.queue as int].executed@
                &&& forall|q: int|
                    0 <= q < old(native).queues@.len() && q != info.queue ==> final(native).queues@[q] == old(native).queues@[q]
                &&& (info.signal_fence matches Some(f) ==> final(native).pending_signals@ == old(native).pending_signals@.push(f.0))
                &&& (info.signal_fence is None ==> final(native).pending_signals@ == old(native).pending_signals@)
            },
            !old(native).spec_submit_accepted() ==> final(native).queues@ == old(native).queues@
                && final(native).pending_signals@ == old(native).pending_signals@,
            final(self).instance == old(self).instance,
            final(self).device == old(self).device,
            final(self).caps == old(self).caps,
            final(self).alive,
            final(self).at_baseline == (old(self).at_baseline && !old(native).spec_submit_accepted()),
    {
        let mut ids: Vec<u64> = Vec::new();
        let mut i: usize = 0;
        while i < info.command_buffers.len()
            invariant
                i <= info.command_buffers@.len(),
                ids@.len() == i,
                forall|k: int| 0 <= k < i ==> ids@[k] == info.command_buffers@[k].0,
            decreases info.command_buffers@.len() - i,
        {
            ids.push(info.command_buffers[i].0);
            i = i + 1;
        }
        proof {
            assert(ids@ =~= info.buffer_ids());
        }
        let status = native.submit_batch(info.queue, &ids, info.signal_fence);
        let st = VkResult::from_i32(status);
        if st.is_error() {
            Err(BackendError::Native(st))
        } else {
            self.at_baseline = false;
            Ok(())
        }
    }

    /// Creates a fence through the native layer, unsignaled or signaled per
    /// the creation flag. Fence creation is a device operation: the device
    /// is the owner of every handle it creates.
    pub fn create_fence(&self, native: &mut NativeLayer, signaled: bool) -> (f: Fence)
        requires
            self.alive,
            old(native).fences@.len() < u64::MAX,
        ensures
            f.0 as int == old(native).fences@.len(),
            final(native).fences@ == old(native).fences@.push(signaled),
            final(native).spec_poll(f) == signaled,
            NativeLayer::same_config(*old(native), *final(native)),
            NativeLayer::same_handles(*old(native), *final(native)),
            final(native).queues@ == old(native).queues@,
            final(native).pending_signals@ == old(native).pending_signals@,
            final(native).completed == old(native).completed,
            final(native).clock == old(native).clock,
            old(native).wf() ==> final(native).wf(),
    {
        native.create_fence(signaled)
    }

    /// Waits on a fence, bounded by a timeout in nanoseconds: the only
    /// blocking observation. Timeout expiry is a distinct outcome from both
    /// success and device loss, never an error.
    pub fn wait_fence(&self, native: &NativeLayer, f: Fence, timeout_ns: u64) -> (r: WaitOutcome)
        requires
            self.alive,
            native.fence_valid(f),
        ensures
            r == native.spec_wait(f),
    {
        native.wait_fence(f, timeout_ns)
    }

    /// Polls a fence without blocking: reports exactly its signaled state.
    pub fn poll_fence(&self, native: &NativeLayer, f: Fence) -> (b: bool)
        requires
            self.alive,
            native.fence_valid(f),
        ensures
            b == native.spec_poll(f),
    {
        native.poll_fence(f)
    }

    /// Tears the device down: releases its native objects in reverse
    /// creation order — the logical device first, the instance after — and
    /// is the terminal transition; the device is not alive afterwards and no
    /// further call is valid on it.
    pub fn cleanup(&mut self, native: &mut NativeLayer)
        requires
            old(self).alive,
            old(native).live_devices@.len() > 0,
            old(native).live_devices@.last() == old(self).device,
            old(native).live_instances@.len() > 0,
            old(native).live_instances@.last() == old(self).instance,
        ensures
            !final(self).alive,
            final(self).instance == old(self).instance,
            final(self).device == old(self).device,
            final(self).caps == old(self).caps,
            NativeLayer::same_config(*old(native), *final(native)),
            NativeLayer::same_sync(*old(native), *final(native)),
            final(native).live_devices@ == old(native).live_devices@.drop_last(),
            final(native).live_instances@ == old(native).live_instances@.drop_last(),
            final(native).releases@ == old(native).releases@.push(
                ReleaseEvent::Device(old(self).device),
            ).push(ReleaseEvent::Instance(old(self).instance)),
            old(native).wf() ==> final(native).wf(),
    {
        let d = self.device;
        let i = self.instance;
        native.destroy_device(d);
        native.destroy_instance(i);
        self.alive = false;
    }
}

/// Two command buffers submitted together on one queue execute in submission
/// order. `pre` is the state a submission was accepted in, `post` the state
/// right after it (the batch stands at the end of the queue's acceptance
/// log), and `later` any later state whose queue still carries that log —
/// every transition of the layer only appends to it. Once both buffers of
/// the batch have executed, the earlier-submitted one bears the strictly
/// earlier timestamp. No such bound relates buffers on different queues:
/// only an explicit fence dependency orders independent submissions.
pub proof fn lemma_submission_order(
    pre: NativeLayer,
    post: NativeLayer,
    info: SubmitInfo,
    later: NativeLayer,
    i: int,
    j: int,
)
    requires
        0 <= info.queue < pre.queues@.len(),
        post.queues@[info.queue as int].accepted@ == pre.queues@[info.queue as int].accepted@
            + info.buffer_ids(),
        later.wf(),
        info.queue < later.queues@.len(),
        later.queues@[info.queue as int].accepted@ == post.queues@[info.queue as int].accepted@,
        0 <= i < j < info.buffer_ids().len(),
        later.queues@[info.queue as int].executed@.len() > pre.queues@[
            info.queue as int].accepted@.len() + j,
    ensures
        later.queues@[info.queue as int].accepted@[pre.queues@[info.queue as int].accepted@.len()
            + i] == info.buffer_ids()[i],
        later.queues@[info.queue as int].accepted@[pre.queues@[info.queue as int].accepted@.len()
            + j] == info.buffer_ids()[j],
        later.queues@[info.queue as int].executed@[pre.queues@[info.queue as int].accepted@.len()
            + i] < later.queues@[info.queue as int].executed@[pre.queues@[
            info.queue as int].accepted@.len() + j],
{
    let base = pre.queues@[info.queue as int].accepted@.len() as int;
    crate::native::lemma_queue_fifo(later, info.queue as int, base + i, base + j);
}

/// Bootstrap is all-or-nothing: it owes a fully constructed device — both
/// configured handles, alive, at the baseline recording state, with the
/// baseline capabilities — exactly when instance creation, enumeration
/// (within the reserved bound and nonempty) and device creation all pass the
/// translator without an error; and otherwise the first error encountered,
/// verbatim.
pub proof fn lemma_bootstrap_all_or_nothing(n: NativeLayer)
    ensures
        bootstrap_outcome(n) is Ok <==> (!spec_from_code(n.instance_status as int).spec_is_error()
            && !spec_from_code(n.enumerate_status as int).spec_is_error() && 0
            < n.physical_devices@.len() <= PHYS_DEVICE_MAX_ENUM as int && !spec_from_code(
            n.device_status as int,
        ).spec_is_error()),
        bootstrap_outcome(n) matches Ok(d) ==> d == (Device {
            instance: n.instance_handle,
            device: n.device_handle,
            caps: Capabilities::spec_baseline(),
            alive: true,
            at_baseline: true,
        }),
        spec_from_code(n.instance_status as int).spec_is_error() ==> bootstrap_outcome(n) == Err::<
            Device,
            BackendError,
        >(BackendError::Native(spec_from_code(n.instance_status as int))),
{
}

} // verus!
