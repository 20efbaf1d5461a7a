//! Which device, which queue family and which queue is chosen, and what a queue is handed.

use crate::api_version;
use crate::device;
use crate::device::{ManagedConfig, MemoryHeap, PhysicalDeviceInfo, QueueFamilies};
use crate::error::Error;
use crate::queue;
use crate::queue::{
    AsyncQueue, FutureKind, GpuFuture, Progress, QueueType, Submission, SubmissionParts,
};
use vstd::prelude::*;

verus! {

/// A heap adds its bytes to the local memory of a device if its lowest flag is set, and nothing
/// otherwise.
pub proof fn law_local_heaps_are_summed(heaps: Seq<MemoryHeap>, h: MemoryHeap)
    ensures
        device::local_bytes(Seq::empty()) == 0,
        h.flags & 1 == 1 ==> device::local_bytes(heaps.push(h)) == device::local_bytes(heaps)
            + h.size,
        h.flags & 1 != 1 ==> device::local_bytes(heaps.push(h)) == device::local_bytes(heaps),
        device::local_bytes(heaps) >= 0,
    decreases heaps.len(),
{
    assert(heaps.push(h).drop_last() =~= heaps);
    if heaps.len() > 0 {
        law_local_heaps_are_summed(heaps.drop_last(), heaps.last());
    }
}

/// A discrete device is chosen before an integrated one, and that before any other, whatever their
/// memory. Among devices of a kind the one with the most local memory is chosen, and of those with
/// as much the last.
pub proof fn law_discrete_before_integrated_before_others(
    devices: Seq<PhysicalDeviceInfo>,
    i: int,
    j: int,
)
    requires
        device::is_best(devices, i),
        0 <= j < devices.len(),
    ensures
        devices[j].device_type == 2 ==> devices[i].device_type == 2,
        devices[j].device_type == 1 ==> devices[i].device_type == 1 || devices[i].device_type == 2,
        devices[i].device_type == devices[j].device_type ==> devices[j].local_memory
            <= devices[i].local_memory,
        devices[i].device_type == devices[j].device_type && devices[i].local_memory
            == devices[j].local_memory ==> j <= i,
        devices[i].device_type != 1 && devices[i].device_type != 2 ==> devices[j].local_memory
            <= devices[i].local_memory,
{
    assert(device::not_better(devices[j], devices[i]));
    if i < j {
        assert(!device::not_better(devices[i], devices[j]));
    }
}

/// Nothing but the kind and the memory counts: devices alike in both are equally good.
pub proof fn law_only_kind_and_memory_count(a: PhysicalDeviceInfo, b: PhysicalDeviceInfo)
    ensures
        device::not_better(a, b) || device::not_better(b, a),
        device::not_better(a, b) && device::not_better(b, a) ==> a.local_memory == b.local_memory
            && (a.device_type == 2 <==> b.device_type == 2) && (a.device_type == 1
            <==> b.device_type == 1),
{
}

/// The family for graphics is the first that has it.
pub proof fn law_graphics_family_is_the_first(families: Seq<u32>, i: int)
    requires
        device::is_first_fit(families, 1, 0, i),
    ensures
        0 <= i < families.len(),
        families[i] & 1 == 1,
        forall|j: int| 0 <= j < i ==> (#[trigger] families[j]) & 1 != 1,
{
    assert forall|j: int| 0 <= j < i implies (#[trigger] families[j]) & 1 != 1 by {
        assert(!device::family_fits(families[j], 1, 0));
        let f = families[j];
        assert(f & 0 == 0) by (bit_vector);
    }
}

/// The family for compute work has compute and no graphics, and is the first such one; where there
/// is none, it is that for graphics.
pub proof fn law_compute_family_has_no_graphics(families: Seq<u32>, graphics: u32, i: u32)
    requires
        device::is_fit_or(families, 2, 1, graphics, i),
    ensures
        (exists|k: int|
            0 <= k < families.len() && (#[trigger] families[k]) & 2 == 2 && families[k] & 1 == 0)
            ==> i < families.len() && families[i as int] & 2 == 2 && families[i as int] & 1 == 0,
        i < families.len() && families[i as int] & 2 == 2 && families[i as int] & 1 == 0
            ==> forall|j: int|
            0 <= j < i ==> !((#[trigger] families[j]) & 2 == 2 && families[j] & 1 == 0),
        (forall|k: int|
            0 <= k < families.len() ==> !((#[trigger] families[k]) & 2 == 2 && families[k] & 1
                == 0)) ==> i == graphics,
{
    if exists|k: int|
        0 <= k < families.len() && (#[trigger] families[k]) & 2 == 2 && families[k] & 1 == 0 {
        let k = choose|k: int|
            0 <= k < families.len() && (#[trigger] families[k]) & 2 == 2 && families[k] & 1 == 0;
        assert(device::family_fits(families[k], 2, 1));
    }
    if i < families.len() && families[i as int] & 2 == 2 && families[i as int] & 1 == 0 {
        assert(device::family_fits(families[i as int], 2, 1));
        assert forall|j: int| 0 <= j < i implies !((#[trigger] families[j]) & 2 == 2 && families[j]
            & 1 == 0) by {
            assert(!device::family_fits(families[j], 2, 1));
        }
    }
}

/// The family for transfers has transfers and neither graphics nor compute, and is the first such
/// one; where there is none, it is that for graphics.
pub proof fn law_transfer_family_does_nothing_else(families: Seq<u32>, graphics: u32, i: u32)
    requires
        device::is_fit_or(families, 4, 1u32 | 2u32, graphics, i),
    ensures
        (exists|k: int|
            0 <= k < families.len() && (#[trigger] families[k]) & 4 == 4 && families[k] & 3 == 0)
            ==> i < families.len() && families[i as int] & 4 == 4 && families[i as int] & 3 == 0,
        i < families.len() && families[i as int] & 4 == 4 && families[i as int] & 3 == 0
            ==> forall|j: int|
            0 <= j < i ==> !((#[trigger] families[j]) & 4 == 4 && families[j] & 3 == 0),
        (forall|k: int|
            0 <= k < families.len() ==> !((#[trigger] families[k]) & 4 == 4 && families[k] & 3
                == 0)) ==> i == graphics,
{
    assert(1u32 | 2u32 == 3u32) by (bit_vector);
    if exists|k: int|
        0 <= k < families.len() && (#[trigger] families[k]) & 4 == 4 && families[k] & 3 == 0 {
        let k = choose|k: int|
            0 <= k < families.len() && (#[trigger] families[k]) & 4 == 4 && families[k] & 3 == 0;
        assert(device::family_fits(families[k], 4, 3));
    }
    if i < families.len() && families[i as int] & 4 == 4 && families[i as int] & 3 == 0 {
        assert(device::family_fits(families[i as int], 4, 3));
        assert forall|j: int| 0 <= j < i implies !((#[trigger] families[j]) & 4 == 4 && families[j]
            & 3 == 0) by {
            assert(!device::family_fits(families[j], 4, 3));
        }
    }
}

/// The families that queues are asked of are those that were chosen, and no others, with that for
/// graphics first.
pub proof fn law_only_chosen_families_are_asked(f: QueueFamilies, k: int)
    requires
        0 <= k < f.distinct().len(),
    ensures
        f.distinct()[0] == f.graphics,
        f.distinct()[k] == f.graphics || f.distinct()[k] == f.compute || f.distinct()[k]
            == f.transfer,
        f.compute != f.graphics ==> f.distinct()[1] == f.compute,
{
}

/// The extensions of ray tracing.
pub proof fn law_ray_tracing_takes_three_extensions(i: int)
    requires
        0 <= i < device::raytracing_extensions().len(),
    ensures
        device::raytracing_extensions().len() == 3,
        i == 0 ==> device::raytracing_extensions()[i] == "VK_KHR_ray_tracing_pipeline"@,
        i == 1 ==> device::raytracing_extensions()[i] == "VK_KHR_acceleration_structure"@,
        i == 2 ==> device::raytracing_extensions()[i] == "VK_KHR_deferred_host_operations"@,
{
}

/// The parts of a version: the upper bits of the number hold the major version, the next ten the
/// minor one.
pub proof fn law_version_has_its_parts(version: u32)
    ensures
        api_version::major(version) == version as int / 4194304 % 128,
        api_version::minor(version) == version as int / 4096 % 1024,
{
    assert((version >> 22u32) & 0x7f == version / 4194304 % 128) by (bit_vector);
    assert((version >> 12u32) & 0x3ff == version / 4096 % 1024) by (bit_vector);
}

/// A queue is dedicated to work if it can do it and cannot do graphics, unless graphics is the work.
pub proof fn law_dedicated_queue_does_no_graphics(q: AsyncQueue)
    ensures
        queue::is_dedicated(q, QueueType::Graphics) <==> q.flags & 1 == 1,
        queue::is_dedicated(q, QueueType::Compute) <==> q.flags & 2 == 2 && q.flags & 1 != 1,
        queue::is_dedicated(q, QueueType::Transfer) <==> q.flags & 4 == 4 && q.flags & 1 != 1,
{
}

/// A queue for transfers is the first that can do them without graphics, or, where there is none,
/// the first that can do them.
pub proof fn law_transfer_queue_is_the_first_that_fits(queues: Seq<AsyncQueue>, i: int, k: int)
    requires
        0 <= k < queues.len(),
        if queue::has_dedicated(queues, QueueType::Transfer) {
            queue::is_first_dedicated(queues, QueueType::Transfer, i)
        } else {
            queue::is_first_capable(queues, QueueType::Transfer, i)
        },
    ensures
        0 <= i < queues.len(),
        queues[i].flags & 4 == 4,
        queues[k].flags & 4 == 4 && queues[k].flags & 1 != 1 ==> i <= k && queues[i].flags & 1 != 1,
        queues[k].flags & 4 == 4 && queues[i].flags & 1 == 1 ==> i <= k,
{
    law_dedicated_queue_does_no_graphics(queues[k]);
    law_dedicated_queue_does_no_graphics(queues[i]);
}

/// A queue for compute work is the first that can do it without graphics, or, where there is none,
/// the first that can do it.
pub proof fn law_compute_queue_is_the_first_that_fits(queues: Seq<AsyncQueue>, i: int, k: int)
    requires
        0 <= k < queues.len(),
        if queue::has_dedicated(queues, QueueType::Compute) {
            queue::is_first_dedicated(queues, QueueType::Compute, i)
        } else {
            queue::is_first_capable(queues, QueueType::Compute, i)
        },
    ensures
        0 <= i < queues.len(),
        queues[i].flags & 2 == 2,
        queues[k].flags & 2 == 2 && queues[k].flags & 1 != 1 ==> i <= k && queues[i].flags & 1 != 1,
        queues[k].flags & 2 == 2 && queues[i].flags & 1 == 1 ==> i <= k,
{
    law_dedicated_queue_does_no_graphics(queues[k]);
    law_dedicated_queue_does_no_graphics(queues[i]);
}

/// A queue for graphics is the first that can do it.
pub proof fn law_graphics_queue_is_the_first_that_fits(queues: Seq<AsyncQueue>, i: int, k: int)
    requires
        0 <= k < queues.len(),
        if queue::has_dedicated(queues, QueueType::Graphics) {
            queue::is_first_dedicated(queues, QueueType::Graphics, i)
        } else {
            queue::is_first_capable(queues, QueueType::Graphics, i)
        },
    ensures
        0 <= i < queues.len(),
        queues[i].flags & 1 == 1,
        queues[k].flags & 1 == 1 ==> i <= k,
{
    law_dedicated_queue_does_no_graphics(queues[k]);
    law_dedicated_queue_does_no_graphics(queues[i]);
}

/// The kinds of work have their names.
pub proof fn law_kinds_of_work_have_names(t: QueueType)
    ensures
        t is Graphics ==> t.name_of() == "Graphics"@,
        t is Compute ==> t.name_of() == "Compute"@,
        t is Transfer ==> t.name_of() == "Transfer"@,
{
}

/// The driver is handed what was put together for a submission, unchanged and in order.
pub proof fn law_submission_is_handed_on(s: Submission, parts: SubmissionParts, target_value: u64)
    requires
        s.describes(parts, target_value),
    ensures
        s.queue == parts.queue.handle,
        s.command_buffers@ == parts.command_buffers,
        s.wait_semaphores@ == parts.wait_semaphores,
        s.wait_stages@ == parts.wait_stages,
        s.fence_watched == parts.fence_watcher,
        s.signal_semaphores@.take(parts.signal_semaphores.len() as int)
            == parts.signal_semaphores,
        s.signal_semaphores@.len() == parts.signal_semaphores.len() + if parts.queue.timeline is Some {
            1int
        } else {
            0
        },
{
    assert(s.signal_semaphores@.take(parts.signal_semaphores.len() as int)
        =~= parts.signal_semaphores);
}

/// On a queue with a timeline the timeline is signaled last, to the value that the future waits for.
/// All other semaphores have no value.
pub proof fn law_timeline_is_signaled_to_the_target(
    s: Submission,
    parts: SubmissionParts,
    target_value: u64,
    semaphore: u64,
    i: int,
)
    requires
        s.describes(parts, target_value),
        parts.queue.timeline == Some(semaphore),
    ensures
        ({
            let n = parts.signal_semaphores.len() as int;
            &&& s.signal_semaphores@.len() == n + 1 && s.signal_values@.len() == n + 1
            &&& s.signal_semaphores@[n] == semaphore
            &&& s.signal_values@[n] == target_value
            &&& 0 <= i < n ==> s.signal_values@[i] == 0
        }),
        s.wait_values@.len() == parts.wait_semaphores.len(),
        0 <= i < parts.wait_semaphores.len() ==> s.wait_values@[i] == 0,
        s.point matches Some(p) && p.semaphore == semaphore && p.target_value == target_value
            && p.watched == parts.timeline_watcher,
{
}

/// On a queue without a timeline nothing has a value and there is no point to wait for.
pub proof fn law_without_timeline_there_are_no_values(
    s: Submission,
    parts: SubmissionParts,
    target_value: u64,
)
    requires
        s.describes(parts, target_value),
        parts.queue.timeline is None,
    ensures
        s.wait_values@.len() == 0,
        s.signal_values@.len() == 0,
        s.point is None,
{
}

/// Work on a timeline is done exactly from its target value on, other work exactly when its fence is
/// signaled.
pub proof fn law_work_is_done_at_its_target(f: GpuFuture, value: u64, signaled: bool)
    ensures
        f.kind matches FutureKind::Timeline(p) ==> (f.done_at(Progress::Value(value))
            <==> p.target_value <= value) && !f.done_at(Progress::Signaled(signaled)),
        f.kind is Fence ==> (f.done_at(Progress::Signaled(signaled)) <==> signaled)
            && !f.done_at(Progress::Value(value)),
{
}

/// A shader is taken for SPIR-V by its first word.
pub proof fn law_spirv_starts_with_its_number(words: Seq<u32>)
    ensures
        queue::is_spirv(words) <==> words.len() > 0 && words[0] == 0x07230203,
{
}

/// The texts of a list, in order.
pub proof fn law_texts_are_in_order(v: Seq<String>, i: int)
    requires
        0 <= i < v.len(),
    ensures
        device::texts(v).len() == v.len(),
        device::texts(v)[i] == v[i]@,
{
}

/// Adding an extension changes no other setting.
pub proof fn law_extensions_change_nothing_else(a: ManagedConfig, b: ManagedConfig)
    ensures
        a.same_but_extensions(b) <==> b.app_name == a.app_name && b.app_version == a.app_version
            && b.vulkan_version == a.vulkan_version && b.validation == a.validation
            && b.raytracing == a.raytracing,
{
}

/// An error names what went wrong, and in which context.
pub proof fn law_errors_have_their_words(e: Error, code: Seq<char>)
    ensures
        e is Vulkan ==> e.words_with(code) == "Vulkan error: "@ + code,
        e is LoadFailed ==> e.words_with(code) == "failed to load Vulkan library"@,
        e is NoSuitableDevice ==> e.words_with(code) == "no suitable physical device found"@,
        e matches Error::NoSuitableQueueFamily(t) ==> e.words_with(code) == "no queue family with "@
            + t.name_of() + " capability"@,
        e matches Error::FeatureNotEnabled(name) ==> e.words_with(code)
            == "required feature/extension not enabled: "@ + name@,
        e matches Error::InvalidConfig(msg) ==> e.words_with(code) == "invalid configuration: "@
            + msg@,
        e is ThreadPanic ==> e.words_with(code) == "worker thread panicked"@,
        e is InvalidSpirv ==> e.words_with(code) == "invalid SPIR-V data"@,
        e is Timeout ==> e.words_with(code) == "GPU fence wait timed out"@,
        e is NoSuitableMemoryType ==> e.words_with(code)
            == "no suitable memory type for the requested allocation"@,
        e is SwapchainOutOfDate ==> e.words_with(code) == "swapchain is out of date"@,
        e is SurfaceLost ==> e.words_with(code) == "surface has been lost"@,
        e matches Error::Vulkan(c) ==> e.root_code() == Some(c.raw),
        !(e is Vulkan) && !(e is Context) ==> e.root_code() is None,
        e matches Error::InvalidConfig(msg) ==> e.is_invalid_config(msg@),
        e matches Error::FeatureNotEnabled(name) ==> e.is_feature_not_enabled(name@),
        e.is_invalid_config(code) ==> e is InvalidConfig,
        e.is_feature_not_enabled(code) ==> e is FeatureNotEnabled,
{
}

} // verus!
