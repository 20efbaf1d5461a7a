//! What descriptors are written, where sets come from and which slots of the heap are in use.

use crate::error::{Error, VkResult};
use crate::pipeline::bindless;
use crate::pipeline::bindless::{
    BindlessConfig, BindlessError, BindlessHandle, BindlessHeap, Descriptor, DescriptorWrite,
    FreeList,
};
use crate::pipeline::descriptor;
use crate::pipeline::descriptor::{
    AllocationAction, AllocationStage, DescriptorArena, ManyAction, ManyAllocation, PreparedWrite,
    WriteBatch, WriteInfo,
};
use vstd::prelude::*;

verus! {

/// Every write goes into one of two lists, in order: buffers into one and images into the other.
pub proof fn law_writes_are_sorted_by_kind(w: Seq<PreparedWrite>, x: PreparedWrite)
    ensures
        descriptor::buffers_of(Seq::empty()).len() == 0,
        descriptor::images_of(Seq::empty()).len() == 0,
        x.info matches WriteInfo::Buffer(info) ==> descriptor::buffers_of(w.push(x))
            == descriptor::buffers_of(w).push(info) && descriptor::images_of(w.push(x))
            == descriptor::images_of(w),
        x.info matches WriteInfo::Image(info) ==> descriptor::images_of(w.push(x))
            == descriptor::images_of(w).push(info) && descriptor::buffers_of(w.push(x))
            == descriptor::buffers_of(w),
        descriptor::buffers_of(w).len() + descriptor::images_of(w).len() == w.len(),
    decreases w.len(),
{
    assert(w.push(x).drop_last() =~= w);
    if w.len() > 0 {
        law_writes_are_sorted_by_kind(w.drop_last(), w.last());
        assert(w.drop_last().push(w.last()) =~= w);
    }
}

/// A write of a batch has its binding and type, and the buffer or image that its place in the list
/// of its kind holds.
pub proof fn law_write_refers_to_its_list(b: WriteBatch, i: int)
    ensures
        b.resolved(i).binding == b.refs@[i].binding,
        b.resolved(i).ty == b.refs@[i].ty,
        b.refs@[i].image ==> b.resolved(i).info == WriteInfo::Image(
            b.image_infos@[b.refs@[i].index as int],
        ),
        !b.refs@[i].image ==> b.resolved(i).info == WriteInfo::Buffer(
            b.buffer_infos@[b.refs@[i].index as int],
        ),
{
}

/// A set that was handed out is the answer. A pool that ran out is followed by a new one, once; any
/// other error, and any second one, is reported.
pub proof fn law_set_comes_from_one_pool_or_the_next(code: VkResult, handle: u64)
    ensures
        descriptor::next_action(AllocationStage::First, Ok(handle)) == AllocationAction::Done(
            handle,
        ),
        code.raw == -1000069000 || code.raw == -12 ==> descriptor::next_action(
            AllocationStage::First,
            Err(code),
        ) == AllocationAction::CreatePool,
        code.raw != -1000069000 && code.raw != -12 ==> descriptor::next_action(
            AllocationStage::First,
            Err(code),
        ) == AllocationAction::Fail(Error::Vulkan(code)),
        descriptor::next_action(AllocationStage::Growing, Ok(handle))
            == AllocationAction::Allocate(handle),
        descriptor::next_action(AllocationStage::Growing, Err(code)) == AllocationAction::Fail(
            Error::Vulkan(code),
        ),
        descriptor::next_action(AllocationStage::Retry, Ok(handle)) == AllocationAction::Done(
            handle,
        ),
        descriptor::next_action(AllocationStage::Retry, Err(code)) == AllocationAction::Fail(
            Error::Vulkan(code),
        ),
{
}

/// Sets come from the pool that the arena is at.
pub proof fn law_arena_hands_out_of_its_current_pool(a: DescriptorArena, b: DescriptorArena)
    ensures
        a.pool() == a.pools@[a.current_pool as int],
        a.same_size(&b) ==> a.max_sets_per_pool == b.max_sets_per_pool && a.type_counts
            == b.type_counts,
{
}

/// A run of allocations asks for the first layout that has no set yet, and is done when each has
/// one.
pub proof fn law_run_asks_for_the_next_layout(m: ManyAllocation, pool: u64)
    requires
        m.wf(),
    ensures
        m.sets@.len() == m.layouts@.len() ==> m.request(pool) is Done,
        m.sets@.len() < m.layouts@.len() ==> m.request(pool) == (ManyAction::Allocate {
            pool,
            layout: m.layouts@[m.sets@.len() as int],
        }),
{
}

/// Arenas take turns: behind the last comes the first.
pub proof fn law_arenas_take_turns(current: int, n: int)
    requires
        0 <= current < n,
    ensures
        current < n - 1 ==> descriptor::following(current, n) == current + 1,
        current == n - 1 ==> descriptor::following(current, n) == 0,
        descriptor::after_frames(current, n, 0) == current,
        descriptor::after_frames(current, n, 1) == descriptor::following(current, n),
{
    reveal_with_fuel(descriptor::after_frames, 2);
    if current < n - 1 {
        vstd::arithmetic::div_mod::lemma_small_mod((current + 1) as nat, n as nat);
    } else {
        vstd::arithmetic::div_mod::lemma_mod_self_0(n);
    }
}

/// A new descriptor gets a slot that is not in use: the one that was freed last, or, where none was
/// freed, the first that was never used. It is written there, and the slot is in use from then on.
pub proof fn law_new_descriptor_gets_a_slot_of_its_own(
    before: FreeList,
    after: FreeList,
    set: u64,
    binding: u32,
    descriptor_type: i32,
    descriptor: Descriptor,
    handle: BindlessHandle,
    write: DescriptorWrite,
    other: int,
)
    requires
        before.sound(),
        bindless::registers(
            before,
            after,
            set,
            binding,
            descriptor_type,
            descriptor,
            Ok((handle, write)),
        ),
    ensures
        handle.slot_of() < before.capacity,
        handle.generation_of() == before.generation@[handle.slot_of() as int],
        !(handle.slot_of() < before.next_fresh && !before.free@.contains(handle.slot_of())),
        handle.slot_of() < after.next_fresh && !after.free@.contains(handle.slot_of()),
        other != handle.slot_of() ==> (after.is_live(other) <==> before.is_live(other)),
        before.free@.len() > 0 ==> handle.slot_of() == before.free@[before.free@.len() - 1],
        before.free@.len() == 0 ==> handle.slot_of() == before.next_fresh,
        write.set == set,
        write.binding == binding,
        write.element == handle.slot_of(),
        write.descriptor_type == descriptor_type,
        write.descriptor == descriptor,
        after.generation@ == before.generation@,
        after.capacity == before.capacity,
{
    let slot = handle.slot_of();
    let free = before.free@;
    if free.len() > 0 {
        assert(free.last() == free[free.len() - 1]);
        assert(free.contains(slot));
        assert forall|i: int| 0 <= i < after.free@.len() implies after.free@[i] != slot by {
            assert(after.free@[i] == free[i]);
        }
        if 0 <= other < before.next_fresh && other != slot {
            assert(after.free@.contains(other as u32) <==> free.contains(other as u32)) by {
                if free.contains(other as u32) {
                    let k = choose|k: int| 0 <= k < free.len() && free[k] == other as u32;
                    assert(k < free.len() - 1);
                    assert(after.free@[k] == other as u32);
                }
                if after.free@.contains(other as u32) {
                    let k = choose|k: int|
                        0 <= k < after.free@.len() && after.free@[k] == other as u32;
                    assert(free[k] == other as u32);
                }
            }
        }
    } else {
        assert(!free.contains(slot));
        assert(forall|x: u32| !free.contains(x));
        assert(forall|x: u32| !after.free@.contains(x));
    }
}

/// No slot is handed out exactly if all are in use, and then nothing changes.
pub proof fn law_full_heap_refuses(
    before: FreeList,
    after: FreeList,
    set: u64,
    binding: u32,
    descriptor_type: i32,
    descriptor: Descriptor,
    r: Result<(BindlessHandle, DescriptorWrite), BindlessError>,
)
    requires
        before.sound(),
        bindless::registers(before, after, set, binding, descriptor_type, descriptor, r),
    ensures
        r is Err <==> before.free@.len() == 0 && before.next_fresh == before.capacity,
        r is Err ==> after == before,
        r matches Err(e) ==> e == (BindlessError::Exhausted {
            binding: before.name,
            capacity: before.capacity,
        }),
{
}

/// A descriptor is overwritten in its slot exactly if its handle is current. A stale handle is told
/// both generations.
pub proof fn law_only_a_current_handle_updates(
    list: FreeList,
    set: u64,
    binding: u32,
    descriptor_type: i32,
    descriptor: Descriptor,
    handle: BindlessHandle,
    r: Result<DescriptorWrite, BindlessError>,
)
    requires
        list.wf(),
        handle.slot_of() < list.capacity,
        bindless::updates(list, set, binding, descriptor_type, descriptor, handle, r),
    ensures
        r is Ok <==> list.generation@[handle.slot_of() as int] == handle.generation_of(),
        r matches Ok(w) ==> w.set == set && w.binding == binding && w.element == handle.slot_of()
            && w.descriptor_type == descriptor_type && w.descriptor == descriptor,
        r matches Err(e) ==> e == (BindlessError::StaleHandle {
            slot: handle.slot_of(),
            expected_generation: handle.generation_of(),
            current_generation: list.generation@[handle.slot_of() as int],
        }),
{
}

/// A slot is freed exactly if its handle is current. It then waits at the end of the list and has
/// the next generation, and no other slot changes.
pub proof fn law_only_a_current_handle_frees(
    before: FreeList,
    after: FreeList,
    handle: BindlessHandle,
    r: Result<(), BindlessError>,
    other: int,
)
    requires
        before.wf(),
        handle.slot_of() < before.capacity,
        bindless::frees(before, after, handle, r),
    ensures
        r is Ok <==> before.generation@[handle.slot_of() as int] == handle.generation_of(),
        r is Ok ==> after.free@.len() == before.free@.len() + 1 && after.free@.last()
            == handle.slot_of() && after.free@.drop_last() == before.free@,
        r is Ok ==> after.generation@[handle.slot_of() as int] == (handle.generation_of() + 1)
            % 4294967296,
        r is Ok && 0 <= other < before.capacity && other != handle.slot_of()
            ==> after.generation@[other] == before.generation@[other],
        r is Ok ==> after.next_fresh == before.next_fresh && after.capacity == before.capacity,
        r is Err ==> after == before,
        r matches Err(e) ==> e == (BindlessError::StaleHandle {
            slot: handle.slot_of(),
            expected_generation: handle.generation_of(),
            current_generation: before.generation@[handle.slot_of() as int],
        }),
{
    if r is Ok {
        assert(after.free@.drop_last() =~= before.free@);
    }
}

/// The heap has four bindings, each with as many descriptors as the configuration says, for all
/// stages and with the same flags.
pub proof fn law_heap_has_four_bindings(config: BindlessConfig, k: int)
    requires
        0 <= k < bindless::heap_bindings(config).len(),
    ensures
        ({
            let b = bindless::heap_bindings(config);
            &&& b.len() == 4
            &&& b[k].binding == k
            &&& b[k].stages == 0x7FFF_FFFF
            &&& b[k].flags == 7
            &&& b[0].descriptor_type == 2 && b[0].count == config.sampled_images
            &&& b[1].descriptor_type == 3 && b[1].count == config.storage_images
            &&& b[2].descriptor_type == 0 && b[2].count == config.samplers
            &&& b[3].descriptor_type == 7 && b[3].count == config.storage_buffers
        }),
{
}

/// What is registered changes neither the set nor its layout nor the configuration.
pub proof fn law_heap_keeps_its_set(a: BindlessHeap, b: BindlessHeap)
    ensures
        a.same_set(&b) <==> b.layout == a.layout && b.set == a.set && b.config == a.config,
{
}

/// In a sound list no slot waits twice, every slot that waits was used before, and a slot is in use
/// exactly if it was used and does not wait.
pub proof fn law_sound_list_counts_its_slots(l: FreeList, i: int, j: int, slot: int)
    requires
        l.sound(),
        0 <= i < j < l.free@.len(),
    ensures
        l.free@[i] != l.free@[j],
        l.free@[i] < l.next_fresh <= l.capacity,
        !l.is_live(l.free@[i] as int),
        l.is_live(slot) ==> 0 <= slot < l.next_fresh && slot != l.free@[i],
        l.next_fresh <= slot ==> !l.is_live(slot),
{
    assert(l.free@.contains(l.free@[i]));
}

/// A heap is sound if each of its four lists is.
pub proof fn law_heap_is_sound_by_its_lists(h: BindlessHeap)
    ensures
        h.sound() <==> h.sampled_images.sound() && h.storage_images.sound() && h.samplers.sound()
            && h.storage_buffers.sound(),
        h.sound() ==> h.wf(),
{
}

} // verus!
