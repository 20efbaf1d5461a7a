//! What callers of the slab allocator can rely on, in terms of the values that they see.

use crate::error::Error;
use crate::memory::allocator;
use crate::memory::allocator::Allocation;
use crate::memory::allocator::MemoryRequirements;
use crate::memory::resources::MemoryLocation;
use crate::memory::slab;
use crate::memory::slab::CallSite;
use crate::memory::slab::FreeOutcome;
use crate::memory::slab::Slab;
use crate::memory::slab::SlabAllocator;
use crate::memory::slab::SlabGrant;
use crate::memory::slab::SlabRequest;
use crate::memory::slab::SlabStep;
use crate::memory::slab::SlotEventKind;
use vstd::prelude::*;

verus! {

/// The mapped address of an allocation is that of its slab plus its offset: what the host writes
/// there is what the device reads at the offset. Without a mapping there is no address.
pub proof fn law_address_is_base_plus_offset(
    before: SlabAllocator,
    after: SlabAllocator,
    requirements: MemoryRequirements,
    location: MemoryLocation,
    site: CallSite,
    g: SlabGrant,
)
    requires
        before.wf(),
        before.answers(&after, requirements, location, site, Ok(SlabStep::Done(g))),
    ensures
        ({
            let s =
                before.pools@[g.allocation.memory_type_index as int].size_pools@[g.size_class as int]@[g.slab as int];
            &&& g.allocation.memory == s.memory
            &&& s.mapped_base matches Some(base) ==> (g.allocation.mapped_ptr matches Some(p) && p
                == base + g.allocation.offset)
            &&& s.mapped_base is None ==> g.allocation.mapped_ptr is None
        }),
{
    let m = g.allocation.memory_type_index as int;
    let c = g.size_class as int;
    let s = before.pools@[m].size_pools@[c]@[g.slab as int];
    assert(slab::type_pool_wf(before.pools@[m]));
    assert(s.wf());
    slab::law_user_data_stays_in_slot(
        s,
        g.slot as int,
        requirements.size,
        allocator::effective_alignment(requirements.alignment),
        before.config.right_align,
    );
}

/// The mapped address of the first allocation of a new slab is that of the slab plus its offset.
pub proof fn law_first_address_is_base_plus_offset(
    before: SlabAllocator,
    after: SlabAllocator,
    requirements: MemoryRequirements,
    request: SlabRequest,
    memory: u64,
    mapped_base: Option<u64>,
    seed: u64,
    site: CallSite,
    a: Allocation,
)
    requires
        before.wf(),
        slab::is_class_for(
            requirements.size,
            allocator::effective_alignment(requirements.alignment),
            request.size_class as int,
        ),
        request.slot_size == slab::class_size(request.size_class as int),
        before.grows(&after, requirements, request, memory, mapped_base, seed, site, a),
    ensures
        a.memory == memory,
        a.size == requirements.size,
        a.memory_type_index == request.memory_type_index,
        a.offset + a.size <= request.size,
        mapped_base matches Some(base) ==> (a.mapped_ptr matches Some(p) && p == base + a.offset),
        mapped_base is None ==> a.mapped_ptr is None,
{
    let m = request.memory_type_index as int;
    let c = request.size_class as int;
    let alignment = allocator::effective_alignment(requirements.alignment);
    let (fresh, slot) = choose|fresh: Slab, slot: u32|
        {
            &&& before.is_fresh(fresh, request, memory, mapped_base, seed, site)
            &&& slot < fresh.slot_count
            &&& #[trigger] fresh.takes(
                &after.pools@[m].size_pools@[c]@.last(),
                slot as int,
                requirements.size,
                site,
            )
            &&& a.offset == fresh.user_offset(
                slot as int,
                requirements.size,
                alignment,
                before.config.right_align,
            )
            &&& a.mapped_ptr == SlabAllocator::mapped_at(fresh, a.offset as int)
        };
    slab::law_user_data_stays_in_slot(
        fresh,
        slot as int,
        requirements.size,
        alignment,
        before.config.right_align,
    );
}

/// The bytes in front of right-aligned data are a multiple of the alignment, and leave room for the
/// data and for less than the alignment behind it.
pub proof fn law_right_aligned_data_is_pushed_to_the_end(
    slot_size: u64,
    user_size: u64,
    alignment: u64,
)
    requires
        user_size <= slot_size,
    ensures
        ({
            let a: int = if alignment == 0 {
                1
            } else {
                alignment as int
            };
            let prefix = slab::prefix_bytes(slot_size, user_size, alignment);
            &&& 0 <= prefix
            &&& prefix % a == 0
            &&& prefix + user_size <= slot_size
            &&& slot_size < prefix + user_size + a
        }),
{
    slab::lemma_prefix(slot_size, user_size, alignment);
}

/// The offset of an allocation in a slab is where its slot begins, and behind the prefix where data
/// is right-aligned.
pub proof fn law_data_stands_behind_its_prefix(
    s: Slab,
    slot: int,
    user_size: u64,
    alignment: u64,
)
    requires
        s.wf(),
        0 <= slot < s.slot_count,
        user_size <= s.slot_size,
    ensures
        s.user_offset(slot, user_size, alignment, false) == slot * s.slot_size,
        s.user_offset(slot, user_size, alignment, true) == slot * s.slot_size
            + slab::prefix_bytes(s.slot_size, user_size, alignment),
{
}

/// A class is 256 bytes or twice the class below it, and the one for a request is the least that
/// holds its size and its alignment.
pub proof fn law_class_is_the_least_that_holds(size: u64, alignment: u64, c: int)
    requires
        slab::is_class_for(size, alignment, c),
    ensures
        slab::class_size(0) == 256,
        slab::class_size(c + 1) == 2 * slab::class_size(c),
        size <= slab::class_size(c),
        alignment <= slab::class_size(c),
        256 <= slab::class_size(c) <= 1048576,
        slab::class_size(c) == 256 || 2 * size > slab::class_size(c) || 2 * alignment
            > slab::class_size(c),
{
    lemma_class_bounds(c);
    if c > 0 {
        assert(size > slab::class_size(c - 1) || alignment > slab::class_size(c - 1));
    }
}

proof fn lemma_class_bounds(c: int)
    requires
        0 <= c < 13,
    ensures
        256 <= slab::class_size(c) <= 1048576,
        slab::class_size(12) == 1048576,
{
    reveal_with_fuel(slab::class_size, 14);
}

/// A request needs a memory object of its own where its size or its alignment is above a mebibyte,
/// and only there.
pub proof fn law_only_large_requests_are_dedicated(size: u64, alignment: u64)
    ensures
        slab::exceeds_classes(size, alignment) <==> size > 1048576 || alignment > 1048576,
        !slab::exceeds_classes(size, alignment) ==> exists|c: int|
            slab::is_class_for(size, alignment, c),
{
    lemma_class_bounds(12);
    assert forall|j: int| 0 <= j < 13 implies #[trigger] slab::class_size(j) <= 1048576 by {
        lemma_class_bounds(j);
    }
    if !slab::exceeds_classes(size, alignment) {
        lemma_least_class(size, alignment, 12);
    }
    if size <= 1048576 && alignment <= 1048576 {
        assert(!(size > slab::class_size(12) || alignment > slab::class_size(12)));
    }
}

proof fn lemma_least_class(size: u64, alignment: u64, c: int)
    requires
        0 <= c < 13,
        size <= slab::class_size(c),
        alignment <= slab::class_size(c),
    ensures
        exists|d: int| slab::is_class_for(size, alignment, d),
    decreases c,
{
    if exists|j: int|
        0 <= j < c && size <= #[trigger] slab::class_size(j) && alignment <= slab::class_size(j) {
        let j = choose|j: int|
            0 <= j < c && size <= #[trigger] slab::class_size(j) && alignment <= slab::class_size(
                j,
            );
        lemma_least_class(size, alignment, j);
    } else {
        assert(slab::is_class_for(size, alignment, c));
    }
}

/// The search for a slot starts at a place that the generator gives, and passes only slots that are
/// in use or in quarantine.
pub proof fn law_search_passes_no_free_slot(
    before: Slab,
    after: Slab,
    slot: int,
    user_size: u64,
    site: CallSite,
    j: int,
)
    requires
        before.wf(),
        before.takes(&after, slot, user_size, site),
        0 <= j < before.slot_count,
        ({
            let start = slab::mixed(before.rng.state.wrapping_add(0x9E3779B97F4A7C15))
                % (before.slot_count as u64);
            if start <= slot {
                start <= j < slot
            } else {
                j < slot || start <= j
            }
        }),
    ensures
        before.allocated.has(j) || before.quarantine.has(j),
{
    let n = before.slot_count as int;
    let start = before.search_start();
    let d = choose|d: int| #[trigger] before.picks_after(slot, d);
    assert(before.picks_after(slot, d));
    let e = if j >= start {
        j - start
    } else {
        j - start + n
    };
    assert(0 <= start < n);
    if start + d < n {
        vstd::arithmetic::div_mod::lemma_small_mod((start + d) as nat, n as nat);
    } else {
        vstd::arithmetic::div_mod::lemma_mod_add_multiples_vanish(start + d - n, n);
        vstd::arithmetic::div_mod::lemma_small_mod((start + d - n) as nat, n as nat);
    }
    if start + e < n {
        vstd::arithmetic::div_mod::lemma_small_mod((start + e) as nat, n as nat);
    } else {
        vstd::arithmetic::div_mod::lemma_mod_add_multiples_vanish(start + e - n, n);
        vstd::arithmetic::div_mod::lemma_small_mod((start + e - n) as nat, n as nat);
    }
    assert((start + e) % n == j);
    assert(0 <= e < d);
    assert(!before.slot_free((start + e) % n));
}

/// Taking a slot changes that slot only: all others stay in use, in quarantine or free.
pub proof fn law_taking_changes_one_slot(
    before: Slab,
    after: Slab,
    slot: int,
    user_size: u64,
    site: CallSite,
    j: int,
)
    requires
        before.wf(),
        before.takes(&after, slot, user_size, site),
        0 <= j < before.slot_count,
        j != slot,
    ensures
        after.allocated.has(j) == before.allocated.has(j),
        after.quarantine.has(j) == before.quarantine.has(j),
        after.allocated.has(slot),
        after.user_sizes@[slot] == user_size,
        after.user_sizes@[j] == before.user_sizes@[j],
        after.free_count == before.free_count - 1,
        after.memory == before.memory,
        after.slot_size == before.slot_size,
        after.slot_count == before.slot_count,
        after.mapped_base == before.mapped_base,
{
    slab::law_only_free_slots_are_taken(before, after, slot, user_size, site);
}

/// Freeing a slot takes it out of use and leaves all others as they were. Without quarantine it is
/// free at once. A quarantine that is not full takes it in and lets none go; a full one takes it in
/// and lets the oldest go.
pub proof fn law_quarantine_is_filled_before_it_is_emptied(
    before: Slab,
    after: Slab,
    slot: int,
    site: CallSite,
    j: int,
)
    requires
        before.wf(),
        after.wf(),
        0 <= slot < before.slot_count,
        before.allocated.has(slot),
        before.gives_back(&after, slot, site),
        0 <= j < before.slot_count,
        j != slot,
    ensures
        !after.allocated.has(slot),
        after.allocated.has(j) == before.allocated.has(j),
        before.quarantine_max == 0 ==> !after.quarantine.has(slot) && after.free_count
            == before.free_count + 1,
        before.quarantine_fifo@.len() < before.quarantine_max ==> {
            &&& after.quarantine.has(slot)
            &&& after.quarantine.has(j) == before.quarantine.has(j)
            &&& after.quarantine_fifo@.len() == before.quarantine_fifo@.len() + 1
            &&& after.free_count == before.free_count
        },
        before.quarantine_max > 0 && before.quarantine_fifo@.len() == before.quarantine_max ==> {
            &&& after.quarantine.has(slot)
            &&& after.quarantine.has(j) == (before.quarantine.has(j) && j
                != before.quarantine_fifo@[0])
            &&& after.quarantine_fifo@.len() == before.quarantine_max
            &&& after.free_count == before.free_count + 1
        },
{
    let old_q = before.quarantine_fifo@;
    let new_q = after.quarantine_fifo@;
    let pushed = old_q.push(slot as u32);
    assert(before.quarantine.has(j) == old_q.contains(j as u32));
    assert(after.quarantine.has(j) == new_q.contains(j as u32));
    assert(after.quarantine.has(slot) == new_q.contains(slot as u32));
    assert(!before.quarantine.has(slot));
    assert(!old_q.contains(slot as u32));
    assert(pushed.contains(j as u32) == old_q.contains(j as u32)) by {
        if old_q.contains(j as u32) {
            let i = choose|i: int| 0 <= i < old_q.len() && old_q[i] == j as u32;
            assert(pushed[i] == j as u32);
        }
        if pushed.contains(j as u32) {
            let i = choose|i: int| 0 <= i < pushed.len() && pushed[i] == j as u32;
            assert(i < old_q.len());
            assert(old_q[i] == j as u32);
        }
    }
    if before.quarantine_max > 0 {
        assert(pushed[old_q.len() as int] == slot as u32);
        if old_q.len() < before.quarantine_max {
            assert(new_q == pushed);
            assert(new_q.contains(slot as u32));
        } else {
            let rest = pushed.skip(1);
            assert(new_q == rest);
            assert(rest[rest.len() - 1] == slot as u32);
            assert(old_q.len() > 0);
            if pushed.contains(j as u32) && j != old_q[0] {
                let i = choose|i: int| 0 <= i < pushed.len() && pushed[i] == j as u32;
                assert(rest[i - 1] == j as u32);
            }
            if rest.contains(j as u32) {
                let i = choose|i: int| 0 <= i < rest.len() && rest[i] == j as u32;
                assert(pushed[i + 1] == j as u32);
                if j == old_q[0] {
                    assert(old_q[i + 1] == old_q[0]);
                }
            }
        }
    }
}

/// Taking a slot is written down as the last event of its history, with the age of the slab and the
/// caller, and the histories of the others stay as they were.
pub proof fn law_history_tells_who_took_a_slot(
    before: Slab,
    after: Slab,
    slot: int,
    user_size: u64,
    site: CallSite,
    j: int,
)
    requires
        before.wf(),
        after.wf(),
        before.takes(&after, slot, user_size, site),
        before.history is Some,
        0 <= j < before.slot_count,
        j != slot,
    ensures
        after.history is Some,
        ({
            let ring = after.history->0.events@[slot]@;
            let old_ring = before.history->0.events@[slot]@;
            &&& ring.len() > 0
            &&& ring.last().kind == SlotEventKind::Allocated
            &&& ring.last().caller_hash == site.caller_hash
            &&& ring.last().timestamp_us == if site.now_us >= before.created_us {
                site.now_us - before.created_us
            } else {
                0
            }
            &&& ring.len() == if old_ring.len() < before.history->0.ring_cap {
                old_ring.len() + 1
            } else {
                before.history->0.ring_cap as nat
            }
        }),
        after.history->0.events@[j]@ == before.history->0.events@[j]@,
{
    slab::law_only_free_slots_are_taken(before, after, slot, user_size, site);
    let old_rings = before.history->0.rings();
    let new_rings = after.history->0.rings();
    assert(after.rings() == Some(new_rings));
    assert(new_rings[slot] == after.history->0.events@[slot]@);
    assert(new_rings[j] == after.history->0.events@[j]@);
    assert(old_rings[j] == before.history->0.events@[j]@);
    assert(old_rings[slot] == before.history->0.events@[slot]@);
}

/// Freeing an allocation in a slab has its slot zeroed where the configuration asks for it and the
/// slab is mapped, and only there.
pub proof fn law_freed_memory_is_zeroed_where_asked(
    before: SlabAllocator,
    after: SlabAllocator,
    allocation: Allocation,
    site: CallSite,
    r: FreeOutcome,
)
    requires
        before.wf(),
        allocation.memory_type_index < before.pools@.len(),
        before.frees(&after, allocation, site, r),
    ensures
        r matches FreeOutcome::Freed { size_class, slab: k, slot, zero } ==> {
            let s =
                before.pools@[allocation.memory_type_index as int].size_pools@[size_class as int]@[k as int];
            &&& zero <==> before.config.zero_on_free && s.mapped_base is Some
            &&& s.memory == allocation.memory
            &&& s.slot_size > 0
            &&& slot * s.slot_size <= allocation.offset < slot * s.slot_size + s.slot_size
        },
        r matches FreeOutcome::Dedicated(e) ==> e.memory == allocation.memory
            && after.dedicated@.len() == before.dedicated@.len() - 1,
        r is DoubleFree ==> after.double_free_count == if before.double_free_count == u64::MAX {
            0
        } else {
            before.double_free_count + 1
        },
        !(r is DoubleFree) ==> after.double_free_count == before.double_free_count,
{
    match r {
        FreeOutcome::Freed { size_class, slab: k, slot, zero } => {
            let m = allocation.memory_type_index as int;
            assert(slab::type_pool_wf(before.pools@[m]));
            let s = before.pools@[m].size_pools@[size_class as int]@[k as int];
            assert(s.wf());
            vstd::arithmetic::div_mod::lemma_fundamental_div_mod(
                allocation.offset as int,
                s.slot_size as int,
            );
            vstd::arithmetic::div_mod::lemma_mod_bound(
                allocation.offset as int,
                s.slot_size as int,
            );
            vstd::arithmetic::mul::lemma_mul_is_commutative(slot as int, s.slot_size as int);
        },
        _ => {},
    }
}

/// What `allocate` answers says what to do next: a request above a mebibyte asks for a memory object
/// of its own, and one below asks for a slab only where no slab of its class has a free slot.
pub proof fn law_slab_is_asked_for_only_when_needed(
    before: SlabAllocator,
    after: SlabAllocator,
    requirements: MemoryRequirements,
    location: MemoryLocation,
    site: CallSite,
    r: Result<SlabStep, Error>,
)
    requires
        before.wf(),
        before.answers(&after, requirements, location, site, r),
    ensures
        r matches Ok(SlabStep::NeedDedicated(q)) ==> q.size == requirements.size && (
        requirements.size > 1048576 || requirements.alignment > 1048576),
        r matches Ok(SlabStep::NeedSlab(q)) ==> {
            &&& q.slot_size >= requirements.size
            &&& q.slot_size >= requirements.alignment
            &&& q.size >= q.slot_size
            &&& q.size >= before.config.slab_size
            &&& forall|k: int|
                0 <= k
                    < before.pools@[q.memory_type_index as int].size_pools@[q.size_class as int]@.len()
                    ==> (
                #[trigger] before.pools@[q.memory_type_index as int].size_pools@[q.size_class as int]@[k]).free_count
                    == 0
        },
        r matches Ok(SlabStep::Done(g)) ==> {
            &&& g.allocation.size == requirements.size
            &&& g.prefix <= g.allocation.offset
            &&& g.check_prefix <==> before.config.detect_overflow && before.config.right_align
        },
{
    let alignment = allocator::effective_alignment(requirements.alignment);
    match r {
        Ok(SlabStep::NeedDedicated(q)) => {
            law_only_large_requests_are_dedicated(requirements.size, alignment);
        },
        Ok(SlabStep::NeedSlab(q)) => {
            law_class_is_the_least_that_holds(
                requirements.size,
                alignment,
                q.size_class as int,
            );
        },
        Ok(SlabStep::Done(g)) => {
            let m = g.allocation.memory_type_index as int;
            let s = before.pools@[m].size_pools@[g.size_class as int]@[g.slab as int];
            assert(slab::type_pool_wf(before.pools@[m]));
            assert(s.wf());
            slab::lemma_slot_range(g.slot as int, s.slot_count as int, s.slot_size as int);
        },
        Err(_) => {},
    }
}

} // verus!
