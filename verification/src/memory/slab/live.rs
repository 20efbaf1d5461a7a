//! Where the allocations of a slab allocator lie while they are live.

use crate::error::Error;
use crate::memory::allocator;
use crate::memory::allocator::Allocation;
use crate::memory::allocator::BlockRequest;
use crate::memory::allocator::MemoryRequirements;
use crate::memory::resources::MemoryLocation;
use crate::memory::slab;
use crate::memory::slab::CallSite;
use crate::memory::slab::DedicatedEntry;
use crate::memory::slab::FreeOutcome;
use crate::memory::slab::Slab;
use crate::memory::slab::SlabAllocator;
use crate::memory::slab::SlabRequest;
use crate::memory::slab::SlabStep;
use crate::memory::slab::SIZE_CLASS_COUNT;
use crate::vulkan;
use vstd::prelude::*;

verus! {

/// Where an allocation lies.
pub enum Place {
    /// In a slot of a slab, given by memory type, size class and number.
    Slot { m: int, c: int, k: int, slot: int },
    /// In a memory object of its own.
    Dedicated { memory: u64 },
}

/// Two allocations have no byte in common.
pub open spec fn apart(a: Allocation, b: Allocation) -> bool {
    ||| a.memory != b.memory
    ||| a.offset + a.size <= b.offset
    ||| b.offset + b.size <= a.offset
}

/// The live allocations once a request has been answered.
pub open spec fn live_after(
    live: Seq<Allocation>,
    r: Result<SlabStep, Error>,
) -> Seq<Allocation> {
    match r {
        Ok(SlabStep::Done(g)) => live.push(g.allocation),
        _ => live,
    }
}

/// An allocation is what was asked for: it has the size, a memory type that is allowed and the
/// alignment, and lies in one slot of the least class that holds the size and the alignment, as
/// near to its end as the alignment allows if it is right-aligned.
pub open spec fn meets(
    a: Allocation,
    requirements: MemoryRequirements,
    right_align: bool,
) -> bool {
    let alignment = allocator::effective_alignment(requirements.alignment);
    &&& a.size == requirements.size
    &&& requirements.memory_type_bits & (1u32 << a.memory_type_index) != 0
    &&& vulkan::is_pow2(alignment) ==> a.offset % alignment == 0
    &&& exists|c: int, slot: int| #[trigger]
        slab::is_class_for(requirements.size, alignment, c) && 0 <= slot && #[trigger] in_slot_of(
            a,
            slab::class_size(c),
            slot,
        ) && (right_align ==> a.offset == slot * slab::class_size(c) + slab::prefix_bytes(
            slab::class_size(c) as u64,
            a.size,
            alignment,
        ))
}

/// The bytes of an allocation lie in slot number `slot` of slots of a size.
pub open spec fn in_slot_of(a: Allocation, slot_size: int, slot: int) -> bool {
    &&& slot * slot_size <= a.offset
    &&& a.offset + a.size <= slot * slot_size + slot_size
}

impl SlabAllocator {
    /// There is a slab with this number.
    pub open spec fn has_slab(&self, m: int, c: int, k: int) -> bool {
        &&& 0 <= m < self.pools@.len()
        &&& 0 <= c < SIZE_CLASS_COUNT
        &&& 0 <= k < self.pools@[m].size_pools@[c]@.len()
    }

    /// The slab with this number.
    pub open spec fn slab_at(&self, m: int, c: int, k: int) -> Slab {
        self.pools@[m].size_pools@[c]@[k]
    }

    /// No slab and no dedicated entry has this memory handle.
    pub open spec fn is_new_memory(&self, memory: u64) -> bool {
        &&& forall|m: int, c: int, k: int| #[trigger]
            self.has_slab(m, c, k) ==> self.slab_at(m, c, k).memory != memory
        &&& forall|p: int|
            0 <= p < self.dedicated@.len() ==> (#[trigger] self.dedicated@[p]).memory != memory
    }

    /// All slabs and dedicated entries have handles of their own.
    pub open spec fn distinct_memory(&self) -> bool {
        &&& forall|m: int, c: int, k: int, m2: int, c2: int, k2: int|
            #![trigger self.has_slab(m, c, k), self.has_slab(m2, c2, k2)]
            self.has_slab(m, c, k) && self.has_slab(m2, c2, k2) && self.slab_at(m, c, k).memory
                == self.slab_at(m2, c2, k2).memory ==> m == m2 && c == c2 && k == k2
        &&& forall|m: int, c: int, k: int, p: int|
            #![trigger self.has_slab(m, c, k), self.dedicated@[p]]
            self.has_slab(m, c, k) && 0 <= p < self.dedicated@.len() ==> self.slab_at(
                m,
                c,
                k,
            ).memory != self.dedicated@[p].memory
        &&& forall|p: int, q: int|
            0 <= p < q < self.dedicated@.len() ==> (#[trigger] self.dedicated@[p]).memory != (
            #[trigger] self.dedicated@[q]).memory
    }

    /// An allocation lies at a place that is in use.
    pub open spec fn lies_at(&self, a: Allocation, place: Place) -> bool {
        match place {
            Place::Slot { m, c, k, slot } => {
                &&& self.has_slab(m, c, k)
                &&& m == a.memory_type_index
                &&& a.memory == self.slab_at(m, c, k).memory
                &&& 0 <= slot < self.slab_at(m, c, k).slot_count
                &&& self.slab_at(m, c, k).allocated.has(slot)
                &&& in_slot_of(a, self.slab_at(m, c, k).slot_size as int, slot)
            },
            Place::Dedicated { memory } => {
                &&& a.memory == memory
                &&& exists|p: int|
                    0 <= p < self.dedicated@.len() && (#[trigger] self.dedicated@[p]).memory
                        == memory
            },
        }
    }

    /// An allocation lies somewhere.
    pub open spec fn has_place(&self, a: Allocation) -> bool {
        exists|p: Place| self.lies_at(a, p)
    }

    /// These are live allocations: none is empty, each lies at a place that is in use, and no two
    /// share one.
    pub open spec fn holds(&self, live: Seq<Allocation>) -> bool {
        &&& forall|i: int| 0 <= i < live.len() ==> (#[trigger] live[i]).size > 0
        &&& forall|i: int| 0 <= i < live.len() ==> self.has_place(#[trigger] live[i])
        &&& forall|i: int, j: int, p: Place|
            0 <= i < j < live.len() ==> !(#[trigger] self.lies_at(live[i], p)
                && #[trigger] self.lies_at(live[j], p))
    }
}

/// A slab of a well-formed allocator is well-formed and has slots of its class.
proof fn lemma_slab_wf(x: SlabAllocator, m: int, c: int, k: int)
    requires
        x.wf(),
        x.has_slab(m, c, k),
    ensures
        x.slab_at(m, c, k).wf(),
        x.slab_at(m, c, k).slot_size == slab::class_size(c),
{
    assert(slab::type_pool_wf(x.pools@[m]));
    assert(x.pools@[m].size_pools@[c]@[k].wf());
}

/// What lies in different slots of one slab has no byte in common.
proof fn lemma_slots_apart(a: Allocation, b: Allocation, slot_size: int, s: int, t: int)
    requires
        0 <= slot_size,
        s != t,
        in_slot_of(a, slot_size, s),
        in_slot_of(b, slot_size, t),
    ensures
        apart(a, b),
{
    assert(s < t ==> s * slot_size + slot_size <= t * slot_size) by (nonlinear_arith)
        requires
            0 <= slot_size,
    ;
    assert(t < s ==> t * slot_size + slot_size <= s * slot_size) by (nonlinear_arith)
        requires
            0 <= slot_size,
    ;
}

/// Allocations at different places have no byte in common.
proof fn lemma_places_apart(x: SlabAllocator, a: Allocation, p: Place, b: Allocation, q: Place)
    requires
        x.wf(),
        x.distinct_memory(),
        x.lies_at(a, p),
        x.lies_at(b, q),
        p != q,
    ensures
        apart(a, b),
{
    if a.memory == b.memory {
        match p {
            Place::Slot { m, c, k, slot } => match q {
                Place::Slot { m: m2, c: c2, k: k2, slot: slot2 } => {
                    assert(x.has_slab(m, c, k) && x.has_slab(m2, c2, k2));
                    lemma_slots_apart(a, b, x.slab_at(m, c, k).slot_size as int, slot, slot2);
                },
                Place::Dedicated { memory } => {
                    assert(x.has_slab(m, c, k));
                },
            },
            Place::Dedicated { memory } => match q {
                Place::Slot { m, c, k, slot } => {
                    assert(x.has_slab(m, c, k));
                },
                Place::Dedicated { memory: memory2 } => {},
            },
        }
    }
}

/// With handles of their own for all memory objects, no two live allocations have a byte in
/// common.
pub proof fn law_live_allocations_are_apart(x: SlabAllocator, live: Seq<Allocation>, i: int, j: int)
    requires
        x.wf(),
        x.distinct_memory(),
        x.holds(live),
        0 <= i < j < live.len(),
    ensures
        apart(live[i], live[j]),
{
    let p = choose|p: Place| x.lies_at(live[i], p);
    let q = choose|q: Place| x.lies_at(live[j], q);
    assert(x.lies_at(live[i], p) && x.lies_at(live[j], q));
    if p != q {
        lemma_places_apart(x, live[i], p, live[j], q);
    }
}

/// A new allocator holds nothing, and its memory objects have handles of their own.
pub proof fn law_new_allocator_holds_nothing(x: SlabAllocator)
    requires
        x.wf(),
        x.is_empty(),
    ensures
        x.distinct_memory(),
        x.holds(Seq::empty()),
{
    assert forall|m: int, c: int, k: int| !#[trigger] x.has_slab(m, c, k) by {
        if x.has_slab(m, c, k) {
            assert(x.pools@[m].size_pools@[c]@.len() == 0);
        }
    }
}

/// An allocation that is not empty lies at one place only.
proof fn lemma_one_place(x: SlabAllocator, a: Allocation, p: Place, q: Place)
    requires
        x.wf(),
        x.distinct_memory(),
        a.size > 0,
        x.lies_at(a, p),
        x.lies_at(a, q),
    ensures
        p == q,
{
    if p != q {
        lemma_places_apart(x, a, p, a, q);
    }
}

/// The place of each live allocation.
spec fn places(x: SlabAllocator, live: Seq<Allocation>) -> spec_fn(int) -> Place {
    |i: int| choose|p: Place| x.lies_at(live[i], p)
}

/// Live allocations lie at their places, which differ.
proof fn lemma_places(x: SlabAllocator, live: Seq<Allocation>)
    requires
        x.holds(live),
    ensures
        forall|i: int| 0 <= i < live.len() ==> x.lies_at(live[i], #[trigger] places(x, live)(i)),
        forall|i: int, j: int|
            0 <= i < j < live.len() ==> #[trigger] places(x, live)(i) != #[trigger] places(x, live)(
                j,
            ),
{
    assert forall|i: int| 0 <= i < live.len() implies x.lies_at(
        live[i],
        #[trigger] places(x, live)(i),
    ) by {
        let p = choose|p: Place| x.lies_at(live[i], p);
        assert(x.lies_at(live[i], p));
    }
    assert forall|i: int, j: int| 0 <= i < j < live.len() implies #[trigger] places(x, live)(i)
        != #[trigger] places(x, live)(j) by {
        assert(x.lies_at(live[i], places(x, live)(i)));
        assert(x.lies_at(live[j], places(x, live)(j)));
    }
}

/// Allocations that lie at different places are live together.
proof fn lemma_holds_by(x: SlabAllocator, live: Seq<Allocation>, f: spec_fn(int) -> Place)
    requires
        x.wf(),
        x.distinct_memory(),
        forall|i: int| 0 <= i < live.len() ==> (#[trigger] live[i]).size > 0,
        forall|i: int| 0 <= i < live.len() ==> x.lies_at(live[i], #[trigger] f(i)),
        forall|i: int, j: int| 0 <= i < j < live.len() ==> #[trigger] f(i) != #[trigger] f(j),
    ensures
        x.holds(live),
{
    assert forall|i: int| 0 <= i < live.len() implies x.has_place(
        #[trigger] live[i],
    ) by {
        assert(x.lies_at(live[i], f(i)));
    }
    assert forall|i: int, j: int, p: Place| 0 <= i < j < live.len() implies !(
    #[trigger] x.lies_at(live[i], p) && #[trigger] x.lies_at(live[j], p)) by {
        if x.lies_at(live[i], p) && x.lies_at(live[j], p) {
            lemma_one_place(x, live[i], p, f(i));
            lemma_one_place(x, live[j], p, f(j));
        }
    }
}

/// One allocation more, at a place where no other lies.
proof fn lemma_one_more(
    before: SlabAllocator,
    after: SlabAllocator,
    live: Seq<Allocation>,
    a: Allocation,
    place: Place,
)
    requires
        after.wf(),
        after.distinct_memory(),
        before.holds(live),
        a.size > 0,
        after.lies_at(a, place),
        forall|i: int, p: Place|
            0 <= i < live.len() && #[trigger] before.lies_at(live[i], p) ==> after.lies_at(
                live[i],
                p,
            ) && p != place,
    ensures
        after.holds(live.push(a)),
        forall|i: int| 0 <= i < live.len() ==> apart(#[trigger] live[i], a),
{
    let all = live.push(a);
    let old_places = places(before, live);
    let f = |i: int|
        if i < live.len() {
            old_places(i)
        } else {
            place
        };
    lemma_places(before, live);
    assert forall|i: int| 0 <= i < all.len() implies after.lies_at(all[i], #[trigger] f(i)) by {
        if i < live.len() {
            assert(all[i] == live[i]);
            assert(before.lies_at(live[i], old_places(i)));
        }
    }
    assert forall|i: int, j: int| 0 <= i < j < all.len() implies #[trigger] f(i) != #[trigger] f(
        j,
    ) by {
        assert(before.lies_at(live[i], old_places(i)));
        if j < live.len() {
            assert(old_places(i) != old_places(j));
        }
    }
    assert forall|i: int| 0 <= i < all.len() implies (#[trigger] all[i]).size > 0 by {
        if i < live.len() {
            assert(all[i] == live[i]);
        }
    }
    lemma_holds_by(after, all, f);
    assert forall|i: int| 0 <= i < live.len() implies apart(#[trigger] live[i], a) by {
        law_live_allocations_are_apart(after, all, i, live.len() as int);
    }
}

/// Where the slabs and the dedicated entries are the same, so are the live allocations.
proof fn lemma_same_memory(before: SlabAllocator, after: SlabAllocator, live: Seq<Allocation>)
    requires
        before.distinct_memory(),
        before.holds(live),
        after.pools@ == before.pools@,
        after.dedicated@ == before.dedicated@,
    ensures
        after.distinct_memory(),
        after.holds(live),
{
    assert forall|m: int, c: int, k: int| #[trigger]
        after.has_slab(m, c, k) == before.has_slab(m, c, k) by {}
    assert forall|a: Allocation, p: Place| #[trigger]
        after.lies_at(a, p) == before.lies_at(a, p) by {}
    lemma_places(before, live);
    assert forall|i: int| 0 <= i < live.len() implies after.has_place(
        #[trigger] live[i],
    ) by {
        assert(before.lies_at(live[i], places(before, live)(i)));
        assert(after.lies_at(live[i], places(before, live)(i)));
    }
}

/// A slab that changes in none of its handle and shape leaves the handles distinct.
proof fn lemma_distinct_after_change(
    before: SlabAllocator,
    after: SlabAllocator,
    m: int,
    c: int,
    k: int,
)
    requires
        before.wf(),
        before.distinct_memory(),
        before.has_slab(m, c, k),
        slab::only_slab_changes(before.pools@, after.pools@, m, c, k),
        before.slab_at(m, c, k).same_shape(&after.slab_at(m, c, k)),
        after.dedicated@ == before.dedicated@,
    ensures
        after.distinct_memory(),
        forall|m2: int, c2: int, k2: int| #[trigger]
            after.has_slab(m2, c2, k2) == before.has_slab(m2, c2, k2),
        forall|m2: int, c2: int, k2: int| #[trigger]
            before.has_slab(m2, c2, k2) ==> before.slab_at(m2, c2, k2).same_shape(
                &after.slab_at(m2, c2, k2),
            ),
        forall|m2: int, c2: int, k2: int| #[trigger]
            before.has_slab(m2, c2, k2) && (m2, c2, k2) != (m, c, k) ==> after.slab_at(m2, c2, k2)
                == before.slab_at(m2, c2, k2),
{
    assert(slab::type_pool_wf(before.pools@[m]));
    assert forall|m2: int, c2: int, k2: int| #[trigger]
        after.has_slab(m2, c2, k2) == before.has_slab(m2, c2, k2) by {
        if 0 <= m2 < before.pools@.len() && 0 <= c2 < SIZE_CLASS_COUNT {
            if m2 == m {
                if c2 != c {
                    assert(after.pools@[m].size_pools@[c2] == before.pools@[m].size_pools@[c2]);
                }
            } else {
                assert(after.pools@[m2] == before.pools@[m2]);
            }
        }
    }
    assert forall|m2: int, c2: int, k2: int| #[trigger]
        before.has_slab(m2, c2, k2) && (m2, c2, k2) != (m, c, k) implies after.slab_at(m2, c2, k2)
        == before.slab_at(m2, c2, k2) by {
        if m2 == m {
            if c2 != c {
                assert(after.pools@[m].size_pools@[c2] == before.pools@[m].size_pools@[c2]);
            }
        } else {
            assert(after.pools@[m2] == before.pools@[m2]);
        }
    }
}

/// A request for memory keeps what is live apart: an allocation that is granted is what was
/// asked for, and has no byte in common with any that was granted before and is live still.
pub proof fn law_grant_overlaps_nothing(
    before: SlabAllocator,
    after: SlabAllocator,
    requirements: MemoryRequirements,
    location: MemoryLocation,
    site: CallSite,
    r: Result<SlabStep, Error>,
    live: Seq<Allocation>,
)
    requires
        before.wf(),
        after.wf(),
        before.distinct_memory(),
        before.holds(live),
        requirements.size > 0,
        after.dedicated@ == before.dedicated@,
        before.answers(&after, requirements, location, site, r),
    ensures
        after.distinct_memory(),
        after.holds(live_after(live, r)),
        r matches Ok(SlabStep::Done(g)) ==> {
            &&& meets(g.allocation, requirements, before.config.right_align)
            &&& forall|i: int| 0 <= i < live.len() ==> apart(#[trigger] live[i], g.allocation)
        },
{
    match r {
        Ok(SlabStep::Done(g)) => {
            let a = g.allocation;
            let m = a.memory_type_index as int;
            let c = g.size_class as int;
            let k = g.slab as int;
            let slot = g.slot as int;
            let alignment = allocator::effective_alignment(requirements.alignment);
            let old_slab = before.slab_at(m, c, k);
            let place = Place::Slot { m, c, k, slot };
            assert(before.has_slab(m, c, k));
            lemma_slab_wf(before, m, c, k);
            lemma_distinct_after_change(before, after, m, c, k);
            slab::lemma_prefix(old_slab.slot_size, a.size, alignment);
            slab::lemma_slot_range(slot, old_slab.slot_count as int, old_slab.slot_size as int);
            assert(in_slot_of(a, slab::class_size(c), slot));
            assert(after.has_slab(m, c, k));
            assert(after.slab_at(m, c, k).allocated.has(slot));
            assert(after.lies_at(a, place));
            assert(!old_slab.allocated.has(slot));
            assert forall|i: int, p: Place|
                0 <= i < live.len() && #[trigger] before.lies_at(live[i], p) implies after.lies_at(
                live[i],
                p,
            ) && p != place by {
                lemma_stays_with_more_in_use(before, after, m, c, k, live[i], p);
            }
            lemma_one_more(before, after, live, a, place);
            assert(slab::is_class_for(requirements.size, alignment, c) && in_slot_of(
                a,
                slab::class_size(c),
                slot,
            ));
        },
        _ => {
            lemma_same_memory(before, after, live);
        },
    }
}

/// What lies at a place stays there where one slab has more slots in use.
proof fn lemma_stays_with_more_in_use(
    before: SlabAllocator,
    after: SlabAllocator,
    m: int,
    c: int,
    k: int,
    a: Allocation,
    p: Place,
)
    requires
        before.wf(),
        before.distinct_memory(),
        before.has_slab(m, c, k),
        slab::only_slab_changes(before.pools@, after.pools@, m, c, k),
        before.slab_at(m, c, k).same_shape(&after.slab_at(m, c, k)),
        after.dedicated@ == before.dedicated@,
        forall|i: int|
            0 <= i < before.slab_at(m, c, k).slot_count && before.slab_at(m, c, k).allocated.has(i)
                ==> #[trigger] after.slab_at(m, c, k).allocated.has(i),
        before.lies_at(a, p),
    ensures
        after.lies_at(a, p),
{
    lemma_distinct_after_change(before, after, m, c, k);
    match p {
        Place::Slot { m: m2, c: c2, k: k2, slot } => {
            assert(before.has_slab(m2, c2, k2));
            assert(after.has_slab(m2, c2, k2));
            if (m2, c2, k2) == (m, c, k) {
                assert(after.slab_at(m, c, k).allocated.has(slot));
            }
        },
        Place::Dedicated { memory } => {},
    }
}

/// A slab with a handle of its own, and an allocation in it, keep what is live apart: the
/// allocation is what was asked for, and has no byte in common with any that was granted before
/// and is live still.
pub proof fn law_new_slab_overlaps_nothing(
    before: SlabAllocator,
    after: SlabAllocator,
    requirements: MemoryRequirements,
    location: MemoryLocation,
    request: SlabRequest,
    memory: u64,
    mapped_base: Option<u64>,
    seed: u64,
    site: CallSite,
    asked_at: CallSite,
    a: Allocation,
    live: Seq<Allocation>,
)
    requires
        before.wf(),
        after.wf(),
        before.distinct_memory(),
        before.is_new_memory(memory),
        before.holds(live),
        requirements.size > 0,
        before.answers(&before, requirements, location, asked_at, Ok(SlabStep::NeedSlab(request))),
        after.dedicated@ == before.dedicated@,
        before.grows(&after, requirements, request, memory, mapped_base, seed, site, a),
    ensures
        after.distinct_memory(),
        after.holds(live.push(a)),
        meets(a, requirements, before.config.right_align),
        forall|i: int| 0 <= i < live.len() ==> apart(#[trigger] live[i], a),
{
    let m = request.memory_type_index as int;
    let c = request.size_class as int;
    let k = before.pools@[m].size_pools@[c]@.len() as int;
    let alignment = allocator::effective_alignment(requirements.alignment);
    let (fresh, slot) = choose|fresh: Slab, slot: u32|
        {
            &&& before.is_fresh(fresh, request, memory, mapped_base, seed, site)
            &&& slot < fresh.slot_count
            &&& #[trigger] fresh.takes(
                &after.pools@[m].size_pools@[c]@.last(),
                slot as int,
                requirements.size,
                site,
            )
            &&& a.offset == fresh.user_offset(
                slot as int,
                requirements.size,
                alignment,
                before.config.right_align,
            )
            &&& a.mapped_ptr == SlabAllocator::mapped_at(fresh, a.offset as int)
        };
    let place = Place::Slot { m, c, k, slot: slot as int };
    assert(slab::type_pool_wf(before.pools@[m]));
    lemma_slabs_after_growth(before, after, m, c);
    assert(after.slab_at(m, c, k) == after.pools@[m].size_pools@[c]@.last());
    slab::lemma_prefix(fresh.slot_size, a.size, alignment);
    slab::lemma_slot_range(slot as int, fresh.slot_count as int, fresh.slot_size as int);
    assert(in_slot_of(a, slab::class_size(c), slot as int));
    assert(after.has_slab(m, c, k));
    assert(after.slab_at(m, c, k).allocated.has(slot as int));
    assert(after.lies_at(a, place));
    assert forall|m1: int, c1: int, k1: int, m2: int, c2: int, k2: int|
        #![trigger after.has_slab(m1, c1, k1), after.has_slab(m2, c2, k2)]
        after.has_slab(m1, c1, k1) && after.has_slab(m2, c2, k2) && after.slab_at(
            m1,
            c1,
            k1,
        ).memory == after.slab_at(m2, c2, k2).memory implies m1 == m2 && c1 == c2 && k1 == k2 by {
        assert((m1, c1, k1) != (m, c, k) ==> before.has_slab(m1, c1, k1));
        assert((m2, c2, k2) != (m, c, k) ==> before.has_slab(m2, c2, k2));
    }
    assert forall|m1: int, c1: int, k1: int, p: int|
        #![trigger after.has_slab(m1, c1, k1), after.dedicated@[p]]
        after.has_slab(m1, c1, k1) && 0 <= p < after.dedicated@.len() implies after.slab_at(
        m1,
        c1,
        k1,
    ).memory != after.dedicated@[p].memory by {
        assert((m1, c1, k1) != (m, c, k) ==> before.has_slab(m1, c1, k1));
        assert(before.dedicated@[p].memory != memory);
    }
    assert(after.distinct_memory());
    assert forall|i: int, p: Place|
        0 <= i < live.len() && #[trigger] before.lies_at(live[i], p) implies after.lies_at(
        live[i],
        p,
    ) && p != place by {
        match p {
            Place::Slot { m: m2, c: c2, k: k2, slot: slot2 } => {
                assert(before.has_slab(m2, c2, k2));
                assert(after.has_slab(m2, c2, k2));
            },
            Place::Dedicated { memory } => {},
        }
    }
    lemma_one_more(before, after, live, a, place);
    assert(slab::is_class_for(requirements.size, alignment, c) && in_slot_of(
        a,
        slab::class_size(c),
        slot as int,
    ));
}

/// The slabs once one has been added to a class.
proof fn lemma_slabs_after_growth(before: SlabAllocator, after: SlabAllocator, m: int, c: int)
    requires
        before.wf(),
        0 <= m < before.pools@.len(),
        0 <= c < SIZE_CLASS_COUNT,
        after.pools@.len() == before.pools@.len(),
        forall|j: int|
            0 <= j < before.pools@.len() && j != m ==> #[trigger] after.pools@[j]
                == before.pools@[j],
        after.pools@[m].size_pools@.len() == before.pools@[m].size_pools@.len(),
        forall|j: int|
            0 <= j < before.pools@[m].size_pools@.len() && j != c
                ==> #[trigger] after.pools@[m].size_pools@[j] == before.pools@[m].size_pools@[j],
        after.pools@[m].size_pools@[c]@.len() == before.pools@[m].size_pools@[c]@.len() + 1,
        after.pools@[m].size_pools@[c]@.drop_last() == before.pools@[m].size_pools@[c]@,
    ensures
        forall|m2: int, c2: int, k2: int| #[trigger]
            after.has_slab(m2, c2, k2) == (before.has_slab(m2, c2, k2) || (m2, c2, k2) == (
                m,
                c,
                before.pools@[m].size_pools@[c]@.len() as int,
            )),
        forall|m2: int, c2: int, k2: int| #[trigger]
            before.has_slab(m2, c2, k2) ==> after.slab_at(m2, c2, k2) == before.slab_at(
                m2,
                c2,
                k2,
            ),
{
    assert(slab::type_pool_wf(before.pools@[m]));
    assert forall|m2: int, c2: int, k2: int| #[trigger]
        after.has_slab(m2, c2, k2) == (before.has_slab(m2, c2, k2) || (m2, c2, k2) == (
            m,
            c,
            before.pools@[m].size_pools@[c]@.len() as int,
        )) by {
        if 0 <= m2 < before.pools@.len() && 0 <= c2 < SIZE_CLASS_COUNT {
            if m2 == m {
                if c2 != c {
                    assert(after.pools@[m].size_pools@[c2] == before.pools@[m].size_pools@[c2]);
                }
            } else {
                assert(after.pools@[m2] == before.pools@[m2]);
            }
        }
    }
    assert forall|m2: int, c2: int, k2: int| #[trigger]
        before.has_slab(m2, c2, k2) implies after.slab_at(m2, c2, k2) == before.slab_at(
        m2,
        c2,
        k2,
    ) by {
        if m2 == m {
            if c2 != c {
                assert(after.pools@[m].size_pools@[c2] == before.pools@[m].size_pools@[c2]);
            } else {
                assert(after.pools@[m].size_pools@[c]@.drop_last()[k2]
                    == after.pools@[m].size_pools@[c]@[k2]);
            }
        } else {
            assert(after.pools@[m2] == before.pools@[m2]);
        }
    }
}

/// A memory object of its own, with a handle of its own, has no byte in common with any
/// allocation that was granted before and is live still.
pub proof fn law_dedicated_overlaps_nothing(
    before: SlabAllocator,
    after: SlabAllocator,
    request: BlockRequest,
    memory: u64,
    mapped_base: Option<u64>,
    a: Allocation,
    live: Seq<Allocation>,
)
    requires
        before.wf(),
        after.wf(),
        before.distinct_memory(),
        before.is_new_memory(memory),
        before.holds(live),
        request.size > 0,
        after.pools@ == before.pools@,
        after.dedicated@ == before.dedicated@.push(
            DedicatedEntry {
                memory,
                size: request.size,
                mapped_base,
                memory_type: request.memory_type_index,
            },
        ),
        a == (Allocation {
            memory,
            offset: 0,
            size: request.size,
            mapped_ptr: mapped_base,
            memory_type_index: request.memory_type_index,
        }),
    ensures
        after.distinct_memory(),
        after.holds(live.push(a)),
        forall|i: int| 0 <= i < live.len() ==> apart(#[trigger] live[i], a),
{
    let place = Place::Dedicated { memory };
    assert forall|m: int, c: int, k: int| #[trigger]
        after.has_slab(m, c, k) == before.has_slab(m, c, k) by {}
    assert forall|m1: int, c1: int, k1: int, p: int|
        #![trigger after.has_slab(m1, c1, k1), after.dedicated@[p]]
        after.has_slab(m1, c1, k1) && 0 <= p < after.dedicated@.len() implies after.slab_at(
        m1,
        c1,
        k1,
    ).memory != after.dedicated@[p].memory by {
        assert(before.has_slab(m1, c1, k1));
        if p < before.dedicated@.len() {
            assert(after.dedicated@[p] == before.dedicated@[p]);
        }
    }
    assert forall|p: int, q: int| 0 <= p < q < after.dedicated@.len() implies (
    #[trigger] after.dedicated@[p]).memory != (#[trigger] after.dedicated@[q]).memory by {
        assert(after.dedicated@[p] == before.dedicated@[p]);
        if q < before.dedicated@.len() {
            assert(after.dedicated@[q] == before.dedicated@[q]);
        }
    }
    assert(after.distinct_memory());
    assert(after.dedicated@[before.dedicated@.len() as int].memory == memory);
    assert(after.lies_at(a, place));
    assert forall|i: int, p: Place|
        0 <= i < live.len() && #[trigger] before.lies_at(live[i], p) implies after.lies_at(
        live[i],
        p,
    ) && p != place by {
        match p {
            Place::Slot { m, c, k, slot } => {
                assert(after.has_slab(m, c, k));
            },
            Place::Dedicated { memory: other } => {
                let e = choose|e: int|
                    0 <= e < before.dedicated@.len() && (#[trigger] before.dedicated@[e]).memory
                        == other;
                assert(after.dedicated@[e] == before.dedicated@[e]);
            },
        }
    }
    lemma_one_more(before, after, live, a, place);
}

/// Freeing a live allocation frees its own place, and leaves all others live.
pub proof fn law_free_keeps_the_others(
    before: SlabAllocator,
    after: SlabAllocator,
    site: CallSite,
    r: FreeOutcome,
    live: Seq<Allocation>,
    i: int,
)
    requires
        before.wf(),
        after.wf(),
        before.distinct_memory(),
        before.holds(live),
        0 <= i < live.len(),
        before.frees(&after, live[i], site, r),
    ensures
        r is Freed || r is Dedicated,
        after.distinct_memory(),
        after.holds(live.remove(i)),
{
    let a = live[i];
    let old_places = places(before, live);
    lemma_places(before, live);
    let place = old_places(i);
    assert(before.lies_at(a, place));
    lemma_free_of_place(before, after, a, site, r, place);
    let rest = live.remove(i);
    let f = |j: int|
        if j < i {
            old_places(j)
        } else {
            old_places(j + 1)
        };
    assert forall|j: int| 0 <= j < rest.len() implies (#[trigger] rest[j]).size > 0 by {
        if j < i {
            assert(rest[j] == live[j]);
        } else {
            assert(rest[j] == live[j + 1]);
        }
    }
    assert forall|j: int| 0 <= j < rest.len() implies after.lies_at(rest[j], #[trigger] f(j)) by {
        if j < i {
            assert(rest[j] == live[j]);
            assert(before.lies_at(live[j], old_places(j)));
            assert(old_places(j) != old_places(i));
        } else {
            assert(rest[j] == live[j + 1]);
            assert(before.lies_at(live[j + 1], old_places(j + 1)));
            assert(old_places(i) != old_places(j + 1));
        }
    }
    assert forall|j: int, l: int| 0 <= j < l < rest.len() implies #[trigger] f(j) != #[trigger] f(
        l,
    ) by {
        let j0 = if j < i {
            j
        } else {
            j + 1
        };
        let l0 = if l < i {
            l
        } else {
            l + 1
        };
        assert(old_places(j0) != old_places(l0));
    }
    lemma_holds_by(after, rest, f);
}

/// Freeing what lies at a place leaves everything that lies elsewhere.
proof fn lemma_free_of_place(
    before: SlabAllocator,
    after: SlabAllocator,
    a: Allocation,
    site: CallSite,
    r: FreeOutcome,
    place: Place,
)
    requires
        before.wf(),
        after.wf(),
        before.distinct_memory(),
        a.size > 0,
        before.lies_at(a, place),
        before.frees(&after, a, site, r),
    ensures
        r is Freed || r is Dedicated,
        after.distinct_memory(),
        forall|b: Allocation, p: Place| #[trigger]
            before.lies_at(b, p) && p != place ==> after.lies_at(b, p),
{
    match place {
        Place::Slot { m, c, k, slot } => {
            let s = before.slab_at(m, c, k);
            assert(before.has_slab(m, c, k));
            lemma_slab_wf(before, m, c, k);
            assert(slab::no_dedicated(before.dedicated@, a.memory));
            vstd::arithmetic::div_mod::lemma_fundamental_div_mod_converse(
                a.offset as int,
                s.slot_size as int,
                slot,
                a.offset - slot * s.slot_size,
            );
            assert(SlabAllocator::slot_of(s, a) == slot);
            let pools = before.pools@[m].size_pools@;
            assert(slab::type_pool_wf(before.pools@[m]));
            assert(slab::class_has(pools[c]@, a.memory)) by {
                assert(pools[c]@[k].memory == a.memory);
            }
            assert forall|c2: int, k2: int| #[trigger]
                slab::first_slab(pools, a.memory, c2, k2) implies c2 == c && k2 == k by {
                assert(before.has_slab(m, c2, k2));
                assert(before.slab_at(m, c2, k2).memory == s.memory);
            }
            assert(r is Freed);
            assert(slab::first_slab(
                pools,
                a.memory,
                r->Freed_size_class as int,
                r->Freed_slab as int,
            ));
            lemma_distinct_after_change(before, after, m, c, k);
            assert forall|b: Allocation, p: Place| #[trigger]
                before.lies_at(b, p) && p != place implies after.lies_at(b, p) by {
                match p {
                    Place::Slot { m: m2, c: c2, k: k2, slot: slot2 } => {
                        assert(before.has_slab(m2, c2, k2));
                        assert(after.has_slab(m2, c2, k2));
                        if (m2, c2, k2) == (m, c, k) {
                            assert(slot2 != slot);
                            assert(after.slab_at(m, c, k).allocated.has(slot2));
                        }
                    },
                    Place::Dedicated { memory } => {},
                }
            }
        },
        Place::Dedicated { memory } => {
            let e = choose|e: int|
                0 <= e < before.dedicated@.len() && (#[trigger] before.dedicated@[e]).memory
                    == memory;
            assert(before.dedicated@[e].memory == a.memory);
            assert(r is Dedicated);
            let pos = choose|pos: int| #[trigger]
                slab::first_dedicated(before.dedicated@, a.memory, pos) && r->Dedicated_0
                    == before.dedicated@[pos] && after.dedicated@ == before.dedicated@.remove(pos);
            assert forall|m: int, c: int, k: int| #[trigger]
                after.has_slab(m, c, k) == before.has_slab(m, c, k) by {}
            assert forall|p: int| 0 <= p < after.dedicated@.len() implies #[trigger]
                after.dedicated@[p] == before.dedicated@[if p < pos {
                p
            } else {
                p + 1
            }] by {}
            assert forall|m1: int, c1: int, k1: int, p: int|
                #![trigger after.has_slab(m1, c1, k1), after.dedicated@[p]]
                after.has_slab(m1, c1, k1) && 0 <= p < after.dedicated@.len() implies after.slab_at(
                m1,
                c1,
                k1,
            ).memory != after.dedicated@[p].memory by {
                assert(before.has_slab(m1, c1, k1));
            }
            assert(after.distinct_memory());
            assert forall|b: Allocation, p: Place| #[trigger]
                before.lies_at(b, p) && p != place implies after.lies_at(b, p) by {
                match p {
                    Place::Slot { m, c, k, slot } => {
                        assert(after.has_slab(m, c, k));
                    },
                    Place::Dedicated { memory: other } => {
                        let o = choose|o: int|
                            0 <= o < before.dedicated@.len() && (
                            #[trigger] before.dedicated@[o]).memory == other;
                        let n = if o < pos {
                            o
                        } else {
                            o - 1
                        };
                        assert(after.dedicated@[n] == before.dedicated@[o]);
                    },
                }
            }
        },
    }
}

} // verus!
