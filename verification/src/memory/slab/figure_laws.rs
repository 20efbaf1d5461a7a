//! What the figures and reports of the slab allocator say, and what its histories keep.

use crate::diagnostic;
use crate::diagnostic::Severity;
use crate::memory::allocator::Allocation;
use crate::memory::allocator::MemoryRequirements;
use crate::memory::slab;
use crate::memory::slab::report;
use crate::memory::slab::report::ClassFigures;
use crate::memory::slab::report::Fill;
use crate::memory::slab::report::SlabFigures;
use crate::memory::slab::stats;
use crate::memory::slab::stats::SizeClassStats;
use crate::memory::slab::stats::SlabFigure;
use crate::memory::slab::stats::SlabStats;
use crate::memory::slab::CallSite;
use crate::memory::slab::FreeOutcome;
use crate::memory::slab::Slab;
use crate::memory::slab::SlabAllocator;
use crate::memory::slab::SlabConfig;
use crate::memory::slab::SlabErrorAction;
use crate::memory::slab::SlabRequest;
use crate::memory::slab::SlotEvent;
use crate::memory::slab::SlotEventKind;
use crate::memory::slab::TypePool;
use crate::sums;
use crate::text;
use vstd::prelude::*;

verus! {

/// A new event goes last. Where the ring is full the oldest event leaves.
pub proof fn law_ring_keeps_the_latest_events(
    ring: Seq<SlotEvent>,
    cap: int,
    event: SlotEvent,
    i: int,
)
    requires
        0 < cap,
        ring.len() <= cap,
    ensures
        ({
            let r = slab::ring_push(ring, cap, event);
            &&& r.len() <= cap
            &&& r.last() == event
            &&& ring.len() < cap ==> r.len() == ring.len() + 1
            &&& ring.len() == cap ==> r.len() == cap
            &&& ring.len() < cap && 0 <= i < ring.len() ==> r[i] == ring[i]
            &&& ring.len() == cap && 0 <= i < cap - 1 ==> r[i] == ring[i + 1]
        }),
{
}

/// Freeing a slot is written down in its history with the age of the slab and the caller. Where
/// the slot does not leave the quarantine at once, that is its last event.
pub proof fn law_history_tells_who_freed_a_slot(
    before: Slab,
    after: Slab,
    slot: int,
    site: CallSite,
    j: int,
)
    requires
        before.wf(),
        after.wf(),
        before.gives_back(&after, slot, site),
        before.history is Some,
        0 <= slot < before.slot_count,
        0 <= j < before.slot_count,
        before.quarantine_max == 0 || before.quarantine_fifo@.len() < before.quarantine_max,
    ensures
        after.history is Some,
        ({
            let ring = after.history->0.events@[slot]@;
            &&& ring.len() > 0
            &&& ring.last().kind == SlotEventKind::Freed
            &&& ring.last().caller_hash == site.caller_hash
            &&& ring.last().timestamp_us == if site.now_us >= before.created_us {
                site.now_us - before.created_us
            } else {
                0
            }
        }),
        j != slot ==> after.history->0.events@[j]@ == before.history->0.events@[j]@,
{
    let old_rings = before.history->0.rings();
    let new_rings = after.history->0.rings();
    assert(after.rings() == Some(new_rings));
    assert(new_rings[slot] == after.history->0.events@[slot]@);
    assert(new_rings[j] == after.history->0.events@[j]@);
    assert(old_rings[j] == before.history->0.events@[j]@);
    assert(old_rings[slot] == before.history->0.events@[slot]@);
}

/// Where the quarantine is full, the slot that waited longest leaves it, which is written down in
/// its history without a caller.
pub proof fn law_history_tells_who_left_the_quarantine(
    before: Slab,
    after: Slab,
    slot: int,
    site: CallSite,
)
    requires
        before.wf(),
        after.wf(),
        before.gives_back(&after, slot, site),
        before.history is Some,
        0 <= slot < before.slot_count,
        before.quarantine_max > 0,
        before.quarantine_fifo@.len() == before.quarantine_max,
    ensures
        after.history is Some,
        ({
            let out = before.quarantine_fifo@[0] as int;
            let ring = after.history->0.events@[out]@;
            &&& ring.len() > 0
            &&& ring.last().kind == SlotEventKind::QuarantineExit
            &&& ring.last().caller_hash == 0
            &&& ring.last().timestamp_us == if site.now_us >= before.created_us {
                site.now_us - before.created_us
            } else {
                0
            }
        }),
{
    let queue = before.quarantine_fifo@.push(slot as u32);
    let out = before.quarantine_fifo@[0];
    assert(queue[0] == out);
    assert(out < before.slot_count);
    let old_rings = before.history->0.rings();
    let new_rings = after.history->0.rings();
    assert(old_rings.len() == before.slot_count);
    assert(after.rings() == Some(new_rings));
    assert(new_rings[out as int] == after.history->0.events@[out as int]@);
}

/// The slab that is added is the memory that was obtained, cut into slots of the class. None of its
/// slots but the one that is handed out is in use or in quarantine.
pub proof fn law_added_slab_is_the_obtained_memory(
    before: SlabAllocator,
    after: SlabAllocator,
    requirements: MemoryRequirements,
    request: SlabRequest,
    memory: u64,
    mapped_base: Option<u64>,
    seed: u64,
    site: CallSite,
    r: Allocation,
    i: int,
)
    requires
        before.grows(&after, requirements, request, memory, mapped_base, seed, site, r),
    ensures
        ({
            let m = request.memory_type_index as int;
            let c = request.size_class as int;
            let s = after.pools@[m].size_pools@[c]@.last();
            &&& after.pools@[m].size_pools@[c]@.len() == before.pools@[m].size_pools@[c]@.len() + 1
            &&& after.pools@[m].size_pools@[c]@.drop_last() == before.pools@[m].size_pools@[c]@
            &&& s.memory == memory
            &&& s.mapped_base == mapped_base
            &&& s.total_size == request.size
            &&& s.slot_size == request.slot_size
            &&& s.slot_count == request.size / request.slot_size
            &&& s.free_count == s.slot_count - 1
            &&& s.quarantine_fifo@.len() == 0
            &&& s.quarantine_max == before.config.quarantine_slots
            &&& s.created_us == site.now_us
            &&& s.history is Some <==> before.config.slot_history
            &&& s.history matches Some(h) ==> h.ring_cap == 8
            &&& r.memory == memory
            &&& r.size == requirements.size
            &&& r.memory_type_index == request.memory_type_index
        }),
{
    let c = request.size_class as int;
    let after_classes = after.pools@[request.memory_type_index as int].size_pools@;
    let alignment = crate::memory::allocator::effective_alignment(requirements.alignment);
    let (fresh, slot) = choose|fresh: Slab, slot: u32|
        {
            &&& before.is_fresh(fresh, request, memory, mapped_base, seed, site)
            &&& slot < fresh.slot_count
            &&& #[trigger] fresh.takes(
                &after_classes[c]@.last(),
                slot as int,
                requirements.size,
                site,
            )
            &&& r.offset == fresh.user_offset(
                slot as int,
                requirements.size,
                alignment,
                before.config.right_align,
            )
            &&& r.mapped_ptr == SlabAllocator::mapped_at(fresh, r.offset as int)
        };
    assert(fresh.same_shape(&after_classes[c]@.last()));
}

/// Memory is looked for among the dedicated objects first, then among the slabs. What is found
/// nowhere is unknown, and a slot that is not in use is freed twice.
pub proof fn law_outcome_tells_what_was_found(
    before: SlabAllocator,
    after: SlabAllocator,
    a: Allocation,
    site: CallSite,
    r: FreeOutcome,
    p: int,
    c: int,
    k: int,
)
    requires
        before.wf(),
        a.memory_type_index < before.pools@.len(),
        before.frees(&after, a, site, r),
    ensures
        ({
            let pools = before.pools@[a.memory_type_index as int].size_pools@;
            let dedicated = 0 <= p < before.dedicated@.len() && before.dedicated@[p].memory
                == a.memory;
            let slab = 0 <= c < pools.len() && 0 <= k < pools[c]@.len() && pools[c]@[k].memory
                == a.memory;
            &&& dedicated ==> r is Dedicated
            &&& !(r is Dedicated) ==> after.dedicated@ == before.dedicated@
            &&& slab ==> !(r is Unknown)
            &&& r is Unknown || r is DoubleFree || r is Dedicated ==> after.pools@ == before.pools@
            &&& r matches FreeOutcome::DoubleFree { size_class, slab: n, slot } ==> {
                let s = pools[size_class as int]@[n as int];
                s.memory == a.memory && slot == a.offset / s.slot_size && !s.allocated.has(
                    slot as int,
                )
            }
            &&& r matches FreeOutcome::Freed { size_class, slab: n, slot, .. } ==> {
                let s = pools[size_class as int]@[n as int];
                s.memory == a.memory && slot == a.offset / s.slot_size && s.allocated.has(
                    slot as int,
                )
            }
        }),
{
    let pools = before.pools@[a.memory_type_index as int].size_pools@;
    if 0 <= c < pools.len() && 0 <= k < pools[c]@.len() && pools[c]@[k].memory == a.memory {
        assert(slab::class_has(pools[c]@, a.memory));
        assert(slab::any_class_has(pools, a.memory));
    }
}

/// The defaults: slabs of two mebibytes, a quarantine of 64 slots, all checks but the history, and
/// findings are logged.
pub proof fn law_default_slabs_are_two_mebibytes(c: SlabConfig)
    requires
        c == SlabConfig::spec_default(),
    ensures
        c.slab_size == 2 * 1024 * 1024,
        c.quarantine_slots == 64,
        c.zero_on_free && c.right_align && c.detect_overflow && !c.slot_history,
        c.on_double_free == SlabErrorAction::Log,
        c.on_overflow == SlabErrorAction::Log,
{
}

/// Classes double from 256 bytes on.
pub proof fn law_classes_double(i: int)
    requires
        0 <= i,
    ensures
        slab::class_size(0) == 256,
        slab::class_size(i + 1) == 2 * slab::class_size(i),
        slab::class_size(i) == 256 * vstd::arithmetic::power2::pow2(i as nat),
    decreases i,
{
    if i == 0 {
        vstd::arithmetic::power2::lemma2_to64();
    } else {
        law_classes_double(i - 1);
        vstd::arithmetic::power2::lemma_pow2_unfold(i as nat);
    }
}

/// A sum goes over all items, each once.
pub proof fn law_total_adds_each_item<A>(s: Seq<A>, x: A, f: spec_fn(A) -> int)
    ensures
        sums::total(Seq::<A>::empty(), f) == 0,
        sums::total(s.push(x), f) == sums::total(s, f) + f(x),
{
    assert(s.push(x).drop_last() =~= s);
}

/// What is counted of a slab.
pub proof fn law_what_is_counted_of_a_slab(s: Slab)
    requires
        s.wf(),
    ensures
        stats::figure(SlabFigure::Slabs)(s) == 1,
        stats::figure(SlabFigure::Slots)(s) == s.slot_count,
        stats::figure(SlabFigure::Quarantined)(s) == s.quarantine_fifo@.len(),
        stats::figure(SlabFigure::Free)(s) == s.free_count,
        stats::figure(SlabFigure::Bytes)(s) == s.total_size,
        stats::figure(SlabFigure::InUse)(s) + s.quarantine_fifo@.len() + s.free_count
            == s.slot_count,
{
    slab::law_slots_add_up(s);
    assert(s.in_use() == slab::count_where(|i: int| s.allocated.has(i), s.slot_count as int));
}

/// A slot in use loses the bytes that its user did not ask for; a slot that is not in use loses
/// none.
pub proof fn law_padding_is_what_was_not_asked_for(s: Slab, i: int)
    ensures
        s.allocated.has(i) && s.user_sizes@[i] <= s.slot_size ==> s.padding_of()(i)
            + s.user_sizes@[i] == s.slot_size,
        s.allocated.has(i) && s.user_sizes@[i] > s.slot_size ==> s.padding_of()(i) == 0,
        !s.allocated.has(i) ==> s.padding_of()(i) == 0,
        s.padding() == sums::sum_below(s.padding_of(), s.slot_count as int),
        sums::sum_below(s.padding_of(), 0) == 0,
        0 <= i ==> sums::sum_below(s.padding_of(), i + 1) == sums::sum_below(s.padding_of(), i)
            + s.padding_of()(i),
{
}

/// The slots of a class are in use, in quarantine or free.
pub proof fn law_slots_of_a_class_add_up(pools: Seq<TypePool>, c: int)
    requires
        0 <= c < 13,
        forall|m: int| 0 <= m < pools.len() ==> slab::type_pool_wf(#[trigger] pools[m]),
    ensures
        stats::class_total(pools, c, stats::figure(SlabFigure::Slots)) == stats::class_total(
            pools,
            c,
            stats::figure(SlabFigure::InUse),
        ) + stats::class_total(pools, c, stats::figure(SlabFigure::Quarantined))
            + stats::class_total(pools, c, stats::figure(SlabFigure::Free)),
    decreases pools.len(),
{
    if pools.len() > 0 {
        let front = pools.drop_last();
        assert forall|m: int| 0 <= m < front.len() implies slab::type_pool_wf(
            #[trigger] front[m],
        ) by {
            assert(front[m] == pools[m]);
        }
        law_slots_of_a_class_add_up(front, c);
        let last = pools[pools.len() - 1];
        assert(slab::type_pool_wf(last));
        let slabs = last.size_pools@[c]@;
        assert forall|k: int| 0 <= k < slabs.len() implies (#[trigger] slabs[k]).wf() by {
            assert(last.size_pools@[c]@[k].wf());
        }
        lemma_slots_of_slabs(slabs);
    }
}

proof fn lemma_slots_of_slabs(slabs: Seq<Slab>)
    requires
        forall|k: int| 0 <= k < slabs.len() ==> (#[trigger] slabs[k]).wf(),
    ensures
        sums::total(slabs, stats::figure(SlabFigure::Slots)) == sums::total(
            slabs,
            stats::figure(SlabFigure::InUse),
        ) + sums::total(slabs, stats::figure(SlabFigure::Quarantined)) + sums::total(
            slabs,
            stats::figure(SlabFigure::Free),
        ),
    decreases slabs.len(),
{
    if slabs.len() > 0 {
        let front = slabs.drop_last();
        assert forall|k: int| 0 <= k < front.len() implies (#[trigger] front[k]).wf() by {
            assert(front[k] == slabs[k]);
        }
        lemma_slots_of_slabs(front);
        let s = slabs[slabs.len() - 1];
        assert(s.wf());
        law_what_is_counted_of_a_slab(s);
    }
}

/// The statistics of a class are the sums over its slabs in all memory types.
pub proof fn law_class_statistics_are_sums(x: SlabAllocator, r: SlabStats, c: int)
    requires
        x.has_stats(r),
        0 <= c < 13,
    ensures
        r.size_classes@.len() == 13,
        ({
            let t = r.size_classes@[c];
            let sum = |f: spec_fn(Slab) -> int|
                sums::total(x.pools@, |p: TypePool| sums::total(p.size_pools@[c]@, f));
            &&& t.slot_size == slab::class_size(c) as u64
            &&& t.slab_count == sum(|s: Slab| 1int) as u32
            &&& t.total_slots == sum(|s: Slab| s.slot_count as int) as u32
            &&& t.allocated_slots == sum(|s: Slab| s.in_use()) as u32
            &&& t.quarantined_slots == sum(|s: Slab| s.quarantine_fifo@.len() as int) as u32
            &&& t.free_slots == sum(|s: Slab| s.free_count as int) as u32
            &&& t.internal_fragmentation_bytes == sum(|s: Slab| s.padding()) as u64
        }),
        r.dedicated_count == x.dedicated@.len(),
        r.double_frees_detected == x.double_free_count,
        r.overflows_detected == x.overflow_count,
{
    assert(stats::figure(SlabFigure::Slabs) =~= |s: Slab| 1int);
    assert(stats::figure(SlabFigure::Slots) =~= |s: Slab| s.slot_count as int);
    assert(stats::figure(SlabFigure::Quarantined) =~= |s: Slab| s.quarantine_fifo@.len() as int);
    assert(stats::figure(SlabFigure::Free) =~= |s: Slab| s.free_count as int);
    assert(stats::figure(SlabFigure::InUse) =~= |s: Slab| s.in_use());
    assert(stats::figure(SlabFigure::Padding) =~= |s: Slab| s.padding());
    assert(r.size_classes@[c] == stats::class_stats(x.pools@, c));
}

/// The totals count every slab and every dedicated object: objects, bytes from the driver, and
/// bytes for users, which count a whole slot for each one in use.
pub proof fn law_totals_count_slabs_and_dedicated_memory(x: SlabAllocator, r: SlabStats, c: int)
    requires
        x.has_stats(r),
        0 <= c,
    ensures
        ({
            let dedicated = sums::total(
                x.dedicated@,
                |d: slab::DedicatedEntry| d.size as int,
            );
            let slabs = stats::by_class(x.pools@, SlabFigure::Slabs);
            let bytes = stats::by_class(x.pools@, SlabFigure::Bytes);
            let user = stats::user_bytes_by_class(x.pools@);
            &&& r.device_memory_count == sums::sum_below(slabs, 13) + x.dedicated@.len()
            &&& r.total_driver_bytes == sums::sum_below(bytes, 13) + dedicated
            &&& r.total_user_bytes == sums::sum_below(user, 13) + dedicated
            &&& bytes(c) == stats::class_total(x.pools@, c, |s: Slab| s.total_size as int)
            &&& slabs(c) == stats::class_total(x.pools@, c, |s: Slab| 1int)
            &&& user(c) == stats::class_total(x.pools@, c, |s: Slab| s.in_use())
                * slab::class_size(c)
        }),
{
    assert(stats::figure(SlabFigure::Slabs) =~= |s: Slab| 1int);
    assert(stats::figure(SlabFigure::Bytes) =~= |s: Slab| s.total_size as int);
    assert(stats::figure(SlabFigure::InUse) =~= |s: Slab| s.in_use());
}

/// A class is named by its size in mebibytes, kibibytes or bytes, whichever is the largest unit
/// that it fills.
pub proof fn law_class_is_named_by_its_size(n: int)
    requires
        0 <= n,
    ensures
        n >= 1048576 ==> report::class_name(n) == text::digits((n / 1048576) as nat, 10) + "M"@,
        1024 <= n < 1048576 ==> report::class_name(n) == text::digits((n / 1024) as nat, 10)
            + "K"@,
        n < 1024 ==> report::class_name(n) == text::digits(n as nat, 10) + "B"@,
{
}

/// A bar has as many filled places as there are, and at most its width; the others are empty.
pub proof fn law_bar_is_filled_from_the_left(filled: int, width: int, fill: Fill, i: int)
    requires
        0 <= filled,
        0 <= width,
    ensures
        ({
            let t = report::bar(false, filled, width, fill);
            &&& t.len() == width + 2
            &&& t[0] == '[' && t[width + 1] == ']'
            &&& 0 <= i < width && i < filled ==> t[1 + i] == '#'
            &&& 0 <= i < width && i >= filled ==> t[1 + i] == '-'
        }),
        report::bar(true, filled, width, Fill::Critical) != report::bar(
            false,
            filled,
            width,
            Fill::Critical,
        ),
{
    reveal_strlit("[");
    reveal_strlit("]");
    reveal_strlit("\x1b[");
    reveal_strlit("1;31");
    reveal_strlit("m");
    reveal_strlit("\x1b[0m");
    let t = report::bar(true, filled, width, Fill::Critical);
    let u = report::bar(false, filled, width, Fill::Critical);
    let f = if filled < width {
        filled
    } else {
        width
    };
    let s = diagnostic::styled(true, "1;31"@, text::repeated('#', f));
    assert(s.len() > 0 && s[0] == '\x1b');
    assert(t[1] == '\x1b');
    if f > 0 {
        assert(u[1] == '#');
    } else if width > 0 {
        assert(u[1] == '-');
    } else {
        assert(u[1] == ']');
    }
}

/// The event of a slot, without colours.
pub proof fn law_event_in_words(e: SlotEvent)
    ensures
        e.kind is Allocated ==> e.kind.title() == "ALLOCATED"@,
        e.kind is Freed ==> e.kind.title() == "FREED"@,
        e.kind is QuarantineExit ==> e.kind.title() == "QUARANTINE_EXIT"@,
        report::event_line(false, e) == "   |  "@ + ("  T+"@ + text::digits(
            e.timestamp_us as nat,
            10,
        ) + "us  "@ + e.kind.title() + "  caller_hash="@ + text::hex_prefixed(
            e.caller_hash as int,
            8,
        )) + "\n"@,
{
    diagnostic::laws::law_plain_lines(
        Severity::Error,
        ""@,
        "  T+"@ + text::digits(e.timestamp_us as nat, 10) + "us  "@ + e.kind.title()
            + "  caller_hash="@ + text::hex_prefixed(e.caller_hash as int, 8),
    );
}

/// Events are listed from the oldest on, one line each.
pub proof fn law_events_are_listed_in_order(
    on: bool,
    before: Seq<char>,
    events: Seq<SlotEvent>,
    n: int,
)
    requires
        0 <= n < events.len(),
    ensures
        report::event_lines(on, before, events, 0) == before,
        report::event_lines(on, before, events, n + 1) == report::event_lines(
            on,
            before,
            events,
            n,
        ) + report::event_line(on, events[n]),
{
}

/// A slot is told by the handle of its memory, its number and its size.
pub proof fn law_slot_in_words(s: Slab, slot: u32)
    ensures
        report::slot_place(s, slot) == "VkDeviceMemory(0x"@ + text::digits(s.memory as nat, 16)
            + ") slot="@ + text::digits(slot as nat, 10) + " slot_size="@ + text::digits(
            s.slot_size as nat,
            10,
        ) + "B"@,
{
    reveal_strlit("VkDeviceMemory(");
    reveal_strlit("VkDeviceMemory(0x");
    assert("VkDeviceMemory("@ + text::hex_prefixed(s.memory as int, 0) =~= "VkDeviceMemory(0x"@
        + text::digits(s.memory as nat, 16));
}

/// A report on a double free without history and without colours.
pub proof fn law_double_free_in_words(s: Slab, slot: u32, a: Allocation)
    requires
        s.history is None,
    ensures
        report::double_free_report(false, s, slot, a) == "error"@ + "["@ + "IGN-S010"@ + "]: "@
            + "double free detected via bitmap"@ + "\n"@ + ("  --> "@ + report::slot_place(s, slot)
            + "\n"@) + "   |\n"@ + ("   |  "@ + ("allocation: offset="@ + text::digits(
            a.offset as nat,
            10,
        ) + " size="@ + text::digits(a.size as nat, 10) + "B memory_type="@ + text::digits(
            a.memory_type_index as nat,
            10,
        )) + "\n"@) + ("   |  "@ + ("slot state: allocated="@ + "false"@ + " quarantined="@ + if s.quarantine.has(
            slot as int,
        ) {
            "true (in cooling)"@
        } else {
            "false"@
        }) + "\n"@) + "   |\n"@ + diagnostic::labeled(
            "   = note: "@,
            "user bytes = allocated_slots * slot_size (includes size-class padding)\noverhead is high at low utilization due to 2 MiB minimum slab size"@,
        ) + diagnostic::labeled(
            "   = help: "@,
            "the allocation was already freed (or never allocated)\nif quarantined=true, it was freed recently and is still cooling"@,
        ),
{
    let place = report::slot_place(s, slot);
    let what = "allocation: offset="@ + text::digits(a.offset as nat, 10) + " size="@
        + text::digits(a.size as nat, 10) + "B memory_type="@ + text::digits(
        a.memory_type_index as nat,
        10,
    );
    let state = "slot state: allocated="@ + "false"@ + " quarantined="@ + if s.quarantine.has(
        slot as int,
    ) {
        "true (in cooling)"@
    } else {
        "false"@
    };
    diagnostic::laws::law_plain_lines(
        Severity::Error,
        "IGN-S010"@,
        "double free detected via bitmap"@,
    );
    diagnostic::laws::law_plain_lines(Severity::Error, ""@, place);
    diagnostic::laws::law_plain_lines(Severity::Error, ""@, what);
    diagnostic::laws::law_plain_lines(Severity::Error, ""@, state);
    diagnostic::laws::law_notes_have_their_mark(
        "user bytes = allocated_slots * slot_size (includes size-class padding)\noverhead is high at low utilization due to 2 MiB minimum slab size"@,
    );
    diagnostic::laws::law_notes_have_their_mark(
        "the allocation was already freed (or never allocated)\nif quarantined=true, it was freed recently and is still cooling"@,
    );
}

/// With a history, the report on a double free lists the events of the slot.
pub proof fn law_double_free_shows_the_history(s: Slab, slot: u32, a: Allocation)
    requires
        s.history is Some,
        slot < s.history->0.events@.len(),
    ensures
        exists|before: Seq<char>, after: Seq<char>|
            #![trigger report::event_lines(false, before, s.history->0.events@[slot as int]@, s.history->0.events@[slot as int]@.len() as int), after.len()]
            report::double_free_report(false, s, slot, a) == report::event_lines(
                false,
                before,
                s.history->0.events@[slot as int]@,
                s.history->0.events@[slot as int]@.len() as int,
            ) + after,
{
    let rings = s.history->0.rings();
    let events = s.history->0.events@[slot as int]@;
    assert(rings[slot as int] == events);
    let o = diagnostic::header_line(
        false,
        Severity::Error,
        "IGN-S010"@,
        "double free detected via bitmap"@,
    ) + diagnostic::location_line(false, report::slot_place(s, slot)) + diagnostic::empty_line(
        false,
    ) + diagnostic::body_line(
        false,
        "allocation: offset="@ + text::decimal(a.offset as int) + " size="@ + text::decimal(
            a.size as int,
        ) + "B memory_type="@ + text::decimal(a.memory_type_index as int),
    ) + diagnostic::body_line(
        false,
        "slot state: allocated="@ + diagnostic::styled(false, "1;31"@, "false"@) + " quarantined="@
            + if s.quarantine.has(slot as int) {
            diagnostic::styled(false, "1;33"@, "true (in cooling)"@)
        } else {
            "false"@
        },
    );
    let before = o + diagnostic::empty_line(false) + diagnostic::body_line(
        false,
        "slot history:"@,
    );
    let n = diagnostic::note_lines(
        false,
        "user bytes = allocated_slots * slot_size (includes size-class padding)\noverhead is high at low utilization due to 2 MiB minimum slab size"@,
    );
    let h = diagnostic::help_lines(
        false,
        "the allocation was already freed (or never allocated)\nif quarantined=true, it was freed recently and is still cooling"@,
    );
    let after = diagnostic::empty_line(false) + n + h;
    let lines = report::event_lines(false, before, events, events.len() as int);
    assert(lines + diagnostic::empty_line(false) + n + h =~= lines + after);
    assert(after.len() >= 0);
}

/// A report on damaged bytes before the data, without history and without colours. It shows the
/// first sixteen of them where the slab is mapped.
pub proof fn law_overflow_in_words(
    s: Slab,
    slot: u32,
    user_size: u64,
    prefix: int,
    corrupted: int,
    bytes: Seq<u8>,
)
    requires
        s.history is None,
        0 <= prefix,
        0 <= corrupted,
    ensures
        report::overflow_report(false, s, slot, user_size, prefix, corrupted, bytes) == "error"@
            + "["@ + "IGN-S011"@ + "]: "@ + "buffer overflow detected via zero-prefix corruption"@
            + "\n"@ + ("  --> "@ + report::slot_place(s, slot) + "\n"@) + "   |\n"@ + ("   |  "@ + (
        "[zero prefix "@ + text::digits(prefix as nat, 10) + "B][user data "@ + text::digits(
            user_size as nat,
            10,
        ) + "B]"@) + "\n"@) + ("   |  "@ + (" "@ + "!!!"@ + " "@ + text::digits(
            corrupted as nat,
            10,
        ) + " of "@ + text::digits(prefix as nat, 10) + " prefix bytes are non-zero"@) + "\n"@)
            + shown_prefix(s.mapped_base is Some, prefix, bytes) + "   |\n"@ + diagnostic::labeled(
            "   = note: "@,
            "an adjacent allocation likely wrote past its bounds\nthe zero-prefix of this slot was corrupted between free and realloc"@,
        ) + diagnostic::labeled(
            "   = help: "@,
            "check the previous slot's owner for buffer overflows\nenable slot_history for caller location tracking"@,
        ),
{
    let place = report::slot_place(s, slot);
    let layout = "[zero prefix "@ + text::digits(prefix as nat, 10) + "B][user data "@
        + text::digits(user_size as nat, 10) + "B]"@;
    let count = " "@ + "!!!"@ + " "@ + text::digits(corrupted as nat, 10) + " of "@ + text::digits(
        prefix as nat,
        10,
    ) + " prefix bytes are non-zero"@;
    let shown = if prefix < 16 {
        prefix
    } else {
        16
    };
    let row = "prefix hex: "@ + diagnostic::hex_bytes(bytes.take(shown)) + " "@ + if prefix > 16 {
        "..."@
    } else {
        ""@
    };
    diagnostic::laws::law_plain_lines(
        Severity::Error,
        "IGN-S011"@,
        "buffer overflow detected via zero-prefix corruption"@,
    );
    diagnostic::laws::law_plain_lines(Severity::Error, ""@, place);
    diagnostic::laws::law_plain_lines(Severity::Error, ""@, layout);
    diagnostic::laws::law_plain_lines(Severity::Error, ""@, count);
    diagnostic::laws::law_plain_lines(Severity::Error, ""@, row);
    diagnostic::laws::law_notes_have_their_mark(
        "an adjacent allocation likely wrote past its bounds\nthe zero-prefix of this slot was corrupted between free and realloc"@,
    );
    diagnostic::laws::law_notes_have_their_mark(
        "check the previous slot's owner for buffer overflows\nenable slot_history for caller location tracking"@,
    );
    let head = "error"@ + "["@ + "IGN-S011"@ + "]: "@
        + "buffer overflow detected via zero-prefix corruption"@ + "\n"@ + ("  --> "@ + place
        + "\n"@) + "   |\n"@ + ("   |  "@ + layout + "\n"@) + ("   |  "@ + count + "\n"@);
    if s.mapped_base is Some {
        assert(head + "   |\n"@ + ("   |  "@ + row + "\n"@) =~= head + shown_prefix(
            true,
            prefix,
            bytes,
        ));
    } else {
        assert(head + shown_prefix(false, prefix, bytes) =~= head);
    }
}

/// The lines that show the first bytes before the data.
pub open spec fn shown_prefix(mapped: bool, prefix: int, bytes: Seq<u8>) -> Seq<char> {
    if !mapped {
        Seq::empty()
    } else if prefix <= 16 {
        "   |\n"@ + ("   |  "@ + ("prefix hex: "@ + diagnostic::hex_bytes(bytes.take(prefix)) + " "@
            + ""@) + "\n"@)
    } else {
        "   |\n"@ + ("   |  "@ + ("prefix hex: "@ + diagnostic::hex_bytes(bytes.take(16)) + " "@
            + "..."@) + "\n"@)
    }
}

/// A line of the table: the class, its figures in their columns, a bar and the share in use.
pub proof fn law_line_of_a_class(sc: SizeClassStats, fig: ClassFigures)
    ensures
        report::class_line(false, sc, fig) == "   |  "@ + (text::padded_left(
            report::class_name(sc.slot_size as int),
            ' ',
            8,
        ) + "  "@ + text::padded_left(text::digits(sc.slab_count as nat, 10), ' ', 6) + "  "@
            + text::padded_left(text::digits(sc.total_slots as nat, 10), ' ', 8) + "  "@
            + text::padded_left(text::digits(sc.allocated_slots as nat, 10), ' ', 8) + "  "@
            + text::padded_left(text::digits(sc.quarantined_slots as nat, 10), ' ', 8) + "  "@
            + text::padded_left(text::digits(sc.free_slots as nat, 10), ' ', 6) + "  "@
            + report::bar(false, fig.filled as int, 10, fig.fill) + " "@ + fig.percent@ + "%"@)
            + "\n"@,
{
    diagnostic::laws::law_plain_lines(
        Severity::Error,
        ""@,
        report::columns(
            report::class_name(sc.slot_size as int),
            text::decimal(sc.slab_count as int),
            text::decimal(sc.total_slots as int),
            text::decimal(sc.allocated_slots as int),
            text::decimal(sc.quarantined_slots as int),
            text::decimal(sc.free_slots as int),
        ) + "  "@ + report::bar(false, fig.filled as int, 10, fig.fill) + " "@ + fig.percent@
            + "%"@,
    );
}

/// The table has a line for every class that has slabs, in order, and none for the others.
pub proof fn law_table_lists_classes_with_slabs(
    on: bool,
    before: Seq<char>,
    classes: Seq<SizeClassStats>,
    figures: Seq<ClassFigures>,
    n: int,
)
    requires
        0 <= n < classes.len(),
    ensures
        report::class_lines(on, before, classes, figures, 0) == before,
        classes[n].slab_count == 0 ==> report::class_lines(on, before, classes, figures, n + 1)
            == report::class_lines(on, before, classes, figures, n),
        classes[n].slab_count > 0 ==> report::class_lines(on, before, classes, figures, n + 1)
            == report::class_lines(on, before, classes, figures, n) + report::class_line(
            on,
            classes[n],
            figures[n],
        ),
{
}

/// The report on an allocator without colours: its totals, its findings, and the table.
pub proof fn law_statistics_in_words(stats: SlabStats, figures: SlabFigures)
    requires
        stats.dedicated_count <= stats.device_memory_count,
    ensures
        report::slab_report(false, stats, figures) == report::class_lines(
            false,
            "info"@ + "["@ + "IGN-S012"@ + "]: "@ + "slab allocator statistics"@ + "\n"@ + "   |\n"@
                + ("   |  "@ + ("VkDeviceMemory objects: "@ + text::digits(
                (stats.device_memory_count - stats.dedicated_count) as nat,
                10,
            ) + " (slabs) + "@ + text::digits(stats.dedicated_count as nat, 10)
                + " (dedicated) = "@ + text::digits(stats.device_memory_count as nat, 10)) + "\n"@)
                + ("   |  "@ + ("driver: "@ + figures.driver@ + "  user: "@ + figures.user@
                + "  overhead: "@ + if stats.total_user_bytes > 0 {
                figures.overhead@ + "%"@
            } else {
                "N/A (no live allocations)"@
            }) + "\n"@) + ("   |  "@ + ("double-frees detected: "@ + text::digits(
                stats.double_frees_detected as nat,
                10,
            ) + "  overflows detected: "@ + text::digits(stats.overflows_detected as nat, 10))
                + "\n"@) + "   |\n"@ + ("   |  "@ + report::columns(
                "class"@,
                "slabs"@,
                "total"@,
                "alloc'd"@,
                "quarant"@,
                "free"@,
            ) + "\n"@),
            stats.size_classes@,
            figures.classes@,
            stats.size_classes@.len() as int,
        ) + "   |\n"@ + diagnostic::labeled(
            "   = note: "@,
            "user bytes = allocated_slots * slot_size (includes size-class rounding)\noverhead is high at low utilization due to 2 MiB minimum slab granularity"@,
        ),
{
    let objects = "VkDeviceMemory objects: "@ + text::digits(
        (stats.device_memory_count - stats.dedicated_count) as nat,
        10,
    ) + " (slabs) + "@ + text::digits(stats.dedicated_count as nat, 10) + " (dedicated) = "@
        + text::digits(stats.device_memory_count as nat, 10);
    let bytes = "driver: "@ + figures.driver@ + "  user: "@ + figures.user@ + "  overhead: "@
        + if stats.total_user_bytes > 0 {
        figures.overhead@ + "%"@
    } else {
        "N/A (no live allocations)"@
    };
    let findings = "double-frees detected: "@ + text::digits(
        stats.double_frees_detected as nat,
        10,
    ) + "  overflows detected: "@ + text::digits(stats.overflows_detected as nat, 10);
    let head = report::columns(
        "class"@,
        "slabs"@,
        "total"@,
        "alloc'd"@,
        "quarant"@,
        "free"@,
    );
    diagnostic::laws::law_plain_lines(
        Severity::Info,
        "IGN-S012"@,
        "slab allocator statistics"@,
    );
    diagnostic::laws::law_plain_lines(Severity::Info, ""@, objects);
    diagnostic::laws::law_plain_lines(Severity::Info, ""@, bytes);
    diagnostic::laws::law_plain_lines(Severity::Info, ""@, findings);
    diagnostic::laws::law_plain_lines(Severity::Info, ""@, head);
    diagnostic::laws::law_notes_have_their_mark(
        "user bytes = allocated_slots * slot_size (includes size-class rounding)\noverhead is high at low utilization due to 2 MiB minimum slab granularity"@,
    );
}

/// The hash of a place in the source: every byte of the file name and then the line are mixed in.
pub proof fn law_hash_mixes_in_every_byte(bytes: Seq<u8>, b: u8, line: u32)
    ensures
        slab::bytes_hash(Seq::empty()) == 2166136261,
        slab::bytes_hash(bytes.push(b)) == ((slab::bytes_hash(bytes) ^ (b as u32)) as int
            * 16777619) % 4294967296,
        slab::location_hash(bytes, line) == ((slab::bytes_hash(bytes) ^ line) as int * 16777619)
            % 4294967296,
{
    assert(bytes.push(b).drop_last() =~= bytes);
}

/// The numbers that decide where a search starts are mixed as SplitMix64 does it.
pub proof fn law_random_numbers_are_mixed(state: u64)
    ensures
        ({
            let a = (((state ^ (state >> 30)) as int * 0xBF58476D1CE4E5B9)
                % 0x1_0000_0000_0000_0000) as u64;
            let b = (((a ^ (a >> 27)) as int * 0x94D049BB133111EB) % 0x1_0000_0000_0000_0000) as u64;
            slab::mixed(state) == b ^ (b >> 31)
        }),
{
}

/// A request is served by the first slab of its class that has a free slot, and nothing but that
/// slab changes.
pub proof fn law_first_slab_with_room_serves(
    before: SlabAllocator,
    after: SlabAllocator,
    requirements: MemoryRequirements,
    location: crate::memory::resources::MemoryLocation,
    site: CallSite,
    g: slab::SlabGrant,
    j: int,
    c: int,
    k: int,
)
    requires
        before.wf(),
        before.answers(&after, requirements, location, site, Ok(slab::SlabStep::Done(g))),
        g.allocation.memory_type_index < before.pools@.len(),
    ensures
        ({
            let m = g.allocation.memory_type_index as int;
            let x = before.pools@[m].size_pools@;
            let y = after.pools@[m].size_pools@;
            let n = g.size_class as int;
            &&& 0 <= g.slab < x[n]@.len()
            &&& x[n]@[g.slab as int].free_count > 0
            &&& 0 <= k < g.slab ==> x[n]@[k].free_count == 0
            &&& g.allocation.memory == x[n]@[g.slab as int].memory
            &&& after.pools@.len() == before.pools@.len()
            &&& 0 <= j < before.pools@.len() && j != m ==> after.pools@[j] == before.pools@[j]
            &&& y.len() == x.len()
            &&& 0 <= c < x.len() && c != n ==> y[c] == x[c]
            &&& y[n]@.len() == x[n]@.len()
            &&& 0 <= k < x[n]@.len() && k != g.slab ==> y[n]@[k] == x[n]@[k]
        }),
{
}

/// A slot is freed in the first slab with its memory, and nothing but that slab changes.
pub proof fn law_freeing_changes_one_slab(
    before: SlabAllocator,
    after: SlabAllocator,
    a: Allocation,
    site: CallSite,
    size_class: usize,
    slab: usize,
    slot: u32,
    zero: bool,
    j: int,
    c: int,
    k: int,
)
    requires
        before.wf(),
        a.memory_type_index < before.pools@.len(),
        before.frees(&after, a, site, FreeOutcome::Freed { size_class, slab, slot, zero }),
    ensures
        ({
            let m = a.memory_type_index as int;
            let x = before.pools@[m].size_pools@;
            let y = after.pools@[m].size_pools@;
            let n = size_class as int;
            &&& 0 <= n < x.len() && 0 <= slab < x[n]@.len()
            &&& x[n]@[slab as int].memory == a.memory
            &&& 0 <= k < slab ==> x[n]@[k].memory != a.memory
            &&& after.pools@.len() == before.pools@.len()
            &&& 0 <= j < before.pools@.len() && j != m ==> after.pools@[j] == before.pools@[j]
            &&& y.len() == x.len()
            &&& 0 <= c < x.len() && c != n ==> y[c] == x[c]
            &&& y[n]@.len() == x[n]@.len()
            &&& 0 <= k < x[n]@.len() && k != slab ==> y[n]@[k] == x[n]@[k]
            &&& !y[n]@[slab as int].allocated.has(slot as int)
        }),
{
    let m = a.memory_type_index as int;
    assert(slab::type_pool_wf(before.pools@[m]));
    let s = before.pools@[m].size_pools@[size_class as int]@[slab as int];
    assert(s.wf());
}

/// What does not concern findings leaves the setup and the counts of findings as they are.
pub proof fn law_setup_stays(x: SlabAllocator, y: SlabAllocator)
    ensures
        x.same_setup(&y) <==> y.properties == x.properties && y.config == x.config
            && y.double_free_count == x.double_free_count && y.overflow_count == x.overflow_count,
{
}

/// The history of the slot before is shown where there is one; the first slot has none before it.
/// The rest of the report is as without a history.
pub proof fn law_overflow_shows_the_slot_before(
    s: Slab,
    slot: u32,
    user_size: u64,
    prefix: int,
    corrupted: int,
    bytes: Seq<u8>,
) -> (parts: (Seq<char>, Seq<char>))
    requires
        s.history is Some,
        slot <= s.history->0.events@.len(),
    ensures
        slot == 0 ==> report::overflow_report(
            false,
            s,
            slot,
            user_size,
            prefix,
            corrupted,
            bytes,
        ) == report::overflow_report(
            false,
            (Slab { history: None, ..s }),
            slot,
            user_size,
            prefix,
            corrupted,
            bytes,
        ),
        slot > 0 ==> ({
            let events = s.history->0.events@[slot - 1]@;
            report::overflow_report(false, s, slot, user_size, prefix, corrupted, bytes)
                == report::event_lines(
                false,
                parts.0 + ("   |  "@ + ("previous slot #"@ + text::digits((slot - 1) as nat, 10)
                    + " history (likely overflow source):"@) + "\n"@),
                events,
                events.len() as int,
            ) + parts.1
        }),
        slot > 0 ==> parts.1.take(5) == "   |\n"@ && parts.0 + parts.1.skip(5)
            == report::overflow_report(
            false,
            (Slab { history: None, ..s }),
            slot,
            user_size,
            prefix,
            corrupted,
            bytes,
        ),
{
    let none = Slab { history: None, ..s };
    assert(report::slot_place(none, slot) == report::slot_place(s, slot));
    let o = diagnostic::header_line(
        false,
        Severity::Error,
        "IGN-S011"@,
        "buffer overflow detected via zero-prefix corruption"@,
    ) + diagnostic::location_line(false, report::slot_place(s, slot)) + diagnostic::empty_line(
        false,
    ) + diagnostic::body_line(
        false,
        "[zero prefix "@ + text::decimal(prefix) + "B][user data "@ + text::decimal(
            user_size as int,
        ) + "B]"@,
    ) + diagnostic::body_line(
        false,
        " "@ + diagnostic::styled(false, "1;31"@, "!!!"@) + " "@ + text::decimal(corrupted)
            + " of "@ + text::decimal(prefix) + " prefix bytes are non-zero"@,
    );
    let shown = if prefix < 16 {
        prefix
    } else {
        16
    };
    let o = if s.mapped_base is Some {
        o + diagnostic::empty_line(false) + diagnostic::body_line(
            false,
            "prefix hex: "@ + diagnostic::hex_bytes(bytes.take(shown)) + " "@ + if prefix > 16 {
                "..."@
            } else {
                ""@
            },
        )
    } else {
        o
    };
    let n = diagnostic::note_lines(
        false,
        "an adjacent allocation likely wrote past its bounds\nthe zero-prefix of this slot was corrupted between free and realloc"@,
    );
    let h = diagnostic::help_lines(
        false,
        "check the previous slot's owner for buffer overflows\nenable slot_history for caller location tracking"@,
    );
    let before = o + diagnostic::empty_line(false);
    let after = diagnostic::empty_line(false) + n + h;
    let plain = report::overflow_report(false, none, slot, user_size, prefix, corrupted, bytes);
    assert(plain == o + diagnostic::empty_line(false) + n + h);
    if slot > 0 {
        let words = "previous slot #"@ + text::digits((slot - 1) as nat, 10)
            + " history (likely overflow source):"@;
        diagnostic::laws::law_plain_lines(Severity::Error, ""@, words);
        reveal_strlit("   |\n");
        let rings = s.history->0.rings();
        let events = s.history->0.events@[slot - 1]@;
        assert(rings[slot - 1] == events);
        let lines = report::event_lines(
            false,
            before + ("   |  "@ + words + "\n"@),
            events,
            events.len() as int,
        );
        assert(lines + diagnostic::empty_line(false) + n + h =~= lines + after);
        assert("   |\n"@.len() == 5);
        assert(after.take(5) =~= "   |\n"@);
        assert(before + after.skip(5) =~= plain);
    }
    (before, after)
}

} // verus!
