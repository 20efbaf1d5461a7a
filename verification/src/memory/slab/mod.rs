//! Hardened slab allocator.
//!
//! Hardening comes from structure. Slots of one size share a memory object, which
//! slots are in use is recorded in bitmaps outside device memory, user data is placed
//! at the end of its slot, the slot is picked at random, and a freed slot rests in
//! quarantine before it can be used again.
//!
//! Device memory is obtained by the caller: [`SlabAllocator::allocate`] says what is
//! needed, [`SlabAllocator::add_slab`] and [`SlabAllocator::add_dedicated`] take it in.

use crate::error::Error;
use crate::memory::allocator::find_memory_type_index;
use crate::memory::allocator::Allocation;
use crate::memory::allocator::BlockRequest;
use crate::memory::allocator::MemoryProperties;
use crate::memory::allocator::MemoryRequirements;
use crate::memory::bitmap::Bitmap;
use crate::memory::resources::MemoryLocation;
use crate::vulkan;
use std::collections::VecDeque;
use vstd::prelude::*;

pub mod figure_laws;
pub mod laws;
pub mod live;
pub mod report;
pub mod stats;

verus! {

/// Number of size classes.
pub const SIZE_CLASS_COUNT: usize = 13;

/// Default slab size: 2 MiB.
pub const DEFAULT_SLAB_SIZE: u64 = 2097152;

/// Default number of slots in quarantine per slab.
pub const DEFAULT_QUARANTINE_SLOTS: u32 = 64;

/// Events kept per slot.
pub const HISTORY_RING: usize = 8;

/// Size class `i` in bytes: 256 for the first, each next twice as large.
pub open spec fn class_size(i: int) -> int
    decreases i,
{
    if i <= 0 {
        256
    } else {
        2 * class_size(i - 1)
    }
}

/// The sizes of all classes.
pub fn size_classes() -> (r: [u64; 13])
    ensures
        forall|i: int| 0 <= i < SIZE_CLASS_COUNT ==> #[trigger] r@[i] == class_size(i),
        forall|i: int| 0 <= i < SIZE_CLASS_COUNT ==> 256 <= #[trigger] r@[i] <= 1048576,
{
    let r: [u64; 13] = [
        256,
        512,
        1024,
        2048,
        4096,
        8192,
        16384,
        32768,
        65536,
        131072,
        262144,
        524288,
        1048576,
    ];
    proof {
        reveal_with_fuel(class_size, 14);
    }
    r
}

/// Class `i` is the smallest that holds the size and the alignment.
pub open spec fn is_class_for(size: u64, alignment: u64, i: int) -> bool {
    &&& 0 <= i < SIZE_CLASS_COUNT
    &&& size <= class_size(i) && alignment <= class_size(i)
    &&& forall|j: int|
        0 <= j < i ==> size > #[trigger] class_size(j) || alignment > class_size(j)
}

/// No class holds the size and the alignment.
pub open spec fn exceeds_classes(size: u64, alignment: u64) -> bool {
    forall|j: int|
        0 <= j < SIZE_CLASS_COUNT ==> size > #[trigger] class_size(j) || alignment > class_size(j)
}

/// Index of the size class for an allocation, if any is large enough.
pub fn find_size_class(size: u64, alignment: u64) -> (r: Option<usize>)
    ensures
        match r {
            Some(i) => is_class_for(size, alignment, i as int),
            None => exceeds_classes(size, alignment),
        },
{
    let effective: u64 = if size >= alignment {
        size
    } else {
        alignment
    };
    let classes: [u64; 13] = size_classes();
    let mut i: usize = 0;
    while i < SIZE_CLASS_COUNT
        invariant
            i <= SIZE_CLASS_COUNT,
            effective == if size >= alignment { size } else { alignment },
            forall|k: int| 0 <= k < SIZE_CLASS_COUNT ==> #[trigger] classes@[k] == class_size(k),
            forall|j: int| 0 <= j < i ==> effective > #[trigger] class_size(j),
        decreases SIZE_CLASS_COUNT - i,
    {
        if classes[i] >= effective {
            assert(classes@[i as int] == class_size(i as int));
            return Some(i);
        }
        assert(classes@[i as int] == class_size(i as int));
        i = i + 1;
    }
    None
}

/// What to do when the allocator finds an error.
#[derive(Debug, Clone, Copy, PartialEq, Eq, Structural)]
pub enum SlabErrorAction {
    /// Log the report.
    Log,
    /// Panic with the report.
    Panic,
    /// Hand the report to the callback that the application has installed.
    Callback,
    /// Ignore it.
    Ignore,
}

/// Configuration of the slab allocator.
#[derive(Debug, Clone, Copy, PartialEq, Eq)]
pub struct SlabConfig {
    /// Bytes per slab.
    pub slab_size: u64,
    /// Maximum number of slots held in quarantine per slab.
    pub quarantine_slots: u32,
    /// Zero host-visible memory on free.
    pub zero_on_free: bool,
    /// Place user data as near to the end of its slot as its alignment allows.
    pub right_align: bool,
    /// Check the bytes in front of the user data on allocation. Takes effect only with
    /// `right_align`.
    pub detect_overflow: bool,
    /// Keep a history of events per slot.
    pub slot_history: bool,
    /// Action on a double free.
    pub on_double_free: SlabErrorAction,
    /// Action on an overflow.
    pub on_overflow: SlabErrorAction,
}

impl SlabConfig {
    /// The default configuration.
    pub open spec fn spec_default() -> SlabConfig {
        SlabConfig {
            slab_size: DEFAULT_SLAB_SIZE,
            quarantine_slots: DEFAULT_QUARANTINE_SLOTS,
            zero_on_free: true,
            right_align: true,
            detect_overflow: true,
            slot_history: false,
            on_double_free: SlabErrorAction::Log,
            on_overflow: SlabErrorAction::Log,
        }
    }

    /// Sets the slab size.
    pub fn slab_size(self, size: u64) -> (r: SlabConfig)
        ensures
            r == (SlabConfig { slab_size: size, ..self }),
    {
        SlabConfig { slab_size: size, ..self }
    }

    /// Sets the number of quarantine slots.
    pub fn quarantine_slots(self, n: u32) -> (r: SlabConfig)
        ensures
            r == (SlabConfig { quarantine_slots: n, ..self }),
    {
        SlabConfig { quarantine_slots: n, ..self }
    }

    /// Enables or disables zeroing on free.
    pub fn zero_on_free(self, enable: bool) -> (r: SlabConfig)
        ensures
            r == (SlabConfig { zero_on_free: enable, ..self }),
    {
        SlabConfig { zero_on_free: enable, ..self }
    }

    /// Enables or disables right alignment.
    pub fn right_align(self, enable: bool) -> (r: SlabConfig)
        ensures
            r == (SlabConfig { right_align: enable, ..self }),
    {
        SlabConfig { right_align: enable, ..self }
    }

    /// Enables or disables overflow detection.
    pub fn detect_overflow(self, enable: bool) -> (r: SlabConfig)
        ensures
            r == (SlabConfig { detect_overflow: enable, ..self }),
    {
        SlabConfig { detect_overflow: enable, ..self }
    }

    /// Enables or disables the history per slot.
    pub fn slot_history(self, enable: bool) -> (r: SlabConfig)
        ensures
            r == (SlabConfig { slot_history: enable, ..self }),
    {
        SlabConfig { slot_history: enable, ..self }
    }

    /// Sets the action on a double free.
    pub fn on_double_free(self, action: SlabErrorAction) -> (r: SlabConfig)
        ensures
            r == (SlabConfig { on_double_free: action, ..self }),
    {
        SlabConfig { on_double_free: action, ..self }
    }

    /// Sets the action on an overflow.
    pub fn on_overflow(self, action: SlabErrorAction) -> (r: SlabConfig)
        ensures
            r == (SlabConfig { on_overflow: action, ..self }),
    {
        SlabConfig { on_overflow: action, ..self }
    }

    /// Production preset: the default configuration.
    pub fn production() -> (r: SlabConfig)
        ensures
            r == SlabConfig::spec_default(),
    {
        SlabConfig::default()
    }

    /// Debug preset: slot history, and a panic on every error.
    pub fn debug() -> (r: SlabConfig)
        ensures
            r == (SlabConfig {
                slot_history: true,
                on_double_free: SlabErrorAction::Panic,
                on_overflow: SlabErrorAction::Panic,
                ..SlabConfig::spec_default()
            }),
    {
        let base: SlabConfig = SlabConfig::default();
        SlabConfig {
            slot_history: true,
            on_double_free: SlabErrorAction::Panic,
            on_overflow: SlabErrorAction::Panic,
            ..base
        }
    }
}

impl Default for SlabConfig {
    fn default() -> (r: SlabConfig)
        ensures
            r == SlabConfig::spec_default(),
    {
        SlabConfig {
            slab_size: DEFAULT_SLAB_SIZE,
            quarantine_slots: DEFAULT_QUARANTINE_SLOTS,
            zero_on_free: true,
            right_align: true,
            detect_overflow: true,
            slot_history: false,
            on_double_free: SlabErrorAction::Log,
            on_overflow: SlabErrorAction::Log,
        }
    }
}

/// Kind of a slot event.
#[derive(Debug, Clone, Copy, PartialEq, Eq, Structural)]
pub enum SlotEventKind {
    /// The slot was allocated.
    Allocated,
    /// The slot was freed.
    Freed,
    /// The slot left quarantine.
    QuarantineExit,
}

/// One entry of the history of a slot.
#[derive(Debug, Clone, Copy)]
pub struct SlotEvent {
    /// Kind of the event.
    pub kind: SlotEventKind,
    /// Microseconds since the slab was created.
    pub timestamp_us: u64,
    /// Hash of the caller's location.
    pub caller_hash: u32,
}

/// When and by whom an operation is made.
#[derive(Debug, Clone, Copy)]
pub struct CallSite {
    /// Microseconds on a clock that never goes back.
    pub now_us: u64,
    /// Hash of the caller's location.
    pub caller_hash: u32,
}

/// The increment of the generator state.
pub const RNG_GAMMA: u64 = 0x9E3779B97F4A7C15;

/// The output that the generator gives for a state.
pub open spec fn mixed(state: u64) -> u64 {
    let a = (state ^ (state >> 30)).wrapping_mul(0xBF58476D1CE4E5B9);
    let b = (a ^ (a >> 27)).wrapping_mul(0x94D049BB133111EB);
    b ^ (b >> 31)
}

/// SplitMix64 generator that picks slots.
#[derive(Debug, Clone, Copy)]
pub struct Rng {
    /// State of the generator.
    pub state: u64,
}

impl Rng {
    /// A generator started from a seed.
    pub fn new(seed: u64) -> (r: Rng)
        ensures
            r.state == seed.wrapping_add(RNG_GAMMA),
    {
        Rng { state: seed.wrapping_add(RNG_GAMMA) }
    }

    /// The next number.
    pub fn next(&mut self) -> (r: u64)
        ensures
            final(self).state == old(self).state.wrapping_add(RNG_GAMMA),
            r == mixed(final(self).state),
    {
        self.state = self.state.wrapping_add(RNG_GAMMA);
        let mut z: u64 = self.state;
        z = (z ^ (z >> 30)).wrapping_mul(0xBF58476D1CE4E5B9);
        z = (z ^ (z >> 27)).wrapping_mul(0x94D049BB133111EB);
        z ^ (z >> 31)
    }

    /// The next number below `bound`, or 0 without drawing one if the bound is 0.
    pub fn next_bounded(&mut self, bound: u32) -> (r: u32)
        ensures
            bound == 0 ==> r == 0 && final(self).state == old(self).state,
            bound > 0 ==> final(self).state == old(self).state.wrapping_add(RNG_GAMMA) && r
                == mixed(final(self).state) % (bound as u64) && r < bound,
    {
        if bound == 0 {
            return 0;
        }
        (self.next() % (bound as u64)) as u32
    }
}

/// The most recent events of each slot.
#[derive(Debug)]
pub struct SlotHistory {
    /// Events per slot, oldest first.
    pub events: Vec<Vec<SlotEvent>>,
    /// How many events are kept per slot.
    pub ring_cap: usize,
}

/// A ring of at most `cap` events once `event` has been added: the oldest gives way.
pub open spec fn ring_push(ring: Seq<SlotEvent>, cap: int, event: SlotEvent) -> Seq<SlotEvent> {
    if ring.len() >= cap {
        ring.skip(1).push(event)
    } else {
        ring.push(event)
    }
}

impl SlotHistory {
    /// No ring is longer than its capacity.
    pub open spec fn wf(&self, slots: int) -> bool {
        &&& self.events@.len() == slots
        &&& self.ring_cap > 0
        &&& forall|i: int|
            0 <= i < self.events@.len() ==> (#[trigger] self.events@[i])@.len() <= self.ring_cap
    }

    /// The events of each slot.
    pub open spec fn rings(&self) -> Seq<Seq<SlotEvent>> {
        Seq::new(self.events@.len(), |i: int| self.events@[i]@)
    }

    /// Empty histories.
    pub fn new(slot_count: u32, ring_cap: usize) -> (r: SlotHistory)
        requires
            ring_cap > 0,
        ensures
            r.wf(slot_count as int),
            r.ring_cap == ring_cap,
            r.rings() == Seq::new(slot_count as nat, |i: int| Seq::<SlotEvent>::empty()),
    {
        let mut events: Vec<Vec<SlotEvent>> = Vec::new();
        let mut i: u32 = 0;
        while i < slot_count
            invariant
                i <= slot_count,
                events@.len() == i,
                forall|k: int|
                    0 <= k < i ==> (#[trigger] events@[k])@ == Seq::<SlotEvent>::empty(),
            decreases slot_count - i,
        {
            events.push(Vec::new());
            i = i + 1;
        }
        SlotHistory { events, ring_cap }
    }

    /// Adds an event to the ring of a slot.
    pub fn push(&mut self, slot: u32, event: SlotEvent)
        requires
            old(self).wf(old(self).events@.len() as int),
            slot < old(self).events@.len(),
        ensures
            final(self).wf(old(self).events@.len() as int),
            final(self).ring_cap == old(self).ring_cap,
            final(self).rings() == old(self).rings().update(
                slot as int,
                ring_push(old(self).rings()[slot as int], old(self).ring_cap as int, event),
            ),
    {
        let s: usize = slot as usize;
        if self.events[s].len() >= self.ring_cap {
            self.events[s].remove(0);
            assert(self.events@[s as int]@ =~= old(self).events@[s as int]@.skip(1));
        }
        self.events[s].push(event);
        assert(self.rings() =~= old(self).rings().update(
            slot as int,
            ring_push(old(self).rings()[slot as int], old(self).ring_cap as int, event),
        ));
    }

    /// The events of a slot, oldest first.
    pub fn get(&self, slot: u32) -> (r: &[SlotEvent])
        requires
            slot < self.events@.len(),
        ensures
            r@ == self.rings()[slot as int],
    {
        self.events[slot as usize].as_slice()
    }
}

/// How many of the numbers below `n` have a property.
pub open spec fn count_where(p: spec_fn(int) -> bool, n: int) -> int
    decreases n,
{
    if n <= 0 {
        0
    } else {
        count_where(p, n - 1) + if p(n - 1) {
            1int
        } else {
            0int
        }
    }
}

pub(crate) proof fn lemma_count_bounds(p: spec_fn(int) -> bool, n: int)
    requires
        0 <= n,
    ensures
        0 <= count_where(p, n) <= n,
        count_where(p, n) > 0 <==> exists|i: int| 0 <= i < n && #[trigger] p(i),
    decreases n,
{
    if n > 0 {
        lemma_count_bounds(p, n - 1);
        if p(n - 1) {
            assert(0 <= n - 1 < n && p(n - 1));
        } else if count_where(p, n - 1) > 0 {
            let i = choose|i: int| 0 <= i < n - 1 && #[trigger] p(i);
            assert(0 <= i < n && p(i));
        }
    }
}

/// Two properties that agree below `n`, except that `s` may differ.
proof fn lemma_count_change(p: spec_fn(int) -> bool, q: spec_fn(int) -> bool, n: int, s: int)
    requires
        0 <= n,
        forall|i: int| 0 <= i < n && i != s ==> #[trigger] p(i) == q(i),
    ensures
        count_where(q, n) == count_where(p, n) + if 0 <= s < n {
            (if q(s) { 1int } else { 0int }) - (if p(s) { 1int } else { 0int })
        } else {
            0int
        },
    decreases n,
{
    if n > 0 {
        lemma_count_change(p, q, n - 1, s);
        assert(n - 1 != s ==> p(n - 1) == q(n - 1));
    }
}

/// A memory object divided into slots of one size.
#[derive(Debug)]
pub struct Slab {
    /// Handle of the memory object.
    pub memory: u64,
    /// Size in bytes.
    pub total_size: u64,
    /// Size of a slot in bytes.
    pub slot_size: u64,
    /// Number of slots.
    pub slot_count: u32,
    /// Address at which the object is mapped, if it is.
    pub mapped_base: Option<u64>,
    /// Slots in use.
    pub allocated: Bitmap,
    /// Slots in quarantine.
    pub quarantine: Bitmap,
    /// Slots in quarantine, oldest first.
    pub quarantine_fifo: VecDeque<u32>,
    /// Maximum number of slots in quarantine.
    pub quarantine_max: u32,
    /// Number of slots that are neither in use nor in quarantine.
    pub free_count: u32,
    /// Picks slots.
    pub rng: Rng,
    /// Events per slot, if they are kept.
    pub history: Option<SlotHistory>,
    /// When the slab was created, in microseconds on the clock of the call sites.
    pub created_us: u64,
    /// Bytes asked for, per slot. They count for slots in use only.
    pub user_sizes: Vec<u64>,
}

/// Bytes in front of user data that is placed as near to the end of its slot as its alignment
/// allows.
pub open spec fn prefix_bytes(slot_size: u64, user_size: u64, alignment: u64) -> int {
    let a = crate::memory::allocator::effective_alignment(alignment) as int;
    if user_size < slot_size {
        ((slot_size - user_size) / a) * a
    } else {
        0
    }
}

/// The prefix is a multiple of the alignment, and leaves room for the data and less than the
/// alignment behind it.
pub(crate) proof fn lemma_prefix(slot_size: u64, user_size: u64, alignment: u64)
    requires
        user_size <= slot_size,
    ensures
        0 <= prefix_bytes(slot_size, user_size, alignment) <= slot_size - user_size,
        slot_size - user_size < prefix_bytes(slot_size, user_size, alignment)
            + crate::memory::allocator::effective_alignment(alignment),
        prefix_bytes(slot_size, user_size, alignment)
            % (crate::memory::allocator::effective_alignment(alignment) as int) == 0,
{
    let a = crate::memory::allocator::effective_alignment(alignment) as int;
    let gap = slot_size - user_size;
    vstd::arithmetic::div_mod::lemma_fundamental_div_mod(gap, a);
    vstd::arithmetic::div_mod::lemma_mod_bound(gap, a);
    vstd::arithmetic::mul::lemma_mul_is_commutative(a, gap / a);
    vstd::arithmetic::div_mod::lemma_mod_multiples_basic(gap / a, a);
    vstd::arithmetic::div_mod::lemma_div_pos_is_pos(gap, a);
    vstd::arithmetic::mul::lemma_mul_nonnegative(gap / a, a);
    vstd::arithmetic::div_mod::lemma_mod_multiples_basic(0, a);
}

fn prefix_size(slot_size: u64, user_size: u64, alignment: u64) -> (r: u64)
    ensures
        r == prefix_bytes(slot_size, user_size, alignment),
        r <= slot_size,
        user_size <= slot_size ==> r <= slot_size - user_size,
{
    if user_size >= slot_size {
        return 0;
    }
    proof {
        lemma_prefix(slot_size, user_size, alignment);
    }
    let a: u64 = if alignment == 0 {
        1
    } else {
        alignment
    };
    ((slot_size - user_size) / a) * a
}

/// Most slots that a slab can have.
pub const MAX_SLOTS: u32 = 0x8000_0000;

impl Slab {
    /// Microseconds from the creation of the slab to a moment, or 0 where the moment lies before.
    pub open spec fn age_at(&self, now_us: u64) -> u64 {
        if now_us < self.created_us {
            0
        } else {
            (now_us - self.created_us) as u64
        }
    }

    /// Slot `i` is neither in use nor in quarantine.
    pub open spec fn slot_free(&self, i: int) -> bool {
        !self.allocated.has(i) && !self.quarantine.has(i)
    }

    /// The slots, the bitmaps, the quarantine queue and the count of free slots agree.
    pub open spec fn wf(&self) -> bool {
        &&& self.slot_size > 0
        &&& 0 < self.slot_count <= MAX_SLOTS
        &&& self.slot_count * self.slot_size <= self.total_size
        &&& self.user_sizes@.len() == self.slot_count
        &&& self.slot_count <= self.allocated.capacity()
        &&& self.allocated.capacity() == self.quarantine.capacity()
        &&& forall|i: int|
            self.slot_count <= i < self.allocated.capacity() ==> !#[trigger] self.allocated.has(i)
        &&& forall|i: int|
            0 <= i < self.slot_count ==> !(#[trigger] self.allocated.has(i) && self.quarantine.has(i))
        &&& self.quarantine_fifo@.no_duplicates()
        &&& forall|k: int|
            0 <= k < self.quarantine_fifo@.len() ==> #[trigger] self.quarantine_fifo@[k]
                < self.slot_count
        &&& forall|i: int|
            0 <= i < self.slot_count ==> (#[trigger] self.quarantine.has(i)
                <==> self.quarantine_fifo@.contains(i as u32))
        &&& self.quarantine_fifo@.len() <= self.quarantine_max
        &&& self.free_count == count_where(|i: int| self.slot_free(i), self.slot_count as int)
        &&& self.history matches Some(h) ==> h.wf(self.slot_count as int)
        &&& self.mapped_base matches Some(base) ==> base + self.total_size <= u64::MAX
    }

    /// What an operation never changes.
    pub open spec fn same_shape(&self, new: &Slab) -> bool {
        &&& new.memory == self.memory
        &&& new.total_size == self.total_size
        &&& new.slot_size == self.slot_size
        &&& new.slot_count == self.slot_count
        &&& new.mapped_base == self.mapped_base
        &&& new.quarantine_max == self.quarantine_max
        &&& new.created_us == self.created_us
        &&& new.allocated.capacity() == self.allocated.capacity()
        &&& new.history is Some <==> self.history is Some
        &&& new.history matches Some(h) ==> h.ring_cap == self.history->0.ring_cap
    }

    /// The histories of the slots, if they are kept.
    pub open spec fn rings(&self) -> Option<Seq<Seq<SlotEvent>>> {
        match self.history {
            Some(h) => Some(h.rings()),
            None => None,
        }
    }

    /// The histories once `event` has been recorded for `slot`.
    pub open spec fn rings_with(
        rings: Option<Seq<Seq<SlotEvent>>>,
        cap: int,
        slot: int,
        event: SlotEvent,
    ) -> Option<Seq<Seq<SlotEvent>>> {
        match rings {
            Some(r) => Some(r.update(slot, ring_push(r[slot], cap, event))),
            None => None,
        }
    }

    /// How many events are kept per slot.
    pub open spec fn ring_cap(&self) -> int {
        match self.history {
            Some(h) => h.ring_cap as int,
            None => 0,
        }
    }

    /// The slot at which the next search starts.
    pub open spec fn search_start(&self) -> int {
        (mixed(self.rng.state.wrapping_add(RNG_GAMMA)) % (self.slot_count as u64)) as int
    }

    /// Slot `slot` is the first free one, searching forward from the start and wrapping
    /// around.
    pub open spec fn picks(&self, slot: int) -> bool {
        exists|d: int| #[trigger] self.picks_after(slot, d)
    }

    /// The search finds `slot` after passing `d` slots that are not free.
    pub open spec fn picks_after(&self, slot: int, d: int) -> bool {
        let n = self.slot_count as int;
        &&& 0 <= d < n
        &&& slot == (self.search_start() + d) % n
        &&& self.slot_free(slot)
        &&& forall|e: int| 0 <= e < d ==> !self.slot_free(#[trigger] ((self.search_start() + e) % n))
    }

    /// Where user data of a size and alignment is placed in a slot: as near to its end as the
    /// alignment allows, or at its start.
    pub open spec fn user_offset(
        &self,
        slot: int,
        user_size: u64,
        alignment: u64,
        right_align: bool,
    ) -> int {
        if right_align {
            slot * self.slot_size + prefix_bytes(self.slot_size, user_size, alignment)
        } else {
            slot * self.slot_size
        }
    }

    /// `new` is the slab once `slot` has been taken into use for a number of bytes.
    pub open spec fn takes(
        &self,
        new: &Slab,
        slot: int,
        user_size: u64,
        site: CallSite,
    ) -> bool {
        &&& self.same_shape(new)
        &&& self.picks(slot)
        &&& forall|i: int|
            0 <= i < self.allocated.capacity() ==> #[trigger] new.allocated.has(i) == (i == slot
                || self.allocated.has(i))
        &&& forall|i: int|
            0 <= i < self.slot_count ==> #[trigger] new.quarantine.has(i) == self.quarantine.has(i)
        &&& new.quarantine_fifo@ == self.quarantine_fifo@
        &&& new.free_count == self.free_count - 1
        &&& new.user_sizes@ == self.user_sizes@.update(slot, user_size)
        &&& new.rng.state == self.rng.state.wrapping_add(RNG_GAMMA)
        &&& new.rings() == Slab::rings_with(
            self.rings(),
            self.ring_cap(),
            slot,
            SlotEvent {
                kind: SlotEventKind::Allocated,
                timestamp_us: self.age_at(site.now_us),
                caller_hash: site.caller_hash,
            },
        )
    }

    /// `new` is the slab once `slot` has been freed.
    ///
    /// Without quarantine the slot is free at once. With quarantine it joins the queue,
    /// and the oldest slot in the queue becomes free if the queue has grown too long.
    pub open spec fn gives_back(&self, new: &Slab, slot: int, site: CallSite) -> bool {
        let freed = Slab::rings_with(
            self.rings(),
            self.ring_cap(),
            slot,
            SlotEvent {
                kind: SlotEventKind::Freed,
                timestamp_us: self.age_at(site.now_us),
                caller_hash: site.caller_hash,
            },
        );
        &&& self.same_shape(new)
        &&& forall|i: int|
            0 <= i < self.allocated.capacity() ==> #[trigger] new.allocated.has(i) == (i != slot
                && self.allocated.has(i))
        &&& new.user_sizes@ == self.user_sizes@
        &&& new.rng == self.rng
        &&& if self.quarantine_max == 0 {
            &&& new.quarantine_fifo@ == self.quarantine_fifo@
            &&& new.free_count == self.free_count + 1
            &&& new.rings() == freed
        } else {
            let queue = self.quarantine_fifo@.push(slot as u32);
            if queue.len() <= self.quarantine_max {
                &&& new.quarantine_fifo@ == queue
                &&& new.free_count == self.free_count
                &&& new.rings() == freed
            } else {
                &&& new.quarantine_fifo@ == queue.skip(1)
                &&& new.free_count == self.free_count + 1
                &&& new.rings() == Slab::rings_with(
                    freed,
                    self.ring_cap(),
                    queue[0] as int,
                    SlotEvent {
                        kind: SlotEventKind::QuarantineExit,
                        timestamp_us: self.age_at(site.now_us),
                        caller_hash: 0,
                    },
                )
            }
        }
    }

    /// A slab with all of its slots free.
    pub fn new(
        memory: u64,
        slab_size: u64,
        slot_size: u64,
        mapped_base: Option<u64>,
        seed: u64,
        created_us: u64,
        config: &SlabConfig,
    ) -> (r: Slab)
        requires
            0 < slot_size <= slab_size,
            slab_size / slot_size <= MAX_SLOTS,
            mapped_base matches Some(base) ==> base + slab_size <= u64::MAX,
        ensures
            r.wf(),
            r.memory == memory,
            r.total_size == slab_size,
            r.slot_size == slot_size,
            r.slot_count == slab_size / slot_size,
            r.mapped_base == mapped_base,
            r.free_count == r.slot_count,
            r.quarantine_max == config.quarantine_slots,
            r.quarantine_fifo@.len() == 0,
            forall|i: int| 0 <= i < r.slot_count ==> #[trigger] r.slot_free(i),
            r.rng.state == seed.wrapping_add(RNG_GAMMA),
            r.created_us == created_us,
            r.user_sizes@ == Seq::new(r.slot_count as nat, |i: int| 0u64),
            r.ring_cap() == if config.slot_history { HISTORY_RING as int } else { 0 },
            r.rings() == if config.slot_history {
                Some(Seq::new(r.slot_count as nat, |i: int| Seq::<SlotEvent>::empty()))
            } else {
                None
            },
    {
        proof {
            vstd::arithmetic::div_mod::lemma_fundamental_div_mod(
                slab_size as int,
                slot_size as int,
            );
            vstd::arithmetic::div_mod::lemma_div_non_zero(slab_size as int, slot_size as int);
            vstd::arithmetic::mul::lemma_mul_is_commutative(
                slot_size as int,
                (slab_size / slot_size) as int,
            );
        }
        let slot_count: u32 = (slab_size / slot_size) as u32;
        let allocated: Bitmap = Bitmap::new(slot_count);
        let user_sizes: Vec<u64> = vec![0u64; slot_count as usize];
        assert(user_sizes@ =~= Seq::new(slot_count as nat, |i: int| 0u64));
        let quarantine: Bitmap = Bitmap::new(slot_count);
        let history: Option<SlotHistory> = if config.slot_history {
            Some(SlotHistory::new(slot_count, HISTORY_RING))
        } else {
            None
        };
        let r: Slab = Slab {
            memory,
            total_size: slab_size,
            slot_size,
            slot_count,
            mapped_base,
            allocated,
            quarantine,
            quarantine_fifo: VecDeque::new(),
            quarantine_max: config.quarantine_slots,
            free_count: slot_count,
            rng: Rng::new(seed),
            history,
            created_us,
            user_sizes,
        };
        proof {
            assert forall|i: int| 0 <= i < r.slot_count implies #[trigger] r.slot_free(i) by {
                assert(!r.allocated.has(i));
                assert(!r.quarantine.has(i));
            }
            lemma_count_all(|i: int| r.slot_free(i), slot_count as int);
        }
        r
    }

    /// Microseconds from the creation of the slab to a moment, or 0 where the moment lies before.
    fn age(&self, now_us: u64) -> (r: u64)
        ensures
            r == self.age_at(now_us),
    {
        if now_us < self.created_us {
            0
        } else {
            now_us - self.created_us
        }
    }

    /// Whether a slot is in use.
    pub fn is_allocated(&self, slot: u32) -> (r: bool)
        requires
            slot < self.allocated.capacity(),
        ensures
            r == self.allocated.has(slot as int),
    {
        self.allocated.get(slot)
    }

    /// Whether a slot is in quarantine.
    pub fn is_quarantined(&self, slot: u32) -> (r: bool)
        requires
            slot < self.quarantine.capacity(),
        ensures
            r == self.quarantine.has(slot as int),
    {
        self.quarantine.get(slot)
    }

    /// Whether a slot is neither in use nor in quarantine.
    pub fn is_free(&self, slot: u32) -> (r: bool)
        requires
            slot < self.allocated.capacity(),
            slot < self.quarantine.capacity(),
        ensures
            r == self.slot_free(slot as int),
    {
        !self.is_allocated(slot) && !self.is_quarantined(slot)
    }

    /// A free slot, searched from a random position on.
    pub fn find_random_free_slot(&mut self) -> (r: Option<u32>)
        requires
            old(self).wf(),
        ensures
            final(self).wf(),
            *final(self) == (Slab { rng: final(self).rng, ..*old(self) }),
            r is Some <==> old(self).free_count > 0,
            match r {
                Some(slot) => {
                    &&& slot < old(self).slot_count
                    &&& old(self).picks(slot as int)
                    &&& final(self).rng.state == old(self).rng.state.wrapping_add(RNG_GAMMA)
                },
                None => final(self).rng == old(self).rng,
            },
    {
        if self.free_count == 0 {
            return None;
        }
        let start: u32 = self.rng.next_bounded(self.slot_count);
        let mut offset: u32 = 0;
        proof {
            let f0 = |i: int| old(self).slot_free(i);
            let f1 = |i: int| self.slot_free(i);
            lemma_count_change(f0, f1, self.slot_count as int, -1);
        }
        while offset < self.slot_count
            invariant
                self.wf(),
                *self == (Slab { rng: self.rng, ..*old(self) }),
                self.rng.state == old(self).rng.state.wrapping_add(RNG_GAMMA),
                self.free_count > 0,
                start == old(self).search_start(),
                start < self.slot_count,
                offset <= self.slot_count,
                forall|e: int|
                    0 <= e < offset ==> !old(self).slot_free(
                        #[trigger] ((old(self).search_start() + e) % (self.slot_count as int)),
                    ),
            decreases self.slot_count - offset,
        {
            let slot: u32 = (start + offset) % self.slot_count;
            if self.is_free(slot) {
                assert(old(self).slot_free(slot as int));
                assert(old(self).picks_after(slot as int, offset as int));
                return Some(slot);
            }
            assert(!old(self).slot_free(slot as int));
            offset = offset + 1;
        }
        proof {
            let n = self.slot_count as int;
            let f = |i: int| self.slot_free(i);
            lemma_count_bounds(f, n);
            let i = choose|i: int| 0 <= i < n && #[trigger] f(i);
            let st = old(self).search_start();
            let e = if i >= st { i - st } else { i + n - st };
            if i >= st {
                vstd::arithmetic::div_mod::lemma_small_mod(i as nat, n as nat);
            } else {
                vstd::arithmetic::div_mod::lemma_mod_add_multiples_vanish(i, n);
                vstd::arithmetic::div_mod::lemma_small_mod(i as nat, n as nat);
            }
            assert((st + e) % n == i);
            assert(!old(self).slot_free((st + e) % n));
        }
        None
    }
}

impl Slab {
    /// Records an event in the history of a slot, if histories are kept.
    fn record(&mut self, slot: u32, event: SlotEvent)
        requires
            slot < old(self).slot_count,
            old(self).history matches Some(h) ==> h.wf(old(self).slot_count as int),
        ensures
            *final(self) == (Slab { history: final(self).history, ..*old(self) }),
            final(self).history is Some <==> old(self).history is Some,
            final(self).history matches Some(h) ==> h.wf(old(self).slot_count as int)
                && h.ring_cap == old(self).history->0.ring_cap,
            final(self).rings() == Slab::rings_with(
                old(self).rings(),
                old(self).ring_cap(),
                slot as int,
                event,
            ),
    {
        if let Some(history) = &mut self.history {
            history.push(slot, event);
        }
    }

    /// Takes a slot into use. Returns its number and the offset of the user data.
    pub fn allocate_slot(
        &mut self,
        user_size: u64,
        alignment: u64,
        right_align: bool,
        site: CallSite,
    ) -> (r: Option<(u32, u64)>)
        requires
            old(self).wf(),
        ensures
            final(self).wf(),
            r is Some <==> old(self).free_count > 0,
            match r {
                Some((slot, offset)) => {
                    &&& slot < old(self).slot_count
                    &&& old(self).takes(final(self), slot as int, user_size, site)
                    &&& offset == old(self).user_offset(
                        slot as int,
                        user_size,
                        alignment,
                        right_align,
                    )
                },
                None => *final(self) == *old(self),
            },
    {
        let slot: u32 = match self.find_random_free_slot() {
            Some(slot) => slot,
            None => {
                return None;
            },
        };
        let ghost found = *self;
        self.allocated.set(slot);
        self.free_count = self.free_count - 1;
        self.user_sizes.set(slot as usize, user_size);
        proof {
            let p = |i: int| found.slot_free(i);
            let q = |i: int| self.slot_free(i);
            assert forall|i: int| 0 <= i < self.slot_count && i != slot implies #[trigger] p(i)
                == q(i) by {
                assert(self.allocated.has(i) == found.allocated.has(i));
            }
            assert(old(self).slot_free(slot as int)) by {
                let d = choose|d: int| #[trigger] old(self).picks_after(slot as int, d);
                assert(old(self).picks_after(slot as int, d));
            }
            assert(p(slot as int));
            assert(self.allocated.has(slot as int));
            lemma_count_change(p, q, self.slot_count as int, slot as int);
            lemma_slot_range(slot as int, self.slot_count as int, self.slot_size as int);
            assert(self.wf()) by {
                assert forall|i: int| 0 <= i < self.slot_count implies !(
                #[trigger] self.allocated.has(i) && self.quarantine.has(i)) by {
                    assert(found.allocated.has(i) == old(self).allocated.has(i));
                }
            }
        }
        let slot_base: u64 = (slot as u64) * self.slot_size;
        let offset: u64 = if right_align {
            slot_base + prefix_size(self.slot_size, user_size, alignment)
        } else {
            slot_base
        };
        let ghost marked = *self;
        self.record(
            slot,
            SlotEvent {
                kind: SlotEventKind::Allocated,
                timestamp_us: self.age(site.now_us),
                caller_hash: site.caller_hash,
            },
        );
        proof {
            lemma_same_slots(marked, *self);
        }
        Some((slot, offset))
    }

    /// Frees a slot that is in use and puts it into quarantine, if there is one.
    pub fn free_slot(&mut self, slot: u32, site: CallSite)
        requires
            old(self).wf(),
            slot < old(self).slot_count,
            old(self).allocated.has(slot as int),
        ensures
            final(self).wf(),
            old(self).gives_back(final(self), slot as int, site),
    {
        let n: Ghost<int> = Ghost(self.slot_count as int);
        self.allocated.clear(slot);
        self.record(
            slot,
            SlotEvent {
                kind: SlotEventKind::Freed,
                timestamp_us: self.age(site.now_us),
                caller_hash: site.caller_hash,
            },
        );
        let ghost cleared = *self;
        proof {
            let p = |i: int| old(self).slot_free(i);
            let q = |i: int| cleared.slot_free(i);
            assert(!old(self).quarantine.has(slot as int));
            assert forall|i: int| 0 <= i < n@ && i != slot implies #[trigger] p(i) == q(i) by {
                assert(cleared.allocated.has(i) == old(self).allocated.has(i));
            }
            assert(!cleared.allocated.has(slot as int));
            lemma_count_change(p, q, n@, slot as int);
            lemma_count_bounds(q, n@);
        }
        if self.quarantine_max > 0 {
            self.quarantine.set(slot);
            self.quarantine_fifo.push_back(slot);
            let ghost queued = *self;
            proof {
                let p = |i: int| cleared.slot_free(i);
                let q = |i: int| queued.slot_free(i);
                assert forall|i: int| 0 <= i < n@ && i != slot implies #[trigger] p(i) == q(i) by {
                    assert(queued.quarantine.has(i) == cleared.quarantine.has(i));
                }
                assert(queued.quarantine.has(slot as int));
                lemma_count_change(p, q, n@, slot as int);
                lemma_queue_push(
                    old(self).quarantine_fifo@,
                    slot,
                    old(self).quarantine,
                    queued.quarantine,
                    n@,
                );
            }
            if self.quarantine_fifo.len() > self.quarantine_max as usize {
                if let Some(evicted) = self.quarantine_fifo.pop_front() {
                    proof {
                        assert(queued.quarantine_fifo@[0] == evicted);
                        assert(queued.quarantine_fifo@.contains(evicted));
                        assert(evicted as int as u32 == evicted);
                        assert(queued.quarantine.has(evicted as int));
                        assert(evicted != slot) by {
                            assert(queued.quarantine_fifo@[queued.quarantine_fifo@.len() - 1]
                                == slot);
                        }
                        assert(old(self).quarantine.has(evicted as int));
                        assert(!old(self).allocated.has(evicted as int));
                    }
                    self.quarantine.clear(evicted);
                    self.free_count = self.free_count + 1;
                    let ghost released = *self;
                    self.record(
                        evicted,
                        SlotEvent {
                            kind: SlotEventKind::QuarantineExit,
                            timestamp_us: self.age(site.now_us),
                            caller_hash: 0,
                        },
                    );
                    proof {
                        let p = |i: int| queued.slot_free(i);
                        let q = |i: int| self.slot_free(i);
                        assert forall|i: int| 0 <= i < n@ && i != evicted implies #[trigger] p(i)
                            == q(i) by {
                            assert(self.quarantine.has(i) == queued.quarantine.has(i));
                        }
                        assert(!self.quarantine.has(evicted as int));
                        assert(!self.allocated.has(evicted as int));
                        lemma_count_change(p, q, n@, evicted as int);
                        lemma_queue_pop(
                            queued.quarantine_fifo@,
                            queued.quarantine,
                            self.quarantine,
                            n@,
                        );
                        assert(self.quarantine_fifo@ =~= old(self).quarantine_fifo@.push(
                            slot,
                        ).skip(1));
                    }
                }
            }
        } else {
            self.free_count = self.free_count + 1;
            proof {
                let p = |i: int| cleared.slot_free(i);
                let q = |i: int| self.slot_free(i);
                lemma_count_change(p, q, n@, -1);
            }
        }
        proof {
            assert forall|i: int| 0 <= i < self.slot_count implies !(
            #[trigger] self.allocated.has(i) && self.quarantine.has(i)) by {
                assert(self.allocated.has(i) == (i != slot && old(self).allocated.has(i)));
                if i != slot && self.quarantine.has(i) {
                    assert(old(self).quarantine.has(i));
                }
            }
        }
    }
}

/// A slot and all in front of it lie within the slots.
pub(crate) proof fn lemma_slot_range(slot: int, slot_count: int, slot_size: int)
    requires
        0 <= slot < slot_count,
        0 <= slot_size,
    ensures
        0 <= slot * slot_size,
        slot * slot_size + slot_size <= slot_count * slot_size,
{
    assert(slot * slot_size + slot_size == (slot + 1) * slot_size) by (nonlinear_arith);
    assert((slot + 1) * slot_size <= slot_count * slot_size) by (nonlinear_arith)
        requires
            slot + 1 <= slot_count,
            0 <= slot_size,
    ;
    assert(0 <= slot * slot_size) by (nonlinear_arith)
        requires
            0 <= slot,
            0 <= slot_size,
    ;
}

/// A slab that differs in its history only has the same slots.
proof fn lemma_same_slots(a: Slab, b: Slab)
    requires
        a.wf(),
        b == (Slab { history: b.history, ..a }),
        b.history matches Some(h) ==> h.wf(a.slot_count as int),
    ensures
        b.wf(),
{
    let p = |i: int| a.slot_free(i);
    let q = |i: int| b.slot_free(i);
    lemma_count_change(p, q, a.slot_count as int, -1);
}

/// The quarantine queue and its bitmap after a slot has joined.
proof fn lemma_queue_push(queue: Seq<u32>, slot: u32, before: Bitmap, after: Bitmap, n: int)
    requires
        queue.no_duplicates(),
        n <= u32::MAX,
        slot < n,
        !before.has(slot as int),
        forall|i: int| 0 <= i < n ==> (#[trigger] before.has(i) <==> queue.contains(i as u32)),
        forall|i: int| 0 <= i < n ==> #[trigger] after.has(i) == (i == slot || before.has(i)),
        forall|k: int| 0 <= k < queue.len() ==> #[trigger] queue[k] < n,
    ensures
        queue.push(slot).no_duplicates(),
        forall|i: int|
            0 <= i < n ==> (#[trigger] after.has(i) <==> queue.push(slot).contains(i as u32)),
        forall|k: int| 0 <= k < queue.push(slot).len() ==> #[trigger] queue.push(slot)[k] < n,
{
    let new = queue.push(slot);
    assert(slot as int as u32 == slot);
    assert(!queue.contains(slot));
    assert forall|i: int| 0 <= i < n implies (#[trigger] after.has(i) <==> new.contains(i as u32)) by {
        if queue.contains(i as u32) {
            let k = choose|k: int| 0 <= k < queue.len() && queue[k] == i as u32;
            assert(new[k] == i as u32);
        }
        if i == slot {
            assert(new[queue.len() as int] == i as u32);
        }
        if new.contains(i as u32) && i != slot {
            let k = choose|k: int| 0 <= k < new.len() && new[k] == i as u32;
            assert(queue[k] == i as u32);
        }
    }
}

/// The quarantine queue and its bitmap after the oldest slot has left.
proof fn lemma_queue_pop(queue: Seq<u32>, before: Bitmap, after: Bitmap, n: int)
    requires
        queue.len() > 0,
        queue.no_duplicates(),
        n <= u32::MAX,
        forall|i: int| 0 <= i < n ==> (#[trigger] before.has(i) <==> queue.contains(i as u32)),
        forall|i: int| 0 <= i < n ==> #[trigger] after.has(i) == (i != queue[0] && before.has(i)),
        forall|k: int| 0 <= k < queue.len() ==> #[trigger] queue[k] < n,
    ensures
        queue.skip(1).no_duplicates(),
        forall|i: int|
            0 <= i < n ==> (#[trigger] after.has(i) <==> queue.skip(1).contains(i as u32)),
        forall|k: int| 0 <= k < queue.skip(1).len() ==> #[trigger] queue.skip(1)[k] < n,
{
    let new = queue.skip(1);
    assert forall|i: int| 0 <= i < n implies (#[trigger] after.has(i) <==> new.contains(i as u32)) by {
        if queue.contains(i as u32) && i != queue[0] {
            let k = choose|k: int| 0 <= k < queue.len() && queue[k] == i as u32;
            assert(new[k - 1] == i as u32);
        }
        if new.contains(i as u32) {
            let k = choose|k: int| 0 <= k < new.len() && new[k] == i as u32;
            assert(queue[k + 1] == i as u32);
        }
    }
}

proof fn lemma_count_all(p: spec_fn(int) -> bool, n: int)
    requires
        0 <= n,
        forall|i: int| 0 <= i < n ==> #[trigger] p(i),
    ensures
        count_where(p, n) == n,
    decreases n,
{
    if n > 0 {
        lemma_count_all(p, n - 1);
        assert(p(n - 1));
    }
}

impl Slab {
    /// How many of the bytes in front of the user data are not zero.
    ///
    /// `slot_bytes` is the contents of the slot, `prefix` the number of bytes in front of the
    /// data. Memory that is not mapped has no contents to check.
    pub fn check_prefix(&self, slot_bytes: &[u8], prefix: u64) -> (r: usize)
        requires
            self.mapped_base is Some ==> slot_bytes@.len() >= prefix,
        ensures
            r == if self.mapped_base is Some {
                count_where(|i: int| slot_bytes@[i] != 0, prefix as int)
            } else {
                0
            },
    {
        if self.mapped_base.is_none() {
            return 0;
        }
        let len: usize = slot_bytes.len();
        let prefix_size: usize = prefix as usize;
        let ghost nonzero = |i: int| slot_bytes@[i] != 0;
        let mut corrupted: usize = 0;
        let mut i: usize = 0;
        while i < prefix_size
            invariant
                i <= prefix_size <= slot_bytes@.len(),
                corrupted <= i,
                nonzero == (|i: int| slot_bytes@[i] != 0),
                corrupted == count_where(nonzero, i as int),
            decreases prefix_size - i,
        {
            if slot_bytes[i] != 0 {
                corrupted = corrupted + 1;
            }
            i = i + 1;
        }
        corrupted
    }
}

/// A memory object that serves one allocation.
#[derive(Debug, Clone, Copy, PartialEq, Eq)]
pub struct DedicatedEntry {
    /// Handle of the memory object.
    pub memory: u64,
    /// Size in bytes.
    pub size: u64,
    /// Address at which the object is mapped, if it is.
    pub mapped_base: Option<u64>,
    /// Memory type.
    pub memory_type: u32,
}

/// The slabs of one memory type, by size class.
#[derive(Debug)]
pub struct TypePool {
    /// Slabs per size class.
    pub size_pools: Vec<Vec<Slab>>,
}

/// A slab that the allocator needs from the device.
#[derive(Debug, Clone, Copy, PartialEq, Eq)]
pub struct SlabRequest {
    /// Memory type to allocate from.
    pub memory_type_index: u32,
    /// Size class of its slots.
    pub size_class: usize,
    /// Size of a slot in bytes.
    pub slot_size: u64,
    /// Size in bytes.
    pub size: u64,
    /// Whether the object is to be mapped, and zeroed then.
    pub host_visible: bool,
}

/// An allocation together with the slot it was given.
#[derive(Debug, Clone, Copy)]
pub struct SlabGrant {
    /// The allocation.
    pub allocation: Allocation,
    /// Size class of the slab.
    pub size_class: usize,
    /// Number of the slab within its class.
    pub slab: usize,
    /// Number of the slot within its slab.
    pub slot: u32,
    /// Bytes of the slot in front of the user data.
    pub prefix: u64,
    /// Whether they are to be checked.
    pub check_prefix: bool,
}

/// Outcome of a request for memory.
#[derive(Debug, Clone, Copy)]
pub enum SlabStep {
    /// The request is served.
    Done(SlabGrant),
    /// A slab has to be allocated first.
    NeedSlab(SlabRequest),
    /// The request is too large for a slot and needs a memory object of its own.
    NeedDedicated(BlockRequest),
}

/// Outcome of a free.
#[derive(Debug, Clone, Copy)]
pub enum FreeOutcome {
    /// The memory object served this allocation only and is to be released.
    Dedicated(DedicatedEntry),
    /// The slot was not in use. Nothing was freed.
    DoubleFree {
        /// Size class of the slab.
        size_class: usize,
        /// Number of the slab within its class.
        slab: usize,
        /// Number of the slot within its slab.
        slot: u32,
    },
    /// The slot was freed.
    Freed {
        /// Size class of the slab.
        size_class: usize,
        /// Number of the slab within its class.
        slab: usize,
        /// Number of the slot within its slab.
        slot: u32,
        /// Whether the bytes of the slot are to be zeroed.
        zero: bool,
    },
    /// The memory is not of this allocator.
    Unknown,
}

/// Hardened slab allocator.
#[derive(Debug)]
pub struct SlabAllocator {
    /// The memory types of the device.
    pub properties: MemoryProperties,
    /// Configuration.
    pub config: SlabConfig,
    /// Slabs per memory type.
    pub pools: Vec<TypePool>,
    /// Memory objects that serve one allocation each.
    pub dedicated: Vec<DedicatedEntry>,
    /// Double frees found so far.
    pub double_free_count: u64,
    /// Overflows found so far.
    pub overflow_count: u64,
}

/// Slab `k` is the first with a free slot.
pub open spec fn first_with_room(slabs: Seq<Slab>, k: int) -> bool {
    &&& 0 <= k < slabs.len()
    &&& slabs[k].free_count > 0
    &&& forall|j: int| 0 <= j < k ==> (#[trigger] slabs[j]).free_count == 0
}

/// Slab `k` of class `c` is the first with this memory handle, class by class.
pub open spec fn first_slab(pools: Seq<Vec<Slab>>, memory: u64, c: int, k: int) -> bool {
    &&& 0 <= c < pools.len()
    &&& 0 <= k < pools[c]@.len()
    &&& pools[c]@[k].memory == memory
    &&& forall|j: int| 0 <= j < k ==> (#[trigger] pools[c]@[j]).memory != memory
    &&& forall|b: int| 0 <= b < c ==> !class_has(#[trigger] pools[b]@, memory)
}

/// Some slab of the class has this memory handle.
pub open spec fn class_has(slabs: Seq<Slab>, memory: u64) -> bool {
    exists|j: int| 0 <= j < slabs.len() && (#[trigger] slabs[j]).memory == memory
}

/// Some slab of any class has this memory handle.
pub open spec fn any_class_has(pools: Seq<Vec<Slab>>, memory: u64) -> bool {
    exists|b: int| 0 <= b < pools.len() && class_has(#[trigger] pools[b]@, memory)
}

/// The first dedicated entry with this memory handle is at `pos`.
pub open spec fn first_dedicated(list: Seq<DedicatedEntry>, memory: u64, pos: int) -> bool {
    &&& 0 <= pos < list.len()
    &&& list[pos].memory == memory
    &&& forall|j: int| 0 <= j < pos ==> (#[trigger] list[j]).memory != memory
}

/// No dedicated entry has this memory handle.
pub open spec fn no_dedicated(list: Seq<DedicatedEntry>, memory: u64) -> bool {
    forall|j: int| 0 <= j < list.len() ==> (#[trigger] list[j]).memory != memory
}

/// The pools differ at most in slab `k` of class `c` of memory type `m`.
pub open spec fn only_slab_changes(
    old_pools: Seq<TypePool>,
    new_pools: Seq<TypePool>,
    m: int,
    c: int,
    k: int,
) -> bool {
    let before = old_pools[m].size_pools@;
    let after = new_pools[m].size_pools@;
    &&& new_pools.len() == old_pools.len()
    &&& forall|j: int| 0 <= j < old_pools.len() && j != m ==> new_pools[j] == old_pools[j]
    &&& after.len() == before.len()
    &&& forall|j: int| 0 <= j < before.len() && j != c ==> after[j] == before[j]
    &&& after[c]@.len() == before[c]@.len()
    &&& forall|j: int| 0 <= j < before[c]@.len() && j != k ==> after[c]@[j] == before[c]@[j]
}

/// The slabs of one memory type are in order.
pub open spec fn type_pool_wf(pool: TypePool) -> bool {
    &&& pool.size_pools@.len() == SIZE_CLASS_COUNT
    &&& forall|c: int, k: int|
        0 <= c < SIZE_CLASS_COUNT && 0 <= k < pool.size_pools@[c]@.len() ==> (
        #[trigger] pool.size_pools@[c]@[k]).wf() && pool.size_pools@[c]@[k].slot_size
            == class_size(c)
}

impl SlabAllocator {
    /// One pool per memory type that the API can number, each in order.
    pub open spec fn wf(&self) -> bool {
        &&& self.properties.wf()
        &&& self.pools@.len() == crate::memory::allocator::MAX_MEMORY_TYPES
        &&& forall|m: int| 0 <= m < self.pools@.len() ==> type_pool_wf(#[trigger] self.pools@[m])
    }

    /// What no operation on slots changes.
    pub open spec fn same_setup(&self, new: &SlabAllocator) -> bool {
        &&& new.properties == self.properties
        &&& new.config == self.config
        &&& new.double_free_count == self.double_free_count
        &&& new.overflow_count == self.overflow_count
    }

    /// The address of an offset in a slab.
    pub open spec fn mapped_at(slab: Slab, offset: int) -> Option<u64> {
        match slab.mapped_base {
            Some(base) => Some((base + offset) as u64),
            None => None,
        }
    }

    /// Creates an allocator with the production configuration.
    pub fn new(properties: MemoryProperties) -> (r: SlabAllocator)
        requires
            properties.wf(),
        ensures
            r.wf(),
            r.properties == properties,
            r.config == SlabConfig::spec_default(),
            r.is_empty(),
    {
        SlabAllocator::with_config(properties, SlabConfig::production())
    }

    /// No memory has been taken in and no error has been found.
    pub open spec fn is_empty(&self) -> bool {
        &&& self.dedicated@.len() == 0
        &&& self.double_free_count == 0
        &&& self.overflow_count == 0
        &&& forall|m: int, c: int|
            0 <= m < self.pools@.len() && 0 <= c < SIZE_CLASS_COUNT ==> (
            #[trigger] self.pools@[m].size_pools@[c])@.len() == 0
    }

    /// Creates an allocator with a given configuration.
    pub fn with_config(properties: MemoryProperties, config: SlabConfig) -> (r: SlabAllocator)
        requires
            properties.wf(),
        ensures
            r.wf(),
            r.properties == properties,
            r.config == config,
            r.is_empty(),
    {
        let mut pools: Vec<TypePool> = Vec::new();
        while pools.len() < crate::memory::allocator::MAX_MEMORY_TYPES
            invariant
                pools@.len() <= crate::memory::allocator::MAX_MEMORY_TYPES,
                forall|m: int| 0 <= m < pools@.len() ==> type_pool_wf(#[trigger] pools@[m]),
                forall|m: int, c: int|
                    0 <= m < pools@.len() && 0 <= c < SIZE_CLASS_COUNT ==> (
                    #[trigger] pools@[m].size_pools@[c])@.len() == 0,
            decreases crate::memory::allocator::MAX_MEMORY_TYPES - pools@.len(),
        {
            let mut size_pools: Vec<Vec<Slab>> = Vec::new();
            while size_pools.len() < SIZE_CLASS_COUNT
                invariant
                    size_pools@.len() <= SIZE_CLASS_COUNT,
                    forall|c: int|
                        0 <= c < size_pools@.len() ==> (#[trigger] size_pools@[c])@.len() == 0,
                decreases SIZE_CLASS_COUNT - size_pools@.len(),
            {
                size_pools.push(Vec::new());
            }
            pools.push(TypePool { size_pools });
        }
        SlabAllocator {
            properties,
            config,
            pools,
            dedicated: Vec::new(),
            double_free_count: 0,
            overflow_count: 0,
        }
    }

    /// Human-readable name.
    pub fn name(&self) -> (r: &'static str)
        ensures
            r@ == "SlabAllocator"@,
    {
        "SlabAllocator"
    }
}

impl SlabAllocator {
    /// What a request for memory leads to.
    pub open spec fn answers(
        &self,
        new: &SlabAllocator,
        requirements: MemoryRequirements,
        location: MemoryLocation,
        site: CallSite,
        r: Result<SlabStep, Error>,
    ) -> bool {
        let size = requirements.size;
        let alignment = crate::memory::allocator::effective_alignment(requirements.alignment);
        let bits = requirements.memory_type_bits;
        match r {
            Err(e) => {
                &&& crate::memory::allocator::memory_type_choice(
                    self.properties,
                    bits,
                    location,
                    Err(e),
                )
                &&& new.pools@ == self.pools@
            },
            Ok(SlabStep::NeedDedicated(q)) => {
                &&& crate::memory::allocator::memory_type_choice(
                    self.properties,
                    bits,
                    location,
                    Ok(q.memory_type_index),
                )
                &&& exceeds_classes(size, alignment)
                &&& q.size == size
                &&& q.dedicated
                &&& q.host_visible == vulkan::has_flags(
                    self.properties.types@[q.memory_type_index as int],
                    vulkan::MEMORY_HOST_VISIBLE,
                )
                &&& new.pools@ == self.pools@
            },
            Ok(SlabStep::NeedSlab(q)) => {
                let slabs = self.pools@[q.memory_type_index as int].size_pools@[q.size_class as int]@;
                &&& crate::memory::allocator::memory_type_choice(
                    self.properties,
                    bits,
                    location,
                    Ok(q.memory_type_index),
                )
                &&& is_class_for(size, alignment, q.size_class as int)
                &&& q.slot_size == class_size(q.size_class as int)
                &&& q.size == if self.config.slab_size >= q.slot_size {
                    self.config.slab_size
                } else {
                    q.slot_size
                }
                &&& q.host_visible == vulkan::has_flags(
                    self.properties.types@[q.memory_type_index as int],
                    vulkan::MEMORY_HOST_VISIBLE,
                )
                &&& forall|j: int| 0 <= j < slabs.len() ==> (#[trigger] slabs[j]).free_count == 0
                &&& new.pools@ == self.pools@
            },
            Ok(SlabStep::Done(g)) => {
                let m = g.allocation.memory_type_index as int;
                let c = g.size_class as int;
                let k = g.slab as int;
                let slab = self.pools@[m].size_pools@[c]@[k];
                &&& crate::memory::allocator::memory_type_choice(
                    self.properties,
                    bits,
                    location,
                    Ok(g.allocation.memory_type_index),
                )
                &&& is_class_for(size, alignment, c)
                &&& first_with_room(self.pools@[m].size_pools@[c]@, k)
                &&& only_slab_changes(self.pools@, new.pools@, m, c, k)
                &&& g.slot < slab.slot_count
                &&& slab.takes(&new.pools@[m].size_pools@[c]@[k], g.slot as int, size, site)
                &&& g.allocation.memory == slab.memory
                &&& g.allocation.size == size
                &&& g.allocation.offset == slab.user_offset(
                    g.slot as int,
                    size,
                    alignment,
                    self.config.right_align,
                )
                &&& vulkan::is_pow2(alignment) ==> g.allocation.offset % alignment == 0
                &&& g.prefix == g.allocation.offset - g.slot * slab.slot_size
                &&& g.allocation.mapped_ptr == SlabAllocator::mapped_at(
                    slab,
                    g.allocation.offset as int,
                )
                &&& g.check_prefix == (self.config.detect_overflow && self.config.right_align)
            },
        }
    }

    /// Allocates memory that satisfies the requirements and the location.
    ///
    /// The request is rounded up to its size class and served by the first slab of that
    /// class with a free slot. A request beyond the largest class gets a memory object
    /// of its own.
    pub fn allocate(
        &mut self,
        requirements: &MemoryRequirements,
        location: MemoryLocation,
        site: CallSite,
    ) -> (r: Result<SlabStep, Error>)
        requires
            old(self).wf(),
        ensures
            final(self).wf(),
            old(self).same_setup(final(self)),
            final(self).dedicated@ == old(self).dedicated@,
            old(self).answers(final(self), *requirements, location, site, r),
    {
        let mem_type: u32 = match find_memory_type_index(&self.properties, requirements, location) {
            Ok(i) => i,
            Err(e) => {
                return Err(e);
            },
        };
        let host_visible: bool = vulkan::contains_flags(
            self.properties.types[mem_type as usize],
            vulkan::MEMORY_HOST_VISIBLE,
        );
        let user_size: u64 = requirements.size;
        let alignment: u64 = if requirements.alignment == 0 {
            1
        } else {
            requirements.alignment
        };
        let c: usize = match find_size_class(user_size, alignment) {
            Some(c) => c,
            None => {
                return Ok(
                    SlabStep::NeedDedicated(
                        BlockRequest {
                            memory_type_index: mem_type,
                            size: user_size,
                            host_visible,
                            dedicated: true,
                        },
                    ),
                );
            },
        };
        let slot_size: u64 = size_classes()[c];
        let m: usize = mem_type as usize;
        let count: usize = self.pools[m].size_pools[c].len();
        let mut k: usize = 0;
        while k < count && self.pools[m].size_pools[c][k].free_count == 0
            invariant
                *self == *old(self),
                m < self.pools@.len(),
                c < self.pools@[m as int].size_pools@.len(),
                count == self.pools@[m as int].size_pools@[c as int]@.len(),
                k <= count,
                forall|j: int|
                    0 <= j < k ==> (#[trigger] self.pools@[m as int].size_pools@[c as int]@[j]).free_count
                        == 0,
            decreases count - k,
        {
            k = k + 1;
        }
        if k < count {
            let ghost slab = self.pools@[m as int].size_pools@[c as int]@[k as int];
            assert(slab.wf());
            let right_align: bool = self.config.right_align;
            let granted: Option<(u32, u64)> = self.pools[m].size_pools[c][k].allocate_slot(
                user_size,
                alignment,
                right_align,
                site,
            );
            if let Some((slot, offset)) = granted {
                proof {
                    lemma_slot_range(slot as int, slab.slot_count as int, slab.slot_size as int);
                    lemma_prefix(slab.slot_size, user_size, alignment);
                    if vulkan::is_pow2(alignment) {
                        lemma_class_is_aligned(c as int, alignment);
                        law_user_data_is_aligned(
                            slab,
                            slot as int,
                            user_size,
                            alignment,
                            right_align,
                        );
                    }
                    assert(only_slab_changes(
                        old(self).pools@,
                        self.pools@,
                        m as int,
                        c as int,
                        k as int,
                    ));
                    lemma_wf_after_change(
                        old(self).pools@,
                        self.pools@,
                        m as int,
                        c as int,
                        k as int,
                    );
                }
                let memory: u64 = self.pools[m].size_pools[c][k].memory;
                let mapped_ptr: Option<u64> = match self.pools[m].size_pools[c][k].mapped_base {
                    Some(base) => Some(base + offset),
                    None => None,
                };
                let allocation: Allocation = Allocation {
                    memory,
                    offset,
                    size: user_size,
                    mapped_ptr,
                    memory_type_index: mem_type,
                };
                return Ok(
                    SlabStep::Done(
                        SlabGrant {
                            allocation,
                            size_class: c,
                            slab: k,
                            slot,
                            prefix: offset - (slot as u64) * slot_size,
                            check_prefix: self.config.detect_overflow && self.config.right_align,
                        },
                    ),
                );
            }
        }
        let size: u64 = if self.config.slab_size >= slot_size {
            self.config.slab_size
        } else {
            slot_size
        };
        Ok(
            SlabStep::NeedSlab(
                SlabRequest {
                    memory_type_index: mem_type,
                    size_class: c,
                    slot_size,
                    size,
                    host_visible,
                },
            ),
        )
    }

    /// A slab that has just been made for a request: all of its slots are free and have no history.
    pub open spec fn is_fresh(
        &self,
        fresh: Slab,
        request: SlabRequest,
        memory: u64,
        mapped_base: Option<u64>,
        seed: u64,
        site: CallSite,
    ) -> bool {
        &&& fresh.wf()
        &&& fresh.memory == memory
        &&& fresh.total_size == request.size
        &&& fresh.slot_size == request.slot_size
        &&& fresh.slot_count == request.size / request.slot_size
        &&& fresh.mapped_base == mapped_base
        &&& fresh.free_count == fresh.slot_count
        &&& fresh.quarantine_max == self.config.quarantine_slots
        &&& fresh.quarantine_fifo@.len() == 0
        &&& fresh.rng.state == seed.wrapping_add(RNG_GAMMA)
        &&& fresh.created_us == site.now_us
        &&& fresh.ring_cap() == if self.config.slot_history {
            HISTORY_RING as int
        } else {
            0
        }
        &&& fresh.rings() == if self.config.slot_history {
            Some(Seq::new(fresh.slot_count as nat, |i: int| Seq::<SlotEvent>::empty()))
        } else {
            None
        }
    }

    /// What taking in a slab and serving a request from it leads to.
    pub open spec fn grows(
        &self,
        new: &SlabAllocator,
        requirements: MemoryRequirements,
        request: SlabRequest,
        memory: u64,
        mapped_base: Option<u64>,
        seed: u64,
        site: CallSite,
        r: Allocation,
    ) -> bool {
        let m = request.memory_type_index as int;
        let c = request.size_class as int;
        let before = self.pools@[m].size_pools@;
        let after = new.pools@[m].size_pools@;
        let alignment = crate::memory::allocator::effective_alignment(requirements.alignment);
        &&& new.pools@.len() == self.pools@.len()
        &&& forall|j: int|
            0 <= j < self.pools@.len() && j != m ==> #[trigger] new.pools@[j] == self.pools@[j]
        &&& after.len() == before.len()
        &&& forall|j: int| 0 <= j < before.len() && j != c ==> #[trigger] after[j] == before[j]
        &&& after[c]@.len() == before[c]@.len() + 1
        &&& after[c]@.drop_last() == before[c]@
        &&& exists|fresh: Slab, slot: u32|
            {
                &&& self.is_fresh(fresh, request, memory, mapped_base, seed, site)
                &&& slot < fresh.slot_count
                &&& #[trigger] fresh.takes(
                    &after[c]@.last(),
                    slot as int,
                    requirements.size,
                    site,
                )
                &&& r.offset == fresh.user_offset(
                    slot as int,
                    requirements.size,
                    alignment,
                    self.config.right_align,
                )
                &&& r.mapped_ptr == SlabAllocator::mapped_at(fresh, r.offset as int)
            }
        &&& vulkan::is_pow2(alignment) ==> r.offset % alignment == 0
        &&& r.memory == memory
        &&& r.size == requirements.size
        &&& r.memory_type_index == request.memory_type_index
    }

    /// Takes in a slab that [`SlabAllocator::allocate`] asked for and serves the request
    /// from it.
    ///
    /// The caller has zeroed the memory if it is mapped. `seed` starts the generator that
    /// picks slots.
    pub fn add_slab(
        &mut self,
        requirements: &MemoryRequirements,
        request: SlabRequest,
        memory: u64,
        mapped_base: Option<u64>,
        seed: u64,
        site: CallSite,
    ) -> (r: Allocation)
        requires
            old(self).wf(),
            request.memory_type_index < crate::memory::allocator::MAX_MEMORY_TYPES,
            is_class_for(
                requirements.size,
                crate::memory::allocator::effective_alignment(requirements.alignment),
                request.size_class as int,
            ),
            request.slot_size == class_size(request.size_class as int),
            request.slot_size <= request.size,
            request.size / request.slot_size <= MAX_SLOTS,
            mapped_base matches Some(base) ==> base + request.size <= u64::MAX,
        ensures
            final(self).wf(),
            old(self).same_setup(final(self)),
            final(self).dedicated@ == old(self).dedicated@,
            old(self).grows(
                final(self),
                *requirements,
                request,
                memory,
                mapped_base,
                seed,
                site,
                r,
            ),
    {
        let m: usize = request.memory_type_index as usize;
        let c: usize = request.size_class;
        proof {
            lemma_class_size_positive(c as int);
        }
        let mut slab: Slab = Slab::new(
            memory,
            request.size,
            request.slot_size,
            mapped_base,
            seed,
            site.now_us,
            &self.config,
        );
        let ghost fresh = slab;
        let alignment: u64 = if requirements.alignment == 0 {
            1
        } else {
            requirements.alignment
        };
        let granted: Option<(u32, u64)> = slab.allocate_slot(
            requirements.size,
            alignment,
            self.config.right_align,
            site,
        );
        let offset: u64 = match granted {
            Some((slot, offset)) => {
                proof {
                    lemma_slot_range(slot as int, slab.slot_count as int, slab.slot_size as int);
                    assert(fresh.takes(&slab, slot as int, requirements.size, site));
                    lemma_prefix(fresh.slot_size, requirements.size, alignment);
                    if vulkan::is_pow2(alignment) {
                        lemma_class_is_aligned(c as int, alignment);
                        law_user_data_is_aligned(
                            fresh,
                            slot as int,
                            requirements.size,
                            alignment,
                            self.config.right_align,
                        );
                    }
                }
                offset
            },
            None => 0,
        };
        let mapped_ptr: Option<u64> = match mapped_base {
            Some(base) => Some(base + offset),
            None => None,
        };
        self.pools[m].size_pools[c].push(slab);
        assert(self.pools@[m as int].size_pools@[c as int]@.drop_last() =~= old(
            self).pools@[m as int].size_pools@[c as int]@);
        assert(self.pools@[m as int].size_pools@[c as int]@.last() == slab);
        assert(fresh.wf());
        Allocation {
            memory,
            offset,
            size: requirements.size,
            mapped_ptr,
            memory_type_index: request.memory_type_index,
        }
    }
}

pub(crate) proof fn lemma_class_size_positive(c: int)
    ensures
        class_size(c) >= 256,
    decreases c,
{
    if c > 0 {
        lemma_class_size_positive(c - 1);
    }
}

/// Pools stay in order if the slab that changes does.
proof fn lemma_wf_after_change(
    old_pools: Seq<TypePool>,
    new_pools: Seq<TypePool>,
    m: int,
    c: int,
    k: int,
)
    requires
        forall|j: int| 0 <= j < old_pools.len() ==> type_pool_wf(#[trigger] old_pools[j]),
        0 <= m < old_pools.len(),
        0 <= c < SIZE_CLASS_COUNT,
        0 <= k < old_pools[m].size_pools@[c]@.len(),
        only_slab_changes(old_pools, new_pools, m, c, k),
        new_pools[m].size_pools@[c]@[k].wf(),
        new_pools[m].size_pools@[c]@[k].slot_size == class_size(c),
    ensures
        forall|j: int| 0 <= j < new_pools.len() ==> type_pool_wf(#[trigger] new_pools[j]),
{
    assert forall|j: int| 0 <= j < new_pools.len() implies type_pool_wf(#[trigger] new_pools[j]) by {
        if j == m {
            let old_pool = old_pools[m];
            let new_pool = new_pools[m];
            assert(type_pool_wf(old_pool));
            assert forall|a: int, b: int|
                0 <= a < SIZE_CLASS_COUNT && 0 <= b < new_pool.size_pools@[a]@.len() implies (
            #[trigger] new_pool.size_pools@[a]@[b]).wf() && new_pool.size_pools@[a]@[b].slot_size
                == class_size(a) by {
                if a != c || b != k {
                    assert(new_pool.size_pools@[a]@[b] == old_pool.size_pools@[a]@[b]);
                }
            }
        } else {
            assert(type_pool_wf(old_pools[j]));
        }
    }
}

/// The first slab with a memory handle, class by class.
fn find_slab(pools: &Vec<Vec<Slab>>, memory: u64) -> (r: Option<(usize, usize)>)
    ensures
        match r {
            Some((c, k)) => first_slab(pools@, memory, c as int, k as int),
            None => !any_class_has(pools@, memory),
        },
{
    let mut c: usize = 0;
    while c < pools.len()
        invariant
            c <= pools@.len(),
            forall|b: int| 0 <= b < c ==> !class_has(#[trigger] pools@[b]@, memory),
        decreases pools@.len() - c,
    {
        let mut k: usize = 0;
        while k < pools[c].len()
            invariant
                c < pools@.len(),
                k <= pools@[c as int]@.len(),
                forall|b: int| 0 <= b < c ==> !class_has(#[trigger] pools@[b]@, memory),
                forall|j: int| 0 <= j < k ==> (#[trigger] pools@[c as int]@[j]).memory != memory,
            decreases pools@[c as int]@.len() - k,
        {
            if pools[c][k].memory == memory {
                return Some((c, k));
            }
            k = k + 1;
        }
        c = c + 1;
    }
    None
}

impl SlabAllocator {
    /// Takes in a memory object that [`SlabAllocator::allocate`] asked for to serve one
    /// allocation.
    pub fn add_dedicated(
        &mut self,
        request: BlockRequest,
        memory: u64,
        mapped_base: Option<u64>,
    ) -> (r: Allocation)
        requires
            old(self).wf(),
        ensures
            final(self).wf(),
            old(self).same_setup(final(self)),
            final(self).pools@ == old(self).pools@,
            final(self).dedicated@ == old(self).dedicated@.push(
                DedicatedEntry {
                    memory,
                    size: request.size,
                    mapped_base,
                    memory_type: request.memory_type_index,
                },
            ),
            r == (Allocation {
                memory,
                offset: 0,
                size: request.size,
                mapped_ptr: mapped_base,
                memory_type_index: request.memory_type_index,
            }),
    {
        self.dedicated.push(
            DedicatedEntry {
                memory,
                size: request.size,
                mapped_base,
                memory_type: request.memory_type_index,
            },
        );
        Allocation {
            memory,
            offset: 0,
            size: request.size,
            mapped_ptr: mapped_base,
            memory_type_index: request.memory_type_index,
        }
    }

    /// Checks the bytes in front of the user data of an allocation that has just been
    /// granted, and counts an overflow if one of them is not zero.
    ///
    /// Returns how many are not zero.
    pub fn inspect_prefix(&mut self, grant: &SlabGrant, slot_bytes: &[u8]) -> (r: usize)
        requires
            old(self).wf(),
            grant.allocation.memory_type_index < old(self).pools@.len(),
            grant.size_class < SIZE_CLASS_COUNT,
            grant.slab < old(
                self).pools@[grant.allocation.memory_type_index as int].size_pools@[grant.size_class as int]@.len(),
            grant.prefix <= class_size(grant.size_class as int),
            slot_bytes@.len() >= class_size(grant.size_class as int),
        ensures
            final(self).wf(),
            ({
                let slab = old(
                    self).pools@[grant.allocation.memory_type_index as int].size_pools@[grant.size_class as int]@[grant.slab as int];
                r == if grant.check_prefix && slab.mapped_base is Some {
                    count_where(|i: int| slot_bytes@[i] != 0, grant.prefix as int)
                } else {
                    0
                }
            }),
            *final(self) == (SlabAllocator {
                overflow_count: if r > 0 {
                    old(self).overflow_count.wrapping_add(1)
                } else {
                    old(self).overflow_count
                },
                ..*old(self)
            }),
    {
        if !grant.check_prefix {
            return 0;
        }
        let m: usize = grant.allocation.memory_type_index as usize;
        assert(self.pools@[m as int].size_pools@[grant.size_class as int]@[grant.slab as int].wf());
        let corrupted: usize = self.pools[m].size_pools[grant.size_class][grant.slab].check_prefix(
            slot_bytes,
            grant.prefix,
        );
        if corrupted > 0 {
            self.overflow_count = self.overflow_count.wrapping_add(1);
        }
        corrupted
    }

    /// The slot that an allocation in a slab belongs to.
    pub open spec fn slot_of(slab: Slab, allocation: Allocation) -> int {
        (allocation.offset / slab.slot_size) as int
    }

    /// What freeing an allocation leads to.
    pub open spec fn frees(
        &self,
        new: &SlabAllocator,
        allocation: Allocation,
        site: CallSite,
        r: FreeOutcome,
    ) -> bool {
        let m = allocation.memory_type_index as int;
        let pools = self.pools@[m].size_pools@;
        &&& new.properties == self.properties
        &&& new.config == self.config
        &&& new.overflow_count == self.overflow_count
        &&& match r {
            FreeOutcome::Dedicated(entry) => {
                &&& exists|pos: int| #[trigger]
                    first_dedicated(self.dedicated@, allocation.memory, pos) && entry
                        == self.dedicated@[pos] && new.dedicated@ == self.dedicated@.remove(pos)
                &&& new.pools@ == self.pools@
                &&& new.double_free_count == self.double_free_count
            },
            FreeOutcome::Unknown => {
                &&& no_dedicated(self.dedicated@, allocation.memory)
                &&& !any_class_has(pools, allocation.memory)
                &&& new.dedicated@ == self.dedicated@
                &&& new.pools@ == self.pools@
                &&& new.double_free_count == self.double_free_count
            },
            FreeOutcome::DoubleFree { size_class, slab, slot } => {
                let s = pools[size_class as int]@[slab as int];
                &&& no_dedicated(self.dedicated@, allocation.memory)
                &&& first_slab(pools, allocation.memory, size_class as int, slab as int)
                &&& slot == SlabAllocator::slot_of(s, allocation)
                &&& !s.allocated.has(slot as int)
                &&& new.dedicated@ == self.dedicated@
                &&& new.pools@ == self.pools@
                &&& new.double_free_count == self.double_free_count.wrapping_add(1)
            },
            FreeOutcome::Freed { size_class, slab, slot, zero } => {
                let c = size_class as int;
                let k = slab as int;
                let s = pools[c]@[k];
                &&& no_dedicated(self.dedicated@, allocation.memory)
                &&& first_slab(pools, allocation.memory, c, k)
                &&& slot == SlabAllocator::slot_of(s, allocation)
                &&& slot < s.slot_count
                &&& s.allocated.has(slot as int)
                &&& zero == (self.config.zero_on_free && s.mapped_base is Some)
                &&& only_slab_changes(self.pools@, new.pools@, m, c, k)
                &&& s.gives_back(&new.pools@[m].size_pools@[c]@[k], slot as int, site)
                &&& new.dedicated@ == self.dedicated@
                &&& new.double_free_count == self.double_free_count
            },
        }
    }

    /// Frees an allocation.
    ///
    /// A slot that is not in use is a double free: it is counted and nothing else
    /// happens.
    pub fn free(&mut self, allocation: &Allocation, site: CallSite) -> (r: FreeOutcome)
        requires
            old(self).wf(),
            allocation.memory_type_index < old(self).pools@.len(),
            forall|c: int, k: int|
                #[trigger] first_slab(
                    old(self).pools@[allocation.memory_type_index as int].size_pools@,
                    allocation.memory,
                    c,
                    k,
                ) ==> {
                    let s = old(
                        self).pools@[allocation.memory_type_index as int].size_pools@[c]@[k];
                    SlabAllocator::slot_of(s, *allocation) < s.allocated.capacity()
                        && SlabAllocator::slot_of(s, *allocation) <= u32::MAX
                },
        ensures
            final(self).wf(),
            old(self).frees(final(self), *allocation, site, r),
    {
        let mut pos: usize = 0;
        while pos < self.dedicated.len() && self.dedicated[pos].memory != allocation.memory
            invariant
                *self == *old(self),
                pos <= self.dedicated@.len(),
                forall|j: int|
                    0 <= j < pos ==> (#[trigger] self.dedicated@[j]).memory != allocation.memory,
            decreases self.dedicated@.len() - pos,
        {
            pos = pos + 1;
        }
        if pos < self.dedicated.len() {
            assert(first_dedicated(old(self).dedicated@, allocation.memory, pos as int));
            let entry: DedicatedEntry = self.dedicated.remove(pos);
            return FreeOutcome::Dedicated(entry);
        }
        let m: usize = allocation.memory_type_index as usize;
        assert(type_pool_wf(self.pools@[m as int]));
        match find_slab(&self.pools[m].size_pools, allocation.memory) {
            None => FreeOutcome::Unknown,
            Some((c, k)) => {
                let ghost s = self.pools@[m as int].size_pools@[c as int]@[k as int];
                assert(first_slab(
                    self.pools@[m as int].size_pools@,
                    allocation.memory,
                    c as int,
                    k as int,
                ));
                assert(s.wf());
                let slot_size: u64 = self.pools[m].size_pools[c][k].slot_size;
                let slot: u32 = (allocation.offset / slot_size) as u32;
                if !self.pools[m].size_pools[c][k].is_allocated(slot) {
                    self.double_free_count = self.double_free_count.wrapping_add(1);
                    return FreeOutcome::DoubleFree { size_class: c, slab: k, slot };
                }
                let zero: bool = self.config.zero_on_free
                    && self.pools[m].size_pools[c][k].mapped_base.is_some();
                self.pools[m].size_pools[c][k].free_slot(slot, site);
                proof {
                    assert(only_slab_changes(
                        old(self).pools@,
                        self.pools@,
                        m as int,
                        c as int,
                        k as int,
                    ));
                    lemma_wf_after_change(
                        old(self).pools@,
                        self.pools@,
                        m as int,
                        c as int,
                        k as int,
                    );
                }
                FreeOutcome::Freed { size_class: c, slab: k, slot, zero }
            },
        }
    }
}

/// A freed slot is not in use, so freeing it again is found out.
pub proof fn law_freed_slot_is_not_in_use(old_slab: Slab, new_slab: Slab, slot: int, site: CallSite)
    requires
        old_slab.wf(),
        0 <= slot < old_slab.slot_count,
        old_slab.gives_back(&new_slab, slot, site),
    ensures
        !new_slab.allocated.has(slot),
{
}

/// Freeing an allocation in a slab a second time is found out, and changes no slab.
pub proof fn law_second_free_is_found_out(
    before: SlabAllocator,
    between: SlabAllocator,
    after: SlabAllocator,
    allocation: Allocation,
    first_site: CallSite,
    second_site: CallSite,
    first: FreeOutcome,
    second: FreeOutcome,
)
    requires
        before.wf(),
        allocation.memory_type_index < before.pools@.len(),
        before.frees(&between, allocation, first_site, first),
        first is Freed,
        between.frees(&after, allocation, second_site, second),
    ensures
        second == (FreeOutcome::DoubleFree {
            size_class: first->Freed_size_class,
            slab: first->Freed_slab,
            slot: first->Freed_slot,
        }),
        after.pools@ == between.pools@,
        after.double_free_count == between.double_free_count.wrapping_add(1),
{
    let m = allocation.memory_type_index as int;
    let c = first->Freed_size_class as int;
    let k = first->Freed_slab as int;
    let slot = first->Freed_slot as int;
    let old_pools = before.pools@[m].size_pools@;
    let new_pools = between.pools@[m].size_pools@;
    assert(type_pool_wf(before.pools@[m]));
    assert(old_pools[c]@[k].wf());
    assert(!new_pools[c]@[k].allocated.has(slot));
    assert(class_has(new_pools[c]@, allocation.memory)) by {
        assert(new_pools[c]@[k].memory == allocation.memory);
    }
    assert forall|j: int| 0 <= j < k implies (#[trigger] new_pools[c]@[j]).memory
        != allocation.memory by {
        assert(new_pools[c]@[j] == old_pools[c]@[j]);
    }
    assert forall|b: int| 0 <= b < c implies !class_has(
        #[trigger] new_pools[b]@,
        allocation.memory,
    ) by {
        assert(new_pools[b] == old_pools[b]);
    }
    match second {
        FreeOutcome::Dedicated(_) => {
            let pos = choose|pos: int| #[trigger]
                first_dedicated(between.dedicated@, allocation.memory, pos);
            assert(between.dedicated@[pos].memory == allocation.memory);
        },
        FreeOutcome::Unknown => {
            assert(any_class_has(new_pools, allocation.memory));
        },
        FreeOutcome::DoubleFree { size_class, slab, slot } => {
            if size_class < c {
                assert(class_has(new_pools[size_class as int]@, allocation.memory)) by {
                    assert(new_pools[size_class as int]@[slab as int].memory == allocation.memory);
                }
            }
        },
        FreeOutcome::Freed { size_class, slab, slot, .. } => {
            if size_class < c {
                assert(class_has(new_pools[size_class as int]@, allocation.memory)) by {
                    assert(new_pools[size_class as int]@[slab as int].memory == allocation.memory);
                }
            }
        },
    }
}

/// Right-aligned data ends less than its alignment before the next slot begins, and right there
/// where the alignment divides what is left of the slot. What is written past the slot lands in
/// front of the data of the next slot, and a byte there that is not zero is found out.
pub proof fn law_overflow_is_found_out(
    slab: Slab,
    slot: int,
    user_size: u64,
    alignment: u64,
    next_size: u64,
    next_alignment: u64,
    next_bytes: Seq<u8>,
    k: int,
)
    requires
        slab.wf(),
        0 <= slot,
        slot + 1 < slab.slot_count,
        user_size <= slab.slot_size,
        next_size <= slab.slot_size,
        0 <= k < prefix_bytes(slab.slot_size, next_size, next_alignment),
        next_bytes[k] != 0,
    ensures
        ({
            let end = slab.user_offset(slot, user_size, alignment, true) + user_size;
            let next = (slot + 1) * slab.slot_size;
            let a = crate::memory::allocator::effective_alignment(alignment);
            &&& end <= next < end + a
            &&& (slab.slot_size - user_size) % (a as int) == 0 ==> end == next
            &&& next + k < slab.user_offset(slot + 1, next_size, next_alignment, true)
        }),
        count_where(
            |i: int| next_bytes[i] != 0,
            prefix_bytes(slab.slot_size, next_size, next_alignment),
        ) > 0,
{
    let a = crate::memory::allocator::effective_alignment(alignment) as int;
    lemma_prefix(slab.slot_size, user_size, alignment);
    lemma_prefix(slab.slot_size, next_size, next_alignment);
    assert((slot + 1) * slab.slot_size == slot * slab.slot_size + slab.slot_size)
        by (nonlinear_arith);
    vstd::arithmetic::div_mod::lemma_fundamental_div_mod(slab.slot_size - user_size, a);
    vstd::arithmetic::mul::lemma_mul_is_commutative(a, (slab.slot_size - user_size) / a);
    let p = |i: int| next_bytes[i] != 0;
    assert(p(k));
    lemma_count_bounds(p, prefix_bytes(slab.slot_size, next_size, next_alignment));
}

/// With a quarantine, a slot that has just been freed cannot be handed out.
pub proof fn law_quarantine_withholds_freed_slot(
    old_slab: Slab,
    new_slab: Slab,
    slot: int,
    site: CallSite,
)
    requires
        old_slab.wf(),
        new_slab.wf(),
        0 <= slot < old_slab.slot_count,
        old_slab.quarantine_max > 0,
        old_slab.gives_back(&new_slab, slot, site),
    ensures
        new_slab.quarantine_fifo@.last() == slot,
        !new_slab.slot_free(slot),
        !new_slab.picks(slot),
{
    let queue = old_slab.quarantine_fifo@.push(slot as u32);
    assert(queue.last() == slot as u32);
    assert(new_slab.quarantine_fifo@.last() == slot as u32);
    assert(new_slab.quarantine_fifo@.contains(slot as u32));
    assert(new_slab.quarantine.has(slot));
    if new_slab.picks(slot) {
        let d = choose|d: int| #[trigger] new_slab.picks_after(slot, d);
        assert(new_slab.picks_after(slot, d));
    }
}

/// Slots leave quarantine in the order in which they entered, one per free at most: a
/// free moves every other slot in quarantine forward by one place or not at all.
pub proof fn law_quarantine_is_first_in_first_out(
    old_slab: Slab,
    new_slab: Slab,
    slot: int,
    site: CallSite,
    place: int,
)
    requires
        old_slab.wf(),
        0 <= slot < old_slab.slot_count,
        old_slab.gives_back(&new_slab, slot, site),
        0 < place < old_slab.quarantine_fifo@.len(),
    ensures
        ({
            let v = old_slab.quarantine_fifo@[place];
            ||| new_slab.quarantine_fifo@[place] == v
            ||| new_slab.quarantine_fifo@[place - 1] == v
        }),
{
}

/// Only slots that are neither in use nor in quarantine are handed out.
pub proof fn law_only_free_slots_are_taken(
    old_slab: Slab,
    new_slab: Slab,
    slot: int,
    user_size: u64,
    site: CallSite,
)
    requires
        old_slab.wf(),
        old_slab.takes(&new_slab, slot, user_size, site),
    ensures
        0 <= slot < old_slab.slot_count,
        !old_slab.allocated.has(slot),
        !old_slab.quarantine.has(slot),
        new_slab.allocated.has(slot),
{
    let d = choose|d: int| #[trigger] old_slab.picks_after(slot, d);
    assert(old_slab.picks_after(slot, d));
    vstd::arithmetic::div_mod::lemma_mod_bound(
        old_slab.search_start() + d,
        old_slab.slot_count as int,
    );
}

/// User data lies within its slot, right-aligned or not.
pub proof fn law_user_data_stays_in_slot(
    slab: Slab,
    slot: int,
    user_size: u64,
    alignment: u64,
    right_align: bool,
)
    requires
        slab.wf(),
        0 <= slot < slab.slot_count,
        user_size <= slab.slot_size,
    ensures
        ({
            let start = slab.user_offset(slot, user_size, alignment, right_align);
            &&& slot * slab.slot_size <= start
            &&& start + user_size <= (slot + 1) * slab.slot_size
            &&& start + user_size <= slab.total_size
        }),
{
    lemma_slot_range(slot, slab.slot_count as int, slab.slot_size as int);
    lemma_prefix(slab.slot_size, user_size, alignment);
    assert((slot + 1) * slab.slot_size == slot * slab.slot_size + slab.slot_size)
        by (nonlinear_arith);
}

/// User data is placed at a multiple of its alignment, right-aligned or not, where the alignment
/// divides the size of the slots.
pub proof fn law_user_data_is_aligned(
    slab: Slab,
    slot: int,
    user_size: u64,
    alignment: u64,
    right_align: bool,
)
    requires
        slab.wf(),
        0 <= slot < slab.slot_count,
        user_size <= slab.slot_size,
        alignment > 0,
        slab.slot_size as int % (alignment as int) == 0,
    ensures
        slab.user_offset(slot, user_size, alignment, right_align) % (alignment as int) == 0,
{
    let a = alignment as int;
    let n = slab.slot_size as int;
    lemma_prefix(slab.slot_size, user_size, alignment);
    vstd::arithmetic::div_mod::lemma_fundamental_div_mod(n, a);
    let q = slot * (n / a);
    assert(slot * n == q * a) by (nonlinear_arith)
        requires
            n == a * (n / a),
            q == slot * (n / a),
    ;
    let prefix = prefix_bytes(slab.slot_size, user_size, alignment);
    vstd::arithmetic::div_mod::lemma_mod_multiples_basic(q, a);
    vstd::arithmetic::div_mod::lemma_mod_multiples_vanish(q, prefix, a);
    assert(a * q == q * a) by (nonlinear_arith);
}

/// Every power of two that is not above the size of a class divides it.
proof fn lemma_class_is_aligned(c: int, alignment: u64)
    requires
        0 <= c < SIZE_CLASS_COUNT,
        vulkan::is_pow2(alignment),
        alignment <= class_size(c),
    ensures
        alignment > 0,
        class_size(c) % (alignment as int) == 0,
    decreases c,
{
    lemma_class_is_power(c);
    let k = choose|k: u64| k < 64 && alignment == #[trigger] (1u64 << k);
    let j = (8 + c) as u64;
    assert((1u64 << k) > 0) by (bit_vector)
        requires
            k < 64,
    ;
    if c == 0 {
        assert(256u64 % (1u64 << k) == 0) by (bit_vector)
            requires
                k < 64,
                (1u64 << k) <= 256,
        ;
    } else if alignment == class_size(c) {
        vstd::arithmetic::div_mod::lemma_mod_self_0(alignment as int);
    } else {
        lemma_class_is_power(c - 1);
        let i = (7 + c) as u64;
        assert((1u64 << k) <= (1u64 << i)) by (bit_vector)
            requires
                k < 64,
                j < 32,
                j == i + 1,
                (1u64 << k) < (1u64 << j),
        ;
        lemma_class_is_aligned(c - 1, alignment);
        let half = class_size(c - 1);
        vstd::arithmetic::div_mod::lemma_add_mod_noop(half, half, alignment as int);
        vstd::arithmetic::div_mod::lemma_small_mod(0, alignment as nat);
        assert(class_size(c) == half + half);
    }
}

/// The size of a class as a shift.
proof fn lemma_class_is_power(c: int)
    requires
        0 <= c < SIZE_CLASS_COUNT,
    ensures
        class_size(c) == 1u64 << ((8 + c) as u64),
    decreases c,
{
    if c == 0 {
        assert(1u64 << 8u64 == 256) by (bit_vector);
    } else {
        lemma_class_is_power(c - 1);
        let j = (7 + c) as u64;
        let k = (8 + c) as u64;
        assert(1u64 << k == 2 * (1u64 << j)) by (bit_vector)
            requires
                j < 32,
                k == j + 1,
        ;
    }
}

/// User data of different slots does not overlap.
pub proof fn law_slots_do_not_overlap(
    slab: Slab,
    s1: int,
    size1: u64,
    alignment1: u64,
    s2: int,
    size2: u64,
    alignment2: u64,
    right_align: bool,
)
    requires
        slab.wf(),
        0 <= s1 < s2 < slab.slot_count,
        size1 <= slab.slot_size,
        size2 <= slab.slot_size,
    ensures
        slab.user_offset(s1, size1, alignment1, right_align) + size1 <= slab.user_offset(
            s2,
            size2,
            alignment2,
            right_align,
        ),
{
    law_user_data_stays_in_slot(slab, s1, size1, alignment1, right_align);
    law_user_data_stays_in_slot(slab, s2, size2, alignment2, right_align);
    assert((s1 + 1) * slab.slot_size <= s2 * slab.slot_size) by (nonlinear_arith)
        requires
            s1 + 1 <= s2,
            0 <= slab.slot_size,
    ;
}

/// The offset of an allocation that is not empty leads back to its slot by division.
pub proof fn law_offset_leads_back_to_slot(
    slab: Slab,
    slot: int,
    user_size: u64,
    alignment: u64,
    right_align: bool,
)
    requires
        slab.wf(),
        0 <= slot < slab.slot_count,
        0 < user_size <= slab.slot_size,
    ensures
        slab.user_offset(slot, user_size, alignment, right_align) / (slab.slot_size as int)
            == slot,
{
    let start = slab.user_offset(slot, user_size, alignment, right_align);
    lemma_prefix(slab.slot_size, user_size, alignment);
    vstd::arithmetic::div_mod::lemma_fundamental_div_mod_converse(
        start,
        slab.slot_size as int,
        slot,
        start - slot * slab.slot_size,
    );
}

/// Every slot is in use, in quarantine or free, and the free ones are as many as counted.
pub proof fn law_slots_add_up(slab: Slab)
    requires
        slab.wf(),
    ensures
        slab.free_count + slab.quarantine_fifo@.len() + count_where(
            |i: int| slab.allocated.has(i),
            slab.slot_count as int,
        ) == slab.slot_count,
{
    let n = slab.slot_count as int;
    let f = |i: int| slab.slot_free(i);
    let a = |i: int| slab.allocated.has(i);
    let q = |i: int| slab.quarantine.has(i);
    lemma_count_partition(f, a, q, n);
    let c = |i: int| slab.quarantine_fifo@.contains(i as u32);
    assert forall|i: int| 0 <= i < n && i != -1 implies #[trigger] q(i) == c(i) by {}
    lemma_count_change(q, c, n, -1);
    lemma_count_queue(slab.quarantine_fifo@, n);
}

proof fn lemma_count_partition(
    f: spec_fn(int) -> bool,
    a: spec_fn(int) -> bool,
    q: spec_fn(int) -> bool,
    n: int,
)
    requires
        0 <= n,
        forall|i: int| 0 <= i < n ==> #[trigger] f(i) == (!a(i) && !q(i)),
        forall|i: int| 0 <= i < n ==> !(#[trigger] a(i) && q(i)),
    ensures
        count_where(f, n) + count_where(a, n) + count_where(q, n) == n,
    decreases n,
{
    if n > 0 {
        lemma_count_partition(f, a, q, n - 1);
        assert(f(n - 1) == (!a(n - 1) && !q(n - 1)));
        assert(!(a(n - 1) && q(n - 1)));
    }
}

/// A queue without duplicates has as many entries as there are numbers in it.
proof fn lemma_count_queue(queue: Seq<u32>, n: int)
    requires
        0 <= n <= u32::MAX,
        queue.no_duplicates(),
        forall|k: int| 0 <= k < queue.len() ==> #[trigger] queue[k] < n,
    ensures
        count_where(|i: int| queue.contains(i as u32), n) == queue.len(),
    decreases queue.len(),
{
    let c = |i: int| queue.contains(i as u32);
    if queue.len() == 0 {
        lemma_count_bounds(c, n);
        assert forall|i: int| 0 <= i < n implies !#[trigger] c(i) by {}
    } else {
        let rest = queue.drop_last();
        let last = queue.last();
        lemma_count_queue(rest, n);
        let d = |i: int| rest.contains(i as u32);
        assert forall|i: int| 0 <= i < n && i != last implies #[trigger] d(i) == c(i) by {
            if rest.contains(i as u32) {
                let k = choose|k: int| 0 <= k < rest.len() && rest[k] == i as u32;
                assert(queue[k] == i as u32);
            }
            if queue.contains(i as u32) {
                let k = choose|k: int| 0 <= k < queue.len() && queue[k] == i as u32;
                assert(rest[k] == i as u32);
            }
        }
        assert(last as int as u32 == last);
        assert(queue[queue.len() - 1] == last);
        assert(c(last as int));
        assert(!rest.contains(last)) by {
            if rest.contains(last) {
                let k = choose|k: int| 0 <= k < rest.len() && rest[k] == last;
                assert(queue[k] == queue[queue.len() - 1]);
            }
        }
        lemma_count_change(d, c, n, last as int);
    }
}

/// The seed of the generator of a slab, from its memory handle and the nanoseconds since the epoch,
/// where the clock gives them.
pub fn slab_seed(memory: u64, nanos: Option<u64>) -> (r: u64)
    ensures
        r == memory ^ match nanos {
            Some(n) => n,
            None => 0xDEAD,
        },
{
    match nanos {
        Some(n) => memory ^ n,
        None => memory ^ 0xDEAD,
    }
}

/// The hash of a location: FNV-1a over the bytes of the file name and then the line.
pub open spec fn location_hash(file: Seq<u8>, line: u32) -> u32 {
    (bytes_hash(file) ^ line).wrapping_mul(16777619)
}

/// FNV-1a over bytes.
pub open spec fn bytes_hash(bytes: Seq<u8>) -> u32
    decreases bytes.len(),
{
    if bytes.len() == 0 {
        2166136261
    } else {
        (bytes_hash(bytes.drop_last()) ^ (bytes.last() as u32)).wrapping_mul(16777619)
    }
}

/// Hash of a caller's location, for compact storage.
pub fn caller_location_hash(file: &str, line: u32) -> (r: u32)
    ensures
        r == location_hash(vstd::utf8::encode_utf8(file@), line),
{
    let bytes: &[u8] = file.as_bytes();
    let mut h: u32 = 2166136261;
    let mut i: usize = 0;
    while i < bytes.len()
        invariant
            i <= bytes@.len(),
            h == bytes_hash(bytes@.take(i as int)),
        decreases bytes@.len() - i,
    {
        assert(bytes@.take(i + 1).drop_last() =~= bytes@.take(i as int));
        h = (h ^ (bytes[i] as u32)).wrapping_mul(16777619);
        i = i + 1;
    }
    assert(bytes@.take(i as int) =~= bytes@);
    (h ^ line).wrapping_mul(16777619)
}

} // verus!
