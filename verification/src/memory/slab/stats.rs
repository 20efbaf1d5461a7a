//! Statistics of the slab allocator.

use crate::memory::slab::Slab;
use crate::memory::slab::SlabAllocator;
use crate::memory::slab::TypePool;
use crate::memory::slab::size_classes;
use crate::memory::slab::SIZE_CLASS_COUNT;
use vstd::prelude::*;

verus! {

/// Statistics of one size class.
#[derive(Debug, Clone, Copy, PartialEq, Eq)]
pub struct SizeClassStats {
    /// Size of a slot in bytes.
    pub slot_size: u64,
    /// Number of slabs.
    pub slab_count: u32,
    /// Slots of all slabs.
    pub total_slots: u32,
    /// Slots in use.
    pub allocated_slots: u32,
    /// Slots in quarantine.
    pub quarantined_slots: u32,
    /// Slots that can be handed out.
    pub free_slots: u32,
    /// Bytes lost to rounding up, over the slots in use.
    pub internal_fragmentation_bytes: u64,
}

/// Statistics of an allocator.
#[derive(Debug, Clone)]
pub struct SlabStats {
    /// Statistics per size class, over all memory types.
    pub size_classes: Vec<SizeClassStats>,
    /// Memory objects: slabs and dedicated ones.
    pub device_memory_count: u32,
    /// Bytes allocated from the driver.
    pub total_driver_bytes: u64,
    /// Bytes handed out, rounded up to the size class.
    pub total_user_bytes: u64,
    /// Dedicated memory objects.
    pub dedicated_count: u32,
    /// Double frees found so far.
    pub double_frees_detected: u64,
    /// Overflows found so far.
    pub overflows_detected: u64,
}

impl Slab {
    /// Number of slots in use.
    pub open spec fn in_use(&self) -> int {
        crate::memory::slab::count_where(|i: int| self.allocated.has(i), self.slot_count as int)
    }

    /// Bytes of a slot in use that were not asked for.
    pub open spec fn padding_of(&self) -> spec_fn(int) -> int {
        |i: int|
            if self.allocated.has(i) && self.user_sizes@[i] < self.slot_size {
                self.slot_size - self.user_sizes@[i]
            } else {
                0
            }
    }

    /// Bytes of the slots in use that were not asked for.
    pub open spec fn padding(&self) -> int {
        crate::sums::sum_below(self.padding_of(), self.slot_count as int)
    }

    /// Bytes of the slots in use that were not asked for.
    fn count_padding(&self) -> (r: u64)
        requires
            self.wf(),
        ensures
            r == self.padding(),
    {
        let ghost f = self.padding_of();
        let mut sum: u64 = 0;
        let mut i: u32 = 0;
        while i < self.slot_count
            invariant
                self.wf(),
                f == self.padding_of(),
                i <= self.slot_count,
                sum == crate::sums::sum_below(f, i as int),
            decreases self.slot_count - i,
        {
            proof {
                lemma_padding_bound(*self, i + 1);
            }
            let user_size: u64 = self.user_sizes[i as usize];
            if self.is_allocated(i) && user_size < self.slot_size {
                sum = sum + (self.slot_size - user_size);
            }
            i = i + 1;
        }
        sum
    }

    /// Number of slots in use.
    pub fn count_allocated(&self) -> (r: u32)
        requires
            self.wf(),
        ensures
            r == self.in_use(),
            r <= self.slot_count,
    {
        let ghost a = |i: int| self.allocated.has(i);
        let mut n: u32 = 0;
        let mut i: u32 = 0;
        while i < self.slot_count
            invariant
                self.wf(),
                a == (|i: int| self.allocated.has(i)),
                i <= self.slot_count,
                n <= i,
                n == crate::memory::slab::count_where(a, i as int),
            decreases self.slot_count - i,
        {
            if self.is_allocated(i) {
                n = n + 1;
            }
            i = i + 1;
        }
        n
    }
}

/// The padding of the first slots is not negative, and not more than the slots hold.
proof fn lemma_padding_bound(slab: Slab, n: int)
    requires
        0 <= n,
    ensures
        0 <= crate::sums::sum_below(slab.padding_of(), n) <= n * slab.slot_size,
        slab.wf() && n <= slab.slot_count ==> n * slab.slot_size <= slab.total_size,
    decreases n,
{
    if n > 0 {
        lemma_padding_bound(slab, n - 1);
        assert(n * slab.slot_size == (n - 1) * slab.slot_size + slab.slot_size)
            by (nonlinear_arith);
    }
    if slab.wf() && n <= slab.slot_count {
        assert(n * slab.slot_size <= slab.slot_count * slab.slot_size) by (nonlinear_arith)
            requires
                n <= slab.slot_count,
                0 <= slab.slot_size,
        ;
    }
}

/// The padding of a class does not come to more than its bytes.
proof fn lemma_padding_fits(pools: Seq<TypePool>, c: int)
    requires
        0 <= c < SIZE_CLASS_COUNT,
        forall|m: int|
            0 <= m < pools.len() ==> crate::memory::slab::type_pool_wf(#[trigger] pools[m]),
    ensures
        class_total(pools, c, figure(SlabFigure::Padding)) <= class_total(
            pools,
            c,
            figure(SlabFigure::Bytes),
        ),
{
    let f = figure(SlabFigure::Padding);
    let g = figure(SlabFigure::Bytes);
    let by_f = |p: TypePool| crate::sums::total(p.size_pools@[c]@, f);
    let by_g = |p: TypePool| crate::sums::total(p.size_pools@[c]@, g);
    assert forall|m: int| 0 <= m < pools.len() implies by_f(#[trigger] pools[m]) <= by_g(
        pools[m],
    ) by {
        let slabs = pools[m].size_pools@[c]@;
        assert forall|k: int| 0 <= k < slabs.len() implies f(#[trigger] slabs[k]) <= g(
            slabs[k],
        ) by {
            assert(pools[m].size_pools@[c]@[k].wf());
            lemma_padding_bound(slabs[k], slabs[k].slot_count as int);
        }
        crate::sums::lemma_total_below(slabs, f, g);
    }
    crate::sums::lemma_total_below(pools, by_f, by_g);
}

/// The sum of `f` over the slabs of a class, over all memory types.
pub open spec fn class_total(pools: Seq<TypePool>, c: int, f: spec_fn(Slab) -> int) -> int {
    crate::sums::total(pools, |p: TypePool| crate::sums::total(p.size_pools@[c]@, f))
}

/// What is added up per slab.
#[derive(Clone, Copy)]
pub enum SlabFigure {
    /// One per slab.
    Slabs,
    /// Its slots.
    Slots,
    /// Its slots in use.
    InUse,
    /// Its slots in quarantine.
    Quarantined,
    /// Its free slots.
    Free,
    /// Its bytes.
    Bytes,
    /// Its bytes lost to rounding up.
    Padding,
}

/// The value of a figure for a slab.
pub open spec fn figure(fig: SlabFigure) -> spec_fn(Slab) -> int {
    match fig {
        SlabFigure::Slabs => |s: Slab| 1int,
        SlabFigure::Slots => |s: Slab| s.slot_count as int,
        SlabFigure::InUse => |s: Slab| s.in_use(),
        SlabFigure::Quarantined => |s: Slab| s.quarantine_fifo@.len() as int,
        SlabFigure::Free => |s: Slab| s.free_count as int,
        SlabFigure::Bytes => |s: Slab| s.total_size as int,
        SlabFigure::Padding => |s: Slab| s.padding(),
    }
}

fn slab_figure(slab: &Slab, fig: SlabFigure) -> (r: u64)
    requires
        slab.wf(),
    ensures
        r == figure(fig)(*slab),
{
    match fig {
        SlabFigure::Slabs => 1,
        SlabFigure::Slots => slab.slot_count as u64,
        SlabFigure::InUse => slab.count_allocated() as u64,
        SlabFigure::Quarantined => slab.quarantine_fifo.len() as u64,
        SlabFigure::Free => slab.free_count as u64,
        SlabFigure::Bytes => slab.total_size,
        SlabFigure::Padding => slab.count_padding(),
    }
}

/// A figure is nowhere negative.
proof fn lemma_figure_not_negative(slabs: Seq<Slab>, fig: SlabFigure)
    ensures
        forall|i: int| 0 <= i < slabs.len() ==> figure(fig)(#[trigger] slabs[i]) >= 0,
        crate::sums::total(slabs, figure(fig)) >= 0,
{
    assert forall|i: int| 0 <= i < slabs.len() implies figure(fig)(#[trigger] slabs[i]) >= 0 by {
        let s = slabs[i];
        crate::memory::slab::lemma_count_bounds(|i: int| s.allocated.has(i), s.slot_count as int);
        lemma_padding_bound(s, s.slot_count as int);
    }
    crate::sums::lemma_total_prefix(slabs, figure(fig), slabs.len() as int);
    crate::sums::lemma_total_whole(slabs, figure(fig));
}

/// A figure added up over the slabs of a class.
fn add_up(pools: &Vec<TypePool>, c: usize, fig: SlabFigure) -> (r: u64)
    requires
        c < SIZE_CLASS_COUNT,
        forall|m: int| 0 <= m < pools@.len() ==> crate::memory::slab::type_pool_wf(#[trigger] pools@[m]),
        class_total(pools@, c as int, figure(fig)) <= u64::MAX,
    ensures
        r == class_total(pools@, c as int, figure(fig)),
{
    let ghost f = figure(fig);
    let ghost g = |p: TypePool| crate::sums::total(p.size_pools@[c as int]@, f);
    proof {
        assert forall|m: int| 0 <= m < pools@.len() implies g(#[trigger] pools@[m]) >= 0 by {
            lemma_figure_not_negative(pools@[m].size_pools@[c as int]@, fig);
        }
        crate::sums::lemma_total_whole(pools@, g);
    }
    let mut sum: u64 = 0;
    let mut m: usize = 0;
    while m < pools.len()
        invariant
            c < SIZE_CLASS_COUNT,
            m <= pools@.len(),
            f == figure(fig),
            g == (|p: TypePool| crate::sums::total(p.size_pools@[c as int]@, f)),
            forall|m: int| 0 <= m < pools@.len() ==> crate::memory::slab::type_pool_wf(#[trigger] pools@[m]),
            forall|m: int| 0 <= m < pools@.len() ==> g(#[trigger] pools@[m]) >= 0,
            crate::sums::total(pools@, g) <= u64::MAX,
            sum == crate::sums::total(pools@.take(m as int), g),
        decreases pools@.len() - m,
    {
        let ghost slabs = pools@[m as int].size_pools@[c as int]@;
        proof {
            lemma_figure_not_negative(slabs, fig);
            crate::sums::lemma_total_next(pools@, g, m as int);
            crate::sums::lemma_total_prefix(pools@, g, m + 1);
            crate::sums::lemma_total_whole(slabs, f);
        }
        let ghost before = sum as int;
        let mut k: usize = 0;
        while k < pools[m].size_pools[c].len()
            invariant
                c < SIZE_CLASS_COUNT,
                m < pools@.len(),
                f == figure(fig),
                crate::memory::slab::type_pool_wf(pools@[m as int]),
                slabs == pools@[m as int].size_pools@[c as int]@,
                k <= slabs.len(),
                0 <= before,
                before + crate::sums::total(slabs, f) <= u64::MAX,
                sum == before + crate::sums::total(slabs.take(k as int), f),
                forall|i: int| 0 <= i < slabs.len() ==> f(#[trigger] slabs[i]) >= 0,
            decreases slabs.len() - k,
        {
            proof {
                crate::sums::lemma_total_next(slabs, f, k as int);
                crate::sums::lemma_total_prefix(slabs, f, k + 1);
            }
            assert(pools@[m as int].size_pools@[c as int]@[k as int].wf());
            sum = sum + slab_figure(&pools[m].size_pools[c][k], fig);
            k = k + 1;
        }
        m = m + 1;
    }
    sum
}

/// A class total, seen as a function of the class.
pub open spec fn by_class(pools: Seq<TypePool>, fig: SlabFigure) -> spec_fn(int) -> int {
    |c: int| class_total(pools, c, figure(fig))
}

/// The bytes of the slots in use, seen as a function of the class.
pub open spec fn user_bytes_by_class(pools: Seq<TypePool>) -> spec_fn(int) -> int {
    |c: int|
        class_total(pools, c, figure(SlabFigure::InUse)) * crate::memory::slab::class_size(c)
}

/// The sizes of the dedicated memory objects added up.
pub open spec fn dedicated_bytes(list: Seq<crate::memory::slab::DedicatedEntry>) -> int {
    crate::sums::total(list, |d: crate::memory::slab::DedicatedEntry| d.size as int)
}

/// The statistics of one class.
pub open spec fn class_stats(pools: Seq<TypePool>, c: int) -> SizeClassStats {
    SizeClassStats {
        slot_size: crate::memory::slab::class_size(c) as u64,
        slab_count: class_total(pools, c, figure(SlabFigure::Slabs)) as u32,
        total_slots: class_total(pools, c, figure(SlabFigure::Slots)) as u32,
        allocated_slots: class_total(pools, c, figure(SlabFigure::InUse)) as u32,
        quarantined_slots: class_total(pools, c, figure(SlabFigure::Quarantined)) as u32,
        free_slots: class_total(pools, c, figure(SlabFigure::Free)) as u32,
        internal_fragmentation_bytes: class_total(pools, c, figure(SlabFigure::Padding)) as u64,
    }
}

/// The totals of a class fit the counters.
pub open spec fn class_fits(pools: Seq<TypePool>, c: int) -> bool {
    &&& class_total(pools, c, figure(SlabFigure::Slabs)) <= u32::MAX
    &&& class_total(pools, c, figure(SlabFigure::Slots)) <= u32::MAX
    &&& class_total(pools, c, figure(SlabFigure::InUse)) <= u32::MAX
    &&& class_total(pools, c, figure(SlabFigure::Quarantined)) <= u32::MAX
    &&& class_total(pools, c, figure(SlabFigure::Free)) <= u32::MAX
}

/// A class total is not negative.
proof fn lemma_class_total_not_negative(pools: Seq<TypePool>, c: int, fig: SlabFigure)
    ensures
        class_total(pools, c, figure(fig)) >= 0,
{
    let g = |p: TypePool| crate::sums::total(p.size_pools@[c]@, figure(fig));
    assert forall|m: int| 0 <= m < pools.len() implies g(#[trigger] pools[m]) >= 0 by {
        lemma_figure_not_negative(pools[m].size_pools@[c]@, fig);
    }
    crate::sums::lemma_total_prefix(pools, g, pools.len() as int);
    crate::sums::lemma_total_whole(pools, g);
}

impl SlabAllocator {
    /// The statistics fit the counters.
    pub open spec fn stats_fit(&self) -> bool {
        let n = SIZE_CLASS_COUNT as int;
        &&& forall|c: int| 0 <= c < n ==> #[trigger] class_fits(self.pools@, c)
        &&& crate::sums::sum_below(by_class(self.pools@, SlabFigure::Slabs), n)
            + self.dedicated@.len() <= u32::MAX
        &&& crate::sums::sum_below(by_class(self.pools@, SlabFigure::Bytes), n) + dedicated_bytes(
            self.dedicated@,
        ) <= u64::MAX
        &&& crate::sums::sum_below(user_bytes_by_class(self.pools@), n) + dedicated_bytes(
            self.dedicated@,
        ) <= u64::MAX
    }

    /// These are the statistics of the allocator.
    pub open spec fn has_stats(&self, r: SlabStats) -> bool {
        let n = SIZE_CLASS_COUNT as int;
        &&& r.size_classes@ == Seq::new(n as nat, |c: int| class_stats(self.pools@, c))
        &&& r.device_memory_count == crate::sums::sum_below(
            by_class(self.pools@, SlabFigure::Slabs),
            n,
        ) + self.dedicated@.len()
        &&& r.total_driver_bytes == crate::sums::sum_below(
            by_class(self.pools@, SlabFigure::Bytes),
            n,
        ) + dedicated_bytes(self.dedicated@)
        &&& r.total_user_bytes == crate::sums::sum_below(user_bytes_by_class(self.pools@), n)
            + dedicated_bytes(self.dedicated@)
        &&& r.dedicated_count == self.dedicated@.len()
        &&& r.double_frees_detected == self.double_free_count
        &&& r.overflows_detected == self.overflow_count
    }

    /// Collects statistics over all pools.
    pub fn stats(&self) -> (r: SlabStats)
        requires
            self.wf(),
            self.stats_fit(),
        ensures
            self.has_stats(r),
            r.dedicated_count <= r.device_memory_count,
            r.size_classes@.len() == SIZE_CLASS_COUNT,
    {
        let ghost pools = self.pools@;
        let ghost n = SIZE_CLASS_COUNT as int;
        let ghost slabs = by_class(pools, SlabFigure::Slabs);
        let ghost bytes = by_class(pools, SlabFigure::Bytes);
        let ghost users = user_bytes_by_class(pools);
        proof {
            assert forall|c: int| 0 <= c < n implies #[trigger] slabs(c) >= 0 by {
                lemma_class_total_not_negative(pools, c, SlabFigure::Slabs);
            }
            assert forall|c: int| 0 <= c < n implies #[trigger] bytes(c) >= 0 by {
                lemma_class_total_not_negative(pools, c, SlabFigure::Bytes);
            }
            assert forall|c: int| 0 <= c < n implies #[trigger] users(c) >= 0 by {
                lemma_class_total_not_negative(pools, c, SlabFigure::InUse);
                crate::memory::slab::lemma_class_size_positive(c);
                vstd::arithmetic::mul::lemma_mul_nonnegative(
                    class_total(pools, c, figure(SlabFigure::InUse)),
                    crate::memory::slab::class_size(c),
                );
            }
            crate::sums::lemma_sum_below_grows(slabs, 0, n);
            crate::sums::lemma_sum_below_grows(bytes, 0, n);
            crate::sums::lemma_sum_below_grows(users, 0, n);
        }
        let dedicated: u64 = self.dedicated_total();
        let classes: [u64; 13] = size_classes();
        let mut size_classes: Vec<SizeClassStats> = Vec::new();
        let mut slab_count: u64 = 0;
        let mut driver_bytes: u64 = dedicated;
        let mut user_bytes: u64 = dedicated;
        let mut c: usize = 0;
        while c < SIZE_CLASS_COUNT
            invariant
                self.wf(),
                self.stats_fit(),
                c <= SIZE_CLASS_COUNT,
                pools == self.pools@,
                n == SIZE_CLASS_COUNT as int,
                slabs == by_class(pools, SlabFigure::Slabs),
                bytes == by_class(pools, SlabFigure::Bytes),
                users == user_bytes_by_class(pools),
                dedicated == dedicated_bytes(self.dedicated@),
                forall|i: int|
                    0 <= i < SIZE_CLASS_COUNT ==> #[trigger] classes@[i]
                        == crate::memory::slab::class_size(i),
                forall|c: int| 0 <= c < n ==> #[trigger] slabs(c) >= 0,
                forall|c: int| 0 <= c < n ==> #[trigger] bytes(c) >= 0,
                forall|c: int| 0 <= c < n ==> #[trigger] users(c) >= 0,
                size_classes@ == Seq::new(c as nat, |i: int| class_stats(pools, i)),
                slab_count == crate::sums::sum_below(slabs, c as int),
                driver_bytes == dedicated + crate::sums::sum_below(bytes, c as int),
                user_bytes == dedicated + crate::sums::sum_below(users, c as int),
            decreases SIZE_CLASS_COUNT - c,
        {
            proof {
                assert(class_fits(pools, c as int));
                crate::sums::lemma_sum_below_grows(slabs, c + 1, n);
                crate::sums::lemma_sum_below_grows(bytes, c + 1, n);
                crate::sums::lemma_sum_below_grows(users, c + 1, n);
                crate::sums::lemma_sum_below_grows(slabs, 0, c as int);
                crate::sums::lemma_sum_below_grows(bytes, 0, c as int);
                crate::sums::lemma_sum_below_grows(users, 0, c as int);
                assert(slabs(c as int) >= 0);
                assert(bytes(c as int) >= 0);
                assert(users(c as int) >= 0);
                lemma_class_total_not_negative(pools, c as int, SlabFigure::InUse);
                lemma_padding_fits(pools, c as int);
            }
            let slab_total: u64 = add_up(&self.pools, c, SlabFigure::Slabs);
            let slots: u64 = add_up(&self.pools, c, SlabFigure::Slots);
            let in_use: u64 = add_up(&self.pools, c, SlabFigure::InUse);
            let quarantined: u64 = add_up(&self.pools, c, SlabFigure::Quarantined);
            let free: u64 = add_up(&self.pools, c, SlabFigure::Free);
            let class_bytes: u64 = add_up(&self.pools, c, SlabFigure::Bytes);
            let padding: u64 = add_up(&self.pools, c, SlabFigure::Padding);
            slab_count = slab_count + slab_total;
            driver_bytes = driver_bytes + class_bytes;
            user_bytes = user_bytes + in_use * classes[c];
            size_classes.push(
                SizeClassStats {
                    slot_size: classes[c],
                    slab_count: slab_total as u32,
                    total_slots: slots as u32,
                    allocated_slots: in_use as u32,
                    quarantined_slots: quarantined as u32,
                    free_slots: free as u32,
                    internal_fragmentation_bytes: padding,
                },
            );
            assert(size_classes@ =~= Seq::new((c + 1) as nat, |i: int| class_stats(pools, i)));
            c = c + 1;
        }
        SlabStats {
            size_classes,
            device_memory_count: (slab_count + self.dedicated.len() as u64) as u32,
            total_driver_bytes: driver_bytes,
            total_user_bytes: user_bytes,
            dedicated_count: self.dedicated.len() as u32,
            double_frees_detected: self.double_free_count,
            overflows_detected: self.overflow_count,
        }
    }

    /// The sizes of the dedicated memory objects added up.
    fn dedicated_total(&self) -> (r: u64)
        requires
            dedicated_bytes(self.dedicated@) <= u64::MAX,
        ensures
            r == dedicated_bytes(self.dedicated@),
    {
        let ghost list = self.dedicated@;
        let ghost f = |d: crate::memory::slab::DedicatedEntry| d.size as int;
        proof {
            crate::sums::lemma_total_whole(list, f);
        }
        let mut sum: u64 = 0;
        let mut i: usize = 0;
        while i < self.dedicated.len()
            invariant
                list == self.dedicated@,
                f == (|d: crate::memory::slab::DedicatedEntry| d.size as int),
                i <= list.len(),
                crate::sums::total(list, f) <= u64::MAX,
                sum == crate::sums::total(list.take(i as int), f),
            decreases list.len() - i,
        {
            proof {
                crate::sums::lemma_total_next(list, f, i as int);
                crate::sums::lemma_total_prefix(list, f, i + 1);
            }
            sum = sum + self.dedicated[i].size;
            i = i + 1;
        }
        sum
    }
}

} // verus!
