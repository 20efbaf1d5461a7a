//! Memory objects: how one is obtained from the device, and which ones an allocator gives back when
//! it goes.

use crate::error::{Error, VkResult};
use crate::memory::allocator::{Block, BlockAllocator};
use crate::memory::slab::{DedicatedEntry, Slab, SlabAllocator, TypePool};
use vstd::prelude::*;

verus! {

/// What is to be done next to obtain a memory object.
#[derive(Debug)]
pub enum ObtainStep {
    /// Map the memory.
    MapMemory(u64),
    /// The memory is there.
    Ready {
        /// Handle of the memory.
        memory: u64,
        /// Address at which it is mapped.
        mapped_base: Option<u64>,
    },
    /// There is no memory.
    Fail {
        /// What went wrong.
        error: Error,
        /// Memory that is given back.
        freed: Option<u64>,
    },
}

/// What is to be done once the device was asked for memory: host-visible memory is mapped.
pub fn obtained(host_visible: bool, outcome: Result<u64, VkResult>) -> (r: ObtainStep)
    ensures
        r == match outcome {
            Ok(memory) => if host_visible {
                ObtainStep::MapMemory(memory)
            } else {
                ObtainStep::Ready { memory, mapped_base: None }
            },
            Err(code) => ObtainStep::Fail { error: Error::Vulkan(code), freed: None },
        },
{
    match outcome {
        Ok(memory) => {
            if host_visible {
                ObtainStep::MapMemory(memory)
            } else {
                ObtainStep::Ready { memory, mapped_base: None }
            }
        },
        Err(code) => ObtainStep::Fail { error: Error::Vulkan(code), freed: None },
    }
}

/// What is to be done once memory was mapped: memory that cannot be mapped is given back.
pub fn mapped(memory: u64, outcome: Result<u64, VkResult>) -> (r: ObtainStep)
    ensures
        r == match outcome {
            Ok(base) => ObtainStep::Ready { memory, mapped_base: Some(base) },
            Err(code) => ObtainStep::Fail { error: Error::Vulkan(code), freed: Some(memory) },
        },
{
    match outcome {
        Ok(base) => ObtainStep::Ready { memory, mapped_base: Some(base) },
        Err(code) => ObtainStep::Fail { error: Error::Vulkan(code), freed: Some(memory) },
    }
}

/// A memory object that an allocator holds.
#[derive(Debug, Clone, Copy, PartialEq, Eq, Structural)]
pub struct HeldMemory {
    /// Handle of the memory.
    pub memory: u64,
    /// Whether it has to be unmapped before it is given back.
    pub mapped: bool,
}

/// The memory of a block.
pub open spec fn of_block(b: Block) -> HeldMemory {
    HeldMemory { memory: b.memory, mapped: b.mapped_base is Some }
}

/// The memory of a slab.
pub open spec fn of_slab(s: Slab) -> HeldMemory {
    HeldMemory { memory: s.memory, mapped: s.mapped_base is Some }
}

/// The memory of a single allocation.
pub open spec fn of_entry(e: DedicatedEntry) -> HeldMemory {
    HeldMemory { memory: e.memory, mapped: e.mapped_base is Some }
}

/// The memory of all blocks.
pub open spec fn of_blocks(pools: Seq<Vec<Block>>) -> Seq<HeldMemory>
    decreases pools.len(),
{
    if pools.len() == 0 {
        seq![]
    } else {
        of_blocks(pools.drop_last()) + pools.last()@.map_values(|b: Block| of_block(b))
    }
}

/// The memory of the slabs of all size classes.
pub open spec fn of_classes(classes: Seq<Vec<Slab>>) -> Seq<HeldMemory>
    decreases classes.len(),
{
    if classes.len() == 0 {
        seq![]
    } else {
        of_classes(classes.drop_last()) + classes.last()@.map_values(|s: Slab| of_slab(s))
    }
}

/// The memory of the slabs of all memory types.
pub open spec fn of_types(pools: Seq<TypePool>) -> Seq<HeldMemory>
    decreases pools.len(),
{
    if pools.len() == 0 {
        seq![]
    } else {
        of_types(pools.drop_last()) + of_classes(pools.last().size_pools@)
    }
}

fn push_blocks(out: &mut Vec<HeldMemory>, blocks: &Vec<Block>)
    ensures
        final(out)@ == old(out)@ + blocks@.map_values(|b: Block| of_block(b)),
{
    let ghost all = blocks@.map_values(|b: Block| of_block(b));
    let mut i: usize = 0;
    assert(out@ =~= old(out)@ + all.take(0));
    while i < blocks.len()
        invariant
            i <= blocks@.len(),
            all == blocks@.map_values(|b: Block| of_block(b)),
            out@ == old(out)@ + all.take(i as int),
        decreases blocks@.len() - i,
    {
        out.push(
            HeldMemory { memory: blocks[i].memory, mapped: blocks[i].mapped_base.is_some() },
        );
        i = i + 1;
        assert(out@ =~= old(out)@ + all.take(i as int));
    }
    assert(all.take(i as int) =~= all);
}

fn push_slabs(out: &mut Vec<HeldMemory>, slabs: &Vec<Slab>)
    ensures
        final(out)@ == old(out)@ + slabs@.map_values(|s: Slab| of_slab(s)),
{
    let ghost all = slabs@.map_values(|s: Slab| of_slab(s));
    let mut i: usize = 0;
    assert(out@ =~= old(out)@ + all.take(0));
    while i < slabs.len()
        invariant
            i <= slabs@.len(),
            all == slabs@.map_values(|s: Slab| of_slab(s)),
            out@ == old(out)@ + all.take(i as int),
        decreases slabs@.len() - i,
    {
        out.push(HeldMemory { memory: slabs[i].memory, mapped: slabs[i].mapped_base.is_some() });
        i = i + 1;
        assert(out@ =~= old(out)@ + all.take(i as int));
    }
    assert(all.take(i as int) =~= all);
}

fn push_classes(out: &mut Vec<HeldMemory>, classes: &Vec<Vec<Slab>>)
    ensures
        final(out)@ == old(out)@ + of_classes(classes@),
{
    let mut i: usize = 0;
    assert(out@ =~= old(out)@ + of_classes(classes@.take(0)));
    while i < classes.len()
        invariant
            i <= classes@.len(),
            out@ == old(out)@ + of_classes(classes@.take(i as int)),
        decreases classes@.len() - i,
    {
        push_slabs(out, &classes[i]);
        i = i + 1;
        assert(classes@.take(i as int).drop_last() =~= classes@.take(i - 1));
        assert(out@ =~= old(out)@ + of_classes(classes@.take(i as int)));
    }
    assert(classes@.take(i as int) =~= classes@);
}

impl BlockAllocator {
    /// The memory that is given back when the allocator goes: that of all blocks.
    pub fn held_memory(&self) -> (r: Vec<HeldMemory>)
        ensures
            r@ == of_blocks(self.pools@),
    {
        let mut out: Vec<HeldMemory> = Vec::new();
        let mut i: usize = 0;
        assert(out@ =~= of_blocks(self.pools@.take(0)));
        while i < self.pools.len()
            invariant
                i <= self.pools@.len(),
                out@ == of_blocks(self.pools@.take(i as int)),
            decreases self.pools@.len() - i,
        {
            push_blocks(&mut out, &self.pools[i]);
            i = i + 1;
            assert(self.pools@.take(i as int).drop_last() =~= self.pools@.take(i - 1));
        }
        assert(self.pools@.take(i as int) =~= self.pools@);
        out
    }
}

impl SlabAllocator {
    /// The memory that is given back when the allocator goes: that of all slabs, and that of single
    /// allocations that were never freed.
    pub fn held_memory(&self) -> (r: Vec<HeldMemory>)
        ensures
            r@ == of_types(self.pools@) + self.dedicated@.map_values(
                |e: DedicatedEntry| of_entry(e),
            ),
    {
        let mut out: Vec<HeldMemory> = Vec::new();
        let mut i: usize = 0;
        assert(out@ =~= of_types(self.pools@.take(0)));
        while i < self.pools.len()
            invariant
                i <= self.pools@.len(),
                out@ == of_types(self.pools@.take(i as int)),
            decreases self.pools@.len() - i,
        {
            push_classes(&mut out, &self.pools[i].size_pools);
            i = i + 1;
            assert(self.pools@.take(i as int).drop_last() =~= self.pools@.take(i - 1));
        }
        assert(self.pools@.take(i as int) =~= self.pools@);
        let ghost singles = self.dedicated@.map_values(|e: DedicatedEntry| of_entry(e));
        let mut k: usize = 0;
        assert(out@ =~= of_types(self.pools@) + singles.take(0));
        while k < self.dedicated.len()
            invariant
                k <= self.dedicated@.len(),
                singles == self.dedicated@.map_values(|e: DedicatedEntry| of_entry(e)),
                out@ == of_types(self.pools@) + singles.take(k as int),
            decreases self.dedicated@.len() - k,
        {
            out.push(
                HeldMemory {
                    memory: self.dedicated[k].memory,
                    mapped: self.dedicated[k].mapped_base.is_some(),
                },
            );
            k = k + 1;
            assert(out@ =~= of_types(self.pools@) + singles.take(k as int));
        }
        assert(singles.take(k as int) =~= singles);
        out
    }
}

/// All the memory of a block allocator is given back when it goes.
pub proof fn law_every_block_is_given_back(pools: Seq<Vec<Block>>, m: int, b: int)
    requires
        0 <= m < pools.len(),
        0 <= b < pools[m]@.len(),
    ensures
        of_blocks(pools).contains(of_block(pools[m]@[b])),
    decreases pools.len(),
{
    let front = of_blocks(pools.drop_last());
    let back = pools.last()@.map_values(|x: Block| of_block(x));
    if m == pools.len() - 1 {
        assert(back[b] == of_block(pools[m]@[b]));
        assert(of_blocks(pools)[front.len() + b] == back[b]);
    } else {
        law_every_block_is_given_back(pools.drop_last(), m, b);
        let k = choose|k: int| 0 <= k < front.len() && front[k] == of_block(pools[m]@[b]);
        assert(of_blocks(pools)[k] == front[k]);
    }
}

/// All the slabs of a slab allocator are given back when it goes.
pub proof fn law_every_slab_is_given_back(pools: Seq<TypePool>, m: int, c: int, k: int)
    requires
        0 <= m < pools.len(),
        0 <= c < pools[m].size_pools@.len(),
        0 <= k < pools[m].size_pools@[c]@.len(),
    ensures
        of_types(pools).contains(of_slab(pools[m].size_pools@[c]@[k])),
    decreases pools.len(),
{
    let front = of_types(pools.drop_last());
    let back = of_classes(pools.last().size_pools@);
    let wanted = of_slab(pools[m].size_pools@[c]@[k]);
    if m == pools.len() - 1 {
        lemma_class_is_held(pools[m].size_pools@, c, k);
        let i = choose|i: int| 0 <= i < back.len() && back[i] == wanted;
        assert(of_types(pools)[front.len() + i] == back[i]);
    } else {
        law_every_slab_is_given_back(pools.drop_last(), m, c, k);
        let i = choose|i: int| 0 <= i < front.len() && front[i] == wanted;
        assert(of_types(pools)[i] == front[i]);
    }
}

proof fn lemma_class_is_held(classes: Seq<Vec<Slab>>, c: int, k: int)
    requires
        0 <= c < classes.len(),
        0 <= k < classes[c]@.len(),
    ensures
        of_classes(classes).contains(of_slab(classes[c]@[k])),
    decreases classes.len(),
{
    let front = of_classes(classes.drop_last());
    let back = classes.last()@.map_values(|s: Slab| of_slab(s));
    if c == classes.len() - 1 {
        assert(back[k] == of_slab(classes[c]@[k]));
        assert(of_classes(classes)[front.len() + k] == back[k]);
    } else {
        lemma_class_is_held(classes.drop_last(), c, k);
        let i = choose|i: int| 0 <= i < front.len() && front[i] == of_slab(classes[c]@[k]);
        assert(of_classes(classes)[i] == front[i]);
    }
}

} // verus!
