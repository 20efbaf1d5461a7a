//! Allocation of device memory, sharded by memory type.
//!
//! A pool of blocks is kept per memory type. Within a block, a next-fit hint
//! says where the search for a free region starts. The device memory itself is
//! obtained by the caller: where a new block is needed, [`BlockAllocator::allocate`]
//! says so and [`BlockAllocator::add_block`] takes the memory object in.

use crate::error::Error;
use crate::memory::resources::MemoryLocation;
use crate::vulkan;
use vstd::prelude::*;

verus! {

/// Maximum number of memory types that a device can have.
pub const MAX_MEMORY_TYPES: usize = 32;

/// Default block size: 256 MiB.
pub const DEFAULT_BLOCK_SIZE: u64 = 268435456;

/// What a resource asks of the memory that is bound to it.
#[derive(Debug, Clone, Copy)]
pub struct MemoryRequirements {
    /// Size in bytes.
    pub size: u64,
    /// Alignment in bytes.
    pub alignment: u64,
    /// Bit `i` is set if memory type `i` can back the resource.
    pub memory_type_bits: u32,
}

/// The memory types of a device, each given by its property flags.
#[derive(Debug, Clone)]
pub struct MemoryProperties {
    /// Property flags per memory type.
    pub types: Vec<u32>,
}

impl MemoryProperties {
    /// No device has more memory types than the API can number.
    pub open spec fn wf(&self) -> bool {
        self.types@.len() <= MAX_MEMORY_TYPES
    }

    /// Memory type `i` exists, is admitted by `bits` and has all of `wanted`.
    pub open spec fn usable(&self, bits: u32, wanted: u32, i: int) -> bool {
        &&& 0 <= i < self.types@.len()
        &&& bits & (1u32 << (i as u32)) != 0
        &&& vulkan::has_flags(self.types@[i], wanted)
    }

    /// `i` is the lowest index that is usable.
    pub open spec fn first_usable(&self, bits: u32, wanted: u32, i: int) -> bool {
        &&& self.usable(bits, wanted, i)
        &&& forall|j: int| 0 <= j < i ==> !self.usable(bits, wanted, j)
    }

    /// Some memory type is usable.
    pub open spec fn any_usable(&self, bits: u32, wanted: u32) -> bool {
        exists|i: int| self.usable(bits, wanted, i)
    }

    /// The lowest usable memory type.
    pub(crate) fn find_usable(&self, bits: u32, wanted: u32) -> (r: Option<u32>)
        requires
            self.wf(),
        ensures
            match r {
                Some(i) => self.first_usable(bits, wanted, i as int),
                None => !self.any_usable(bits, wanted),
            },
    {
        let mut i: u32 = 0;
        while (i as usize) < self.types.len()
            invariant
                self.wf(),
                i <= self.types@.len(),
                forall|j: int| 0 <= j < i ==> !self.usable(bits, wanted, j),
            decreases self.types@.len() - i,
        {
            if bits & (1u32 << i) != 0 && vulkan::contains_flags(self.types[i as usize], wanted) {
                return Some(i);
            }
            i = i + 1;
        }
        None
    }
}

/// Two-pass memory type search: required and preferred flags, then required flags only.
pub fn find_memory_type_index(
    props: &MemoryProperties,
    requirements: &MemoryRequirements,
    location: MemoryLocation,
) -> (r: Result<u32, Error>)
    requires
        props.wf(),
    ensures
        memory_type_choice(*props, requirements.memory_type_bits, location, r),
{
    let required: u32 = location.required_flags();
    let preferred: u32 = location.preferred_flags();
    match props.find_usable(requirements.memory_type_bits, required | preferred) {
        Some(i) => Ok(i),
        None => match props.find_usable(requirements.memory_type_bits, required) {
            Some(i) => Ok(i),
            None => Err(Error::NoSuitableMemoryType),
        },
    }
}

/// What the memory type search returns: the lowest type with the required and
/// the preferred flags, else the lowest with the required flags, else an error.
pub open spec fn memory_type_choice(
    props: MemoryProperties,
    bits: u32,
    location: MemoryLocation,
    r: Result<u32, Error>,
) -> bool {
    let best = location.required() | location.preferred();
    if props.any_usable(bits, best) {
        r matches Ok(i) && props.first_usable(bits, best, i as int)
    } else if props.any_usable(bits, location.required()) {
        r matches Ok(i) && props.first_usable(bits, location.required(), i as int)
    } else {
        r matches Err(e) && e is NoSuitableMemoryType
    }
}

/// A range of device memory. Plain data: dropping it frees nothing.
#[derive(Debug, Clone, Copy, PartialEq, Eq)]
pub struct Allocation {
    /// Handle of the memory object that contains the range.
    pub memory: u64,
    /// Byte offset within the memory object.
    pub offset: u64,
    /// Size in bytes.
    pub size: u64,
    /// Address of the first byte, if the memory is mapped.
    pub mapped_ptr: Option<u64>,
    /// Memory type index, which selects the pool on free.
    pub memory_type_index: u32,
}

/// A contiguous free region within a block.
#[derive(Debug, Clone, Copy, PartialEq, Eq)]
pub struct FreeRegion {
    /// Byte offset within the block.
    pub offset: u64,
    /// Size in bytes.
    pub size: u64,
}

impl FreeRegion {
    /// The offset just behind the region.
    pub open spec fn end(self) -> int {
        self.offset + self.size
    }

    /// The region holds `size` bytes at a multiple of `alignment`.
    pub open spec fn fits(self, size: u64, alignment: u64) -> bool {
        vulkan::round_up(self.offset as int, alignment as int) + size <= self.end()
    }

    /// The test for [`FreeRegion::fits`] stays within 64 bits.
    pub open spec fn in_range(self, size: u64, alignment: u64) -> bool {
        &&& self.offset + alignment <= u64::MAX
        &&& vulkan::round_up(self.offset as int, alignment as int) + size <= u64::MAX
    }
}

/// Free regions of a block of `total` bytes: none empty, in ascending order, and
/// no two of them touching.
pub open spec fn regions_wf(list: Seq<FreeRegion>, total: int) -> bool {
    &&& forall|i: int|
        0 <= i < list.len() ==> (#[trigger] list[i]).size > 0 && list[i].end() <= total
    &&& forall|i: int, j: int|
        0 <= i < j < list.len() ==> (#[trigger] list[i]).end() < (#[trigger] list[j]).offset
}

/// Byte `b` lies in one of the free regions.
pub open spec fn is_free(list: Seq<FreeRegion>, b: int) -> bool {
    exists|i: int| 0 <= i < list.len() && (#[trigger] list[i]).offset <= b < list[i].end()
}

/// The free bytes of a list.
pub open spec fn free_bytes(list: Seq<FreeRegion>) -> Set<int> {
    Set::new(|b: int| is_free(list, b))
}

/// The bytes of a range.
pub open spec fn range_bytes(offset: int, size: int) -> Set<int> {
    Set::new(|b: int| offset <= b < offset + size)
}

/// What is left of region `i` once `size` bytes at `at` are taken out of it.
pub open spec fn carved(list: Seq<FreeRegion>, i: int, at: int, size: int) -> Seq<FreeRegion> {
    let r = list[i];
    let before = if at > r.offset {
        seq![FreeRegion { offset: r.offset, size: (at - r.offset) as u64 }]
    } else {
        seq![]
    };
    let after = if r.end() > at + size {
        seq![FreeRegion { offset: (at + size) as u64, size: (r.end() - at - size) as u64 }]
    } else {
        seq![]
    };
    list.take(i) + before + after + list.skip(i + 1)
}

/// The list with a range given back, merged with the regions it touches.
pub open spec fn merged(list: Seq<FreeRegion>, pos: int, offset: int, size: int) -> Seq<FreeRegion> {
    let with_prev = pos > 0 && list[pos - 1].end() == offset;
    let with_next = pos < list.len() && list[pos].offset == offset + size;
    let start = if with_prev { list[pos - 1].offset as int } else { offset };
    let stop = if with_next { list[pos].end() } else { offset + size };
    let head = if with_prev { list.take(pos - 1) } else { list.take(pos) };
    let tail = if with_next { list.skip(pos + 1) } else { list.skip(pos) };
    head + seq![FreeRegion { offset: start as u64, size: (stop - start) as u64 }] + tail
}

/// `pos` is where a range at `offset` belongs in the list.
pub open spec fn is_position(list: Seq<FreeRegion>, pos: int, offset: int) -> bool {
    &&& 0 <= pos <= list.len()
    &&& forall|i: int| 0 <= i < pos ==> (#[trigger] list[i]).offset < offset
    &&& pos < list.len() ==> list[pos].offset >= offset
}

/// Taking a range out of a free region removes exactly its bytes and keeps the
/// list in order.
pub proof fn lemma_carved(list: Seq<FreeRegion>, total: int, i: int, at: int, size: int)
    requires
        regions_wf(list, total),
        total <= u64::MAX,
        0 <= i < list.len(),
        list[i].offset <= at,
        size > 0,
        at + size <= list[i].end(),
    ensures
        regions_wf(carved(list, i, at, size), total),
        free_bytes(carved(list, i, at, size)) == free_bytes(list).difference(
            range_bytes(at, size),
        ),
{
    let new = carved(list, i, at, size);
    let r = list[i];
    let nb: int = if at > r.offset { 1 } else { 0 };
    let na: int = if r.end() > at + size { 1 } else { 0 };
    assert(new.len() == list.len() - 1 + nb + na);
    assert forall|k: int| 0 <= k < new.len() implies new[k] == (if k < i {
        list[k]
    } else if k < i + nb {
        FreeRegion { offset: r.offset, size: (at - r.offset) as u64 }
    } else if k < i + nb + na {
        FreeRegion { offset: (at + size) as u64, size: (r.end() - at - size) as u64 }
    } else {
        list[k + 1 - nb - na]
    }) by {}
    assert(regions_wf(new, total));
    assert forall|b: int| is_free(new, b) == (is_free(list, b) && !(at <= b < at + size)) by {
        if is_free(new, b) {
            let k = choose|k: int| 0 <= k < new.len() && (#[trigger] new[k]).offset <= b
                < new[k].end();
            let m = if k < i { k } else if k < i + nb + na { i } else { k + 1 - nb - na };
            assert(list[m].offset <= b < list[m].end());
            if m < i {
                assert(list[m].end() < list[i].offset);
            } else if m > i {
                assert(list[i].end() < list[m].offset);
            }
        }
        if is_free(list, b) && !(at <= b < at + size) {
            let m = choose|m: int| 0 <= m < list.len() && (#[trigger] list[m]).offset <= b
                < list[m].end();
            if m < i {
                assert(new[m] == list[m]);
            } else if m > i {
                assert(new[m - 1 + nb + na] == list[m]);
            } else if b < at {
                assert(new[i].offset <= b < new[i].end());
            } else {
                assert(new[i + nb].offset <= b < new[i + nb].end());
            }
        }
    }
    assert(free_bytes(new) =~= free_bytes(list).difference(range_bytes(at, size)));
}

/// The order of the regions before and behind a range that is given back.
proof fn lemma_neighbours(list: Seq<FreeRegion>, total: int, pos: int, offset: int, size: int)
    requires
        regions_wf(list, total),
        is_position(list, pos, offset),
        size > 0,
        free_bytes(list).disjoint(range_bytes(offset, size)),
    ensures
        forall|i: int| 0 <= i < pos ==> (#[trigger] list[i]).end() <= offset,
        forall|i: int| 0 <= i < pos - 1 ==> (#[trigger] list[i]).end() < offset,
        forall|j: int| pos <= j < list.len() ==> (#[trigger] list[j]).offset >= offset + size,
        forall|j: int| pos < j < list.len() ==> (#[trigger] list[j]).offset > offset + size,
{
    if pos > 0 {
        let p = list[pos - 1];
        if p.end() > offset {
            assert(is_free(list, offset));
            assert(free_bytes(list).contains(offset));
            assert(range_bytes(offset, size).contains(offset));
        }
    }
    if pos < list.len() {
        let n = list[pos];
        if n.offset < offset + size {
            assert(is_free(list, n.offset as int));
            assert(free_bytes(list).contains(n.offset as int));
            assert(range_bytes(offset, size).contains(n.offset as int));
        }
    }
}

/// What stands where in the list once a range has been given back.
proof fn lemma_merged_index(list: Seq<FreeRegion>, pos: int, offset: int, size: int)
    requires
        0 <= pos <= list.len(),
    ensures
        ({
            let new = merged(list, pos, offset, size);
            let wp = pos > 0 && list[pos - 1].end() == offset;
            let wn = pos < list.len() && list[pos].offset == offset + size;
            let at: int = if wp { pos - 1 } else { pos };
            let next: int = if wn { pos + 1 } else { pos };
            let start = if wp { list[pos - 1].offset as int } else { offset };
            let stop = if wn { list[pos].end() } else { offset + size };
            &&& new.len() == at + 1 + list.len() - next
            &&& forall|k: int| 0 <= k < at ==> #[trigger] new[k] == list[k]
            &&& new[at] == FreeRegion { offset: start as u64, size: (stop - start) as u64 }
            &&& forall|k: int|
                at < k < new.len() ==> #[trigger] new[k] == list[k + next - at - 1]
        }),
{
}

/// Giving a range back adds exactly its bytes and leaves no two regions touching.
pub proof fn lemma_merged(list: Seq<FreeRegion>, total: int, pos: int, offset: int, size: int)
    requires
        regions_wf(list, total),
        total <= u64::MAX,
        is_position(list, pos, offset),
        0 <= offset,
        size > 0,
        offset + size <= total,
        free_bytes(list).disjoint(range_bytes(offset, size)),
    ensures
        regions_wf(merged(list, pos, offset, size), total),
        free_bytes(merged(list, pos, offset, size)) == free_bytes(list).union(
            range_bytes(offset, size),
        ),
{
    let new = merged(list, pos, offset, size);
    let wp = pos > 0 && list[pos - 1].end() == offset;
    let wn = pos < list.len() && list[pos].offset == offset + size;
    let at: int = if wp { pos - 1 } else { pos };
    let next: int = if wn { pos + 1 } else { pos };
    lemma_merged_index(list, pos, offset, size);
    lemma_neighbours(list, total, pos, offset, size);
    assert(new[at].offset <= offset && offset + size <= new[at].end() <= total);
    assert forall|b: int| new[at].offset <= b < new[at].end() implies is_free(list, b) || offset
        <= b < offset + size by {
        if b < offset {
            assert(list[pos - 1].offset <= b < list[pos - 1].end());
        } else if b >= offset + size {
            assert(list[pos].offset <= b < list[pos].end());
        }
    }
    lemma_merged_wf(list, new, total, at, next);
    lemma_merged_bytes(list, new, at, next, offset, size);
}

/// The bytes of such a list, where the new region spans the replaced ones and a range.
proof fn lemma_merged_bytes(
    list: Seq<FreeRegion>,
    new: Seq<FreeRegion>,
    at: int,
    next: int,
    offset: int,
    size: int,
)
    requires
        0 <= at <= next <= list.len(),
        new.len() == at + 1 + list.len() - next,
        forall|k: int| 0 <= k < at ==> #[trigger] new[k] == list[k],
        forall|k: int| at < k < new.len() ==> #[trigger] new[k] == list[k + next - at - 1],
        new[at].offset <= offset && offset + size <= new[at].end(),
        forall|b: int|
            new[at].offset <= b < new[at].end() ==> #[trigger] is_free(list, b) || offset <= b
                < offset + size,
        forall|m: int|
            at <= m < next ==> new[at].offset <= (#[trigger] list[m]).offset && list[m].end()
                <= new[at].end(),
    ensures
        free_bytes(new) == free_bytes(list).union(range_bytes(offset, size)),
{
    assert forall|b: int|
        is_free(new, b) == (is_free(list, b) || offset <= b < offset + size) by {
        if is_free(new, b) {
            let k = choose|k: int| 0 <= k < new.len() && (#[trigger] new[k]).offset <= b
                < new[k].end();
            if k < at {
                assert(list[k].offset <= b < list[k].end());
            } else if k > at {
                let m = k + next - at - 1;
                assert(list[m].offset <= b < list[m].end());
            }
        }
        if offset <= b < offset + size {
            assert(new[at].offset <= b < new[at].end());
        }
        if is_free(list, b) {
            let m = choose|m: int| 0 <= m < list.len() && (#[trigger] list[m]).offset <= b
                < list[m].end();
            if m < at {
                assert(new[m] == list[m]);
            } else if m < next {
                assert(new[at].offset <= b < new[at].end());
            } else {
                assert(new[m - next + at + 1] == list[m]);
            }
        }
    }
    assert(free_bytes(new) =~= free_bytes(list).union(range_bytes(offset, size)));
}

/// A list in which one region replaces the regions from `at` up to `next` is in order
/// if that region keeps clear of those before and behind it.
proof fn lemma_merged_wf(
    list: Seq<FreeRegion>,
    new: Seq<FreeRegion>,
    total: int,
    at: int,
    next: int,
)
    requires
        regions_wf(list, total),
        0 <= at <= next <= list.len(),
        new.len() == at + 1 + list.len() - next,
        forall|k: int| 0 <= k < at ==> #[trigger] new[k] == list[k],
        forall|k: int| at < k < new.len() ==> #[trigger] new[k] == list[k + next - at - 1],
        new[at].size > 0,
        new[at].end() <= total,
        forall|i: int| 0 <= i < at ==> (#[trigger] list[i]).end() < new[at].offset,
        forall|j: int| next <= j < list.len() ==> new[at].end() < (#[trigger] list[j]).offset,
    ensures
        regions_wf(new, total),
{
}

/// Whether the region holds `size` bytes at a multiple of `alignment`.
fn region_fits(region: &FreeRegion, size: u64, alignment: u64) -> (r: bool)
    requires
        vulkan::is_pow2(alignment),
        region.in_range(size, alignment),
        region.end() <= u64::MAX,
    ensures
        r == region.fits(size, alignment),
{
    proof {
        vulkan::lemma_pow2_is_positive(alignment);
    }
    vulkan::align_up(region.offset, alignment) + size <= region.offset + region.size
}

/// A single large memory object with the regions of it that are free.
#[derive(Debug)]
pub struct Block {
    /// Handle of the memory object.
    pub memory: u64,
    /// Size in bytes.
    pub total_size: u64,
    /// Address at which the object is mapped, if it is.
    pub mapped_base: Option<u64>,
    /// Free regions in ascending order.
    pub free_list: Vec<FreeRegion>,
    /// Next-fit hint: index in the free list at which the search starts.
    pub next_fit: usize,
}

impl Block {
    /// The free list is in order and the mapping does not run past the address space.
    pub open spec fn wf(&self) -> bool {
        &&& regions_wf(self.free_list@, self.total_size as int)
        &&& self.mapped_base matches Some(base) ==> base + self.total_size <= u64::MAX
    }

    /// The free bytes of the block.
    pub open spec fn free(&self) -> Set<int> {
        free_bytes(self.free_list@)
    }

    /// The fit of every free region can be tested within 64 bits.
    pub open spec fn in_range(&self, size: u64, alignment: u64) -> bool {
        forall|i: int|
            0 <= i < self.free_list@.len() ==> (#[trigger] self.free_list@[i]).in_range(
                size,
                alignment,
            )
    }

    /// Some free region holds an allocation of this size and alignment.
    pub open spec fn can_serve(&self, size: u64, alignment: u64) -> bool {
        exists|i: int|
            0 <= i < self.free_list@.len() && (#[trigger] self.free_list@[i]).fits(size, alignment)
    }

    /// Where the search starts.
    pub open spec fn search_start(&self) -> int {
        if self.next_fit < self.free_list@.len() {
            self.next_fit as int
        } else {
            self.free_list@.len() - 1
        }
    }

    /// Region `i` is the first that fits, searching from the hint and wrapping around.
    pub open spec fn chooses(&self, size: u64, alignment: u64, i: int) -> bool {
        let start = self.search_start();
        &&& 0 <= i < self.free_list@.len()
        &&& self.free_list@[i].fits(size, alignment)
        &&& if i >= start {
            forall|k: int| start <= k < i ==> !(#[trigger] self.free_list@[k]).fits(size, alignment)
        } else {
            forall|k: int|
                (start <= k < self.free_list@.len() || 0 <= k < i) ==> !(
                #[trigger] self.free_list@[k]).fits(size, alignment)
        }
    }

    /// The range that an allocation from region `i` gets.
    pub open spec fn placed(&self, i: int, size: u64, alignment: u64, mem_type: u32) -> Allocation {
        let at = vulkan::round_up(self.free_list@[i].offset as int, alignment as int);
        Allocation {
            memory: self.memory,
            offset: at as u64,
            size,
            mapped_ptr: match self.mapped_base {
                Some(base) => Some((base + at) as u64),
                None => None,
            },
            memory_type_index: mem_type,
        }
    }

    /// `new` is the block once the allocation `a` has been taken from its region `i`.
    pub open spec fn takes(&self, new: &Block, i: int, a: Allocation) -> bool {
        &&& new.free_list@ == carved(self.free_list@, i, a.offset as int, a.size as int)
        &&& new.next_fit == if a.offset > self.free_list@[i].offset { i + 1 } else { i }
        &&& new.memory == self.memory
        &&& new.total_size == self.total_size
        &&& new.mapped_base == self.mapped_base
    }

    /// `new` is the block once it has served a request with `a`.
    pub open spec fn serves(
        &self,
        new: &Block,
        size: u64,
        alignment: u64,
        mem_type: u32,
        a: Allocation,
    ) -> bool {
        exists|i: int|
            #[trigger] self.chooses(size, alignment, i) && a == self.placed(
                i,
                size,
                alignment,
                mem_type,
            ) && self.takes(new, i, a)
    }

    /// `new` is the block once the range has been given back.
    pub open spec fn takes_back(&self, new: &Block, offset: u64, size: u64) -> bool {
        &&& exists|pos: int|
            #[trigger] is_position(self.free_list@, pos, offset as int) && new.free_list@ == merged(
                self.free_list@,
                pos,
                offset as int,
                size as int,
            )
        &&& new.next_fit == self.next_fit
        &&& new.memory == self.memory
        &&& new.total_size == self.total_size
        &&& new.mapped_base == self.mapped_base
    }

    /// A block that is free from end to end.
    pub fn new(memory: u64, size: u64, mapped_base: Option<u64>) -> (r: Block)
        requires
            size > 0,
            mapped_base matches Some(base) ==> base + size <= u64::MAX,
        ensures
            r.wf(),
            r.memory == memory,
            r.total_size == size,
            r.mapped_base == mapped_base,
            r.free_list@ == seq![FreeRegion { offset: 0, size }],
            r.next_fit == 0,
    {
        let mut free_list: Vec<FreeRegion> = Vec::new();
        free_list.push(FreeRegion { offset: 0, size });
        Block { memory, total_size: size, mapped_base, free_list, next_fit: 0 }
    }

    /// Takes an allocation out of free region `i`, if it fits there.
    pub fn try_region(
        &mut self,
        i: usize,
        size: u64,
        alignment: u64,
        mem_type: u32,
    ) -> (r: Option<Allocation>)
        requires
            old(self).wf(),
            i < old(self).free_list@.len(),
            size > 0,
            vulkan::is_pow2(alignment),
            old(self).free_list@[i as int].in_range(size, alignment),
        ensures
            final(self).wf(),
            r is Some <==> old(self).free_list@[i as int].fits(size, alignment),
            match r {
                Some(a) => {
                    &&& a == old(self).placed(i as int, size, alignment, mem_type)
                    &&& old(self).takes(final(self), i as int, a)
                },
                None => *final(self) == *old(self),
            },
    {
        let region: FreeRegion = self.free_list[i];
        assert(i < self.free_list.len());
        proof {
            vulkan::lemma_pow2_is_positive(alignment);
            vulkan::lemma_mask_up_rounds_up(region.offset, alignment);
        }
        let aligned_offset: u64 = vulkan::align_up(region.offset, alignment);
        let padding: u64 = aligned_offset - region.offset;
        let region_end: u64 = region.offset + region.size;
        if aligned_offset + size > region_end {
            return None;
        }
        let ghost list = self.free_list@;
        self.free_list.remove(i);
        let mut insert_at: usize = i;
        if padding > 0 {
            self.free_list.insert(insert_at, FreeRegion { offset: region.offset, size: padding });
            insert_at = insert_at + 1;
        }
        let after_offset: u64 = aligned_offset + size;
        let after_size: u64 = region_end - after_offset;
        if after_size > 0 {
            self.free_list.insert(
                insert_at,
                FreeRegion { offset: after_offset, size: after_size },
            );
        }
        self.next_fit = insert_at;
        proof {
            lemma_carved(
                list,
                self.total_size as int,
                i as int,
                aligned_offset as int,
                size as int,
            );
            assert(self.free_list@ =~= carved(
                list,
                i as int,
                aligned_offset as int,
                size as int,
            ));
        }
        let mapped_ptr: Option<u64> = match self.mapped_base {
            Some(base) => Some(base + aligned_offset),
            None => None,
        };
        Some(
            Allocation {
                memory: self.memory,
                offset: aligned_offset,
                size,
                mapped_ptr,
                memory_type_index: mem_type,
            },
        )
    }

    /// Index of the first region that fits, searching from the hint to the end and
    /// then from the start to the hint.
    pub fn find_fit(&self, size: u64, alignment: u64) -> (r: Option<usize>)
        requires
            self.wf(),
            vulkan::is_pow2(alignment),
            self.in_range(size, alignment),
        ensures
            match r {
                Some(i) => self.chooses(size, alignment, i as int),
                None => !self.can_serve(size, alignment),
            },
    {
        let len: usize = self.free_list.len();
        if len == 0 {
            return None;
        }
        let start: usize = if self.next_fit < len {
            self.next_fit
        } else {
            len - 1
        };
        let mut i: usize = start;
        while i < len
            invariant
                self.wf(),
                vulkan::is_pow2(alignment),
                self.in_range(size, alignment),
                len == self.free_list@.len(),
                start == self.search_start(),
                0 <= start <= i <= len,
                forall|k: int|
                    start <= k < i ==> !(#[trigger] self.free_list@[k]).fits(size, alignment),
            decreases len - i,
        {
            if region_fits(&self.free_list[i], size, alignment) {
                return Some(i);
            }
            i = i + 1;
        }
        let mut j: usize = 0;
        while j < start
            invariant
                self.wf(),
                vulkan::is_pow2(alignment),
                self.in_range(size, alignment),
                len == self.free_list@.len(),
                start == self.search_start(),
                0 <= j <= start < len,
                forall|k: int|
                    (start <= k < len || 0 <= k < j) ==> !(#[trigger] self.free_list@[k]).fits(
                        size,
                        alignment,
                    ),
            decreases start - j,
        {
            if region_fits(&self.free_list[j], size, alignment) {
                return Some(j);
            }
            j = j + 1;
        }
        None
    }

    /// Next-fit allocation from the block.
    pub fn try_allocate(&mut self, size: u64, alignment: u64, mem_type: u32) -> (r: Option<
        Allocation,
    >)
        requires
            old(self).wf(),
            size > 0,
            vulkan::is_pow2(alignment),
            old(self).in_range(size, alignment),
        ensures
            final(self).wf(),
            r is Some <==> old(self).can_serve(size, alignment),
            match r {
                Some(a) => old(self).serves(final(self), size, alignment, mem_type, a),
                None => *final(self) == *old(self),
            },
    {
        match self.find_fit(size, alignment) {
            Some(i) => self.try_region(i, size, alignment, mem_type),
            None => None,
        }
    }

    /// Gives a range back to the free list, merging it with the regions it touches.
    pub fn release(&mut self, offset: u64, size: u64)
        requires
            regions_wf(old(self).free_list@, u64::MAX as int),
            size > 0,
            offset + size <= u64::MAX,
            old(self).free().disjoint(range_bytes(offset as int, size as int)),
        ensures
            regions_wf(final(self).free_list@, u64::MAX as int),
            old(self).wf() && offset + size <= old(self).total_size ==> final(self).wf(),
            old(self).takes_back(final(self), offset, size),
            final(self).free() == old(self).free().union(range_bytes(offset as int, size as int)),
    {
        let ghost list = self.free_list@;
        let new_end: u64 = offset + size;
        let mut pos: usize = 0;
        while pos < self.free_list.len() && self.free_list[pos].offset < offset
            invariant
                self.free_list@ == list,
                pos <= list.len(),
                forall|i: int| 0 <= i < pos ==> (#[trigger] list[i]).offset < offset,
            decreases list.len() - pos,
        {
            pos = pos + 1;
        }
        assert(is_position(list, pos as int, offset as int));
        proof {
            lemma_merged(list, u64::MAX as int, pos as int, offset as int, size as int);
            if self.wf() && offset + size <= self.total_size {
                lemma_merged(list, self.total_size as int, pos as int, offset as int, size as int);
            }
        }
        let merge_prev: bool = pos > 0 && self.free_list[pos - 1].offset
            + self.free_list[pos - 1].size == offset;
        let merge_next: bool = pos < self.free_list.len() && self.free_list[pos].offset == new_end;
        let start: u64 = if merge_prev {
            self.free_list[pos - 1].offset
        } else {
            offset
        };
        let stop: u64 = if merge_next {
            self.free_list[pos].offset + self.free_list[pos].size
        } else {
            new_end
        };
        let whole: FreeRegion = FreeRegion { offset: start, size: stop - start };
        if merge_prev {
            if merge_next {
                self.free_list.remove(pos);
            }
            self.free_list.set(pos - 1, whole);
        } else if merge_next {
            self.free_list.set(pos, whole);
        } else {
            self.free_list.insert(pos, whole);
        }
        assert(self.free_list@ =~= merged(list, pos as int, offset as int, size as int));
    }
}

/// A memory object that an allocator needs from the device.
#[derive(Debug, Clone, Copy, PartialEq, Eq)]
pub struct BlockRequest {
    /// Memory type to allocate from.
    pub memory_type_index: u32,
    /// Size in bytes.
    pub size: u64,
    /// Whether the object is to be mapped.
    pub host_visible: bool,
    /// Whether it serves a single allocation that fills it.
    pub dedicated: bool,
}

/// Outcome of a request for memory.
#[derive(Debug, Clone, Copy)]
pub enum AllocationStep {
    /// The request is served.
    Done(Allocation),
    /// A memory object has to be allocated first.
    NeedBlock(BlockRequest),
}

/// Suballocating block allocator with a pool of blocks per memory type.
#[derive(Debug)]
pub struct BlockAllocator {
    /// The memory types of the device.
    pub properties: MemoryProperties,
    /// Size of the blocks that allocations share.
    pub block_size: u64,
    /// The blocks of each memory type, in the order in which they were added.
    pub pools: Vec<Vec<Block>>,
}

/// Every block of the pool is in order.
pub open spec fn pool_wf(blocks: Seq<Block>) -> bool {
    forall|b: int| 0 <= b < blocks.len() ==> (#[trigger] blocks[b]).wf()
}

/// The pool can be searched within 64 bits.
pub open spec fn pool_in_range(blocks: Seq<Block>, size: u64, alignment: u64) -> bool {
    forall|b: int| 0 <= b < blocks.len() ==> (#[trigger] blocks[b]).in_range(size, alignment)
}

/// Block `b` is the first that can serve a request.
pub open spec fn first_server(blocks: Seq<Block>, size: u64, alignment: u64, b: int) -> bool {
    &&& 0 <= b < blocks.len()
    &&& blocks[b].can_serve(size, alignment)
    &&& forall|k: int| 0 <= k < b ==> !(#[trigger] blocks[k]).can_serve(size, alignment)
}

/// No block can serve a request.
pub open spec fn no_server(blocks: Seq<Block>, size: u64, alignment: u64) -> bool {
    forall|k: int| 0 <= k < blocks.len() ==> !(#[trigger] blocks[k]).can_serve(size, alignment)
}

/// Block `b` is the first with this memory handle.
pub open spec fn first_owner(blocks: Seq<Block>, memory: u64, b: int) -> bool {
    &&& 0 <= b < blocks.len()
    &&& blocks[b].memory == memory
    &&& forall|k: int| 0 <= k < b ==> (#[trigger] blocks[k]).memory != memory
}

/// The pools differ at `m` at most, and there in block `b` at most.
pub open spec fn only_block_changes(
    old_pools: Seq<Vec<Block>>,
    new_pools: Seq<Vec<Block>>,
    m: int,
    b: int,
) -> bool {
    &&& new_pools.len() == old_pools.len()
    &&& forall|k: int| 0 <= k < old_pools.len() && k != m ==> new_pools[k] == old_pools[k]
    &&& new_pools[m]@.len() == old_pools[m]@.len()
    &&& forall|k: int|
        0 <= k < old_pools[m]@.len() && k != b ==> new_pools[m]@[k] == old_pools[m]@[k]
}

/// The alignment that is used for a requirement: zero counts as one.
pub open spec fn effective_alignment(alignment: u64) -> u64 {
    if alignment == 0 {
        1
    } else {
        alignment
    }
}

impl BlockAllocator {
    /// One pool per memory type that the API can number, each in order.
    pub open spec fn wf(&self) -> bool {
        &&& self.properties.wf()
        &&& self.pools@.len() == MAX_MEMORY_TYPES
        &&& forall|m: int| 0 <= m < self.pools@.len() ==> pool_wf((#[trigger] self.pools@[m])@)
    }

    /// Memory type `m` can be mapped.
    pub open spec fn host_visible(&self, m: int) -> bool {
        vulkan::has_flags(self.properties.types@[m], vulkan::MEMORY_HOST_VISIBLE)
    }

    /// `new` is the allocator once the first block with room has served a request with `a`.
    pub open spec fn serves(
        &self,
        new: &BlockAllocator,
        size: u64,
        alignment: u64,
        a: Allocation,
    ) -> bool {
        let m = a.memory_type_index as int;
        exists|b: int|
            {
                &&& #[trigger] first_server(self.pools@[m]@, size, alignment, b)
                &&& only_block_changes(self.pools@, new.pools@, m, b)
                &&& self.pools@[m]@[b].serves(
                    &new.pools@[m]@[b],
                    size,
                    alignment,
                    a.memory_type_index,
                    a,
                )
            }
    }

    /// Creates an allocator with the default block size.
    pub fn new(properties: MemoryProperties) -> (r: BlockAllocator)
        requires
            properties.wf(),
        ensures
            r.wf(),
            r.properties == properties,
            r.block_size == DEFAULT_BLOCK_SIZE,
            forall|m: int| 0 <= m < r.pools@.len() ==> (#[trigger] r.pools@[m])@.len() == 0,
    {
        BlockAllocator::with_block_size(properties, DEFAULT_BLOCK_SIZE)
    }

    /// Creates an allocator with a given block size.
    pub fn with_block_size(properties: MemoryProperties, block_size: u64) -> (r: BlockAllocator)
        requires
            properties.wf(),
        ensures
            r.wf(),
            r.properties == properties,
            r.block_size == block_size,
            forall|m: int| 0 <= m < r.pools@.len() ==> (#[trigger] r.pools@[m])@.len() == 0,
    {
        let mut pools: Vec<Vec<Block>> = Vec::new();
        while pools.len() < MAX_MEMORY_TYPES
            invariant
                pools@.len() <= MAX_MEMORY_TYPES,
                forall|m: int| 0 <= m < pools@.len() ==> (#[trigger] pools@[m])@.len() == 0,
            decreases MAX_MEMORY_TYPES - pools@.len(),
        {
            pools.push(Vec::new());
        }
        BlockAllocator { properties, block_size, pools }
    }

    /// Human-readable name.
    pub fn name(&self) -> (r: &'static str)
        ensures
            r@ == "BlockAllocator"@,
    {
        "BlockAllocator"
    }

    /// Allocates memory that satisfies the requirements and the location.
    ///
    /// A request larger than the block size gets a memory object of its own.
    /// Any other is served by the first block of its memory type that has room,
    /// and needs a new block if none has.
    pub fn allocate(
        &mut self,
        requirements: &MemoryRequirements,
        location: MemoryLocation,
    ) -> (r: Result<AllocationStep, Error>)
        requires
            old(self).wf(),
            requirements.size > 0,
            vulkan::is_pow2(effective_alignment(requirements.alignment)),
            forall|m: int|
                0 <= m < old(self).pools@.len() ==> pool_in_range(
                    (#[trigger] old(self).pools@[m])@,
                    requirements.size,
                    effective_alignment(requirements.alignment),
                ),
        ensures
            final(self).wf(),
            final(self).properties == old(self).properties,
            final(self).block_size == old(self).block_size,
            match r {
                Err(e) => {
                    &&& memory_type_choice(
                        old(self).properties,
                        requirements.memory_type_bits,
                        location,
                        Err(e),
                    )
                    &&& final(self).pools@ == old(self).pools@
                },
                Ok(AllocationStep::NeedBlock(q)) => {
                    let blocks = old(self).pools@[q.memory_type_index as int]@;
                    &&& memory_type_choice(
                        old(self).properties,
                        requirements.memory_type_bits,
                        location,
                        Ok(q.memory_type_index),
                    )
                    &&& q.host_visible == old(self).host_visible(q.memory_type_index as int)
                    &&& q.dedicated == (requirements.size > old(self).block_size)
                    &&& q.size == if q.dedicated { requirements.size } else { old(self).block_size }
                    &&& !q.dedicated ==> no_server(
                        blocks,
                        requirements.size,
                        effective_alignment(requirements.alignment),
                    )
                    &&& final(self).pools@ == old(self).pools@
                },
                Ok(AllocationStep::Done(a)) => {
                    &&& memory_type_choice(
                        old(self).properties,
                        requirements.memory_type_bits,
                        location,
                        Ok(a.memory_type_index),
                    )
                    &&& requirements.size <= old(self).block_size
                    &&& old(self).serves(
                        final(self),
                        requirements.size,
                        effective_alignment(requirements.alignment),
                        a,
                    )
                },
            },
    {
        let mem_type: u32 = match find_memory_type_index(&self.properties, requirements, location) {
            Ok(i) => i,
            Err(e) => {
                return Err(e);
            },
        };
        let host_visible: bool = vulkan::contains_flags(
            self.properties.types[mem_type as usize],
            vulkan::MEMORY_HOST_VISIBLE,
        );
        let size: u64 = requirements.size;
        let alignment: u64 = if requirements.alignment == 0 {
            1
        } else {
            requirements.alignment
        };
        if size > self.block_size {
            return Ok(
                AllocationStep::NeedBlock(
                    BlockRequest {
                        memory_type_index: mem_type,
                        size,
                        host_visible,
                        dedicated: true,
                    },
                ),
            );
        }
        let m: usize = mem_type as usize;
        let count: usize = self.pools[m].len();
        let mut b: usize = 0;
        while b < count
            invariant
                *self == *old(self),
                self.wf(),
                m < self.pools@.len(),
                count == self.pools@[m as int]@.len(),
                b <= count,
                size > 0,
                size == requirements.size,
                size <= self.block_size,
                alignment == effective_alignment(requirements.alignment),
                vulkan::is_pow2(alignment),
                mem_type == m,
                memory_type_choice(
                    self.properties,
                    requirements.memory_type_bits,
                    location,
                    Ok(mem_type),
                ),
                pool_in_range(self.pools@[m as int]@, size, alignment),
                forall|k: int|
                    0 <= k < b ==> !(#[trigger] self.pools@[m as int]@[k]).can_serve(
                        size,
                        alignment,
                    ),
            decreases count - b,
        {
            if let Some(i) = self.pools[m][b].find_fit(size, alignment) {
                assert(first_server(old(self).pools@[m as int]@, size, alignment, b as int));
                let r: Option<Allocation> = self.pools[m][b].try_region(
                    i,
                    size,
                    alignment,
                    mem_type,
                );
                assert(only_block_changes(old(self).pools@, self.pools@, m as int, b as int));
                match r {
                    Some(a) => {
                        assert(old(self).pools@[m as int]@[b as int].serves(
                            &self.pools@[m as int]@[b as int],
                            size,
                            alignment,
                            mem_type,
                            a,
                        ));
                        assert(a.memory_type_index == mem_type);
                        assert(old(self).serves(self, size, alignment, a));
                        return Ok(AllocationStep::Done(a));
                    },
                    None => {},
                }
            }
            b = b + 1;
        }
        Ok(
            AllocationStep::NeedBlock(
                BlockRequest {
                    memory_type_index: mem_type,
                    size: self.block_size,
                    host_visible,
                    dedicated: false,
                },
            ),
        )
    }

    /// Takes in a memory object that [`BlockAllocator::allocate`] asked for and serves the
    /// request from it.
    pub fn add_block(
        &mut self,
        requirements: &MemoryRequirements,
        request: BlockRequest,
        memory: u64,
        mapped_base: Option<u64>,
    ) -> (r: Allocation)
        requires
            old(self).wf(),
            request.memory_type_index < MAX_MEMORY_TYPES,
            0 < requirements.size <= request.size,
            request.dedicated ==> requirements.size == request.size,
            vulkan::is_pow2(effective_alignment(requirements.alignment)),
            mapped_base matches Some(base) ==> base + request.size <= u64::MAX,
        ensures
            final(self).wf(),
            final(self).properties == old(self).properties,
            final(self).block_size == old(self).block_size,
            r == (Allocation {
                memory,
                offset: 0,
                size: requirements.size,
                mapped_ptr: mapped_base,
                memory_type_index: request.memory_type_index,
            }),
            final(self).pools@.len() == old(self).pools@.len(),
            forall|k: int|
                0 <= k < old(self).pools@.len() && k != request.memory_type_index ==> final(self).pools@[k] == old(self).pools@[k],
            ({
                let m = request.memory_type_index as int;
                let blocks = final(self).pools@[m]@;
                &&& blocks.drop_last() == old(self).pools@[m]@
                &&& blocks.len() == old(self).pools@[m]@.len() + 1
                &&& blocks.last().memory == memory
                &&& blocks.last().total_size == request.size
                &&& blocks.last().mapped_base == mapped_base
                &&& blocks.last().next_fit == 0
                &&& blocks.last().free_list@ == if requirements.size < request.size {
                    seq![
                        FreeRegion {
                            offset: requirements.size,
                            size: (request.size - requirements.size) as u64,
                        },
                    ]
                } else {
                    seq![]
                }
            }),
    {
        let m: usize = request.memory_type_index as usize;
        let alignment: u64 = if requirements.alignment == 0 {
            1
        } else {
            requirements.alignment
        };
        let mut block: Block = Block::new(memory, request.size, mapped_base);
        proof {
            vulkan::lemma_pow2_is_positive(alignment);
            lemma_round_up_zero(alignment as int);
        }
        let ghost fresh = block.free_list@;
        if request.dedicated {
            block.free_list.clear();
        } else {
            let r: Option<Allocation> = block.try_region(
                0,
                requirements.size,
                alignment,
                request.memory_type_index,
            );
        }
        assert(block.free_list@ =~= carved(fresh, 0, 0, requirements.size as int));
        self.pools[m].push(block);
        assert(self.pools@[m as int]@.drop_last() =~= old(self).pools@[m as int]@);
        Allocation {
            memory,
            offset: 0,
            size: requirements.size,
            mapped_ptr: mapped_base,
            memory_type_index: request.memory_type_index,
        }
    }

    /// Frees an allocation that this allocator returned.
    ///
    /// The range goes back to the first block of its memory type that has its memory
    /// handle. Nothing happens if there is none.
    pub fn free(&mut self, allocation: &Allocation)
        requires
            old(self).wf(),
            allocation.memory_type_index < MAX_MEMORY_TYPES,
            allocation.size > 0,
            forall|b: int|
                #[trigger] first_owner(
                    old(self).pools@[allocation.memory_type_index as int]@,
                    allocation.memory,
                    b,
                ) ==> {
                    let block = old(self).pools@[allocation.memory_type_index as int]@[b];
                    &&& allocation.offset + allocation.size <= block.total_size
                    &&& block.free().disjoint(
                        range_bytes(allocation.offset as int, allocation.size as int),
                    )
                },
        ensures
            final(self).wf(),
            final(self).properties == old(self).properties,
            final(self).block_size == old(self).block_size,
            ({
                let m = allocation.memory_type_index as int;
                let blocks = old(self).pools@[m]@;
                if exists|b: int| #[trigger] first_owner(blocks, allocation.memory, b) {
                    exists|b: int|
                        {
                            &&& #[trigger] first_owner(blocks, allocation.memory, b)
                            &&& only_block_changes(old(self).pools@, final(self).pools@, m, b)
                            &&& blocks[b].takes_back(
                                &final(self).pools@[m]@[b],
                                allocation.offset,
                                allocation.size,
                            )
                        }
                } else {
                    final(self).pools@ == old(self).pools@
                }
            }),
    {
        let m: usize = allocation.memory_type_index as usize;
        let count: usize = self.pools[m].len();
        let mut b: usize = 0;
        while b < count && self.pools[m][b].memory != allocation.memory
            invariant
                *self == *old(self),
                m < self.pools@.len(),
                count == self.pools@[m as int]@.len(),
                b <= count,
                forall|k: int|
                    0 <= k < b ==> (#[trigger] self.pools@[m as int]@[k]).memory
                        != allocation.memory,
            decreases count - b,
        {
            b = b + 1;
        }
        if b < count {
            assert(first_owner(old(self).pools@[m as int]@, allocation.memory, b as int));
            self.pools[m][b].release(allocation.offset, allocation.size);
            assert(only_block_changes(old(self).pools@, self.pools@, m as int, b as int));
        }
    }
}

/// Zero is a multiple of everything.
proof fn lemma_round_up_zero(a: int)
    requires
        a >= 1,
    ensures
        vulkan::round_up(0, a) == 0,
{
    vstd::arithmetic::div_mod::lemma_basic_div(a - 1, a);
    assert((0 + a - 1) / a == 0);
    assert(0 * a == 0);
}

/// One memory object per allocation.
#[derive(Debug)]
pub struct DedicatedAllocator {
    /// The memory types of the device.
    pub properties: MemoryProperties,
}

impl DedicatedAllocator {
    /// Creates a dedicated allocator.
    pub fn new(properties: MemoryProperties) -> (r: DedicatedAllocator)
        ensures
            r.properties == properties,
    {
        DedicatedAllocator { properties }
    }

    /// The memory object that serves a request.
    pub fn allocate(
        &self,
        requirements: &MemoryRequirements,
        location: MemoryLocation,
    ) -> (r: Result<BlockRequest, Error>)
        requires
            self.properties.wf(),
        ensures
            match r {
                Ok(q) => {
                    &&& memory_type_choice(
                        self.properties,
                        requirements.memory_type_bits,
                        location,
                        Ok(q.memory_type_index),
                    )
                    &&& q.size == requirements.size
                    &&& q.host_visible == vulkan::has_flags(
                        self.properties.types@[q.memory_type_index as int],
                        vulkan::MEMORY_HOST_VISIBLE,
                    )
                    &&& q.dedicated
                },
                Err(e) => memory_type_choice(
                    self.properties,
                    requirements.memory_type_bits,
                    location,
                    Err(e),
                ),
            },
    {
        match find_memory_type_index(&self.properties, requirements, location) {
            Ok(i) => Ok(
                BlockRequest {
                    memory_type_index: i,
                    size: requirements.size,
                    host_visible: vulkan::contains_flags(
                        self.properties.types[i as usize],
                        vulkan::MEMORY_HOST_VISIBLE,
                    ),
                    dedicated: true,
                },
            ),
            Err(e) => Err(e),
        }
    }

    /// The allocation that a memory object obtained for a request amounts to.
    pub fn placed(request: BlockRequest, memory: u64, mapped_ptr: Option<u64>) -> (r: Allocation)
        ensures
            r == (Allocation {
                memory,
                offset: 0,
                size: request.size,
                mapped_ptr,
                memory_type_index: request.memory_type_index,
            }),
    {
        Allocation {
            memory,
            offset: 0,
            size: request.size,
            mapped_ptr,
            memory_type_index: request.memory_type_index,
        }
    }

    /// Whether freeing an allocation has to unmap its memory first.
    pub fn unmaps_on_free(allocation: &Allocation) -> (r: bool)
        ensures
            r == (allocation.mapped_ptr is Some),
    {
        allocation.mapped_ptr.is_some()
    }

    /// Human-readable name.
    pub fn name(&self) -> (r: &'static str)
        ensures
            r@ == "DedicatedAllocator"@,
    {
        "DedicatedAllocator"
    }
}

/// An allocation lies within its block, at a multiple of the alignment, on bytes that
/// were free before, and the block loses these bytes and no others.
pub proof fn law_allocation_takes_free_bytes(
    old_block: Block,
    new_block: Block,
    size: u64,
    alignment: u64,
    mem_type: u32,
    a: Allocation,
)
    requires
        old_block.wf(),
        size > 0,
        vulkan::is_pow2(alignment),
        old_block.in_range(size, alignment),
        old_block.serves(&new_block, size, alignment, mem_type, a),
    ensures
        a.size == size,
        a.offset + a.size <= old_block.total_size,
        a.offset % alignment == 0,
        range_bytes(a.offset as int, a.size as int).subset_of(old_block.free()),
        new_block.free() == old_block.free().difference(
            range_bytes(a.offset as int, a.size as int),
        ),
{
    let i = choose|i: int|
        #[trigger] old_block.chooses(size, alignment, i) && a == old_block.placed(
            i,
            size,
            alignment,
            mem_type,
        ) && old_block.takes(&new_block, i, a);
    let r = old_block.free_list@[i];
    vulkan::lemma_pow2_is_positive(alignment);
    vulkan::lemma_mask_up_rounds_up(r.offset, alignment);
    lemma_carved(
        old_block.free_list@,
        old_block.total_size as int,
        i,
        a.offset as int,
        a.size as int,
    );
    assert forall|b: int|
        range_bytes(a.offset as int, a.size as int).contains(b) implies old_block.free().contains(
        b,
    ) by {
        assert(r.offset <= b < r.end());
    }
}

/// Two allocations taken from a block one after the other share no byte.
pub proof fn law_allocations_are_disjoint(
    b0: Block,
    b1: Block,
    b2: Block,
    size1: u64,
    alignment1: u64,
    mem_type: u32,
    a1: Allocation,
    size2: u64,
    alignment2: u64,
    a2: Allocation,
)
    requires
        b0.wf(),
        b1.wf(),
        size1 > 0,
        size2 > 0,
        vulkan::is_pow2(alignment1),
        vulkan::is_pow2(alignment2),
        b0.in_range(size1, alignment1),
        b1.in_range(size2, alignment2),
        b0.serves(&b1, size1, alignment1, mem_type, a1),
        b1.serves(&b2, size2, alignment2, mem_type, a2),
    ensures
        range_bytes(a1.offset as int, a1.size as int).disjoint(
            range_bytes(a2.offset as int, a2.size as int),
        ),
{
    law_allocation_takes_free_bytes(b0, b1, size1, alignment1, mem_type, a1);
    law_allocation_takes_free_bytes(b1, b2, size2, alignment2, mem_type, a2);
}

/// Freeing the allocation that was taken last restores the free list region for region.
pub proof fn law_free_undoes_allocation(
    b0: Block,
    b1: Block,
    b2: Block,
    size: u64,
    alignment: u64,
    mem_type: u32,
    a: Allocation,
)
    requires
        b0.wf(),
        b1.wf(),
        b2.wf(),
        size > 0,
        vulkan::is_pow2(alignment),
        b0.in_range(size, alignment),
        b0.serves(&b1, size, alignment, mem_type, a),
        b1.takes_back(&b2, a.offset, a.size),
    ensures
        b2.free_list@ == b0.free_list@,
{
    law_allocation_takes_free_bytes(b0, b1, size, alignment, mem_type, a);
    let pos = choose|pos: int|
        #[trigger] is_position(b1.free_list@, pos, a.offset as int) && b2.free_list@ == merged(
            b1.free_list@,
            pos,
            a.offset as int,
            a.size as int,
        );
    lemma_merged(b1.free_list@, b1.total_size as int, pos, a.offset as int, a.size as int);
    assert(b2.free() =~= b0.free());
    law_free_list_is_canonical(b0.free_list@, b2.free_list@, b0.total_size as int);
}

/// The free bytes of a block determine its free list: regions that touch are always merged.
pub proof fn law_free_list_is_canonical(l1: Seq<FreeRegion>, l2: Seq<FreeRegion>, total: int)
    requires
        regions_wf(l1, total),
        regions_wf(l2, total),
        free_bytes(l1) == free_bytes(l2),
    ensures
        l1 == l2,
    decreases l1.len(),
{
    assert forall|b: int| is_free(l1, b) == is_free(l2, b) by {
        assert(free_bytes(l1).contains(b) == is_free(l1, b));
        assert(free_bytes(l2).contains(b) == is_free(l2, b));
    }
    if l1.len() == 0 {
        if l2.len() > 0 {
            assert(is_free(l2, l2[0].offset as int));
        }
    } else {
        assert(is_free(l1, l1[0].offset as int));
        lemma_first_region(l1, l2, total);
        lemma_first_region(l2, l1, total);
        let t1 = l1.skip(1);
        let t2 = l2.skip(1);
        assert forall|b: int| is_free(t1, b) == is_free(t2, b) by {
            lemma_skip_first(l1, total, b);
            lemma_skip_first(l2, total, b);
        }
        assert(free_bytes(t1) =~= free_bytes(t2));
        law_free_list_is_canonical(t1, t2, total);
        assert(l1 =~= seq![l1[0]] + t1);
        assert(l2 =~= seq![l2[0]] + t2);
    }
}

/// The first region of a list starts no later than that of another with the same bytes,
/// and, where they start together, ends no later.
proof fn lemma_first_region(l1: Seq<FreeRegion>, l2: Seq<FreeRegion>, total: int)
    requires
        regions_wf(l1, total),
        regions_wf(l2, total),
        forall|b: int| is_free(l1, b) == is_free(l2, b),
        l1.len() > 0,
    ensures
        l2.len() > 0,
        l2[0].offset <= l1[0].offset,
        l2[0].offset == l1[0].offset ==> l1[0].end() <= l2[0].end(),
{
    let b = l1[0].offset as int;
    assert(is_free(l1, b));
    let m = choose|m: int| 0 <= m < l2.len() && (#[trigger] l2[m]).offset <= b < l2[m].end();
    if m > 0 {
        assert(l2[0].end() < l2[m].offset);
    }
    if l2[0].offset == l1[0].offset && l1[0].end() > l2[0].end() {
        let e = l2[0].end();
        assert(l1[0].offset <= e < l1[0].end());
        assert(is_free(l1, e));
        let n = choose|n: int| 0 <= n < l2.len() && (#[trigger] l2[n]).offset <= e < l2[n].end();
        if n > 0 {
            assert(l2[0].end() < l2[n].offset);
        }
    }
}

/// The bytes behind the first region.
proof fn lemma_skip_first(list: Seq<FreeRegion>, total: int, b: int)
    requires
        regions_wf(list, total),
        list.len() > 0,
    ensures
        is_free(list.skip(1), b) == (is_free(list, b) && b >= list[0].end()),
        regions_wf(list.skip(1), total),
{
    let t = list.skip(1);
    assert forall|k: int| 0 <= k < t.len() implies #[trigger] t[k] == list[k + 1] by {}
    if is_free(t, b) {
        let k = choose|k: int| 0 <= k < t.len() && (#[trigger] t[k]).offset <= b < t[k].end();
        assert(list[k + 1].offset <= b < list[k + 1].end());
        assert(list[0].end() < list[k + 1].offset);
    }
    if is_free(list, b) && b >= list[0].end() {
        let m = choose|m: int| 0 <= m < list.len() && (#[trigger] list[m]).offset <= b
            < list[m].end();
        assert(t[m - 1] == list[m]);
    }
}

} // verus!
