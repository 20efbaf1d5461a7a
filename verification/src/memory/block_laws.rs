//! What memory is chosen, what a block hands out, and what is given back.

use crate::error::{Error, VkResult};
use crate::memory::allocator;
use crate::memory::allocator::{Allocation, Block, BlockAllocator, MemoryProperties};
use crate::memory::release;
use crate::memory::release::HeldMemory;
use crate::memory::resources;
use crate::memory::resources::{BufferInfo, CreateFailure, ImageInfo, MemoryLocation};
use crate::memory::slab::{DedicatedEntry, Slab, TypePool};
use crate::format::Format;
use crate::vulkan;
use vstd::prelude::*;

verus! {

/// Memory type `i` is allowed and has all of some properties.
pub open spec fn serves(props: MemoryProperties, bits: u32, properties: u32, i: int) -> bool {
    &&& 0 <= i < props.types@.len()
    &&& (bits >> (i as u32)) & 1 == 1
    &&& props.types@[i] & properties == properties
}

proof fn lemma_serves(props: MemoryProperties, bits: u32, properties: u32, i: int)
    requires
        props.wf(),
    ensures
        props.usable(bits, properties, i) <==> serves(props, bits, properties, i),
{
    if 0 <= i < props.types@.len() {
        let k = i as u32;
        assert(k < 32);
        assert(bits & (1u32 << k) != 0 <==> (bits >> k) & 1 == 1) by (bit_vector)
            requires
                k < 32,
        ;
    }
}

proof fn lemma_location_bits()
    ensures
        MemoryLocation::GpuOnly.required() == 1,
        MemoryLocation::GpuOnly.required() | MemoryLocation::GpuOnly.preferred() == 1,
        MemoryLocation::CpuToGpu.required() == 6,
        MemoryLocation::CpuToGpu.required() | MemoryLocation::CpuToGpu.preferred() == 7,
        MemoryLocation::GpuToCpu.required() == 6,
        MemoryLocation::GpuToCpu.required() | MemoryLocation::GpuToCpu.preferred() == 6,
{
    assert(2u32 | 4u32 == 6u32 && 6u32 | 1u32 == 7u32 && 6u32 | 0u32 == 6u32 && 1u32 | 0u32 == 1u32)
        by (bit_vector);
}

/// Memory for the device is the first type that is device-local.
pub proof fn law_device_memory_is_device_local(
    props: MemoryProperties,
    bits: u32,
    r: Result<u32, Error>,
    k: int,
)
    requires
        props.wf(),
        allocator::memory_type_choice(props, bits, MemoryLocation::GpuOnly, r),
    ensures
        r matches Ok(i) ==> serves(props, bits, 1, i as int),
        r matches Ok(i) ==> (serves(props, bits, 1, k) ==> i <= k),
        r matches Err(e) ==> e is NoSuitableMemoryType && !serves(props, bits, 1, k),
{
    lemma_location_bits();
    lemma_serves(props, bits, 1, k);
    if r is Ok {
        lemma_serves(props, bits, 1, r->Ok_0 as int);
    }
}

/// Memory that is read back is the first type that the host can see and that needs no flushing.
pub proof fn law_read_back_memory_is_host_visible(
    props: MemoryProperties,
    bits: u32,
    r: Result<u32, Error>,
    k: int,
)
    requires
        props.wf(),
        allocator::memory_type_choice(props, bits, MemoryLocation::GpuToCpu, r),
    ensures
        r matches Ok(i) ==> serves(props, bits, 6, i as int),
        r matches Ok(i) ==> (serves(props, bits, 6, k) ==> i <= k),
        r matches Err(e) ==> e is NoSuitableMemoryType && !serves(props, bits, 6, k),
{
    lemma_location_bits();
    lemma_serves(props, bits, 6, k);
    if r is Ok {
        lemma_serves(props, bits, 6, r->Ok_0 as int);
    }
}

/// Memory that the host writes for the device is visible to the host and needs no flushing. A type
/// that is device-local as well is preferred; of equally good ones the first is taken.
pub proof fn law_upload_memory_is_preferably_device_local(
    props: MemoryProperties,
    bits: u32,
    r: Result<u32, Error>,
    k: int,
)
    requires
        props.wf(),
        allocator::memory_type_choice(props, bits, MemoryLocation::CpuToGpu, r),
    ensures
        r matches Ok(i) ==> serves(props, bits, 6, i as int),
        r matches Ok(i) ==> (serves(props, bits, 7, k) ==> i <= k && serves(
            props,
            bits,
            7,
            i as int,
        )),
        r matches Ok(i) ==> (serves(props, bits, 6, k) && !serves(props, bits, 7, i as int) ==> i
            <= k),
        r matches Err(e) ==> e is NoSuitableMemoryType && !serves(props, bits, 6, k),
{
    lemma_location_bits();
    lemma_serves(props, bits, 6, k);
    lemma_serves(props, bits, 7, k);
    if r is Ok {
        let i = r->Ok_0 as int;
        lemma_serves(props, bits, 6, i);
        lemma_serves(props, bits, 7, i);
        if 0 <= i < props.types@.len() {
            let t = props.types@[i];
            assert(t & 7 == 7 ==> t & 6 == 6) by (bit_vector);
        }
    }
}

/// What a block hands out is its own memory, of the type that was asked for and of the size that
/// was asked for. On the host it is found at its offset from where the block is mapped, and nowhere
/// if the block is not mapped.
pub proof fn law_block_hands_out_its_memory(
    b0: Block,
    b1: Block,
    size: u64,
    alignment: u64,
    mem_type: u32,
    a: Allocation,
)
    requires
        b0.wf(),
        size > 0,
        vulkan::is_pow2(alignment),
        b0.in_range(size, alignment),
        b0.serves(&b1, size, alignment, mem_type, a),
    ensures
        a.memory == b0.memory,
        a.size == size,
        a.memory_type_index == mem_type,
        a.mapped_ptr is None <==> b0.mapped_base is None,
        b0.mapped_base matches Some(base) ==> a.mapped_ptr == Some((base + a.offset) as u64) && base
            + a.offset + a.size <= u64::MAX,
        b1.memory == b0.memory,
        b1.total_size == b0.total_size,
        b1.mapped_base == b0.mapped_base,
{
    allocator::law_allocation_takes_free_bytes(b0, b1, size, alignment, mem_type, a);
}

/// The search starts where the last one ended and goes round once: every region that it passes is
/// too small. Within the region the first aligned byte is taken.
pub proof fn law_search_goes_round_once(
    b0: Block,
    b1: Block,
    size: u64,
    alignment: u64,
    mem_type: u32,
    a: Allocation,
    k: int,
    at: int,
) -> (i: int)
    requires
        b0.wf(),
        size > 0,
        vulkan::is_pow2(alignment),
        b0.in_range(size, alignment),
        b0.serves(&b1, size, alignment, mem_type, a),
    ensures
        0 <= i < b0.free_list@.len(),
        b0.free_list@[i].offset <= a.offset < b0.free_list@[i].offset + alignment,
        a.offset as int % (alignment as int) == 0,
        a.offset + size <= b0.free_list@[i].offset + b0.free_list@[i].size,
        ({
            let n = b0.free_list@.len() as int;
            let start = if b0.next_fit < n {
                b0.next_fit as int
            } else {
                n - 1
            };
            let passed = start <= k < i || i < start <= k || k < i < start;
            0 <= k < n && passed && b0.free_list@[k].offset <= at && at % (alignment as int) == 0
                ==> b0.free_list@[k].offset + b0.free_list@[k].size < at + size
        }),
{
    let i = choose|i: int|
        #[trigger] b0.chooses(size, alignment, i) && a == b0.placed(i, size, alignment, mem_type)
            && b0.takes(&b1, i, a);
    let al = alignment as int;
    vulkan::lemma_pow2_is_positive(alignment);
    assert(b0.free_list@[i].in_range(size, alignment));
    lemma_round_up(b0.free_list@[i].offset as int, al);
    allocator::law_allocation_takes_free_bytes(b0, b1, size, alignment, mem_type, a);
    let n = b0.free_list@.len() as int;
    let start = b0.search_start();
    let passed = start <= k < i || i < start <= k || k < i < start;
    if 0 <= k < n && passed && b0.free_list@[k].offset <= at && at % al == 0 {
        let r = b0.free_list@[k];
        assert(!r.fits(size, alignment));
        lemma_least_multiple(r.offset as int, at, al);
    }
    i
}

proof fn lemma_round_up(v: int, a: int)
    requires
        a > 0,
    ensures
        vulkan::round_up(v, a) % a == 0,
        v <= vulkan::round_up(v, a) < v + a,
{
    let x = v + a - 1;
    vstd::arithmetic::div_mod::lemma_fundamental_div_mod(x, a);
    vstd::arithmetic::div_mod::lemma_mod_bound(x, a);
    vstd::arithmetic::div_mod::lemma_mod_multiples_basic(x / a, a);
    vstd::arithmetic::mul::lemma_mul_is_commutative(a, x / a);
}

/// No multiple lies between a number and the number rounded up.
proof fn lemma_least_multiple(v: int, at: int, a: int)
    requires
        a > 0,
        v <= at,
        at % a == 0,
    ensures
        vulkan::round_up(v, a) <= at,
{
    lemma_round_up(v, a);
    let up = vulkan::round_up(v, a);
    if up > at {
        vstd::arithmetic::div_mod::lemma_fundamental_div_mod(up, a);
        vstd::arithmetic::div_mod::lemma_fundamental_div_mod(at, a);
        let (p, q) = (up / a, at / a);
        assert(a * p - a * q == a * (p - q)) by (nonlinear_arith);
        assert(p > q) by (nonlinear_arith)
            requires
                a > 0,
                a * p > a * q,
        ;
        assert(a * (p - q) >= a) by (nonlinear_arith)
            requires
                a > 0,
                p - q >= 1,
        ;
    }
}

/// Where something is left of the region behind what was taken, the next search starts there.
pub proof fn law_next_search_starts_behind(b0: Block, b1: Block, i: int, a: Allocation)
    requires
        b0.wf(),
        0 <= i < b0.free_list@.len(),
        b0.takes(&b1, i, a),
        b0.free_list@[i].offset <= a.offset,
        a.offset + a.size < b0.free_list@[i].offset + b0.free_list@[i].size,
    ensures
        b1.next_fit < b1.free_list@.len(),
        b1.free_list@[b1.next_fit as int].offset == a.offset + a.size,
        b1.free_list@[b1.next_fit as int].offset + b1.free_list@[b1.next_fit as int].size
            == b0.free_list@[i].offset + b0.free_list@[i].size,
{
    let r = b0.free_list@[i];
    assert(r.end() <= b0.total_size);
}

/// Giving bytes back adds these bytes and no others, and leaves the search where it was.
pub proof fn law_given_back_bytes_are_free(b0: Block, b1: Block, offset: u64, size: u64, b: int)
    requires
        b0.wf(),
        size > 0,
        offset + size <= b0.total_size,
        b0.free().disjoint(allocator::range_bytes(offset as int, size as int)),
        b0.takes_back(&b1, offset, size),
    ensures
        b1.free().contains(b) <==> b0.free().contains(b) || offset <= b < offset + size,
        b1.next_fit == b0.next_fit,
        b1.memory == b0.memory,
        b1.total_size == b0.total_size,
        b1.mapped_base == b0.mapped_base,
{
    let pos = choose|pos: int|
        #[trigger] allocator::is_position(b0.free_list@, pos, offset as int) && b1.free_list@
            == allocator::merged(b0.free_list@, pos, offset as int, size as int);
    allocator::lemma_merged(
        b0.free_list@,
        b0.total_size as int,
        pos,
        offset as int,
        size as int,
    );
}

/// A byte is free if a region of the list holds it.
pub proof fn law_free_bytes_lie_in_regions(b: Block, at: int)
    ensures
        b.free().contains(at) <==> exists|i: int|
            0 <= i < b.free_list@.len() && (#[trigger] b.free_list@[i]).offset <= at
                < b.free_list@[i].offset + b.free_list@[i].size,
{
    if exists|i: int|
        0 <= i < b.free_list@.len() && (#[trigger] b.free_list@[i]).offset <= at
            < b.free_list@[i].offset + b.free_list@[i].size {
        let i = choose|i: int|
            0 <= i < b.free_list@.len() && (#[trigger] b.free_list@[i]).offset <= at
                < b.free_list@[i].offset + b.free_list@[i].size;
        assert(b.free_list@[i].offset <= at < b.free_list@[i].end());
    }
}

/// A request is served by the first block that has room, out of its memory. All other blocks stay
/// as they are.
pub proof fn law_first_block_with_room_serves(
    x: BlockAllocator,
    y: BlockAllocator,
    size: u64,
    alignment: u64,
    a: Allocation,
) -> (b: int)
    requires
        x.serves(&y, size, alignment, a),
    ensures
        ({
            let m = a.memory_type_index as int;
            &&& 0 <= b < x.pools@[m]@.len()
            &&& a.memory == x.pools@[m]@[b].memory
            &&& a.size == size
            &&& y.pools@.len() == x.pools@.len()
            &&& y.pools@[m]@.len() == x.pools@[m]@.len()
            &&& forall|k: int| 0 <= k < x.pools@.len() && k != m ==> y.pools@[k] == x.pools@[k]
            &&& forall|k: int|
                0 <= k < x.pools@[m]@.len() && k != b ==> y.pools@[m]@[k] == x.pools@[m]@[k]
            &&& forall|k: int, i: int|
                #![trigger x.pools@[m]@[k].free_list@[i]]
                0 <= k < b && 0 <= i < x.pools@[m]@[k].free_list@.len() ==> vulkan::round_up(
                    x.pools@[m]@[k].free_list@[i].offset as int,
                    alignment as int,
                ) + size > x.pools@[m]@[k].free_list@[i].offset
                    + x.pools@[m]@[k].free_list@[i].size
        }),
{
    let m = a.memory_type_index as int;
    let b = choose|b: int|
        {
            &&& #[trigger] allocator::first_server(x.pools@[m]@, size, alignment, b)
            &&& allocator::only_block_changes(x.pools@, y.pools@, m, b)
            &&& x.pools@[m]@[b].serves(
                &y.pools@[m]@[b],
                size,
                alignment,
                a.memory_type_index,
                a,
            )
        };
    assert forall|k: int, i: int|
        #![trigger x.pools@[m]@[k].free_list@[i]]
        0 <= k < b && 0 <= i < x.pools@[m]@[k].free_list@.len() implies vulkan::round_up(
        x.pools@[m]@[k].free_list@[i].offset as int,
        alignment as int,
    ) + size > x.pools@[m]@[k].free_list@[i].offset + x.pools@[m]@[k].free_list@[i].size by {
        let block = x.pools@[m]@[k];
        assert(!block.can_serve(size, alignment));
        assert(!block.free_list@[i].fits(size, alignment));
    }
    b
}

/// No alignment is an alignment of one byte.
pub proof fn law_no_alignment_is_one_byte(alignment: u64)
    ensures
        allocator::effective_alignment(0) == 1,
        alignment != 0 ==> allocator::effective_alignment(alignment) == alignment,
{
}

/// A memory type is mapped if the host can see it.
pub proof fn law_host_visible_types_are_mapped(x: BlockAllocator, m: int)
    ensures
        x.host_visible(m) <==> x.properties.types@[m] & 2 == 2,
{
}

/// Rounding up gives the least multiple that is not below.
pub proof fn law_round_up_is_the_least_multiple(v: int, a: int, other: int)
    requires
        a > 0,
    ensures
        vulkan::round_up(v, a) % a == 0,
        v <= vulkan::round_up(v, a) < v + a,
        v <= other && other % a == 0 ==> vulkan::round_up(v, a) <= other,
{
    lemma_round_up(v, a);
    if v <= other && other % a == 0 {
        lemma_least_multiple(v, other, a);
    }
}

/// The blocks of one more type are given back behind those of the types before it, each by its
/// handle, and unmapped if it was mapped.
pub proof fn law_blocks_are_given_back_in_order(pools: Seq<Vec<Block>>, v: Vec<Block>)
    ensures
        release::of_blocks(Seq::empty()).len() == 0,
        release::of_blocks(pools.push(v)) == release::of_blocks(pools) + Seq::new(
            v@.len(),
            |k: int| HeldMemory { memory: v@[k].memory, mapped: v@[k].mapped_base is Some },
        ),
{
    assert(pools.push(v).drop_last() =~= pools);
    assert(release::of_blocks(pools.push(v)) =~= release::of_blocks(pools) + Seq::new(
        v@.len(),
        |k: int| HeldMemory { memory: v@[k].memory, mapped: v@[k].mapped_base is Some },
    ));
}

/// The slabs of one more class are given back behind those of the classes before it.
pub proof fn law_slabs_are_given_back_in_order(classes: Seq<Vec<Slab>>, v: Vec<Slab>)
    ensures
        release::of_classes(Seq::empty()).len() == 0,
        release::of_classes(classes.push(v)) == release::of_classes(classes) + Seq::new(
            v@.len(),
            |k: int| HeldMemory { memory: v@[k].memory, mapped: v@[k].mapped_base is Some },
        ),
{
    assert(classes.push(v).drop_last() =~= classes);
    assert(release::of_classes(classes.push(v)) =~= release::of_classes(classes) + Seq::new(
        v@.len(),
        |k: int| HeldMemory { memory: v@[k].memory, mapped: v@[k].mapped_base is Some },
    ));
}

/// The slabs of one more type are given back behind those of the types before it.
pub proof fn law_types_are_given_back_in_order(pools: Seq<TypePool>, p: TypePool)
    ensures
        release::of_types(Seq::empty()).len() == 0,
        release::of_types(pools.push(p)) == release::of_types(pools) + release::of_classes(
            p.size_pools@,
        ),
{
    assert(pools.push(p).drop_last() =~= pools);
}

/// A memory object of its own is given back by its handle, and unmapped if it was mapped.
pub proof fn law_dedicated_memory_is_given_back(e: DedicatedEntry)
    ensures
        release::of_entry(e).memory == e.memory,
        release::of_entry(e).mapped <==> e.mapped_base is Some,
{
}

/// A resource is ready exactly if its memory was allocated and bound. Otherwise the first error is
/// reported.
pub proof fn law_resource_is_ready_if_bound(
    handle: u64,
    allocated: Result<Allocation, Error>,
    bound: Result<(), VkResult>,
    r: Result<Allocation, CreateFailure>,
)
    requires
        resources::is_created(handle, allocated, bound, r),
    ensures
        r is Ok <==> allocated is Ok && bound is Ok,
        r matches Ok(a) ==> allocated == Ok::<Allocation, Error>(a),
        r matches Err(f) ==> f.destroy == handle,
        r matches Err(f) ==> (allocated matches Err(e) ==> f.error == e && f.free is None),
        r matches Err(f) ==> (allocated matches Ok(a) ==> bound matches Err(code) && f.error
            == Error::Vulkan(code) && f.free == Some(a)),
{
}

/// A buffer that one queue family uses at a time.
pub proof fn law_plain_buffer_is_exclusive(size: u64, usage: u32, location: MemoryLocation)
    ensures
        BufferInfo::exclusive(size, usage, location).size == size,
        BufferInfo::exclusive(size, usage, location).usage == usage,
        BufferInfo::exclusive(size, usage, location).location == location,
        BufferInfo::exclusive(size, usage, location).sharing_mode == 0,
{
}

/// A plain image is flat and lies on the device. It has one level, one layer and one sample, is
/// tiled as the device likes best, and starts undefined.
pub proof fn law_plain_image_is_flat(width: u32, height: u32, f: Format, usage: u32)
    ensures
        ({
            let i = ImageInfo::plain(width, height, f, usage);
            &&& i.extent.width == width && i.extent.height == height && i.extent.depth == 1
            &&& i.format == f
            &&& i.usage == usage
            &&& i.location == MemoryLocation::GpuOnly
            &&& i.image_type == 1
            &&& i.mip_levels == 1 && i.array_layers == 1 && i.samples == 1
            &&& i.tiling == 0
            &&& i.initial_layout == 0
        }),
{
}

/// A new block is asked for only where no region of any block has room.
pub proof fn law_no_block_has_room(
    blocks: Seq<Block>,
    size: u64,
    alignment: u64,
    k: int,
    i: int,
)
    requires
        allocator::no_server(blocks, size, alignment),
        0 <= k < blocks.len(),
        0 <= i < blocks[k].free_list@.len(),
    ensures
        vulkan::round_up(blocks[k].free_list@[i].offset as int, alignment as int) + size
            > blocks[k].free_list@[i].offset + blocks[k].free_list@[i].size,
{
    assert(!blocks[k].can_serve(size, alignment));
    assert(!blocks[k].free_list@[i].fits(size, alignment));
}

/// Bytes go back to the first block with their memory. All other blocks stay as they are.
pub proof fn law_bytes_go_back_to_their_memory(
    old_pools: Seq<Vec<Block>>,
    new_pools: Seq<Vec<Block>>,
    m: int,
    b: int,
    memory: u64,
    k: int,
    j: int,
)
    requires
        0 <= m < old_pools.len(),
        allocator::first_owner(old_pools[m]@, memory, b),
        allocator::only_block_changes(old_pools, new_pools, m, b),
    ensures
        0 <= b < old_pools[m]@.len(),
        old_pools[m]@[b].memory == memory,
        0 <= k < b ==> old_pools[m]@[k].memory != memory,
        new_pools.len() == old_pools.len(),
        0 <= j < old_pools.len() && j != m ==> new_pools[j] == old_pools[j],
        new_pools[m]@.len() == old_pools[m]@.len(),
        0 <= k < old_pools[m]@.len() && k != b ==> new_pools[m]@[k] == old_pools[m]@[k],
{
}

} // verus!
