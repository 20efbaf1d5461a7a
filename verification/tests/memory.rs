//! Block, slab and dedicated allocators.

use ignis::error::{Error, VkResult};
use ignis::memory::allocator::{
    find_memory_type_index, Allocation, AllocationStep, Block, BlockAllocator, BlockRequest,
    DedicatedAllocator, FreeRegion, MemoryProperties, MemoryRequirements, DEFAULT_BLOCK_SIZE,
};
use ignis::memory::bitmap::Bitmap;
use ignis::memory::release::{mapped, obtained, HeldMemory, ObtainStep};
use ignis::memory::resources::MemoryLocation;
use ignis::memory::slab::{
    caller_location_hash, find_size_class, size_classes, slab_seed, CallSite, FreeOutcome, Rng,
    Slab, SlabAllocator, SlabConfig, SlabErrorAction, SlabStep, SlotEvent, SlotEventKind,
    SlotHistory,
};

fn properties() -> MemoryProperties {
    // Device-local, then host-visible and coherent, then both.
    MemoryProperties { types: vec![1, 6, 7] }
}

fn needs(size: u64, alignment: u64) -> MemoryRequirements {
    MemoryRequirements { size, alignment, memory_type_bits: 0b111 }
}

fn site(now_us: u64) -> CallSite {
    CallSite { now_us, caller_hash: 5 }
}

#[test]
fn preferred_memory_type_comes_first() {
    let props = properties();
    assert!(matches!(
        find_memory_type_index(&props, &needs(1, 1), MemoryLocation::GpuOnly),
        Ok(0)
    ));
    assert!(matches!(
        find_memory_type_index(&props, &needs(1, 1), MemoryLocation::CpuToGpu),
        Ok(2)
    ));
    let only_second = MemoryRequirements { size: 1, alignment: 1, memory_type_bits: 0b010 };
    assert!(matches!(
        find_memory_type_index(&props, &only_second, MemoryLocation::CpuToGpu),
        Ok(1)
    ));
    assert!(matches!(
        find_memory_type_index(&props, &only_second, MemoryLocation::GpuOnly),
        Err(Error::NoSuitableMemoryType)
    ));
}

#[test]
fn block_serves_and_takes_back() {
    let mut block = Block::new(7, 1024, Some(0x1000));
    let a = block.try_allocate(100, 64, 0);
    let b = block.try_allocate(100, 64, 0);
    match (a, b) {
        (Some(a), Some(b)) => {
            assert_eq!(a.offset, 0);
            assert_eq!(b.offset, 128);
            assert_eq!(b.mapped_ptr, Some(0x1000 + 128));
            block.release(a.offset, a.size);
            block.release(b.offset, b.size);
            assert_eq!(block.free_list, vec![FreeRegion { offset: 0, size: 1024 }]);
        }
        _ => unreachable!(),
    }
    assert!(block.try_allocate(2000, 1, 0).is_none());
}

#[test]
fn freed_regions_merge_wherever_they_lie() {
    let mut block = Block::new(7, 1024, None);
    block.release(2048, 512);
    block.release(4096, 1);
    block.release(1024, 1024);
    assert_eq!(
        block.free_list,
        vec![FreeRegion { offset: 0, size: 2560 }, FreeRegion { offset: 4096, size: 1 }]
    );
    assert_eq!((block.memory, block.total_size, block.mapped_base), (7, 1024, None));
}

#[test]
fn block_allocator_asks_for_blocks_and_shares_them() {
    let mut alloc = BlockAllocator::with_block_size(properties(), 1024);
    assert_eq!(alloc.name(), "BlockAllocator");
    let first = match alloc.allocate(&needs(256, 16), MemoryLocation::GpuOnly) {
        Ok(AllocationStep::NeedBlock(request)) => {
            assert_eq!(
                request,
                BlockRequest {
                    memory_type_index: 0,
                    size: 1024,
                    host_visible: false,
                    dedicated: false,
                }
            );
            alloc.add_block(&needs(256, 16), request, 50, None)
        }
        _ => unreachable!(),
    };
    assert_eq!(first.offset, 0);
    assert_eq!(first.memory, 50);
    let second = match alloc.allocate(&needs(256, 16), MemoryLocation::GpuOnly) {
        Ok(AllocationStep::Done(a)) => a,
        _ => unreachable!(),
    };
    assert_eq!(second.memory, 50);
    assert_eq!(second.offset, 256);
    alloc.free(&first);
    alloc.free(&second);
    match alloc.allocate(&needs(1024, 16), MemoryLocation::GpuOnly) {
        Ok(AllocationStep::Done(a)) => assert_eq!(a.offset, 0),
        _ => unreachable!(),
    }
    assert_eq!(alloc.held_memory(), vec![HeldMemory { memory: 50, mapped: false }]);
}

#[test]
fn oversized_request_gets_a_block_of_its_own() {
    let mut alloc = BlockAllocator::with_block_size(properties(), 1024);
    match alloc.allocate(&needs(5000, 1), MemoryLocation::CpuToGpu) {
        Ok(AllocationStep::NeedBlock(request)) => {
            assert!(request.dedicated);
            assert!(request.host_visible);
            assert_eq!(request.size, 5000);
            let a = alloc.add_block(&needs(5000, 1), request, 60, Some(0x2000));
            assert_eq!(a.mapped_ptr, Some(0x2000));
            assert_eq!(alloc.held_memory(), vec![HeldMemory { memory: 60, mapped: true }]);
        }
        _ => unreachable!(),
    }
    assert_eq!(BlockAllocator::new(properties()).block_size, DEFAULT_BLOCK_SIZE);
}

#[test]
fn freeing_unknown_memory_does_nothing() {
    let mut alloc = BlockAllocator::with_block_size(properties(), 1024);
    alloc.free(&Allocation {
        memory: 1,
        offset: 0,
        size: 8,
        mapped_ptr: None,
        memory_type_index: 0,
    });
    assert!(alloc.held_memory().is_empty());
}

#[test]
fn dedicated_allocator_fills_its_memory() {
    let alloc = DedicatedAllocator::new(properties());
    assert_eq!(alloc.name(), "DedicatedAllocator");
    match alloc.allocate(&needs(77, 4), MemoryLocation::CpuToGpu) {
        Ok(request) => {
            assert_eq!(request.size, 77);
            assert!(request.host_visible);
            let a = DedicatedAllocator::placed(request, 9, Some(1));
            assert_eq!(a.offset, 0);
            assert!(DedicatedAllocator::unmaps_on_free(&a));
        }
        Err(_) => unreachable!(),
    }
}

#[test]
fn memory_that_cannot_be_mapped_is_given_back() {
    let lost = VkResult { raw: -4 };
    assert!(matches!(obtained(true, Ok(5)), ObtainStep::MapMemory(5)));
    assert!(matches!(
        obtained(false, Ok(5)),
        ObtainStep::Ready { memory: 5, mapped_base: None }
    ));
    assert!(matches!(obtained(true, Err(lost)), ObtainStep::Fail { freed: None, .. }));
    assert!(matches!(
        mapped(5, Ok(8)),
        ObtainStep::Ready { memory: 5, mapped_base: Some(8) }
    ));
    assert!(matches!(mapped(5, Err(lost)), ObtainStep::Fail { freed: Some(5), .. }));
}

#[test]
fn bitmap_keeps_its_bits_apart() {
    let mut map = Bitmap::new(130);
    map.set(0);
    map.set(64);
    map.set(129);
    map.clear(64);
    assert!(map.get(0));
    assert!(!map.get(1));
    assert!(!map.get(64));
    assert!(map.get(129));
}

#[test]
fn size_classes_hold_what_they_are_for() {
    let classes = size_classes();
    for size in [1u64, 100, 256, 257, 4096, 5000] {
        match find_size_class(size, 1) {
            Some(c) => {
                assert!(classes[c] >= size);
                assert!(c == 0 || classes[c - 1] < size);
            }
            None => unreachable!(),
        }
    }
    assert_eq!(find_size_class(classes[12] + 1, 1), None);
}

#[test]
fn slab_configurations_differ() {
    let production = SlabConfig::production();
    let debug = SlabConfig::debug();
    assert!(!production.slot_history);
    assert!(debug.slot_history);
    let c = SlabConfig::default()
        .slab_size(4096)
        .quarantine_slots(3)
        .zero_on_free(false)
        .right_align(true)
        .detect_overflow(true)
        .slot_history(true)
        .on_double_free(SlabErrorAction::Panic)
        .on_overflow(SlabErrorAction::Ignore);
    assert_eq!(c.slab_size, 4096);
    assert_eq!(c.quarantine_slots, 3);
    assert!(!c.zero_on_free);
    assert!(c.right_align && c.detect_overflow && c.slot_history);
    assert!(matches!(c.on_double_free, SlabErrorAction::Panic));
    assert!(matches!(c.on_overflow, SlabErrorAction::Ignore));
}

#[test]
fn random_numbers_stay_below_their_bound() {
    let mut rng = Rng::new(1);
    for _ in 0..100 {
        assert!(rng.next_bounded(7) < 7);
    }
    assert_ne!(rng.next(), rng.next());
}

#[test]
fn slot_history_keeps_the_latest_events() {
    let mut history = SlotHistory::new(2, 2);
    for t in 0..3 {
        history.push(
            1,
            SlotEvent { kind: SlotEventKind::Allocated, timestamp_us: t, caller_hash: 0 },
        );
    }
    let times: Vec<u64> = history.get(1).iter().map(|e| e.timestamp_us).collect();
    assert_eq!(times, vec![1, 2]);
    assert!(history.get(0).is_empty());
}

#[test]
fn double_free_is_found_out() {
    let config = SlabConfig::default().slab_size(4096).quarantine_slots(0).right_align(false);
    let mut slabs = SlabAllocator::with_config(properties(), config);
    assert_eq!(slabs.name(), "SlabAllocator");
    let a = match slabs.allocate(&needs(64, 16), MemoryLocation::CpuToGpu, site(1)) {
        Ok(SlabStep::NeedSlab(request)) => {
            assert!(request.host_visible);
            slabs.add_slab(&needs(64, 16), request, 70, Some(0x8000), 3, site(1))
        }
        _ => unreachable!(),
    };
    assert_eq!(a.memory, 70);
    assert_eq!(a.mapped_ptr, Some(0x8000 + a.offset));
    assert!(matches!(slabs.free(&a, site(2)), FreeOutcome::Freed { .. }));
    assert!(matches!(slabs.free(&a, site(3)), FreeOutcome::DoubleFree { .. }));
    assert_eq!(slabs.double_free_count, 1);
    assert_eq!(slabs.held_memory(), vec![HeldMemory { memory: 70, mapped: true }]);
}

#[test]
fn slots_of_live_allocations_do_not_overlap() {
    let config = SlabConfig::default().slab_size(8192).quarantine_slots(0);
    let mut slabs = SlabAllocator::with_config(properties(), config);
    let mut live: Vec<Allocation> = vec![];
    for k in 0..6 {
        let a = match slabs.allocate(&needs(200, 1), MemoryLocation::GpuOnly, site(k)) {
            Ok(SlabStep::Done(grant)) => grant.allocation,
            Ok(SlabStep::NeedSlab(request)) => {
                slabs.add_slab(&needs(200, 1), request, 80 + k, None, k, site(k))
            }
            _ => unreachable!(),
        };
        for b in &live {
            assert!(
                a.memory != b.memory
                    || a.offset + a.size <= b.offset
                    || b.offset + b.size <= a.offset
            );
        }
        live.push(a);
    }
    let stats = slabs.stats();
    assert_eq!(stats.total_driver_bytes % 8192, 0);
    let in_use: u32 = stats.size_classes.iter().map(|c| c.allocated_slots).sum();
    assert_eq!(in_use, 6);
}

#[test]
fn large_request_is_served_alone() {
    let mut slabs = SlabAllocator::new(properties());
    let big = size_classes()[12] + 1;
    match slabs.allocate(&needs(big, 1), MemoryLocation::GpuOnly, site(0)) {
        Ok(SlabStep::NeedDedicated(request)) => {
            let a = slabs.add_dedicated(request, 90, None);
            assert_eq!(a.size, big);
            assert_eq!(slabs.stats().dedicated_count, 1);
            assert!(matches!(slabs.free(&a, site(1)), FreeOutcome::Dedicated(e) if e.memory == 90));
            assert_eq!(slabs.stats().dedicated_count, 0);
            assert!(matches!(slabs.free(&a, site(2)), FreeOutcome::Unknown));
        }
        _ => unreachable!(),
    }
}

#[test]
fn history_counts_from_the_creation_of_the_slab() {
    let config = SlabConfig::debug().slab_size(256).quarantine_slots(0);
    let mut slab = Slab::new(1, 256, 256, None, 0, 40, &config);
    assert_eq!(slab.allocate_slot(256, 1, true, site(47)), Some((0, 0)));
    slab.free_slot(0, site(30));
    match &slab.history {
        Some(history) => {
            let times: Vec<u64> = history.get(0).iter().map(|e| e.timestamp_us).collect();
            assert_eq!(times, vec![7, 0]);
        }
        None => unreachable!(),
    }
}

#[test]
fn overflow_of_the_slot_before_is_found_out() {
    let config = SlabConfig::default().slab_size(512);
    let mut slab = Slab::new(1, 512, 256, Some(0x1000), 0, 0, &config);
    let first = slab.allocate_slot(200, 8, true, site(0));
    let second = slab.allocate_slot(200, 8, true, site(0));
    let mut offsets: Vec<u64> = vec![first, second].into_iter().flatten().map(|g| g.1).collect();
    offsets.sort();
    assert_eq!(offsets, vec![56, 312]);
    let mut memory = vec![0u8; 512];
    memory[256] = 9;
    assert_eq!(slab.check_prefix(&memory[256..512], 56), 1);
    assert_eq!(slab.check_prefix(&memory[0..256], 56), 0);
}

#[test]
fn seed_is_made_of_handle_and_time() {
    assert_eq!(slab_seed(0xF0, Some(0xFF)), 0x0F);
    assert_eq!(slab_seed(0, None), 0xDEAD);
    let mut rng = Rng::new(0);
    assert_eq!(rng.next(), 0x6e789e6aa1b965f4);
}

#[test]
fn location_hash_tells_lines_apart() {
    assert_eq!(caller_location_hash("a.rs", 1), 0xede182d4);
    assert_eq!(caller_location_hash("a.rs", 1), caller_location_hash("a.rs", 1));
    assert_ne!(caller_location_hash("a.rs", 1), caller_location_hash("a.rs", 2));
    assert_ne!(caller_location_hash("a.rs", 1), caller_location_hash("b.rs", 1));
}

fn granted(slabs: &mut SlabAllocator, wanted: MemoryRequirements, memory: u64) -> Allocation {
    match slabs.allocate(&wanted, MemoryLocation::GpuOnly, site(0)) {
        Ok(SlabStep::Done(grant)) => grant.allocation,
        Ok(SlabStep::NeedSlab(request)) => {
            slabs.add_slab(&wanted, request, memory, None, memory, site(0))
        }
        _ => unreachable!(),
    }
}

#[test]
fn right_aligned_data_keeps_its_alignment() {
    let config = SlabConfig::default().slab_size(8192);
    assert!(config.right_align);
    let mut slabs = SlabAllocator::with_config(properties(), config);
    for (memory, alignment) in [(1u64, 256u64), (2, 64), (3, 16), (4, 8), (5, 1), (6, 0), (7, 1024)] {
        for size in [1, 100, 200, 255, 256, 1000] {
            let a = granted(&mut slabs, needs(size, alignment), 100 * memory + size);
            assert_eq!(a.size, size);
            assert_eq!(a.offset % alignment.max(1), 0);
            let class = size_classes()[find_size_class(size, alignment.max(1)).unwrap_or(0)];
            assert!(a.offset % class + size <= class);
            assert!(class - (a.offset % class + size) < alignment.max(1));
        }
    }
}

#[test]
fn aligned_data_starts_the_slot_where_nothing_else_fits() {
    let config = SlabConfig::default().slab_size(256);
    let mut slabs = SlabAllocator::with_config(properties(), config);
    let wanted = needs(200, 256);
    let first = granted(&mut slabs, wanted, 9);
    assert_eq!(first.offset % 256, 0);
    assert!(matches!(slabs.free(&first, site(1)), FreeOutcome::Freed { .. }));
    let mut slab = Slab::new(1, 256, 256, None, 0, 0, &config);
    assert_eq!(slab.allocate_slot(200, 32, true, site(0)), Some((0, 32)));
}

#[test]
fn grant_tells_the_bytes_in_front_of_the_data() {
    let config = SlabConfig::default().slab_size(8192).quarantine_slots(0);
    let mut slabs = SlabAllocator::with_config(properties(), config);
    granted(&mut slabs, needs(200, 16), 9);
    match slabs.allocate(&needs(200, 16), MemoryLocation::GpuOnly, site(0)) {
        Ok(SlabStep::Done(grant)) => {
            assert_eq!(grant.prefix, 48);
            assert_eq!(grant.allocation.offset, u64::from(grant.slot) * 256 + 48);
        }
        _ => unreachable!(),
    }
}

#[test]
fn corrupted_prefix_is_counted_up_to_the_data() {
    let config = SlabConfig::default().slab_size(8192);
    let mut slabs = SlabAllocator::with_config(properties(), config);
    let wanted = needs(200, 16);
    match slabs.allocate(&wanted, MemoryLocation::GpuOnly, site(0)) {
        Ok(SlabStep::NeedSlab(request)) => {
            slabs.add_slab(&wanted, request, 9, Some(0x10000), 1, site(0));
        }
        _ => unreachable!(),
    }
    match slabs.allocate(&wanted, MemoryLocation::GpuOnly, site(0)) {
        Ok(SlabStep::Done(grant)) => {
            assert!(grant.check_prefix);
            let mut bytes = vec![0u8; 256];
            bytes[48] = 1;
            assert_eq!(slabs.inspect_prefix(&grant, &bytes), 0);
            bytes[47] = 1;
            bytes[3] = 1;
            assert_eq!(slabs.inspect_prefix(&grant, &bytes), 2);
            assert_eq!(slabs.stats().overflows_detected, 1);
        }
        _ => unreachable!(),
    }
}

#[test]
fn bytes_lost_to_rounding_up_are_counted() {
    let config = SlabConfig::default().slab_size(8192).quarantine_slots(0);
    let mut slabs = SlabAllocator::with_config(properties(), config);
    let a = granted(&mut slabs, needs(200, 1), 1);
    granted(&mut slabs, needs(256, 1), 1);
    granted(&mut slabs, needs(10, 1), 1);
    granted(&mut slabs, needs(300, 1), 2);
    let stats = slabs.stats();
    assert_eq!(stats.size_classes[0].internal_fragmentation_bytes, 56 + 246);
    assert_eq!(stats.size_classes[1].internal_fragmentation_bytes, 212);
    assert_eq!(stats.size_classes[2].internal_fragmentation_bytes, 0);
    assert!(matches!(slabs.free(&a, site(1)), FreeOutcome::Freed { .. }));
    assert_eq!(slabs.stats().size_classes[0].internal_fragmentation_bytes, 246);
}

#[test]
fn live_allocations_stay_apart_across_memory_objects() {
    let config = SlabConfig::default().slab_size(1024).quarantine_slots(0);
    let mut slabs = SlabAllocator::with_config(properties(), config);
    let mut live: Vec<Allocation> = vec![];
    for k in 0..40u64 {
        let size = 1 + (k * 97) % 1000;
        let a = granted(&mut slabs, needs(size, 1 << (k % 9)), 500 + k);
        for b in &live {
            assert!(
                a.memory != b.memory
                    || a.offset + a.size <= b.offset
                    || b.offset + b.size <= a.offset
            );
        }
        live.push(a);
        if k % 3 == 2 {
            let gone = live.remove((k as usize) / 2 % live.len());
            assert!(matches!(slabs.free(&gone, site(k)), FreeOutcome::Freed { .. }));
        }
    }
    let in_use: u32 = slabs.stats().size_classes.iter().map(|c| c.allocated_slots).sum();
    assert_eq!(in_use as usize, live.len());
}

#[test]
fn empty_request_is_served_from_a_slot() {
    let mut slabs = SlabAllocator::new(properties());
    assert_eq!(granted(&mut slabs, needs(0, 1), 3).size, 0);
}
