//! Descriptor sets, pools that grow, and the bindless heap.

use ignis::error::{Error, VkResult};
use ignis::pipeline::bindless::{
    bindings_of, BindlessConfig, BindlessError, BindlessHandle, BindlessHeap, Descriptor, FreeList,
};
use ignis::pipeline::descriptor::{
    allocate_descriptor_sets, handed_out, AllocationAction, AllocationStage, DescriptorArena,
    DescriptorBufferInfo, DescriptorImageInfo, DescriptorPoolBuilder, DescriptorRing,
    DescriptorSetLayoutBuilder, DescriptorWriter, LayoutBinding, ManyAction, ManyAllocation,
    PoolSize, FRAGMENTED_POOL, OUT_OF_POOL_MEMORY,
};

fn arena(pool: u64) -> DescriptorArena {
    match DescriptorArena::new(
        Ok(pool),
        256,
        vec![PoolSize { ty: 6, descriptor_count: 256 }],
    ) {
        Ok(a) => a,
        Err(_) => unreachable!(),
    }
}

#[test]
fn layouts_and_pools_keep_their_parts() {
    let layout = DescriptorSetLayoutBuilder::new().binding(0, 6, 1, 1).binding(1, 1, 16, 16);
    assert_eq!(
        layout.bindings[1],
        LayoutBinding { binding: 1, descriptor_type: 1, count: 16, stage_flags: 16 }
    );
    let pool = DescriptorPoolBuilder::new();
    assert_eq!((pool.max_sets, pool.flags), (1, 0));
    let pool = pool.max_sets(8).pool_size(6, 32).free_descriptor_set();
    assert_eq!((pool.max_sets, pool.flags), (8, 1));
    assert_eq!(pool.sizes, vec![PoolSize { ty: 6, descriptor_count: 32 }]);
    assert!(matches!(handed_out(Ok(4)), Ok(4)));
    assert!(matches!(handed_out(Err(VkResult { raw: -1 })), Err(Error::Vulkan(_))));
    assert!(matches!(allocate_descriptor_sets(Ok(vec![1])), Ok(s) if s == vec![1]));
}

#[test]
fn writes_refer_to_their_infos() {
    let batch = DescriptorWriter::new(50)
        .buffer(0, 6, 1, 0, 256)
        .image(1, 1, 2, 3, 5)
        .buffer(2, 7, 4, 16, 32)
        .write();
    assert_eq!(batch.set, 50);
    assert_eq!(
        batch.buffer_infos,
        vec![
            DescriptorBufferInfo { buffer: 1, offset: 0, range: 256 },
            DescriptorBufferInfo { buffer: 4, offset: 16, range: 32 },
        ]
    );
    assert_eq!(
        batch.image_infos,
        vec![DescriptorImageInfo { sampler: 3, image_view: 2, image_layout: 5 }]
    );
    let refs: Vec<(u32, i32, bool, usize)> =
        batch.refs.iter().map(|r| (r.binding, r.ty, r.image, r.index)).collect();
    assert_eq!(refs, vec![(0, 6, false, 0), (1, 1, true, 0), (2, 7, false, 1)]);
}

#[test]
fn exhausted_pool_is_followed_by_another() {
    for code in [OUT_OF_POOL_MEMORY, FRAGMENTED_POOL] {
        let mut a = arena(1);
        assert_eq!(a.current(), 1);
        assert!(matches!(
            a.allocate(AllocationStage::First, Err(VkResult { raw: code })),
            AllocationAction::CreatePool
        ));
        assert!(matches!(
            a.allocate(AllocationStage::Growing, Ok(2)),
            AllocationAction::Allocate(2)
        ));
        assert_eq!(a.current(), 2);
        assert_eq!(a.pool_count(), 2);
        assert!(matches!(
            a.allocate(AllocationStage::Retry, Ok(90)),
            AllocationAction::Done(90)
        ));
        assert!(a.reset(Ok(())).is_ok());
        assert_eq!(a.current(), 1);
    }
}

#[test]
fn other_errors_end_the_allocation() {
    let lost = VkResult { raw: -4 };
    let mut a = arena(1);
    assert!(matches!(
        a.allocate(AllocationStage::First, Err(lost)),
        AllocationAction::Fail(Error::Vulkan(_))
    ));
    assert!(matches!(
        a.allocate(AllocationStage::Growing, Err(lost)),
        AllocationAction::Fail(Error::Vulkan(_))
    ));
    assert!(matches!(
        a.allocate(AllocationStage::Retry, Err(VkResult { raw: OUT_OF_POOL_MEMORY })),
        AllocationAction::Fail(Error::Vulkan(_))
    ));
    assert_eq!(a.pool_count(), 1);
    assert!(matches!(a.reset(Err(lost)), Err(Error::Vulkan(_))));
    assert!(DescriptorArena::new(Err(lost), 1, vec![]).is_err());
}

#[test]
fn many_sets_come_in_order() {
    let mut a = arena(1);
    let mut run = ManyAllocation::new(vec![10, 11]);
    assert!(matches!(run.begin(&a), ManyAction::Allocate { pool: 1, layout: 10 }));
    assert!(matches!(
        a.allocate_many(&mut run, Ok(100)),
        ManyAction::Allocate { pool: 1, layout: 11 }
    ));
    assert!(matches!(
        a.allocate_many(&mut run, Err(VkResult { raw: OUT_OF_POOL_MEMORY })),
        ManyAction::CreatePool
    ));
    assert!(matches!(
        a.allocate_many(&mut run, Ok(2)),
        ManyAction::Allocate { pool: 2, layout: 11 }
    ));
    assert!(matches!(a.allocate_many(&mut run, Ok(101)), ManyAction::Done));
    assert_eq!(run.sets, vec![100, 101]);
}

#[test]
fn ring_resets_the_arena_that_comes_round() {
    let mut ring = DescriptorRing::new(vec![arena(1), arena(2)]);
    assert_eq!(ring.current_frame(), 0);
    assert!(matches!(
        ring.allocate(AllocationStage::Growing, Ok(7)),
        AllocationAction::Allocate(7)
    ));
    assert_eq!(ring.arenas[0].current(), 7);
    assert_eq!(ring.next_frame(), 1);
    assert!(ring.advance(Ok(())).is_ok());
    assert_eq!(ring.current_frame(), 1);
    assert_eq!(ring.arenas[0].current(), 7);
    assert!(ring.advance(Ok(())).is_ok());
    assert_eq!(ring.current_frame(), 0);
    assert_eq!(ring.arenas[0].current(), 1);
    assert!(matches!(ring.advance(Err(VkResult { raw: -4 })), Err(Error::Vulkan(_))));
    assert_eq!(ring.current_frame(), 1);
}

fn small_heap() -> BindlessHeap {
    BindlessHeap::new(
        8,
        9,
        BindlessConfig { sampled_images: 2, storage_images: 1, samplers: 1, storage_buffers: 1 },
    )
}

#[test]
fn heap_hands_out_slots_and_takes_them_back() {
    let mut heap = small_heap();
    assert_eq!((heap.layout(), heap.set()), (8, 9));
    let (a, write) = match heap.register_sampled_image(100, 5) {
        Ok(r) => r,
        Err(_) => unreachable!(),
    };
    assert_eq!((write.set, write.binding, write.element, write.descriptor_type), (9, 0, 0, 2));
    assert_eq!(write.descriptor, Descriptor::Image { sampler: 0, view: 100, layout: 5 });
    assert!(heap.register_sampled_image(101, 5).is_ok());
    assert!(matches!(
        heap.register_sampled_image(102, 5),
        Err(BindlessError::Exhausted { capacity: 2, .. })
    ));
    assert_eq!(heap.live_counts().sampled_images, 2);
    assert!(heap.update_sampled_image(a, 103, 5).is_ok());
    assert!(heap.free_sampled_image(a).is_ok());
    assert_eq!(heap.live_counts().sampled_images, 1);
    assert!(matches!(
        heap.update_sampled_image(a, 104, 5),
        Err(BindlessError::StaleHandle { slot: 0, .. })
    ));
    assert!(matches!(heap.free_sampled_image(a), Err(BindlessError::StaleHandle { .. })));
    match heap.register_sampled_image(105, 5) {
        Ok((b, _)) => {
            assert_eq!(b.raw(), a.raw());
            assert_eq!((a.generation(), b.generation()), (0, 1));
            assert!(heap.update_sampled_image(a, 1, 5).is_err());
            assert!(heap.update_sampled_image(b, 1, 5).is_ok());
        }
        Err(_) => unreachable!(),
    }
}

#[test]
fn heap_has_a_binding_per_kind() {
    let mut heap = small_heap();
    assert!(matches!(heap.register_storage_image(1), Ok((_, w)) if w.binding == 1));
    assert!(matches!(heap.register_sampler(1), Ok((_, w)) if w.binding == 2));
    match heap.register_storage_buffer(1, 2, 3) {
        Ok((h, w)) => {
            assert_eq!(w.binding, 3);
            assert_eq!(w.descriptor, Descriptor::Buffer { buffer: 1, offset: 2, range: 3 });
            assert!(heap.update_storage_buffer(h, 4, 5, 6).is_ok());
            assert!(heap.free_storage_buffer(h).is_ok());
            assert!(heap.free_storage_buffer(h).is_err());
        }
        Err(_) => unreachable!(),
    }
    let bindings = bindings_of(heap.config());
    let counts: Vec<u32> = bindings.iter().map(|b| b.count).collect();
    assert_eq!(counts, vec![2, 1, 1, 1]);
}

#[test]
fn handle_is_its_parts() {
    let h = BindlessHandle::from_parts(5, 9);
    assert_eq!((h.raw(), h.generation()), (5, 9));
}

#[test]
fn freeing_leaves_other_handles_alone() {
    let mut list = FreeList::new(3, "things");
    let slots: Vec<(u32, u32)> = (0..3)
        .map(|_| match list.allocate() {
            Ok(s) => s,
            Err(_) => unreachable!(),
        })
        .collect();
    assert!(list.free(slots[1].0, slots[1].1).is_ok());
    assert!(list.validate(slots[0].0, slots[0].1).is_ok());
    assert!(list.validate(slots[2].0, slots[2].1).is_ok());
    assert!(list.validate(slots[1].0, slots[1].1).is_err());
    assert_eq!(list.live_count(), 2);
}

#[test]
fn bindless_errors_in_words() {
    assert_eq!(
        BindlessError::StaleHandle { slot: 1, expected_generation: 2, current_generation: 3 }
            .message(),
        "bindless handle is stale: slot=1, expected gen=2, current gen=3"
    );
    assert_eq!(
        BindlessError::Exhausted { binding: "samplers", capacity: 4 }.message(),
        "bindless heap exhausted: binding samplers has no free slots (capacity 4)"
    );
    assert_eq!(
        BindlessError::from(VkResult { raw: -4 }).message(),
        "bindless heap Vulkan error: ERROR_DEVICE_LOST"
    );
    assert!(matches!(
        Error::from(BindlessError::Exhausted { binding: "x", capacity: 0 }),
        Error::InvalidConfig("bindless heap exhausted")
    ));
    assert!(matches!(
        Error::from(BindlessError::Vulkan(VkResult { raw: -4 })),
        Error::Vulkan(VkResult { raw: -4 })
    ));
}
