//! Queues, submissions and what they promise.

use ash::vk;
use ignis::device::QueueAllocation;
use ignis::error::{Error, VkResult};
use ignis::queue::{
    timeout_nanos, AsyncQueue, FencePoint, FutureKind, GpuFuture, Ignis, PollStep, Progress,
    QueueType, TimelinePoint,
};

fn queue(flags: u32, timeline: Option<u64>) -> AsyncQueue {
    AsyncQueue { handle: 9, family: 1, index: 2, flags, timeline }
}

fn device_lost() -> VkResult {
    VkResult { raw: vk::Result::ERROR_DEVICE_LOST.as_raw() }
}

#[test]
fn queue_types_ask_for_their_flags() {
    assert_eq!(QueueType::Graphics.required_flags(), vk::QueueFlags::GRAPHICS.as_raw());
    assert_eq!(QueueType::Compute.required_flags(), vk::QueueFlags::COMPUTE.as_raw());
    assert_eq!(QueueType::Transfer.required_flags(), vk::QueueFlags::TRANSFER.as_raw());
}

#[test]
fn queue_tells_what_it_is() {
    let q = queue(vk::QueueFlags::COMPUTE.as_raw(), Some(5));
    assert_eq!(q.family_index(), 1);
    assert_eq!(q.queue_index(), 2);
    assert_eq!(q.capabilities(), 2);
    assert_eq!(q.timeline(), Some(5));
    assert!(q.supports(QueueType::Compute));
    assert!(!q.supports(QueueType::Graphics));
}

#[test]
fn submission_with_a_timeline_signals_its_value_too() {
    let s = queue(7, Some(40))
        .submit()
        .command_buffer(1)
        .command_buffers(&vec![2, 3])
        .wait_semaphore(10, 0x400)
        .signal_semaphore(20)
        .with_timeline_watcher()
        .build(17);
    assert_eq!(s.queue, 9);
    assert_eq!(s.command_buffers, vec![1, 2, 3]);
    assert_eq!(s.wait_semaphores, vec![10]);
    assert_eq!(s.wait_stages, vec![0x400]);
    assert_eq!(s.wait_values, vec![0]);
    assert_eq!(s.signal_semaphores, vec![20, 40]);
    assert_eq!(s.signal_values, vec![0, 17]);
    assert!(!s.needs_fence());
    assert_eq!(s.point, Some(TimelinePoint { semaphore: 40, target_value: 17, watched: true }));
}

#[test]
fn submission_without_a_timeline_needs_a_fence() {
    let s = queue(7, None).submit_simple(5, 0);
    assert_eq!(s.command_buffers, vec![5]);
    assert!(s.signal_semaphores.is_empty());
    assert!(s.needs_fence());
    let (future, destroyed) = s.submitted(Ok(()), 77);
    assert_eq!(destroyed, None);
    match future {
        Ok(f) => assert_eq!(f.fence(), Some(77)),
        Err(_) => unreachable!(),
    }
    let (failed, destroyed) = s.submitted(Err(device_lost()), 77);
    assert!(matches!(failed, Err(Error::Vulkan(code)) if code == device_lost()));
    assert_eq!(destroyed, Some(77));
}

#[test]
fn timeline_future_is_done_from_its_value_on() {
    let point = TimelinePoint { semaphore: 3, target_value: 10, watched: true };
    let mut f = GpuFuture { kind: FutureKind::Timeline(point), completed: false };
    assert_eq!(f.timeline_value(), Some(10));
    assert_eq!(f.timeline_semaphore(), Some(3));
    assert_eq!(f.fence(), None);
    assert!(matches!(f.is_complete(Ok(Progress::Value(9))), Ok(false)));
    assert!(matches!(f.is_complete(Ok(Progress::Value(10))), Ok(true)));
    assert!(matches!(f.is_complete(Ok(Progress::Value(11))), Ok(true)));
    assert!(matches!(f.poll(Ok(Progress::Value(9))), PollStep::Register(p) if p == point));
    assert!(!f.completed);
    assert!(matches!(f.poll(Ok(Progress::Value(10))), PollStep::Ready(Ok(()))));
    assert!(f.completed);
    assert!(matches!(f.poll(Ok(Progress::Value(0))), PollStep::Ready(Ok(()))));
    assert_eq!(f.on_drop(), (false, None));
}

#[test]
fn fence_future_is_polled_again() {
    let mut f = GpuFuture { kind: FutureKind::Fence(FencePoint { fence: 6, watched: false }), completed: false };
    assert!(matches!(f.poll(Ok(Progress::Signaled(false))), PollStep::WakeAndRetry));
    assert_eq!(f.on_drop(), (true, Some(6)));
    assert!(matches!(f.poll(Err(device_lost())), PollStep::Ready(Err(Error::Vulkan(_)))));
    assert_eq!(f.on_drop(), (false, Some(6)));
}

#[test]
fn fence_with_a_watcher_is_left_to_it() {
    let queue = AsyncQueue { handle: 1, family: 0, index: 0, flags: 7, timeline: None };
    let watched = queue.submit().command_buffer(5).with_watcher().build(0);
    match watched.submitted(Ok(()), 8).0 {
        Ok(mut f) => {
            assert!(matches!(f.poll(Ok(Progress::Signaled(false))), PollStep::RegisterFence(8)));
            assert!(matches!(f.poll(Ok(Progress::Signaled(true))), PollStep::Ready(Ok(()))));
        }
        Err(_) => unreachable!(),
    }
}

#[test]
fn running_out_of_time_is_no_error() {
    let f = GpuFuture { kind: FutureKind::Fence(FencePoint { fence: 6, watched: false }), completed: false };
    let timeout = VkResult { raw: vk::Result::TIMEOUT.as_raw() };
    assert!(matches!(f.wait_timeout(Err(timeout)), Ok(false)));
    assert!(matches!(f.wait_timeout(Ok(())), Ok(true)));
    assert!(matches!(f.wait_timeout(Err(device_lost())), Err(Error::Vulkan(_))));
    assert!(matches!(f.wait(Err(timeout)), Err(Error::Vulkan(_))));
    assert_eq!(timeout_nanos(5), 5);
    assert_eq!(timeout_nanos(u64::MAX as u128 + 1), u64::MAX);
}

#[test]
fn dedicated_queue_is_preferred() {
    let allocations = vec![
        QueueAllocation { family_index: 0, queue_index: 0, handle: 100, capabilities: 7 },
        QueueAllocation { family_index: 1, queue_index: 0, handle: 101, capabilities: 2 },
        QueueAllocation { family_index: 2, queue_index: 0, handle: 102, capabilities: 4 },
    ];
    let queues = Ignis::build_queues(&allocations, &vec![Some(1), Some(2), Some(3)], true);
    assert_eq!(queues.len(), 3);
    assert_eq!(queues[1].handle, 101);
    assert_eq!(queues[2].timeline, Some(3));
    let ignis = Ignis { queues, raytracing: false, timelines: true, rt_properties: None };
    assert!(matches!(ignis.queue(QueueType::Graphics), Ok(0)));
    assert!(matches!(ignis.queue(QueueType::Compute), Ok(1)));
    assert!(matches!(ignis.queue(QueueType::Transfer), Ok(2)));
    assert_eq!(ignis.all_queues().len(), 3);
    assert!(ignis.supports_timelines());
    assert!(!ignis.supports_ray_tracing());
    assert!(matches!(
        ignis.raytracing_pipeline_builder(),
        Err(Error::FeatureNotEnabled("VK_KHR_ray_tracing_pipeline"))
    ));
}

#[test]
fn missing_capability_is_an_error() {
    let allocations =
        vec![QueueAllocation { family_index: 0, queue_index: 0, handle: 1, capabilities: 4 }];
    let queues = Ignis::build_queues(&allocations, &vec![None], false);
    let ignis = Ignis { queues, raytracing: true, timelines: false, rt_properties: None };
    assert!(matches!(
        ignis.queue(QueueType::Graphics),
        Err(Error::NoSuitableQueueFamily(QueueType::Graphics))
    ));
    assert!(matches!(ignis.queue(QueueType::Transfer), Ok(0)));
    assert!(matches!(ignis.raytracing_pipeline_builder(), Ok(b) if b.max_recursion_depth == 1));
    assert!(ignis.ray_tracing_properties().is_none());
}

#[test]
fn command_pool_belongs_to_the_family_of_its_queue() {
    let allocations = vec![
        QueueAllocation { family_index: 3, queue_index: 0, handle: 1, capabilities: 7 },
        QueueAllocation { family_index: 5, queue_index: 0, handle: 2, capabilities: 2 },
    ];
    let queues = Ignis::build_queues(&allocations, &vec![None, None], false);
    let ignis = Ignis { queues, raytracing: false, timelines: false, rt_properties: None };
    let reset = vk::CommandPoolCreateFlags::RESET_COMMAND_BUFFER.as_raw();
    assert!(matches!(
        ignis.create_command_pool(QueueType::Compute),
        Ok(info) if info.family_index == 5 && info.flags == reset
    ));
    assert!(matches!(
        ignis.create_command_pool(QueueType::Transfer),
        Ok(info) if info.family_index == 3
    ));
    let none = Ignis { queues: vec![], raytracing: false, timelines: false, rt_properties: None };
    assert!(matches!(
        none.create_command_pool(QueueType::Compute),
        Err(Error::NoSuitableQueueFamily(QueueType::Compute))
    ));
}

#[test]
fn shader_code_begins_with_the_magic_number() {
    let ignis = Ignis { queues: vec![], raytracing: false, timelines: false, rt_properties: None };
    assert!(matches!(ignis.create_shader_module(&[], Ok(4)), Err(Error::InvalidSpirv)));
    assert!(matches!(ignis.create_shader_module(&[0x0302_2307], Ok(4)), Err(Error::InvalidSpirv)));
    assert!(matches!(ignis.create_shader_module(&[0x0723_0203], Ok(4)), Ok(4)));
    assert!(matches!(
        ignis.create_shader_module(&[0x0723_0203], Err(device_lost())),
        Err(Error::Vulkan(code)) if code == device_lost()
    ));
}
