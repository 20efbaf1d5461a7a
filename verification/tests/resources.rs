//! Buffers, images, and memory for transient data.

use ash::vk;
use ignis::error::{Error, VkResult};
use ignis::format::Format;
use ignis::memory::allocator::Allocation;
use ignis::memory::frame_alloc::{frame_info, FrameAllocator};
use ignis::memory::readback::{staging_info, BufferCopy, ReadbackRequest};
use ignis::memory::resources::{
    created, Buffer, BufferInfo, Extent3D, Image, ImageInfo, MemoryLocation,
};
use ignis::memory::staging::{frame_buffer, mapped_or_error, StagingRing};
use ignis::memory::typed::{typed_info, TypedBuffer};

fn allocation(mapped_ptr: Option<u64>) -> Allocation {
    Allocation { memory: 3, offset: 64, size: 256, mapped_ptr, memory_type_index: 1 }
}

#[test]
fn buffer_infos_have_their_usage() {
    let v = BufferInfo::vertex(10, MemoryLocation::GpuOnly);
    assert_eq!(v.usage, vk::BufferUsageFlags::VERTEX_BUFFER.as_raw());
    assert_eq!(v.size, 10);
    let u = BufferInfo::uniform(20);
    assert_eq!(u.usage, vk::BufferUsageFlags::UNIFORM_BUFFER.as_raw());
    assert_eq!(u.location, MemoryLocation::CpuToGpu);
    let s = BufferInfo::staging(30);
    assert_eq!(s.usage, vk::BufferUsageFlags::TRANSFER_SRC.as_raw());
    assert_eq!(s.sharing_mode, vk::SharingMode::EXCLUSIVE.as_raw());
    let i = BufferInfo::index(1, MemoryLocation::GpuOnly);
    assert_ne!(i.usage & vk::BufferUsageFlags::INDEX_BUFFER.as_raw(), 0);
    let o = BufferInfo::storage(1, MemoryLocation::GpuOnly);
    assert_ne!(o.usage & vk::BufferUsageFlags::STORAGE_BUFFER.as_raw(), 0);
}

#[test]
fn memory_locations_ask_for_their_flags() {
    assert_eq!(MemoryLocation::GpuOnly.required_flags(), 1);
    assert_eq!(MemoryLocation::CpuToGpu.required_flags(), 6);
    assert_eq!(MemoryLocation::GpuToCpu.required_flags(), 6);
    assert_eq!(MemoryLocation::CpuToGpu.preferred_flags(), 1);
}

#[test]
fn failed_creation_is_undone() {
    let lost = VkResult { raw: -4 };
    assert!(created(5, Ok(allocation(None)), Ok(())).is_ok());
    match created(5, Err(Error::NoSuitableMemoryType), Ok(())) {
        Err(f) => {
            assert_eq!(f.destroy, 5);
            assert!(f.free.is_none());
            assert!(matches!(f.error, Error::NoSuitableMemoryType));
        }
        Ok(_) => unreachable!(),
    }
    match created(5, Ok(allocation(None)), Err(lost)) {
        Err(f) => {
            assert_eq!(f.destroy, 5);
            assert!(f.free.is_some());
            assert!(matches!(f.error, Error::Vulkan(code) if code == lost));
        }
        Ok(_) => unreachable!(),
    }
}

#[test]
fn mapped_buffer_can_be_written() {
    let b = Buffer { handle: 8, allocation: allocation(Some(1000)), size: 100 };
    assert_eq!(b.handle(), 8);
    assert_eq!(b.size(), 100);
    assert_eq!(b.memory(), 3);
    assert_eq!(b.memory_offset(), 64);
    assert_eq!(b.mapped_ptr(), Some(1000));
    assert_eq!(b.mapped_slice(), Some((1000, 100)));
    assert!(b.can_write(90, 10));
    assert!(!b.can_write(91, 10));
    assert_eq!(b.write_struct::<u64>(), (b.write(0, 8), 8));
    assert_eq!(b.write(90, 10), 1090);
    let unmapped = Buffer { handle: 8, allocation: allocation(None), size: 100 };
    assert_eq!(unmapped.mapped_slice(), None);
    assert!(!unmapped.can_write(0, 1));
}

#[test]
fn image_infos_and_views() {
    let format = Format { raw: vk::Format::R8G8B8A8_UNORM.as_raw() };
    let info = ImageInfo::texture_2d(16, 8, format, 4);
    assert_eq!(info.extent, Extent3D { width: 16, height: 8, depth: 1 });
    assert_eq!(info.usage, 4);
    assert_eq!(info.mip_levels, 1);
    let depth = ImageInfo::depth(4, 4, Format { raw: vk::Format::D32_SFLOAT.as_raw() });
    assert_eq!(depth.usage, vk::ImageUsageFlags::DEPTH_STENCIL_ATTACHMENT.as_raw());
    let image = Image { handle: 6, allocation: allocation(None), info };
    let view = image.create_view(vk::ImageAspectFlags::COLOR.as_raw());
    assert_eq!(view.image, 6);
    assert_eq!(view.view_type, vk::ImageViewType::TYPE_2D.as_raw());
    assert_eq!(view.level_count, 1);
    assert_eq!(view.layer_count, 1);
    let layered = Image {
        handle: 6,
        allocation: allocation(None),
        info: ImageInfo { array_layers: 3, mip_levels: 5, ..ImageInfo::default() },
    };
    let view = layered.create_view(1);
    assert_eq!(view.view_type, vk::ImageViewType::TYPE_2D_ARRAY.as_raw());
    assert_eq!(view.level_count, 5);
    assert_eq!(view.layer_count, 3);
    assert_eq!(layered.mip_levels(), 5);
    assert_eq!(layered.array_layers(), 3);
}

#[test]
fn staging_regions_are_aligned_and_disjoint() {
    let mut ring = StagingRing::new(&vec![1, 2], 100);
    assert_eq!(ring.frame_capacity(), 100);
    match (ring.push(10), ring.push(10)) {
        (Ok(a), Ok(b)) => {
            assert_eq!((a.offset, a.size, a.buffer), (0, 10, 1));
            assert_eq!((b.offset, b.size, b.buffer), (16, 10, 1));
        }
        _ => unreachable!(),
    }
    assert_eq!(ring.remaining(), 74);
    assert!(matches!(ring.push(90), Err(Error::InvalidConfig(_))));
    ring.begin_frame();
    assert!(matches!(ring.push(100), Ok(r) if r.buffer == 2 && r.offset == 0));
    ring.begin_frame();
    assert!(matches!(ring.push(1), Ok(r) if r.buffer == 1 && r.offset == 0));
    assert_eq!(frame_buffer(9), BufferInfo::staging(9));
    assert!(matches!(mapped_or_error(None), Err(Error::NoSuitableMemoryType)));
    assert!(matches!(mapped_or_error(Some(4)), Ok(4)));
}

#[test]
fn frame_bytes_are_aligned_and_disjoint() {
    let mut frames = FrameAllocator::new(&vec![1, 2], &vec![1000, 2000], 64);
    assert!(matches!(frames.push_bytes(5, 1), Ok((0, 1000))));
    assert!(matches!(frames.push_bytes(4, 16), Ok((16, 1016))));
    assert!(matches!(frames.push::<u64>(), Ok((24, 1024))));
    assert_eq!(frames.remaining(), 32);
    assert!(matches!(
        frames.push_bytes(33, 1),
        Err(Error::InvalidConfig("frame allocator capacity exceeded"))
    ));
    assert!(matches!(frames.push_bytes(32, 0), Ok((32, 1032))));
    frames.advance();
    assert_eq!(frames.buffer(), 2);
    assert!(matches!(frames.push::<u32>(), Ok((0, 2000))));
    frames.advance();
    assert_eq!(frames.remaining(), 64);
    assert_eq!(frame_info(7, 16).usage, 16);
}

#[test]
fn typed_buffer_places_its_elements() {
    match typed_info(10, 4, 16, MemoryLocation::CpuToGpu) {
        Some(info) => assert_eq!(info.size, 40),
        None => unreachable!(),
    }
    assert!(typed_info(usize::MAX, 8, 16, MemoryLocation::CpuToGpu).is_none());
    let inner = Buffer { handle: 5, allocation: allocation(Some(0)), size: 40 };
    let typed: TypedBuffer<u32> = TypedBuffer::new(inner, 10);
    assert_eq!(typed.element_count(), 10);
    assert_eq!(typed.byte_size(), 40);
    assert_eq!(typed.write(3), 12);
    assert_eq!(typed.read(9), 36);
    assert_eq!(typed.write_slice(2, 4), (8, 16));
    assert_eq!(typed.handle(), 5);
    assert_eq!(typed.buffer().size(), 40);
}

#[test]
fn readback_copies_into_its_staging_buffer() {
    let info = staging_info(50);
    assert_eq!(info.location, MemoryLocation::GpuToCpu);
    assert_eq!(info.usage, vk::BufferUsageFlags::TRANSFER_DST.as_raw());
    let request = ReadbackRequest {
        staging_buffer: 2,
        mapped_ptr: Some(900),
        src_buffer: 1,
        src_offset: 7,
        size: 50,
    };
    assert_eq!(
        request.record(),
        BufferCopy { src: 1, dst: 2, src_offset: 7, dst_offset: 0, size: 50 }
    );
    assert_eq!(request.data(), (900, 50));
}
