//! Buffers and images: where they are placed, what they are created with, and what is undone
//! where creating them fails.

use crate::error::{Error, VkResult};
use crate::format::Format;
use crate::memory::allocator::Allocation;
use crate::vulkan;
use vstd::prelude::*;

verus! {

/// Desired memory placement for an allocation.
#[derive(Debug, Clone, Copy, PartialEq, Eq, Hash, Structural)]
pub enum MemoryLocation {
    /// Device-local memory, not host-accessible.
    GpuOnly,
    /// Host-visible and coherent, preferably device-local.
    CpuToGpu,
    /// Host-visible and coherent, for reading back.
    GpuToCpu,
}

impl MemoryLocation {
    /// The property flags that a memory type must have.
    pub open spec fn required(self) -> u32 {
        match self {
            MemoryLocation::GpuOnly => vulkan::MEMORY_DEVICE_LOCAL,
            _ => vulkan::MEMORY_HOST_VISIBLE | vulkan::MEMORY_HOST_COHERENT,
        }
    }

    /// The further property flags that it had better have.
    pub open spec fn preferred(self) -> u32 {
        match self {
            MemoryLocation::CpuToGpu => vulkan::MEMORY_DEVICE_LOCAL,
            _ => 0,
        }
    }

    /// Required memory property flags.
    pub fn required_flags(self) -> (r: u32)
        ensures
            r == self.required(),
    {
        match self {
            MemoryLocation::GpuOnly => vulkan::MEMORY_DEVICE_LOCAL,
            MemoryLocation::CpuToGpu | MemoryLocation::GpuToCpu => {
                vulkan::MEMORY_HOST_VISIBLE | vulkan::MEMORY_HOST_COHERENT
            },
        }
    }

    /// Additional flags for better performance.
    pub fn preferred_flags(self) -> (r: u32)
        ensures
            r == self.preferred(),
    {
        match self {
            MemoryLocation::CpuToGpu => vulkan::MEMORY_DEVICE_LOCAL,
            _ => 0,
        }
    }
}

/// What a buffer is created with.
#[derive(Debug, Clone, Copy, PartialEq, Eq, Structural)]
pub struct BufferInfo {
    /// Size in bytes.
    pub size: u64,
    /// Usage flags.
    pub usage: u32,
    /// Memory placement.
    pub location: MemoryLocation,
    /// Sharing mode.
    pub sharing_mode: i32,
}

impl BufferInfo {
    /// A buffer of one queue family at a time.
    pub open spec fn exclusive(size: u64, usage: u32, location: MemoryLocation) -> BufferInfo {
        BufferInfo { size, usage, location, sharing_mode: vulkan::SHARING_EXCLUSIVE }
    }

    /// Vertex buffer.
    pub fn vertex(size: u64, location: MemoryLocation) -> (r: BufferInfo)
        ensures
            r == BufferInfo::exclusive(size, vulkan::BUFFER_USAGE_VERTEX, location),
    {
        BufferInfo {
            size,
            usage: vulkan::BUFFER_USAGE_VERTEX,
            location,
            sharing_mode: vulkan::SHARING_EXCLUSIVE,
        }
    }

    /// Index buffer.
    pub fn index(size: u64, location: MemoryLocation) -> (r: BufferInfo)
        ensures
            r == BufferInfo::exclusive(size, vulkan::BUFFER_USAGE_INDEX, location),
    {
        BufferInfo {
            size,
            usage: vulkan::BUFFER_USAGE_INDEX,
            location,
            sharing_mode: vulkan::SHARING_EXCLUSIVE,
        }
    }

    /// Uniform buffer, which the host can write.
    pub fn uniform(size: u64) -> (r: BufferInfo)
        ensures
            r == BufferInfo::exclusive(
                size,
                vulkan::BUFFER_USAGE_UNIFORM,
                MemoryLocation::CpuToGpu,
            ),
    {
        BufferInfo {
            size,
            usage: vulkan::BUFFER_USAGE_UNIFORM,
            location: MemoryLocation::CpuToGpu,
            sharing_mode: vulkan::SHARING_EXCLUSIVE,
        }
    }

    /// Staging buffer, which the host writes and transfers read.
    pub fn staging(size: u64) -> (r: BufferInfo)
        ensures
            r == BufferInfo::exclusive(
                size,
                vulkan::BUFFER_USAGE_TRANSFER_SRC,
                MemoryLocation::CpuToGpu,
            ),
    {
        BufferInfo {
            size,
            usage: vulkan::BUFFER_USAGE_TRANSFER_SRC,
            location: MemoryLocation::CpuToGpu,
            sharing_mode: vulkan::SHARING_EXCLUSIVE,
        }
    }

    /// Storage buffer.
    pub fn storage(size: u64, location: MemoryLocation) -> (r: BufferInfo)
        ensures
            r == BufferInfo::exclusive(size, vulkan::BUFFER_USAGE_STORAGE, location),
    {
        BufferInfo {
            size,
            usage: vulkan::BUFFER_USAGE_STORAGE,
            location,
            sharing_mode: vulkan::SHARING_EXCLUSIVE,
        }
    }
}

/// What is undone where creating a resource fails: its memory goes back to the allocator if it had
/// any, and its handle is destroyed.
#[derive(Debug)]
pub struct CreateFailure {
    /// The error.
    pub error: Error,
    /// The memory to free.
    pub free: Option<Allocation>,
    /// The handle to destroy.
    pub destroy: u64,
}

/// What comes of creating a resource whose handle exists: the memory of the resource, or a failure.
/// `allocated` is what the allocator gave, `bound` what binding it gave.
pub open spec fn is_created(
    handle: u64,
    allocated: Result<Allocation, Error>,
    bound: Result<(), VkResult>,
    r: Result<Allocation, CreateFailure>,
) -> bool {
    match allocated {
        Err(e) => r == Err::<Allocation, CreateFailure>(
            CreateFailure { error: e, free: None, destroy: handle },
        ),
        Ok(a) => match bound {
            Ok(_) => r == Ok::<Allocation, CreateFailure>(a),
            Err(code) => r == Err::<Allocation, CreateFailure>(
                CreateFailure { error: Error::Vulkan(code), free: Some(a), destroy: handle },
            ),
        },
    }
}

/// What comes of creating a resource whose handle exists.
pub fn created(
    handle: u64,
    allocated: Result<Allocation, Error>,
    bound: Result<(), VkResult>,
) -> (r: Result<Allocation, CreateFailure>)
    ensures
        is_created(handle, allocated, bound, r),
{
    match allocated {
        Err(error) => Err(CreateFailure { error, free: None, destroy: handle }),
        Ok(a) => match bound {
            Ok(_) => Ok(a),
            Err(code) => Err(
                CreateFailure { error: Error::Vulkan(code), free: Some(a), destroy: handle },
            ),
        },
    }
}

/// A buffer with its memory.
#[derive(Debug, Clone, Copy)]
pub struct Buffer {
    /// Handle of the buffer.
    pub handle: u64,
    /// Its memory.
    pub allocation: Allocation,
    /// Size in bytes.
    pub size: u64,
}

impl Buffer {
    /// Handle of the buffer.
    pub fn handle(&self) -> (r: u64)
        ensures
            r == self.handle,
    {
        self.handle
    }

    /// Size in bytes.
    pub fn size(&self) -> (r: u64)
        ensures
            r == self.size,
    {
        self.size
    }

    /// Handle of the memory object.
    pub fn memory(&self) -> (r: u64)
        ensures
            r == self.allocation.memory,
    {
        self.allocation.memory
    }

    /// First byte within the memory object.
    pub fn memory_offset(&self) -> (r: u64)
        ensures
            r == self.allocation.offset,
    {
        self.allocation.offset
    }

    /// Address of the first byte, if the host can see the memory.
    pub fn mapped_ptr(&self) -> (r: Option<u64>)
        ensures
            r == self.allocation.mapped_ptr,
    {
        self.allocation.mapped_ptr
    }

    /// The bytes that the host can read: address and length.
    pub fn mapped_slice(&self) -> (r: Option<(u64, u64)>)
        ensures
            r == match self.allocation.mapped_ptr {
                Some(address) => Some((address, self.size)),
                None => None,
            },
    {
        match self.allocation.mapped_ptr {
            Some(address) => Some((address, self.size)),
            None => None,
        }
    }

    /// The address to which bytes at an offset are written. The host has to see the memory and the
    /// bytes have to lie within the buffer.
    pub fn write(&self, offset: usize, len: usize) -> (r: u64)
        requires
            self.allocation.mapped_ptr is Some,
            offset + len <= self.size,
            self.allocation.mapped_ptr->0 + self.size <= u64::MAX,
        ensures
            r == self.allocation.mapped_ptr->0 + offset,
            r + len <= self.allocation.mapped_ptr->0 + self.size,
    {
        match self.allocation.mapped_ptr {
            Some(address) => address + offset as u64,
            None => 0,
        }
    }

    /// The address to which a value is written, at the start of the buffer, and its number of bytes.
    pub fn write_struct<T>(&self) -> (r: (u64, usize))
        requires
            self.allocation.mapped_ptr is Some,
            vstd::layout::size_of::<T>() <= self.size,
            self.allocation.mapped_ptr->0 + self.size <= u64::MAX,
        ensures
            r.0 == self.allocation.mapped_ptr->0,
            r.1 == vstd::layout::size_of::<T>(),
    {
        let len: usize = core::mem::size_of::<T>();
        (self.write(0, len), len)
    }

    /// Whether bytes at an offset can be written.
    pub fn can_write(&self, offset: usize, len: usize) -> (r: bool)
        ensures
            r == (self.allocation.mapped_ptr is Some && offset + len <= self.size),
    {
        self.allocation.mapped_ptr.is_some() && (offset as u64) <= self.size && (len as u64)
            <= self.size - offset as u64
    }
}

/// Width, height and depth.
#[derive(Debug, Clone, Copy, PartialEq, Eq, Structural)]
pub struct Extent3D {
    /// Width in pixels.
    pub width: u32,
    /// Height in pixels.
    pub height: u32,
    /// Depth in pixels.
    pub depth: u32,
}

/// What an image is created with.
#[derive(Debug, Clone, Copy, PartialEq, Eq, Structural)]
pub struct ImageInfo {
    /// Width, height and depth.
    pub extent: Extent3D,
    /// Pixel format.
    pub format: Format,
    /// Usage flags.
    pub usage: u32,
    /// Memory placement.
    pub location: MemoryLocation,
    /// Image type.
    pub image_type: i32,
    /// Mip levels.
    pub mip_levels: u32,
    /// Array layers.
    pub array_layers: u32,
    /// Sample count.
    pub samples: u32,
    /// Tiling.
    pub tiling: i32,
    /// Initial layout.
    pub initial_layout: i32,
}

impl ImageInfo {
    /// A two-dimensional image of the device with one level, one layer and one sample.
    pub open spec fn plain(width: u32, height: u32, f: Format, usage: u32) -> ImageInfo {
        ImageInfo {
            extent: Extent3D { width, height, depth: 1 },
            format: f,
            usage,
            location: MemoryLocation::GpuOnly,
            image_type: vulkan::IMAGE_TYPE_2D,
            mip_levels: 1,
            array_layers: 1,
            samples: vulkan::SAMPLES_1,
            tiling: vulkan::TILING_OPTIMAL,
            initial_layout: vulkan::LAYOUT_UNDEFINED,
        }
    }

    /// Two-dimensional texture.
    pub fn texture_2d(width: u32, height: u32, f: Format, usage: u32) -> (r: ImageInfo)
        ensures
            r == ImageInfo::plain(width, height, f, usage),
    {
        ImageInfo {
            extent: Extent3D { width, height, depth: 1 },
            format: f,
            usage,
            location: MemoryLocation::GpuOnly,
            image_type: vulkan::IMAGE_TYPE_2D,
            mip_levels: 1,
            array_layers: 1,
            samples: vulkan::SAMPLES_1,
            tiling: vulkan::TILING_OPTIMAL,
            initial_layout: vulkan::LAYOUT_UNDEFINED,
        }
    }

    /// Depth attachment.
    pub fn depth(width: u32, height: u32, f: Format) -> (r: ImageInfo)
        ensures
            r == ImageInfo::plain(width, height, f, vulkan::IMAGE_USAGE_DEPTH_STENCIL),
    {
        ImageInfo::texture_2d(width, height, f, vulkan::IMAGE_USAGE_DEPTH_STENCIL)
    }
}

impl Default for ImageInfo {
    /// A sampled RGBA texture of one pixel.
    fn default() -> (r: ImageInfo)
        ensures
            r == ImageInfo::plain(
                1,
                1,
                Format { raw: crate::format::R8G8B8A8_UNORM },
                vulkan::IMAGE_USAGE_SAMPLED,
            ),
    {
        ImageInfo::texture_2d(
            1,
            1,
            Format { raw: crate::format::R8G8B8A8_UNORM },
            vulkan::IMAGE_USAGE_SAMPLED,
        )
    }
}

/// An image with its memory.
#[derive(Debug, Clone, Copy)]
pub struct Image {
    /// Handle of the image.
    pub handle: u64,
    /// Its memory.
    pub allocation: Allocation,
    /// What it was created with.
    pub info: ImageInfo,
}

/// What an image view is created with: the whole of an image.
#[derive(Debug, Clone, Copy, PartialEq, Eq, Structural)]
pub struct ViewInfo {
    /// Handle of the image.
    pub image: u64,
    /// View type.
    pub view_type: i32,
    /// Pixel format.
    pub format: Format,
    /// Aspect.
    pub aspect: u32,
    /// First mip level.
    pub base_mip_level: u32,
    /// Mip levels.
    pub level_count: u32,
    /// First array layer.
    pub base_array_layer: u32,
    /// Array layers.
    pub layer_count: u32,
}

impl Image {
    /// Handle of the image.
    pub fn handle(&self) -> (r: u64)
        ensures
            r == self.handle,
    {
        self.handle
    }

    /// Pixel format.
    pub fn format(&self) -> (r: Format)
        ensures
            r == self.info.format,
    {
        self.info.format
    }

    /// Width, height and depth.
    pub fn extent(&self) -> (r: Extent3D)
        ensures
            r == self.info.extent,
    {
        self.info.extent
    }

    /// Mip levels.
    pub fn mip_levels(&self) -> (r: u32)
        ensures
            r == self.info.mip_levels,
    {
        self.info.mip_levels
    }

    /// Array layers.
    pub fn array_layers(&self) -> (r: u32)
        ensures
            r == self.info.array_layers,
    {
        self.info.array_layers
    }

    /// What a view of the whole image is created with. Several layers make an array.
    pub fn create_view(&self, aspect: u32) -> (r: ViewInfo)
        ensures
            r == (ViewInfo {
                image: self.handle,
                view_type: if self.info.array_layers > 1 {
                    vulkan::VIEW_TYPE_2D_ARRAY
                } else {
                    vulkan::VIEW_TYPE_2D
                },
                format: self.info.format,
                aspect,
                base_mip_level: 0,
                level_count: self.info.mip_levels,
                base_array_layer: 0,
                layer_count: self.info.array_layers,
            }),
    {
        ViewInfo {
            image: self.handle,
            view_type: if self.info.array_layers > 1 {
                vulkan::VIEW_TYPE_2D_ARRAY
            } else {
                vulkan::VIEW_TYPE_2D
            },
            format: self.info.format,
            aspect,
            base_mip_level: 0,
            level_count: self.info.mip_levels,
            base_array_layer: 0,
            layer_count: self.info.array_layers,
        }
    }
}

/// Nothing that was made is lost where creating a resource fails: the handle is destroyed, and
/// memory that was allocated is freed.
pub proof fn law_failed_creation_is_undone(
    handle: u64,
    allocated: Result<Allocation, Error>,
    bound: Result<(), VkResult>,
    r: Result<Allocation, CreateFailure>,
)
    requires
        is_created(handle, allocated, bound, r),
        r is Err,
    ensures
        r->Err_0.destroy == handle,
        allocated matches Ok(a) ==> r->Err_0.free == Some(a),
        allocated is Err ==> r->Err_0.free is None,
{
}

} // verus!
