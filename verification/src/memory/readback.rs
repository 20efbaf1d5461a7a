//! Reading data back from the device.

use crate::memory::resources::{BufferInfo, MemoryLocation};
use crate::vulkan;
use vstd::prelude::*;

verus! {

/// A copy between buffers.
#[derive(Debug, Clone, Copy, PartialEq, Eq, Structural)]
pub struct BufferCopy {
    /// Buffer that is read.
    pub src: u64,
    /// Buffer that is written.
    pub dst: u64,
    /// First byte that is read.
    pub src_offset: u64,
    /// First byte that is written.
    pub dst_offset: u64,
    /// Number of bytes.
    pub size: u64,
}

/// A part of a buffer that is to be read back.
#[derive(Debug, Clone, Copy, PartialEq, Eq, Structural)]
pub struct ReadbackRequest {
    /// Staging buffer that the host can read.
    pub staging_buffer: u64,
    /// Address of the first byte of the staging buffer, if the host can see it.
    pub mapped_ptr: Option<u64>,
    /// Buffer that is read.
    pub src_buffer: u64,
    /// First byte that is read.
    pub src_offset: u64,
    /// Number of bytes.
    pub size: u64,
}

/// What the staging buffer of a readback is created with.
pub fn staging_info(size: u64) -> (r: BufferInfo)
    ensures
        r == BufferInfo::exclusive(
            size,
            vulkan::BUFFER_USAGE_TRANSFER_DST,
            MemoryLocation::GpuToCpu,
        ),
{
    BufferInfo {
        size,
        usage: vulkan::BUFFER_USAGE_TRANSFER_DST,
        location: MemoryLocation::GpuToCpu,
        sharing_mode: vulkan::SHARING_EXCLUSIVE,
    }
}

impl ReadbackRequest {
    /// The copy that has to be recorded: the part goes to the front of the staging buffer.
    pub fn record(&self) -> (r: BufferCopy)
        ensures
            r == (BufferCopy {
                src: self.src_buffer,
                dst: self.staging_buffer,
                src_offset: self.src_offset,
                dst_offset: 0,
                size: self.size,
            }),
    {
        BufferCopy {
            src: self.src_buffer,
            dst: self.staging_buffer,
            src_offset: self.src_offset,
            dst_offset: 0,
            size: self.size,
        }
    }

    /// Address and number of the bytes that were read back.
    pub fn data(&self) -> (r: (u64, u64))
        requires
            self.mapped_ptr is Some,
        ensures
            r == (self.mapped_ptr->0, self.size),
    {
        match self.mapped_ptr {
            Some(address) => (address, self.size),
            None => (0, 0),
        }
    }
}

} // verus!
