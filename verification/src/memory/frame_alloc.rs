//! Frame allocator: one buffer per frame in flight, from which transient data is taken front to
//! back.

use crate::error::Error;
use crate::memory::resources::{BufferInfo, MemoryLocation};
use crate::vulkan;
use vstd::prelude::*;

verus! {

/// The buffer of a frame.
#[derive(Debug, Clone, Copy, PartialEq, Eq, Structural)]
pub struct FrameBuffer {
    /// Handle of the buffer.
    pub buffer: u64,
    /// Address of its first byte.
    pub mapped: u64,
    /// Size in bytes.
    pub capacity: u64,
    /// First byte that is not in use.
    pub cursor: u64,
}

/// Allocator of transient data. The buffers are made and mapped by the caller.
#[derive(Debug)]
pub struct FrameAllocator {
    frames: Vec<FrameBuffer>,
    current: usize,
}

/// What the buffer of a frame is created with.
pub fn frame_info(capacity: u64, usage: u32) -> (r: BufferInfo)
    ensures
        r == BufferInfo::exclusive(capacity, usage, MemoryLocation::CpuToGpu),
{
    BufferInfo {
        size: capacity,
        usage,
        location: MemoryLocation::CpuToGpu,
        sharing_mode: vulkan::SHARING_EXCLUSIVE,
    }
}

impl FrameAllocator {
    /// The frames.
    pub closed spec fn slots(&self) -> Seq<FrameBuffer> {
        self.frames@
    }

    /// The number of the frame in use.
    pub closed spec fn at(&self) -> int {
        self.current as int
    }

    /// The frame in use.
    pub open spec fn now(&self) -> FrameBuffer {
        self.slots()[self.at()]
    }

    /// There is a frame in use, no frame is fuller than it can be, and all bytes have addresses.
    pub closed spec fn wf(&self) -> bool {
        &&& self.current < self.frames@.len()
        &&& forall|i: int|
            0 <= i < self.frames@.len() ==> (#[trigger] self.frames@[i]).cursor
                <= self.frames@[i].capacity && self.frames@[i].mapped + self.frames@[i].capacity
                <= u64::MAX
    }

    /// An allocator over buffers that were made and mapped, one per frame.
    pub fn new(buffers: &Vec<u64>, mapped: &Vec<u64>, capacity: u64) -> (r: FrameAllocator)
        requires
            buffers@.len() > 0,
            mapped@.len() == buffers@.len(),
            forall|i: int| 0 <= i < mapped@.len() ==> (#[trigger] mapped@[i]) + capacity <= u64::MAX,
        ensures
            r.wf(),
            r.at() == 0,
            r.slots().len() == buffers@.len(),
            forall|i: int|
                0 <= i < buffers@.len() ==> #[trigger] r.slots()[i] == (FrameBuffer {
                    buffer: buffers@[i],
                    mapped: mapped@[i],
                    capacity,
                    cursor: 0,
                }),
    {
        let mut frames: Vec<FrameBuffer> = Vec::new();
        let mut i: usize = 0;
        while i < buffers.len()
            invariant
                i <= buffers@.len(),
                mapped@.len() == buffers@.len(),
                frames@.len() == i,
                forall|j: int|
                    0 <= j < i ==> #[trigger] frames@[j] == (FrameBuffer {
                        buffer: buffers@[j],
                        mapped: mapped@[j],
                        capacity,
                        cursor: 0,
                    }),
            decreases buffers@.len() - i,
        {
            frames.push(
                FrameBuffer { buffer: buffers[i], mapped: mapped[i], capacity, cursor: 0 },
            );
            i = i + 1;
        }
        FrameAllocator { frames, current: 0 }
    }

    /// Goes on to the next frame and empties it.
    pub fn advance(&mut self)
        requires
            old(self).wf(),
        ensures
            final(self).wf(),
            final(self).at() == (old(self).at() + 1) % (old(self).slots().len() as int),
            final(self).slots() == old(self).slots().update(
                final(self).at(),
                FrameBuffer { cursor: 0, ..old(self).slots()[final(self).at()] },
            ),
    {
        let n: usize = self.frames.len();
        let next: usize = if self.current + 1 == n {
            0
        } else {
            self.current + 1
        };
        assert(next == (self.current + 1) % n as int) by {
            if self.current + 1 < n {
                vstd::arithmetic::div_mod::lemma_small_mod((self.current + 1) as nat, n as nat);
            } else {
                vstd::arithmetic::div_mod::lemma_mod_self_0(n as int);
            }
        }
        let f: FrameBuffer = self.frames[next];
        self.frames.set(
            next,
            FrameBuffer { buffer: f.buffer, mapped: f.mapped, capacity: f.capacity, cursor: 0 },
        );
        self.current = next;
    }

    /// Takes bytes from the current frame. The result is their offset within the buffer and the
    /// address of the first. The offset comes from masking, so it is a multiple of an alignment
    /// that is a power of two. An alignment of 0 counts as 1. Bytes that do not fit are refused.
    pub fn push_bytes(&mut self, size: u64, alignment: u64) -> (r: Result<(u64, u64), Error>)
        requires
            old(self).wf(),
            old(self).now().cursor + alignment < u64::MAX,
        ensures
            final(self).wf(),
            final(self).at() == old(self).at(),
            ({
                let f = old(self).now();
                let start = vulkan::mask_up(
                    f.cursor,
                    if alignment < 1 {
                        1
                    } else {
                        alignment
                    },
                );
                match r {
                    Ok((offset, address)) => {
                        &&& start + size <= f.capacity
                        &&& offset == start
                        &&& address == f.mapped + start
                        &&& final(self).slots() == old(self).slots().update(
                            old(self).at(),
                            FrameBuffer { cursor: (start + size) as u64, ..f },
                        )
                    },
                    Err(e) => {
                        &&& start + size > f.capacity
                        &&& e.is_invalid_config("frame allocator capacity exceeded"@)
                        &&& *final(self) == *old(self)
                    },
                }
            }),
    {
        let f: FrameBuffer = self.frames[self.current];
        let alignment: u64 = if alignment < 1 {
            1
        } else {
            alignment
        };
        let start: u64 = vulkan::align_up(f.cursor, alignment);
        if start > f.capacity || size > f.capacity - start {
            return Err(Error::InvalidConfig("frame allocator capacity exceeded"));
        }
        self.frames.set(
            self.current,
            FrameBuffer {
                buffer: f.buffer,
                mapped: f.mapped,
                capacity: f.capacity,
                cursor: start + size,
            },
        );
        Ok((start, f.mapped + start))
    }

    /// Takes the bytes of a value from the current frame, at the alignment of its type. The result
    /// is their offset within the buffer and the address to write the value to.
    pub fn push<T>(&mut self) -> (r: Result<(u64, u64), Error>)
        requires
            old(self).wf(),
            old(self).now().cursor + vstd::layout::align_of::<T>() < u64::MAX,
        ensures
            final(self).wf(),
            final(self).at() == old(self).at(),
            ({
                let f = old(self).now();
                let alignment = vstd::layout::align_of::<T>() as u64;
                let start = vulkan::mask_up(
                    f.cursor,
                    if alignment < 1 {
                        1
                    } else {
                        alignment
                    },
                );
                let end = start + vstd::layout::size_of::<T>();
                match r {
                    Ok((offset, address)) => {
                        &&& end <= f.capacity
                        &&& offset == start
                        &&& address == f.mapped + start
                        &&& final(self).slots() == old(self).slots().update(
                            old(self).at(),
                            FrameBuffer { cursor: end as u64, ..f },
                        )
                    },
                    Err(e) => {
                        &&& end > f.capacity
                        &&& e.is_invalid_config("frame allocator capacity exceeded"@)
                        &&& *final(self) == *old(self)
                    },
                }
            }),
    {
        self.push_bytes(std::mem::size_of::<T>() as u64, std::mem::align_of::<T>() as u64)
    }

    /// Handle of the buffer of the current frame.
    pub fn buffer(&self) -> (r: u64)
        requires
            self.wf(),
        ensures
            r == self.now().buffer,
    {
        self.frames[self.current].buffer
    }

    /// Bytes that are left in the current frame.
    pub fn remaining(&self) -> (r: u64)
        requires
            self.wf(),
        ensures
            r == self.now().capacity - self.now().cursor,
    {
        let f: FrameBuffer = self.frames[self.current];
        f.capacity - f.cursor
    }
}

/// Bytes taken later in a frame lie behind bytes taken earlier, whatever the alignments. With a
/// power of two as alignment they start at a multiple of it.
pub proof fn law_frame_bytes_are_disjoint(cursor: u64, later_cursor: u64, size: u64, a: u64, b: u64)
    requires
        1 <= a,
        1 <= b,
        cursor + a < u64::MAX,
        later_cursor + b < u64::MAX,
        vulkan::mask_up(cursor, a) + size <= later_cursor,
    ensures
        vulkan::mask_up(cursor, a) >= cursor,
        vulkan::mask_up(later_cursor, b) >= vulkan::mask_up(cursor, a) + size,
        vulkan::is_pow2(a) ==> vulkan::mask_up(cursor, a) % a == 0,
{
    vulkan::lemma_mask_up_is_not_below(cursor, a);
    vulkan::lemma_mask_up_is_not_below(later_cursor, b);
    if vulkan::is_pow2(a) {
        vulkan::lemma_mask_up_rounds_up(cursor, a);
    }
}

} // verus!
