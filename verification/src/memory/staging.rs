//! Staging ring: one buffer per frame in flight, filled from the front.

use crate::error::Error;
use crate::memory::resources::BufferInfo;
use crate::vulkan;
use vstd::prelude::*;

verus! {

/// Data in the staging ring.
#[derive(Debug, Clone, Copy, PartialEq, Eq, Structural)]
pub struct StagingRegion {
    /// Handle of the staging buffer.
    pub buffer: u64,
    /// First byte within the buffer.
    pub offset: u64,
    /// Size in bytes.
    pub size: u64,
}

/// The staging buffer of a frame.
#[derive(Debug, Clone, Copy, PartialEq, Eq, Structural)]
pub struct StagingFrame {
    /// Handle of the buffer.
    pub buffer: u64,
    /// Size in bytes.
    pub capacity: u64,
    /// First byte that is not in use.
    pub cursor: u64,
}

/// A ring of staging buffers. The buffers are made and mapped by the caller, who also copies the
/// data to where [`StagingRing::push`] says.
#[derive(Debug)]
pub struct StagingRing {
    frames: Vec<StagingFrame>,
    current: usize,
    capacity: u64,
}

/// What the buffer of a frame is created with.
pub fn frame_buffer(capacity: u64) -> (r: BufferInfo)
    ensures
        r == BufferInfo::exclusive(
            capacity,
            vulkan::BUFFER_USAGE_TRANSFER_SRC,
            crate::memory::resources::MemoryLocation::CpuToGpu,
        ),
{
    BufferInfo::staging(capacity)
}

/// Whether the memory of a frame can be used: the host has to see it.
pub fn mapped_or_error(mapped_ptr: Option<u64>) -> (r: Result<u64, Error>)
    ensures
        match mapped_ptr {
            Some(address) => r == Ok::<u64, Error>(address),
            None => r == Err::<u64, Error>(Error::NoSuitableMemoryType),
        },
{
    match mapped_ptr {
        Some(address) => Ok(address),
        None => Err(Error::NoSuitableMemoryType),
    }
}

impl StagingRing {
    /// The frames.
    pub closed spec fn slots(&self) -> Seq<StagingFrame> {
        self.frames@
    }

    /// The number of the frame in use.
    pub closed spec fn at(&self) -> int {
        self.current as int
    }

    /// Bytes per frame.
    pub closed spec fn bytes_per_frame(&self) -> u64 {
        self.capacity
    }

    /// There is a frame in use, and no frame is fuller than it can be.
    pub closed spec fn wf(&self) -> bool {
        &&& self.current < self.frames@.len()
        &&& forall|i: int|
            0 <= i < self.frames@.len() ==> (#[trigger] self.frames@[i]).cursor
                <= self.frames@[i].capacity && self.frames@[i].capacity == self.capacity
    }

    /// A ring over buffers that were made, one per frame.
    pub fn new(buffers: &Vec<u64>, frame_capacity: u64) -> (r: StagingRing)
        requires
            buffers@.len() > 0,
        ensures
            r.wf(),
            r.at() == 0,
            r.bytes_per_frame() == frame_capacity,
            r.slots().len() == buffers@.len(),
            forall|i: int|
                0 <= i < buffers@.len() ==> #[trigger] r.slots()[i] == (StagingFrame {
                    buffer: buffers@[i],
                    capacity: frame_capacity,
                    cursor: 0,
                }),
    {
        let mut frames: Vec<StagingFrame> = Vec::new();
        let mut i: usize = 0;
        while i < buffers.len()
            invariant
                i <= buffers@.len(),
                frames@.len() == i,
                forall|j: int|
                    0 <= j < i ==> #[trigger] frames@[j] == (StagingFrame {
                        buffer: buffers@[j],
                        capacity: frame_capacity,
                        cursor: 0,
                    }),
            decreases buffers@.len() - i,
        {
            frames.push(
                StagingFrame { buffer: buffers[i], capacity: frame_capacity, cursor: 0 },
            );
            i = i + 1;
        }
        StagingRing { frames, current: 0, capacity: frame_capacity }
    }

    /// Goes on to the next frame and empties it. What was pushed into it before must no longer be
    /// in use.
    pub fn begin_frame(&mut self)
        requires
            old(self).wf(),
        ensures
            final(self).wf(),
            final(self).at() == (old(self).at() + 1) % (old(self).slots().len() as int),
            final(self).slots() == old(self).slots().update(
                final(self).at(),
                StagingFrame { cursor: 0, ..old(self).slots()[final(self).at()] },
            ),
            final(self).bytes_per_frame() == old(self).bytes_per_frame(),
    {
        let n: usize = self.frames.len();
        let next: usize = if self.current + 1 == n {
            0
        } else {
            self.current + 1
        };
        assert(next == (self.current + 1) % n as int) by {
            if self.current + 1 < n {
                vstd::arithmetic::div_mod::lemma_small_mod((self.current + 1) as nat, n as nat);
            } else {
                vstd::arithmetic::div_mod::lemma_mod_self_0(n as int);
            }
        }
        let f: StagingFrame = self.frames[next];
        self.frames.set(next, StagingFrame { buffer: f.buffer, capacity: f.capacity, cursor: 0 });
        self.current = next;
    }

    /// Makes room for data in the current frame, at the next multiple of 16. Data that does not
    /// fit is refused.
    pub fn push(&mut self, size: u64) -> (r: Result<StagingRegion, Error>)
        requires
            old(self).wf(),
        ensures
            final(self).wf(),
            final(self).at() == old(self).at(),
            final(self).bytes_per_frame() == old(self).bytes_per_frame(),
            ({
                let f = old(self).slots()[old(self).at()];
                let start = vulkan::round_up(f.cursor as int, 16);
                match r {
                    Ok(region) => {
                        &&& start + size <= f.capacity
                        &&& region.buffer == f.buffer
                        &&& region.offset == start
                        &&& region.size == size
                        &&& final(self).slots() == old(self).slots().update(
                            old(self).at(),
                            StagingFrame { cursor: (start + size) as u64, ..f },
                        )
                    },
                    Err(e) => {
                        &&& start + size > f.capacity
                        &&& e.is_invalid_config("staging ring frame capacity exceeded"@)
                        &&& *final(self) == *old(self)
                    },
                }
            }),
    {
        let f: StagingFrame = self.frames[self.current];
        if f.cursor > u64::MAX - 15 {
            return Err(Error::InvalidConfig("staging ring frame capacity exceeded"));
        }
        let start: u64 = (f.cursor + 15) / 16 * 16;
        if start > f.capacity || size > f.capacity - start {
            return Err(Error::InvalidConfig("staging ring frame capacity exceeded"));
        }
        self.frames.set(
            self.current,
            StagingFrame { buffer: f.buffer, capacity: f.capacity, cursor: start + size },
        );
        Ok(StagingRegion { buffer: f.buffer, offset: start, size })
    }

    /// Bytes that are left in the current frame.
    pub fn remaining(&self) -> (r: u64)
        requires
            self.wf(),
        ensures
            r == self.slots()[self.at()].capacity - self.slots()[self.at()].cursor,
    {
        let f: StagingFrame = self.frames[self.current];
        f.capacity - f.cursor
    }

    /// Bytes per frame.
    pub fn frame_capacity(&self) -> (r: u64)
        ensures
            r == self.bytes_per_frame(),
    {
        self.capacity
    }
}

/// Data pushed later in a frame lies behind data pushed earlier: regions of a frame never overlap.
pub proof fn law_staging_regions_are_disjoint(cursor: u64, first: u64, later_cursor: int)
    requires
        vulkan::round_up(cursor as int, 16) + first <= later_cursor,
    ensures
        vulkan::round_up(cursor as int, 16) >= cursor,
        vulkan::round_up(later_cursor, 16) >= vulkan::round_up(cursor as int, 16) + first,
        vulkan::round_up(cursor as int, 16) % 16 == 0,
{
}

} // verus!
