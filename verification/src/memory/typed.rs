//! Buffers of elements of one type.

use crate::memory::resources::{Buffer, BufferInfo, MemoryLocation};
use crate::vulkan;
use std::marker::PhantomData;
use vstd::prelude::*;

verus! {

/// What a buffer for elements of a size is created with, if its size fits.
pub fn typed_info(element_count: usize, element_size: usize, usage: u32, location: MemoryLocation) -> (r:
    Option<BufferInfo>)
    ensures
        match r {
            Some(info) => info == BufferInfo::exclusive(
                (element_count * element_size) as u64,
                usage,
                location,
            ) && element_count * element_size <= usize::MAX,
            None => element_count * element_size > usize::MAX,
        },
{
    match element_count.checked_mul(element_size) {
        Some(size) => Some(
            BufferInfo {
                size: size as u64,
                usage,
                location,
                sharing_mode: vulkan::SHARING_EXCLUSIVE,
            },
        ),
        None => None,
    }
}

/// A buffer with elements of one type.
pub struct TypedBuffer<T> {
    inner: Buffer,
    element_count: usize,
    marker: PhantomData<T>,
}

impl<T> TypedBuffer<T> {
    /// The buffer.
    pub closed spec fn base(&self) -> Buffer {
        self.inner
    }

    /// Number of elements.
    pub closed spec fn count(&self) -> int {
        self.element_count as int
    }

    /// Bytes of an element.
    pub open spec fn stride() -> int {
        vstd::layout::size_of::<T>() as int
    }

    /// The buffer is as large as its elements, and all bytes can be numbered.
    pub closed spec fn wf(&self) -> bool {
        &&& self.inner.size == self.element_count * TypedBuffer::<T>::stride()
        &&& self.element_count * TypedBuffer::<T>::stride() <= usize::MAX
    }

    /// The elements of a buffer that was made for them.
    pub fn new(inner: Buffer, element_count: usize) -> (r: TypedBuffer<T>)
        requires
            inner.size == element_count * TypedBuffer::<T>::stride(),
            element_count * TypedBuffer::<T>::stride() <= usize::MAX,
        ensures
            r.wf(),
            r.base() == inner,
            r.count() == element_count,
    {
        TypedBuffer { inner, element_count, marker: PhantomData }
    }

    /// Number of elements.
    pub fn element_count(&self) -> (r: usize)
        ensures
            r == self.count(),
    {
        self.element_count
    }

    /// Size in bytes.
    pub fn byte_size(&self) -> (r: u64)
        requires
            self.wf(),
        ensures
            r == self.count() * TypedBuffer::<T>::stride(),
    {
        self.inner.size
    }

    /// The first byte of an element, which has to exist.
    pub fn write(&self, index: usize) -> (r: usize)
        requires
            self.wf(),
            index < self.count(),
        ensures
            r == index * TypedBuffer::<T>::stride(),
            r + TypedBuffer::<T>::stride() <= self.base().size,
    {
        proof {
            lemma_element_bounds(
                index as int,
                1,
                self.element_count as int,
                TypedBuffer::<T>::stride(),
            );
        }
        index * std::mem::size_of::<T>()
    }

    /// The first byte and the number of bytes of elements that stand in a row, all of which have to
    /// exist.
    pub fn write_slice(&self, start_index: usize, len: usize) -> (r: (usize, usize))
        requires
            self.wf(),
            start_index + len <= self.count(),
        ensures
            r.0 == start_index * TypedBuffer::<T>::stride(),
            r.1 == len * TypedBuffer::<T>::stride(),
            r.0 + r.1 <= self.base().size,
    {
        proof {
            lemma_element_bounds(
                start_index as int,
                len as int,
                self.element_count as int,
                TypedBuffer::<T>::stride(),
            );
        }
        (start_index * std::mem::size_of::<T>(), len * std::mem::size_of::<T>())
    }

    /// The first byte of an element, which has to exist.
    pub fn read(&self, index: usize) -> (r: usize)
        requires
            self.wf(),
            index < self.count(),
        ensures
            r == index * TypedBuffer::<T>::stride(),
            r + TypedBuffer::<T>::stride() <= self.base().size,
    {
        self.write(index)
    }

    /// The buffer.
    pub fn buffer(&self) -> (r: &Buffer)
        ensures
            *r == self.base(),
    {
        &self.inner
    }

    /// Handle of the buffer.
    pub fn handle(&self) -> (r: u64)
        ensures
            r == self.base().handle,
    {
        self.inner.handle
    }
}

/// Elements in a row lie within the bytes of all elements.
proof fn lemma_element_bounds(start: int, len: int, count: int, stride: int)
    requires
        0 <= start,
        0 <= len,
        start + len <= count,
        0 <= stride,
    ensures
        0 <= start * stride,
        0 <= len * stride,
        start * stride + len * stride <= count * stride,
{
    assert(0 <= start * stride && 0 <= len * stride && start * stride + len * stride <= count
        * stride) by (nonlinear_arith)
        requires
            0 <= start,
            0 <= len,
            start + len <= count,
            0 <= stride,
    ;
}

/// Different elements do not share bytes.
pub proof fn law_elements_are_disjoint(i: int, j: int, stride: int)
    requires
        0 <= i < j,
        0 <= stride,
    ensures
        i * stride + stride <= j * stride,
{
    assert(i * stride + stride <= j * stride) by (nonlinear_arith)
        requires
            0 <= i < j,
            0 <= stride,
    ;
}

} // verus!
