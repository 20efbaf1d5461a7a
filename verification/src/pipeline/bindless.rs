//! Bindless descriptor heap: one large descriptor set whose slots are handed out by number.
//!
//! A handle holds the number of a slot and the generation that the slot had when it was handed
//! out. Freeing a slot starts its next generation, so a handle that was kept is found out.

use crate::error;
use crate::error::{Error, VkResult};
use crate::text;
use vstd::prelude::*;

verus! {

/// A slot of the heap.
#[derive(Debug, Clone, Copy, PartialEq, Eq, Hash, Structural)]
pub struct BindlessHandle {
    slot: u32,
    generation: u32,
}

impl BindlessHandle {
    /// The number of the slot.
    pub closed spec fn slot_of(self) -> u32 {
        self.slot
    }

    /// The generation of the slot.
    pub closed spec fn generation_of(self) -> u32 {
        self.generation
    }

    /// The number of the slot, by which shaders find the resource.
    pub fn raw(self) -> (r: u32)
        ensures
            r == self.slot_of(),
    {
        self.slot
    }

    /// The generation of the slot.
    pub fn generation(self) -> (r: u32)
        ensures
            r == self.generation_of(),
    {
        self.generation
    }

    /// A handle from its parts. The caller sees to it that they belong to the heap.
    pub fn from_parts(slot: u32, generation: u32) -> (r: BindlessHandle)
        ensures
            r.slot_of() == slot,
            r.generation_of() == generation,
    {
        BindlessHandle { slot, generation }
    }
}

/// A handle is known by its parts.
pub proof fn law_handle_is_its_parts(a: BindlessHandle, b: BindlessHandle)
    requires
        a.slot_of() == b.slot_of(),
        a.generation_of() == b.generation_of(),
    ensures
        a == b,
{
}

/// What can go wrong with the heap.
#[derive(Debug, Clone, Copy)]
pub enum BindlessError {
    /// The slot has been freed since the handle was handed out.
    StaleHandle {
        /// The slot.
        slot: u32,
        /// The generation of the handle.
        expected_generation: u32,
        /// The generation of the slot.
        current_generation: u32,
    },
    /// All slots are in use.
    Exhausted {
        /// Name of the binding.
        binding: &'static str,
        /// Number of its slots.
        capacity: u32,
    },
    /// A Vulkan call failed.
    Vulkan(VkResult),
}

impl BindlessError {
    /// The error in words, where a result code is printed as `code`.
    pub open spec fn words_with(self, code: Seq<char>) -> Seq<char> {
        match self {
            BindlessError::StaleHandle { slot, expected_generation, current_generation } =>
                "bindless handle is stale: slot="@ + text::decimal(slot as int) + ", expected gen="@
                + text::decimal(expected_generation as int) + ", current gen="@ + text::decimal(
                current_generation as int,
            ),
            BindlessError::Exhausted { binding, capacity } => "bindless heap exhausted: binding "@
                + binding@ + " has no free slots (capacity "@ + text::decimal(capacity as int)
                + ")"@,
            BindlessError::Vulkan(_) => "bindless heap Vulkan error: "@ + code,
        }
    }

    /// The error in words, where a result code is printed as `code`.
    pub fn message_with(&self, code: &str) -> (r: String)
        ensures
            r@ == self.words_with(code@),
    {
        match self {
            BindlessError::StaleHandle { slot, expected_generation, current_generation } => {
                let mut o: String = "bindless handle is stale: slot=".to_owned();
                text::push_decimal(&mut o, *slot as u64);
                o.append(", expected gen=");
                text::push_decimal(&mut o, *expected_generation as u64);
                o.append(", current gen=");
                text::push_decimal(&mut o, *current_generation as u64);
                o
            },
            BindlessError::Exhausted { binding, capacity } => {
                let mut o: String = "bindless heap exhausted: binding ".to_owned();
                o.append(binding);
                o.append(" has no free slots (capacity ");
                text::push_decimal(&mut o, *capacity as u64);
                o.append(")");
                o
            },
            BindlessError::Vulkan(_) => text::joined("bindless heap Vulkan error: ", code),
        }
    }

    /// The error in words.
    pub fn message(&self) -> (r: String)
        ensures
            r@ == self.words_with(
                match *self {
                    BindlessError::Vulkan(code) => error::result_code_name(code.raw),
                    _ => ""@,
                },
            ),
    {
        match self {
            BindlessError::Vulkan(code) => {
                let name: String = error::result_code_text(code.raw);
                self.message_with(name.as_str())
            },
            _ => self.message_with(""),
        }
    }
}

impl From<VkResult> for BindlessError {
    fn from(value: VkResult) -> (r: BindlessError) {
        BindlessError::Vulkan(value)
    }
}

impl vstd::std_specs::convert::FromSpecImpl<VkResult> for BindlessError {
    open spec fn obeys_from_spec() -> bool {
        true
    }

    open spec fn from_spec(value: VkResult) -> BindlessError {
        BindlessError::Vulkan(value)
    }
}

impl From<BindlessError> for Error {
    fn from(value: BindlessError) -> (r: Error) {
        match value {
            BindlessError::Vulkan(code) => Error::Vulkan(code),
            BindlessError::StaleHandle { .. } => Error::InvalidConfig(
                "bindless stale handle detected",
            ),
            BindlessError::Exhausted { .. } => Error::InvalidConfig("bindless heap exhausted"),
        }
    }
}

impl vstd::std_specs::convert::FromSpecImpl<BindlessError> for Error {
    open spec fn obeys_from_spec() -> bool {
        true
    }

    open spec fn from_spec(value: BindlessError) -> Error {
        match value {
            BindlessError::Vulkan(code) => Error::Vulkan(code),
            BindlessError::StaleHandle { .. } => Error::InvalidConfig(
                "bindless stale handle detected",
            ),
            BindlessError::Exhausted { .. } => Error::InvalidConfig("bindless heap exhausted"),
        }
    }
}

/// Numbers of slots of a heap.
#[derive(Debug, Clone, Copy, PartialEq, Eq, Structural)]
pub struct BindlessConfig {
    /// Sampled images.
    pub sampled_images: u32,
    /// Storage images.
    pub storage_images: u32,
    /// Samplers.
    pub samplers: u32,
    /// Storage buffers.
    pub storage_buffers: u32,
}

impl Default for BindlessConfig {
    /// 16384 sampled images, 1024 storage images, 1024 samplers and 4096 storage buffers.
    fn default() -> (r: BindlessConfig)
        ensures
            r == (BindlessConfig {
                sampled_images: 16384,
                storage_images: 1024,
                samplers: 1024,
                storage_buffers: 4096,
            }),
    {
        BindlessConfig {
            sampled_images: 16384,
            storage_images: 1024,
            samplers: 1024,
            storage_buffers: 4096,
        }
    }
}

/// Binding of the sampled images.
pub const BINDING_SAMPLED_IMAGE: u32 = 0;

/// Binding of the storage images.
pub const BINDING_STORAGE_IMAGE: u32 = 1;

/// Binding of the samplers.
pub const BINDING_SAMPLER: u32 = 2;

/// Binding of the storage buffers.
pub const BINDING_STORAGE_BUFFER: u32 = 3;

/// The slots of a binding.
#[derive(Debug)]
pub struct FreeList {
    /// The first slot that was never in use.
    pub next_fresh: u32,
    /// Number of slots.
    pub capacity: u32,
    /// Slots that were freed, the next to be used last.
    pub free: Vec<u32>,
    /// Generation of each slot.
    pub generation: Vec<u32>,
    /// Name of the binding.
    pub name: &'static str,
}

/// The generation after another.
pub open spec fn next_generation(g: u32) -> u32 {
    if g == u32::MAX {
        0
    } else {
        (g + 1) as u32
    }
}

impl FreeList {
    /// Each slot has a generation, and freed slots exist.
    pub open spec fn wf(&self) -> bool {
        &&& self.generation@.len() == self.capacity
        &&& self.next_fresh <= self.capacity
        &&& forall|i: int| 0 <= i < self.free@.len() ==> (#[trigger] self.free@[i]) < self.capacity
    }

    /// Only slots that have been in use are free, and each of them once.
    pub open spec fn sound(&self) -> bool {
        &&& self.wf()
        &&& self.free@.no_duplicates()
        &&& forall|i: int|
            0 <= i < self.free@.len() ==> (#[trigger] self.free@[i]) < self.next_fresh
    }

    /// A slot is in use.
    pub open spec fn is_live(&self, slot: int) -> bool {
        0 <= slot < self.next_fresh && !self.free@.contains(slot as u32)
    }

    /// A handle has the generation of its slot.
    pub open spec fn is_current(&self, slot: u32, generation: u32) -> bool {
        slot < self.capacity && self.generation@[slot as int] == generation
    }

    /// No slot is in use.
    pub fn new(capacity: u32, name: &'static str) -> (r: FreeList)
        ensures
            r.sound(),
            r.next_fresh == 0,
            r.capacity == capacity,
            r.free@.len() == 0,
            r.name@ == name@,
            forall|i: int| 0 <= i < capacity ==> #[trigger] r.generation@[i] == 0,
    {
        FreeList {
            next_fresh: 0,
            capacity,
            free: Vec::new(),
            generation: vec![0u32; capacity as usize],
            name,
        }
    }

    /// Takes a slot: the one that was freed last, else one that was never in use.
    pub fn allocate(&mut self) -> (r: Result<(u32, u32), BindlessError>)
        requires
            old(self).wf(),
        ensures
            final(self).wf(),
            final(self).capacity == old(self).capacity,
            final(self).name == old(self).name,
            final(self).generation == old(self).generation,
            old(self).sound() ==> final(self).sound(),
            match r {
                Ok((slot, generation)) => {
                    &&& final(self).is_current(slot, generation)
                    &&& if old(self).free@.len() > 0 {
                        &&& slot == old(self).free@.last()
                        &&& final(self).free@ == old(self).free@.drop_last()
                        &&& final(self).next_fresh == old(self).next_fresh
                    } else {
                        &&& old(self).next_fresh < old(self).capacity
                        &&& slot == old(self).next_fresh
                        &&& final(self).free@ == old(self).free@
                        &&& final(self).next_fresh == old(self).next_fresh + 1
                    }
                    &&& old(self).sound() ==> !old(self).is_live(slot as int)
                    &&& old(self).sound() ==> final(self).is_live(slot as int)
                },
                Err(e) => {
                    &&& old(self).free@.len() == 0
                    &&& old(self).next_fresh == old(self).capacity
                    &&& *final(self) == *old(self)
                    &&& e == (BindlessError::Exhausted {
                        binding: old(self).name,
                        capacity: old(self).capacity,
                    })
                },
            },
    {
        if self.free.len() == 0 && self.next_fresh >= self.capacity {
            return Err(BindlessError::Exhausted { binding: self.name, capacity: self.capacity });
        }
        let ghost before = self.free@;
        let slot: u32 = match self.free.pop() {
            Some(v) => v,
            None => {
                let v: u32 = self.next_fresh;
                self.next_fresh = self.next_fresh + 1;
                v
            },
        };
        proof {
            if before.len() > 0 {
                assert(self.free@ =~= before.drop_last());
                assert(before.contains(before[before.len() - 1]));
                if before.no_duplicates() {
                    assert(!self.free@.contains(slot));
                }
            } else {
                assert(self.free@ =~= before);
            }
        }
        let generation: u32 = self.generation[slot as usize];
        Ok((slot, generation))
    }

    /// Frees a slot and starts its next generation. A stale handle is refused.
    pub fn free(&mut self, slot: u32, expected_generation: u32) -> (r: Result<(), BindlessError>)
        requires
            old(self).wf(),
            slot < old(self).capacity,
        ensures
            final(self).wf(),
            final(self).capacity == old(self).capacity,
            final(self).name == old(self).name,
            final(self).next_fresh == old(self).next_fresh,
            match r {
                Ok(_) => {
                    &&& old(self).is_current(slot, expected_generation)
                    &&& final(self).free@ == old(self).free@.push(slot)
                    &&& final(self).generation@ == old(self).generation@.update(
                        slot as int,
                        next_generation(expected_generation),
                    )
                    &&& old(self).sound() && old(self).is_live(slot as int) ==> final(self).sound()
                },
                Err(e) => {
                    &&& !old(self).is_current(slot, expected_generation)
                    &&& *final(self) == *old(self)
                    &&& e == old(self).stale(slot, expected_generation)
                },
            },
    {
        let current: u32 = self.generation[slot as usize];
        if current != expected_generation {
            return Err(
                BindlessError::StaleHandle {
                    slot,
                    expected_generation,
                    current_generation: current,
                },
            );
        }
        let next: u32 = if current == u32::MAX {
            0
        } else {
            current + 1
        };
        let ghost before = self.free@;
        self.generation.set(slot as usize, next);
        self.free.push(slot);
        proof {
            if before.no_duplicates() && !before.contains(slot) {
                assert(self.free@.no_duplicates());
            }
        }
        Ok(())
    }

    /// The error about a stale handle.
    pub open spec fn stale(&self, slot: u32, expected_generation: u32) -> BindlessError {
        BindlessError::StaleHandle {
            slot,
            expected_generation,
            current_generation: self.generation@[slot as int],
        }
    }

    /// Checks that a handle is not stale.
    pub fn validate(&self, slot: u32, expected_generation: u32) -> (r: Result<(), BindlessError>)
        requires
            self.wf(),
            slot < self.capacity,
        ensures
            r is Ok <==> self.is_current(slot, expected_generation),
            r matches Err(e) ==> e == self.stale(slot, expected_generation),
    {
        let current: u32 = self.generation[slot as usize];
        if current != expected_generation {
            return Err(
                BindlessError::StaleHandle {
                    slot,
                    expected_generation,
                    current_generation: current,
                },
            );
        }
        Ok(())
    }

    /// Number of slots in use.
    pub fn live_count(&self) -> (r: u32)
        requires
            self.sound(),
        ensures
            r == self.next_fresh - self.free@.len(),
    {
        proof {
            lemma_fewer_free_than_used(self.free@, self.next_fresh as int);
        }
        self.next_fresh - self.free.len() as u32
    }
}

/// Different numbers below a bound are no more than the bound.
proof fn lemma_fewer_free_than_used(free: Seq<u32>, n: int)
    requires
        free.no_duplicates(),
        0 <= n,
        forall|i: int| 0 <= i < free.len() ==> (#[trigger] free[i]) < n,
    ensures
        free.len() <= n,
{
    let ints = free.map_values(|v: u32| v as int);
    assert(ints.no_duplicates()) by {
        assert forall|i: int, j: int| 0 <= i < ints.len() && 0 <= j < ints.len() && i != j implies ints[i]
            != ints[j] by {
            assert(free[i] != free[j]);
        }
    }
    ints.unique_seq_to_set();
    vstd::set_lib::lemma_int_range(0, n);
    let range = vstd::set_lib::set_int_range(0, n);
    assert forall|v: int| ints.to_set().contains(v) implies range.contains(v) by {
        let i = choose|i: int| 0 <= i < ints.len() && ints[i] == v;
        assert(free[i] < n);
    }
    vstd::set_lib::lemma_len_subset(ints.to_set(), range);
}

/// A handle goes stale when its slot is freed, whoever gets the slot next.
pub proof fn law_freed_handle_is_stale(before: FreeList, after: FreeList, slot: u32, generation: u32)
    requires
        before.wf(),
        before.is_current(slot, generation),
        after.generation@ == before.generation@.update(
            slot as int,
            next_generation(generation),
        ),
        after.capacity == before.capacity,
    ensures
        !after.is_current(slot, generation),
{
}

/// Freeing a slot leaves the handles of all other slots as they were.
pub proof fn law_free_keeps_other_handles(
    before: FreeList,
    after: FreeList,
    slot: u32,
    generation: u32,
    other: u32,
    g: u32,
)
    requires
        before.wf(),
        slot < before.capacity,
        after.generation@ == before.generation@.update(
            slot as int,
            next_generation(generation),
        ),
        after.capacity == before.capacity,
        other != slot,
    ensures
        after.is_current(other, g) == before.is_current(other, g),
{
}

/// `VK_DESCRIPTOR_TYPE_SAMPLER`.
pub const TYPE_SAMPLER: i32 = 0;

/// `VK_DESCRIPTOR_TYPE_SAMPLED_IMAGE`.
pub const TYPE_SAMPLED_IMAGE: i32 = 2;

/// `VK_DESCRIPTOR_TYPE_STORAGE_IMAGE`.
pub const TYPE_STORAGE_IMAGE: i32 = 3;

/// `VK_DESCRIPTOR_TYPE_STORAGE_BUFFER`.
pub const TYPE_STORAGE_BUFFER: i32 = 7;

/// `VK_SHADER_STAGE_ALL`.
pub const STAGE_ALL: u32 = 0x7FFF_FFFF;

/// `VK_IMAGE_LAYOUT_GENERAL`.
pub const LAYOUT_GENERAL: i32 = 1;

/// The binding flags for descriptors that are written after they are bound: update after bind (1),
/// update unused while pending (2) and partially bound (4).
pub const BINDING_FLAGS: u32 = 7;

/// The flag of layouts and of pools for such descriptors.
pub const UPDATE_AFTER_BIND: u32 = 2;

/// A binding of a descriptor set layout.
#[derive(Debug, Clone, Copy, PartialEq, Eq, Structural)]
pub struct HeapBinding {
    /// Number of the binding.
    pub binding: u32,
    /// Descriptor type.
    pub descriptor_type: i32,
    /// Number of descriptors.
    pub count: u32,
    /// Shader stages.
    pub stages: u32,
    /// Binding flags.
    pub flags: u32,
}

/// The bindings of a heap.
pub open spec fn heap_bindings(config: BindlessConfig) -> Seq<HeapBinding> {
    seq![
        HeapBinding {
            binding: BINDING_SAMPLED_IMAGE,
            descriptor_type: TYPE_SAMPLED_IMAGE,
            count: config.sampled_images,
            stages: STAGE_ALL,
            flags: BINDING_FLAGS,
        },
        HeapBinding {
            binding: BINDING_STORAGE_IMAGE,
            descriptor_type: TYPE_STORAGE_IMAGE,
            count: config.storage_images,
            stages: STAGE_ALL,
            flags: BINDING_FLAGS,
        },
        HeapBinding {
            binding: BINDING_SAMPLER,
            descriptor_type: TYPE_SAMPLER,
            count: config.samplers,
            stages: STAGE_ALL,
            flags: BINDING_FLAGS,
        },
        HeapBinding {
            binding: BINDING_STORAGE_BUFFER,
            descriptor_type: TYPE_STORAGE_BUFFER,
            count: config.storage_buffers,
            stages: STAGE_ALL,
            flags: BINDING_FLAGS,
        },
    ]
}

fn heap_binding(binding: u32, descriptor_type: i32, count: u32) -> (r: HeapBinding)
    ensures
        r == (HeapBinding {
            binding,
            descriptor_type,
            count,
            stages: STAGE_ALL,
            flags: BINDING_FLAGS,
        }),
{
    HeapBinding { binding, descriptor_type, count, stages: STAGE_ALL, flags: BINDING_FLAGS }
}

/// The bindings that the layout and the pool of a heap are created with. The pool holds one set and
/// as many descriptors of each type as the binding has.
pub fn bindings_of(config: &BindlessConfig) -> (r: Vec<HeapBinding>)
    ensures
        r@ == heap_bindings(*config),
{
    let mut r: Vec<HeapBinding> = Vec::new();
    r.push(heap_binding(BINDING_SAMPLED_IMAGE, TYPE_SAMPLED_IMAGE, config.sampled_images));
    r.push(heap_binding(BINDING_STORAGE_IMAGE, TYPE_STORAGE_IMAGE, config.storage_images));
    r.push(heap_binding(BINDING_SAMPLER, TYPE_SAMPLER, config.samplers));
    r.push(heap_binding(BINDING_STORAGE_BUFFER, TYPE_STORAGE_BUFFER, config.storage_buffers));
    assert(r@ =~= heap_bindings(*config));
    r
}

/// What a descriptor refers to.
#[derive(Debug, Clone, Copy, PartialEq, Eq, Structural)]
pub enum Descriptor {
    /// An image or a sampler; what is not used is null.
    Image {
        /// The sampler.
        sampler: u64,
        /// The image view.
        view: u64,
        /// The layout.
        layout: i32,
    },
    /// A part of a buffer.
    Buffer {
        /// The buffer.
        buffer: u64,
        /// First byte.
        offset: u64,
        /// Number of bytes.
        range: u64,
    },
}

/// A write of one descriptor.
#[derive(Debug, Clone, Copy, PartialEq, Eq, Structural)]
pub struct DescriptorWrite {
    /// The descriptor set.
    pub set: u64,
    /// The binding.
    pub binding: u32,
    /// The slot.
    pub element: u32,
    /// Descriptor type.
    pub descriptor_type: i32,
    /// What the descriptor refers to.
    pub descriptor: Descriptor,
}

/// Number of slots in use, per binding.
#[derive(Debug, Clone, Copy, PartialEq, Eq, Structural)]
pub struct BindlessLiveCounts {
    /// Sampled images.
    pub sampled_images: u32,
    /// Storage images.
    pub storage_images: u32,
    /// Samplers.
    pub samplers: u32,
    /// Storage buffers.
    pub storage_buffers: u32,
}

/// The heap. The layout, the pool and the set are made by the caller, who also makes the
/// descriptor writes that come out of registering and updating.
#[derive(Debug)]
pub struct BindlessHeap {
    /// Handle of the descriptor set layout.
    pub layout: u64,
    /// Handle of the descriptor set.
    pub set: u64,
    /// Numbers of slots.
    pub config: BindlessConfig,
    /// Slots of sampled images.
    pub sampled_images: FreeList,
    /// Slots of storage images.
    pub storage_images: FreeList,
    /// Slots of samplers.
    pub samplers: FreeList,
    /// Slots of storage buffers.
    pub storage_buffers: FreeList,
}

/// What registering with a list of slots comes to: the write of a descriptor into the slot that was
/// taken, or the error that all slots are in use.
pub open spec fn registers(
    before: FreeList,
    after: FreeList,
    set: u64,
    binding: u32,
    descriptor_type: i32,
    descriptor: Descriptor,
    r: Result<(BindlessHandle, DescriptorWrite), BindlessError>,
) -> bool {
    match r {
        Ok((handle, write)) => {
            let slot = handle.slot_of();
            &&& if before.free@.len() > 0 {
                &&& slot == before.free@.last()
                &&& after.free@ == before.free@.drop_last()
                &&& after.next_fresh == before.next_fresh
            } else {
                &&& before.next_fresh < before.capacity
                &&& slot == before.next_fresh
                &&& after.free@ == before.free@
                &&& after.next_fresh == before.next_fresh + 1
            }
            &&& after.generation == before.generation
            &&& after.capacity == before.capacity
            &&& after.is_current(slot, handle.generation_of())
            &&& write == (DescriptorWrite {
                set,
                binding,
                element: slot,
                descriptor_type,
                descriptor,
            })
        },
        Err(e) => {
            &&& before.free@.len() == 0
            &&& before.next_fresh == before.capacity
            &&& after == before
            &&& e == (BindlessError::Exhausted { binding: before.name, capacity: before.capacity })
        },
    }
}

/// What updating a slot comes to: the write of a descriptor into the slot, or the error that the
/// handle is stale.
pub open spec fn updates(
    list: FreeList,
    set: u64,
    binding: u32,
    descriptor_type: i32,
    descriptor: Descriptor,
    handle: BindlessHandle,
    r: Result<DescriptorWrite, BindlessError>,
) -> bool {
    if list.is_current(handle.slot_of(), handle.generation_of()) {
        r == Ok::<DescriptorWrite, BindlessError>(
            DescriptorWrite {
                set,
                binding,
                element: handle.slot_of(),
                descriptor_type,
                descriptor,
            },
        )
    } else {
        r == Err::<DescriptorWrite, BindlessError>(
            list.stale(handle.slot_of(), handle.generation_of()),
        )
    }
}

/// What freeing a slot comes to: the slot is free and in its next generation, or the error that the
/// handle is stale.
pub open spec fn frees(
    before: FreeList,
    after: FreeList,
    handle: BindlessHandle,
    r: Result<(), BindlessError>,
) -> bool {
    if before.is_current(handle.slot_of(), handle.generation_of()) {
        &&& r is Ok
        &&& after.free@ == before.free@.push(handle.slot_of())
        &&& after.generation@ == before.generation@.update(
            handle.slot_of() as int,
            next_generation(handle.generation_of()),
        )
        &&& after.next_fresh == before.next_fresh
        &&& after.capacity == before.capacity
    } else {
        &&& r == Err::<(), BindlessError>(before.stale(handle.slot_of(), handle.generation_of()))
        &&& after == before
    }
}

fn register(
    list: &mut FreeList,
    set: u64,
    binding: u32,
    descriptor_type: i32,
    descriptor: Descriptor,
) -> (r: Result<(BindlessHandle, DescriptorWrite), BindlessError>)
    requires
        old(list).wf(),
    ensures
        final(list).wf(),
        final(list).name == old(list).name,
        final(list).capacity == old(list).capacity,
        old(list).sound() ==> final(list).sound(),
        registers(*old(list), *final(list), set, binding, descriptor_type, descriptor, r),
{
    match list.allocate() {
        Ok((slot, generation)) => {
            let write: DescriptorWrite = DescriptorWrite {
                set,
                binding,
                element: slot,
                descriptor_type,
                descriptor,
            };
            Ok((BindlessHandle { slot, generation }, write))
        },
        Err(e) => Err(e),
    }
}

fn update(
    list: &FreeList,
    set: u64,
    binding: u32,
    descriptor_type: i32,
    descriptor: Descriptor,
    handle: BindlessHandle,
) -> (r: Result<DescriptorWrite, BindlessError>)
    requires
        list.wf(),
        handle.slot_of() < list.capacity,
    ensures
        updates(*list, set, binding, descriptor_type, descriptor, handle, r),
{
    match list.validate(handle.slot, handle.generation) {
        Ok(_) => Ok(
            DescriptorWrite { set, binding, element: handle.slot, descriptor_type, descriptor },
        ),
        Err(e) => Err(e),
    }
}

impl BindlessHeap {
    /// All four lists of slots are well-formed.
    pub open spec fn wf(&self) -> bool {
        &&& self.sampled_images.wf()
        &&& self.storage_images.wf()
        &&& self.samplers.wf()
        &&& self.storage_buffers.wf()
    }

    /// All four lists of slots are sound.
    pub open spec fn sound(&self) -> bool {
        &&& self.sampled_images.sound()
        &&& self.storage_images.sound()
        &&& self.samplers.sound()
        &&& self.storage_buffers.sound()
    }

    /// The heap is the same but for its slots.
    pub open spec fn same_set(&self, other: &BindlessHeap) -> bool {
        &&& other.layout == self.layout
        &&& other.set == self.set
        &&& other.config == self.config
    }

    /// A heap over a layout and a set that were made for a configuration. No slot is in use.
    pub fn new(layout: u64, set: u64, config: BindlessConfig) -> (r: BindlessHeap)
        ensures
            r.sound(),
            r.layout == layout,
            r.set == set,
            r.config == config,
            r.sampled_images.capacity == config.sampled_images,
            r.sampled_images.next_fresh == 0,
            r.sampled_images.free@.len() == 0,
            r.sampled_images.name@ == "sampled_images"@,
            forall|i: int|
                0 <= i < config.sampled_images ==> #[trigger] r.sampled_images.generation@[i] == 0,
            r.storage_images.capacity == config.storage_images,
            r.storage_images.next_fresh == 0,
            r.storage_images.free@.len() == 0,
            r.storage_images.name@ == "storage_images"@,
            forall|i: int|
                0 <= i < config.storage_images ==> #[trigger] r.storage_images.generation@[i] == 0,
            r.samplers.capacity == config.samplers,
            r.samplers.next_fresh == 0,
            r.samplers.free@.len() == 0,
            r.samplers.name@ == "samplers"@,
            forall|i: int|
                0 <= i < config.samplers ==> #[trigger] r.samplers.generation@[i] == 0,
            r.storage_buffers.capacity == config.storage_buffers,
            r.storage_buffers.next_fresh == 0,
            r.storage_buffers.free@.len() == 0,
            r.storage_buffers.name@ == "storage_buffers"@,
            forall|i: int|
                0 <= i < config.storage_buffers ==> #[trigger] r.storage_buffers.generation@[i] == 0,
    {
        BindlessHeap {
            layout,
            set,
            config,
            sampled_images: FreeList::new(config.sampled_images, "sampled_images"),
            storage_images: FreeList::new(config.storage_images, "storage_images"),
            samplers: FreeList::new(config.samplers, "samplers"),
            storage_buffers: FreeList::new(config.storage_buffers, "storage_buffers"),
        }
    }

    /// Handle of the descriptor set layout.
    pub fn layout(&self) -> (r: u64)
        ensures
            r == self.layout,
    {
        self.layout
    }

    /// Handle of the descriptor set.
    pub fn set(&self) -> (r: u64)
        ensures
            r == self.set,
    {
        self.set
    }

    /// Numbers of slots.
    pub fn config(&self) -> (r: &BindlessConfig)
        ensures
            *r == self.config,
    {
        &self.config
    }

    /// Number of slots in use, per binding.
    pub fn live_counts(&self) -> (r: BindlessLiveCounts)
        requires
            self.sound(),
        ensures
            r.sampled_images == self.sampled_images.next_fresh - self.sampled_images.free@.len(),
            r.storage_images == self.storage_images.next_fresh - self.storage_images.free@.len(),
            r.samplers == self.samplers.next_fresh - self.samplers.free@.len(),
            r.storage_buffers == self.storage_buffers.next_fresh - self.storage_buffers.free@.len(),
    {
        BindlessLiveCounts {
            sampled_images: self.sampled_images.live_count(),
            storage_images: self.storage_images.live_count(),
            samplers: self.samplers.live_count(),
            storage_buffers: self.storage_buffers.live_count(),
        }
    }

    /// Registers a sampled image.
    pub fn register_sampled_image(&mut self, view: u64, layout: i32) -> (r: Result<
        (BindlessHandle, DescriptorWrite),
        BindlessError,
    >)
        requires
            old(self).wf(),
        ensures
            final(self).wf(),
            old(self).sound() ==> final(self).sound(),
            old(self).same_set(final(self)),
            final(self).storage_images == old(self).storage_images,
            final(self).samplers == old(self).samplers,
            final(self).storage_buffers == old(self).storage_buffers,
            registers(
                old(self).sampled_images,
                final(self).sampled_images,
                old(self).set,
                BINDING_SAMPLED_IMAGE,
                TYPE_SAMPLED_IMAGE,
                Descriptor::Image { sampler: 0, view, layout },
                r,
            ),
    {
        register(
            &mut self.sampled_images,
            self.set,
            BINDING_SAMPLED_IMAGE,
            TYPE_SAMPLED_IMAGE,
            Descriptor::Image { sampler: 0, view, layout },
        )
    }

    /// Puts a sampled image into a slot in place of what is there. The handle stays valid.
    pub fn update_sampled_image(&self, handle: BindlessHandle, view: u64, layout: i32) -> (r: Result<
        DescriptorWrite,
        BindlessError,
    >)
        requires
            self.wf(),
            handle.slot_of() < self.sampled_images.capacity,
        ensures
            updates(
                self.sampled_images,
                self.set,
                BINDING_SAMPLED_IMAGE,
                TYPE_SAMPLED_IMAGE,
                Descriptor::Image { sampler: 0, view, layout },
                handle,
                r,
            ),
    {
        update(
            &self.sampled_images,
            self.set,
            BINDING_SAMPLED_IMAGE,
            TYPE_SAMPLED_IMAGE,
            Descriptor::Image { sampler: 0, view, layout },
            handle,
        )
    }

    /// Frees the slot of a sampled image.
    pub fn free_sampled_image(&mut self, handle: BindlessHandle) -> (r: Result<(), BindlessError>)
        requires
            old(self).wf(),
            handle.slot_of() < old(self).sampled_images.capacity,
        ensures
            final(self).wf(),
            old(self).sound() && old(self).sampled_images.is_live(handle.slot_of() as int) ==> (
            final(self).sound()),
            old(self).same_set(final(self)),
            final(self).storage_images == old(self).storage_images,
            final(self).samplers == old(self).samplers,
            final(self).storage_buffers == old(self).storage_buffers,
            frees(old(self).sampled_images, final(self).sampled_images, handle, r),
    {
        self.sampled_images.free(handle.slot, handle.generation)
    }

    /// Registers a storage image.
    pub fn register_storage_image(&mut self, view: u64) -> (r: Result<
        (BindlessHandle, DescriptorWrite),
        BindlessError,
    >)
        requires
            old(self).wf(),
        ensures
            final(self).wf(),
            old(self).sound() ==> final(self).sound(),
            old(self).same_set(final(self)),
            final(self).sampled_images == old(self).sampled_images,
            final(self).samplers == old(self).samplers,
            final(self).storage_buffers == old(self).storage_buffers,
            registers(
                old(self).storage_images,
                final(self).storage_images,
                old(self).set,
                BINDING_STORAGE_IMAGE,
                TYPE_STORAGE_IMAGE,
                Descriptor::Image { sampler: 0, view, layout: LAYOUT_GENERAL },
                r,
            ),
    {
        register(
            &mut self.storage_images,
            self.set,
            BINDING_STORAGE_IMAGE,
            TYPE_STORAGE_IMAGE,
            Descriptor::Image { sampler: 0, view, layout: LAYOUT_GENERAL },
        )
    }

    /// Puts a storage image into a slot in place of what is there. The handle stays valid.
    pub fn update_storage_image(&self, handle: BindlessHandle, view: u64) -> (r: Result<
        DescriptorWrite,
        BindlessError,
    >)
        requires
            self.wf(),
            handle.slot_of() < self.storage_images.capacity,
        ensures
            updates(
                self.storage_images,
                self.set,
                BINDING_STORAGE_IMAGE,
                TYPE_STORAGE_IMAGE,
                Descriptor::Image { sampler: 0, view, layout: LAYOUT_GENERAL },
                handle,
                r,
            ),
    {
        update(
            &self.storage_images,
            self.set,
            BINDING_STORAGE_IMAGE,
            TYPE_STORAGE_IMAGE,
            Descriptor::Image { sampler: 0, view, layout: LAYOUT_GENERAL },
            handle,
        )
    }

    /// Frees the slot of a storage image.
    pub fn free_storage_image(&mut self, handle: BindlessHandle) -> (r: Result<(), BindlessError>)
        requires
            old(self).wf(),
            handle.slot_of() < old(self).storage_images.capacity,
        ensures
            final(self).wf(),
            old(self).sound() && old(self).storage_images.is_live(handle.slot_of() as int) ==> (
            final(self).sound()),
            old(self).same_set(final(self)),
            final(self).sampled_images == old(self).sampled_images,
            final(self).samplers == old(self).samplers,
            final(self).storage_buffers == old(self).storage_buffers,
            frees(old(self).storage_images, final(self).storage_images, handle, r),
    {
        self.storage_images.free(handle.slot, handle.generation)
    }

    /// Registers a sampler.
    pub fn register_sampler(&mut self, sampler: u64) -> (r: Result<
        (BindlessHandle, DescriptorWrite),
        BindlessError,
    >)
        requires
            old(self).wf(),
        ensures
            final(self).wf(),
            old(self).sound() ==> final(self).sound(),
            old(self).same_set(final(self)),
            final(self).sampled_images == old(self).sampled_images,
            final(self).storage_images == old(self).storage_images,
            final(self).storage_buffers == old(self).storage_buffers,
            registers(
                old(self).samplers,
                final(self).samplers,
                old(self).set,
                BINDING_SAMPLER,
                TYPE_SAMPLER,
                Descriptor::Image { sampler, view: 0, layout: 0 },
                r,
            ),
    {
        register(
            &mut self.samplers,
            self.set,
            BINDING_SAMPLER,
            TYPE_SAMPLER,
            Descriptor::Image { sampler, view: 0, layout: 0 },
        )
    }

    /// Puts a sampler into a slot in place of what is there. The handle stays valid.
    pub fn update_sampler(&self, handle: BindlessHandle, sampler: u64) -> (r: Result<
        DescriptorWrite,
        BindlessError,
    >)
        requires
            self.wf(),
            handle.slot_of() < self.samplers.capacity,
        ensures
            updates(
                self.samplers,
                self.set,
                BINDING_SAMPLER,
                TYPE_SAMPLER,
                Descriptor::Image { sampler, view: 0, layout: 0 },
                handle,
                r,
            ),
    {
        update(
            &self.samplers,
            self.set,
            BINDING_SAMPLER,
            TYPE_SAMPLER,
            Descriptor::Image { sampler, view: 0, layout: 0 },
            handle,
        )
    }

    /// Frees the slot of a sampler.
    pub fn free_sampler(&mut self, handle: BindlessHandle) -> (r: Result<(), BindlessError>)
        requires
            old(self).wf(),
            handle.slot_of() < old(self).samplers.capacity,
        ensures
            final(self).wf(),
            old(self).sound() && old(self).samplers.is_live(handle.slot_of() as int) ==> (
            final(self).sound()),
            old(self).same_set(final(self)),
            final(self).sampled_images == old(self).sampled_images,
            final(self).storage_images == old(self).storage_images,
            final(self).storage_buffers == old(self).storage_buffers,
            frees(old(self).samplers, final(self).samplers, handle, r),
    {
        self.samplers.free(handle.slot, handle.generation)
    }

    /// Registers a part of a storage buffer.
    pub fn register_storage_buffer(&mut self, buffer: u64, offset: u64, range: u64) -> (r: Result<
        (BindlessHandle, DescriptorWrite),
        BindlessError,
    >)
        requires
            old(self).wf(),
        ensures
            final(self).wf(),
            old(self).sound() ==> final(self).sound(),
            old(self).same_set(final(self)),
            final(self).sampled_images == old(self).sampled_images,
            final(self).storage_images == old(self).storage_images,
            final(self).samplers == old(self).samplers,
            registers(
                old(self).storage_buffers,
                final(self).storage_buffers,
                old(self).set,
                BINDING_STORAGE_BUFFER,
                TYPE_STORAGE_BUFFER,
                Descriptor::Buffer { buffer, offset, range },
                r,
            ),
    {
        register(
            &mut self.storage_buffers,
            self.set,
            BINDING_STORAGE_BUFFER,
            TYPE_STORAGE_BUFFER,
            Descriptor::Buffer { buffer, offset, range },
        )
    }

    /// Puts a part of a storage buffer into a slot in place of what is there. The handle stays valid.
    pub fn update_storage_buffer(&self, handle: BindlessHandle, buffer: u64, offset: u64, range: u64) -> (r: Result<
        DescriptorWrite,
        BindlessError,
    >)
        requires
            self.wf(),
            handle.slot_of() < self.storage_buffers.capacity,
        ensures
            updates(
                self.storage_buffers,
                self.set,
                BINDING_STORAGE_BUFFER,
                TYPE_STORAGE_BUFFER,
                Descriptor::Buffer { buffer, offset, range },
                handle,
                r,
            ),
    {
        update(
            &self.storage_buffers,
            self.set,
            BINDING_STORAGE_BUFFER,
            TYPE_STORAGE_BUFFER,
            Descriptor::Buffer { buffer, offset, range },
            handle,
        )
    }

    /// Frees the slot of a part of a storage buffer.
    pub fn free_storage_buffer(&mut self, handle: BindlessHandle) -> (r: Result<(), BindlessError>)
        requires
            old(self).wf(),
            handle.slot_of() < old(self).storage_buffers.capacity,
        ensures
            final(self).wf(),
            old(self).sound() && old(self).storage_buffers.is_live(handle.slot_of() as int) ==> (
            final(self).sound()),
            old(self).same_set(final(self)),
            final(self).sampled_images == old(self).sampled_images,
            final(self).storage_images == old(self).storage_images,
            final(self).samplers == old(self).samplers,
            frees(old(self).storage_buffers, final(self).storage_buffers, handle, r),
    {
        self.storage_buffers.free(handle.slot, handle.generation)
    }
}

/// Use after free is found out: once its slot was freed a handle is refused, even when the slot
/// has been handed out again.
pub proof fn law_use_after_free_is_found_out(
    l0: FreeList,
    l1: FreeList,
    l2: FreeList,
    handle: BindlessHandle,
    set: u64,
    binding: u32,
    descriptor_type: i32,
    first: Descriptor,
    second: Descriptor,
    registered: Result<(BindlessHandle, DescriptorWrite), BindlessError>,
    updated: Result<DescriptorWrite, BindlessError>,
)
    requires
        l0.wf(),
        handle.slot_of() < l0.capacity,
        frees(l0, l1, handle, Ok(())),
        registers(l1, l2, set, binding, descriptor_type, first, registered),
        updates(l2, set, binding, descriptor_type, second, handle, updated),
    ensures
        updated matches Err(e) && e is StaleHandle,
{
}

/// A slot that is handed out again after it was freed has the next generation.
pub proof fn law_reused_slot_has_next_generation(
    l0: FreeList,
    l1: FreeList,
    l2: FreeList,
    handle: BindlessHandle,
    set: u64,
    binding: u32,
    descriptor_type: i32,
    descriptor: Descriptor,
    registered: Result<(BindlessHandle, DescriptorWrite), BindlessError>,
)
    requires
        l0.wf(),
        handle.slot_of() < l0.capacity,
        frees(l0, l1, handle, Ok(())),
        registers(l1, l2, set, binding, descriptor_type, descriptor, registered),
    ensures
        registered matches Ok((h, _)) && h.slot_of() == handle.slot_of() && h.generation_of()
            == next_generation(handle.generation_of()),
{
}

} // verus!
