//! Descriptor set layouts and pools, writes to sets, and pools that grow.

use crate::error::{Error, VkResult};
use vstd::prelude::*;

verus! {

/// `VK_DESCRIPTOR_POOL_CREATE_FREE_DESCRIPTOR_SET_BIT`.
pub const POOL_FREE_DESCRIPTOR_SET: u32 = 1;

/// `VK_ERROR_OUT_OF_POOL_MEMORY`.
pub const OUT_OF_POOL_MEMORY: i32 = -1000069000;

/// `VK_ERROR_FRAGMENTED_POOL`.
pub const FRAGMENTED_POOL: i32 = -12;

/// A binding of a descriptor set layout.
#[derive(Debug, Clone, Copy, PartialEq, Eq, Structural)]
pub struct LayoutBinding {
    /// Number of the binding.
    pub binding: u32,
    /// Descriptor type.
    pub descriptor_type: i32,
    /// Number of descriptors.
    pub count: u32,
    /// Shader stages.
    pub stage_flags: u32,
}

/// Builder for a descriptor set layout. It is what the driver is given.
#[derive(Debug)]
pub struct DescriptorSetLayoutBuilder {
    /// Bindings.
    pub bindings: Vec<LayoutBinding>,
}

impl DescriptorSetLayoutBuilder {
    /// A layout without bindings.
    pub fn new() -> (r: DescriptorSetLayoutBuilder)
        ensures
            r.bindings@.len() == 0,
    {
        DescriptorSetLayoutBuilder { bindings: Vec::new() }
    }

    /// Adds a binding.
    pub fn binding(self, binding: u32, descriptor_type: i32, count: u32, stage_flags: u32) -> (r:
        DescriptorSetLayoutBuilder)
        ensures
            r.bindings@ == self.bindings@.push(
                LayoutBinding { binding, descriptor_type, count, stage_flags },
            ),
    {
        let mut b: DescriptorSetLayoutBuilder = self;
        b.bindings.push(LayoutBinding { binding, descriptor_type, count, stage_flags });
        b
    }
}

/// Number of descriptors of a type in a pool.
#[derive(Debug, Clone, Copy, PartialEq, Eq, Structural)]
pub struct PoolSize {
    /// Descriptor type.
    pub ty: i32,
    /// Number of descriptors.
    pub descriptor_count: u32,
}

/// Builder for a descriptor pool. It is what the driver is given.
#[derive(Debug)]
pub struct DescriptorPoolBuilder {
    /// Number of descriptors per type.
    pub sizes: Vec<PoolSize>,
    /// Greatest number of sets.
    pub max_sets: u32,
    /// Pool flags.
    pub flags: u32,
}

impl DescriptorPoolBuilder {
    /// A pool for one set, without descriptors.
    pub fn new() -> (r: DescriptorPoolBuilder)
        ensures
            r.sizes@.len() == 0,
            r.max_sets == 1,
            r.flags == 0,
    {
        DescriptorPoolBuilder { sizes: Vec::new(), max_sets: 1, flags: 0 }
    }

    /// Sets the greatest number of sets.
    pub fn max_sets(self, n: u32) -> (r: DescriptorPoolBuilder)
        ensures
            r == (DescriptorPoolBuilder { max_sets: n, ..self }),
    {
        DescriptorPoolBuilder { max_sets: n, ..self }
    }

    /// Adds descriptors of a type.
    pub fn pool_size(self, ty: i32, count: u32) -> (r: DescriptorPoolBuilder)
        ensures
            r.sizes@ == self.sizes@.push(PoolSize { ty, descriptor_count: count }),
            r.max_sets == self.max_sets,
            r.flags == self.flags,
    {
        let mut b: DescriptorPoolBuilder = self;
        b.sizes.push(PoolSize { ty, descriptor_count: count });
        b
    }

    /// Allows sets to be freed one by one.
    pub fn free_descriptor_set(self) -> (r: DescriptorPoolBuilder)
        ensures
            r == (DescriptorPoolBuilder { flags: self.flags | POOL_FREE_DESCRIPTOR_SET, ..self }),
    {
        let flags: u32 = self.flags | POOL_FREE_DESCRIPTOR_SET;
        DescriptorPoolBuilder { flags, ..self }
    }
}

/// What comes of a call that hands out a handle. `outcome` is what the driver says.
pub fn handed_out(outcome: Result<u64, VkResult>) -> (r: Result<u64, Error>)
    ensures
        r == match outcome {
            Ok(handle) => Ok::<u64, Error>(handle),
            Err(code) => Err(Error::Vulkan(code)),
        },
{
    match outcome {
        Ok(handle) => Ok(handle),
        Err(code) => Err(Error::Vulkan(code)),
    }
}

/// What comes of allocating sets from a pool.
pub fn allocate_descriptor_sets(outcome: Result<Vec<u64>, VkResult>) -> (r: Result<
    Vec<u64>,
    Error,
>)
    ensures
        r == match outcome {
            Ok(sets) => Ok::<Vec<u64>, Error>(sets),
            Err(code) => Err(Error::Vulkan(code)),
        },
{
    match outcome {
        Ok(sets) => Ok(sets),
        Err(code) => Err(Error::Vulkan(code)),
    }
}

/// A part of a buffer for a descriptor.
#[derive(Debug, Clone, Copy, PartialEq, Eq, Structural)]
pub struct DescriptorBufferInfo {
    /// Handle of the buffer.
    pub buffer: u64,
    /// First byte.
    pub offset: u64,
    /// Number of bytes.
    pub range: u64,
}

/// An image for a descriptor.
#[derive(Debug, Clone, Copy, PartialEq, Eq, Structural)]
pub struct DescriptorImageInfo {
    /// Handle of the sampler.
    pub sampler: u64,
    /// Handle of the image view.
    pub image_view: u64,
    /// Image layout.
    pub image_layout: i32,
}

/// What is written to a binding.
#[derive(Debug, Clone, Copy, PartialEq, Eq, Structural)]
pub enum WriteInfo {
    /// A part of a buffer.
    Buffer(DescriptorBufferInfo),
    /// An image.
    Image(DescriptorImageInfo),
}

/// A write to a binding.
#[derive(Debug, Clone, Copy, PartialEq, Eq, Structural)]
pub struct PreparedWrite {
    /// Number of the binding.
    pub binding: u32,
    /// Descriptor type.
    pub ty: i32,
    /// What is written.
    pub info: WriteInfo,
}

/// Builder for writes to a descriptor set.
#[derive(Debug)]
pub struct DescriptorWriter {
    /// Handle of the set.
    pub set: u64,
    /// The writes.
    pub writes: Vec<PreparedWrite>,
}

/// A write that refers to where its info stands.
#[derive(Debug, Clone, Copy, PartialEq, Eq, Structural)]
pub struct WriteRef {
    /// Number of the binding.
    pub binding: u32,
    /// Descriptor type.
    pub ty: i32,
    /// Whether the info is that of an image.
    pub image: bool,
    /// Place among the infos of its kind.
    pub index: usize,
}

/// Writes to the first element of bindings of a set. The infos stand in lists of their own, so that
/// the driver can be given their addresses.
#[derive(Debug)]
pub struct WriteBatch {
    /// Handle of the set.
    pub set: u64,
    /// Infos of buffers.
    pub buffer_infos: Vec<DescriptorBufferInfo>,
    /// Infos of images.
    pub image_infos: Vec<DescriptorImageInfo>,
    /// The writes.
    pub refs: Vec<WriteRef>,
}

/// The infos of the buffers among writes, in order.
pub open spec fn buffers_of(w: Seq<PreparedWrite>) -> Seq<DescriptorBufferInfo>
    decreases w.len(),
{
    if w.len() == 0 {
        seq![]
    } else {
        match w.last().info {
            WriteInfo::Buffer(info) => buffers_of(w.drop_last()).push(info),
            WriteInfo::Image(_) => buffers_of(w.drop_last()),
        }
    }
}

/// The infos of the images among writes, in order.
pub open spec fn images_of(w: Seq<PreparedWrite>) -> Seq<DescriptorImageInfo>
    decreases w.len(),
{
    if w.len() == 0 {
        seq![]
    } else {
        match w.last().info {
            WriteInfo::Buffer(_) => images_of(w.drop_last()),
            WriteInfo::Image(info) => images_of(w.drop_last()).push(info),
        }
    }
}

impl WriteBatch {
    /// What the write at a place comes to.
    pub open spec fn resolved(&self, i: int) -> PreparedWrite {
        let r = self.refs@[i];
        PreparedWrite {
            binding: r.binding,
            ty: r.ty,
            info: if r.image {
                WriteInfo::Image(self.image_infos@[r.index as int])
            } else {
                WriteInfo::Buffer(self.buffer_infos@[r.index as int])
            },
        }
    }

    /// Every write refers to an info that there is.
    pub open spec fn wf(&self) -> bool {
        forall|i: int|
            0 <= i < self.refs@.len() ==> (#[trigger] self.refs@[i]).index < (
            if self.refs@[i].image {
                self.image_infos@.len()
            } else {
                self.buffer_infos@.len()
            })
    }
}

impl DescriptorWriter {
    /// No writes to a set.
    pub fn new(set: u64) -> (r: DescriptorWriter)
        ensures
            r.set == set,
            r.writes@.len() == 0,
    {
        DescriptorWriter { set, writes: Vec::new() }
    }

    /// Writes a part of a buffer.
    pub fn buffer(self, binding: u32, ty: i32, buffer: u64, offset: u64, range: u64) -> (r:
        DescriptorWriter)
        ensures
            r.set == self.set,
            r.writes@ == self.writes@.push(
                PreparedWrite {
                    binding,
                    ty,
                    info: WriteInfo::Buffer(DescriptorBufferInfo { buffer, offset, range }),
                },
            ),
    {
        let mut w: DescriptorWriter = self;
        let info: DescriptorBufferInfo = DescriptorBufferInfo { buffer, offset, range };
        w.writes.push(PreparedWrite { binding, ty, info: WriteInfo::Buffer(info) });
        w
    }

    /// Writes an image and its sampler.
    pub fn image(self, binding: u32, ty: i32, image_view: u64, sampler: u64, layout: i32) -> (r:
        DescriptorWriter)
        ensures
            r.set == self.set,
            r.writes@ == self.writes@.push(
                PreparedWrite {
                    binding,
                    ty,
                    info: WriteInfo::Image(
                        DescriptorImageInfo { sampler, image_view, image_layout: layout },
                    ),
                },
            ),
    {
        let mut w: DescriptorWriter = self;
        let info: DescriptorImageInfo = DescriptorImageInfo {
            sampler,
            image_view,
            image_layout: layout,
        };
        w.writes.push(PreparedWrite { binding, ty, info: WriteInfo::Image(info) });
        w
    }

    /// The writes for the driver: each comes to what was asked for.
    pub fn write(self) -> (r: WriteBatch)
        ensures
            r.wf(),
            r.set == self.set,
            r.buffer_infos@ == buffers_of(self.writes@),
            r.image_infos@ == images_of(self.writes@),
            r.refs@.len() == self.writes@.len(),
            forall|i: int|
                0 <= i < self.writes@.len() ==> #[trigger] r.resolved(i) == self.writes@[i],
    {
        let mut b: WriteBatch = WriteBatch {
            set: self.set,
            buffer_infos: Vec::new(),
            image_infos: Vec::new(),
            refs: Vec::new(),
        };
        let mut i: usize = 0;
        while i < self.writes.len()
            invariant
                i <= self.writes@.len(),
                b.wf(),
                b.set == self.set,
                b.buffer_infos@ == buffers_of(self.writes@.take(i as int)),
                b.image_infos@ == images_of(self.writes@.take(i as int)),
                b.refs@.len() == i,
                forall|k: int| 0 <= k < i ==> #[trigger] b.resolved(k) == self.writes@[k],
            decreases self.writes@.len() - i,
        {
            let ghost before = b;
            let w: PreparedWrite = self.writes[i];
            match w.info {
                WriteInfo::Buffer(info) => {
                    let index: usize = b.buffer_infos.len();
                    b.buffer_infos.push(info);
                    b.refs.push(WriteRef { binding: w.binding, ty: w.ty, image: false, index });
                },
                WriteInfo::Image(info) => {
                    let index: usize = b.image_infos.len();
                    b.image_infos.push(info);
                    b.refs.push(WriteRef { binding: w.binding, ty: w.ty, image: true, index });
                },
            }
            i = i + 1;
            assert(self.writes@.take(i as int).drop_last() =~= self.writes@.take(i - 1));
            assert forall|k: int| 0 <= k < i implies #[trigger] b.resolved(k)
                == self.writes@[k] by {
                if k < i - 1 {
                    assert(b.refs@[k] == before.refs@[k]);
                    assert(before.resolved(k) == self.writes@[k]);
                }
            }
        }
        assert(self.writes@.take(i as int) =~= self.writes@);
        b
    }
}

/// Descriptor pools that grow: where a pool is exhausted, another one of the same size follows.
#[derive(Debug)]
pub struct DescriptorArena {
    /// The pools.
    pub pools: Vec<u64>,
    /// The pool that sets come from.
    pub current_pool: usize,
    /// Greatest number of sets per pool.
    pub max_sets_per_pool: u32,
    /// Number of descriptors per type in a pool.
    pub type_counts: Vec<PoolSize>,
}

/// How far the allocation of a set has come.
#[derive(Debug, Clone, Copy, PartialEq, Eq, Structural)]
pub enum AllocationStage {
    /// A set was asked for.
    First,
    /// The pool is exhausted, and a new one was asked for.
    Growing,
    /// A set was asked for from the new pool.
    Retry,
}

/// What is to be done next for a set.
#[derive(Debug)]
pub enum AllocationAction {
    /// Create a pool like the others.
    CreatePool,
    /// Allocate the set from this pool.
    Allocate(u64),
    /// The set.
    Done(u64),
    /// There is no set.
    Fail(Error),
}

/// The pool has no room left.
pub open spec fn is_exhausted(code: VkResult) -> bool {
    code.raw == OUT_OF_POOL_MEMORY || code.raw == FRAGMENTED_POOL
}

/// What is to be done next, given what came of the last call.
pub open spec fn next_action(stage: AllocationStage, outcome: Result<u64, VkResult>) ->
    AllocationAction {
    match (stage, outcome) {
        (AllocationStage::First, Err(code)) => if is_exhausted(code) {
            AllocationAction::CreatePool
        } else {
            AllocationAction::Fail(Error::Vulkan(code))
        },
        (AllocationStage::Growing, Ok(pool)) => AllocationAction::Allocate(pool),
        (_, Ok(set)) => AllocationAction::Done(set),
        (_, Err(code)) => AllocationAction::Fail(Error::Vulkan(code)),
    }
}

impl DescriptorArena {
    /// There is a pool that sets come from.
    pub open spec fn wf(&self) -> bool {
        self.current_pool < self.pools@.len()
    }

    /// The pool that sets come from.
    pub open spec fn pool(&self) -> u64 {
        self.pools@[self.current_pool as int]
    }

    /// Nothing but the pools differs.
    pub open spec fn same_size(&self, other: &DescriptorArena) -> bool {
        &&& self.max_sets_per_pool == other.max_sets_per_pool
        &&& self.type_counts == other.type_counts
    }

    /// An arena with its first pool. `first_pool` is what came of creating it.
    pub fn new(
        first_pool: Result<u64, VkResult>,
        max_sets_per_pool: u32,
        type_counts: Vec<PoolSize>,
    ) -> (r: Result<DescriptorArena, Error>)
        ensures
            match first_pool {
                Ok(pool) => r matches Ok(a) && a.wf() && a.pools@ == seq![pool] && a.current_pool
                    == 0 && a.max_sets_per_pool == max_sets_per_pool && a.type_counts
                    == type_counts,
                Err(code) => r == Err::<DescriptorArena, Error>(Error::Vulkan(code)),
            },
    {
        match first_pool {
            Ok(pool) => {
                let mut pools: Vec<u64> = Vec::new();
                pools.push(pool);
                assert(pools@ =~= seq![pool]);
                Ok(DescriptorArena { pools, current_pool: 0, max_sets_per_pool, type_counts })
            },
            Err(code) => Err(Error::Vulkan(code)),
        }
    }

    /// The pool that sets come from.
    pub fn current(&self) -> (r: u64)
        requires
            self.wf(),
        ensures
            r == self.pool(),
    {
        self.pools[self.current_pool]
    }

    /// Takes a step in the allocation of a set. At first the set is asked for from the current pool;
    /// `outcome` is what came of the last call. Where the pool is exhausted a new one follows, sets
    /// come from it from then on, and the set is asked for once more.
    pub fn allocate(&mut self, stage: AllocationStage, outcome: Result<u64, VkResult>) -> (r:
        AllocationAction)
        requires
            old(self).wf(),
        ensures
            final(self).wf(),
            final(self).same_size(old(self)),
            r == next_action(stage, outcome),
            r matches AllocationAction::Allocate(pool) ==> final(self).pools@ == old(
                self,
            ).pools@.push(pool) && final(self).pool() == pool,
            !(r is Allocate) ==> *final(self) == *old(self),
    {
        match outcome {
            Ok(handle) => match stage {
                AllocationStage::Growing => {
                    self.pools.push(handle);
                    self.current_pool = self.pools.len() - 1;
                    AllocationAction::Allocate(handle)
                },
                _ => AllocationAction::Done(handle),
            },
            Err(code) => match stage {
                AllocationStage::First => {
                    if code.raw == OUT_OF_POOL_MEMORY || code.raw == FRAGMENTED_POOL {
                        AllocationAction::CreatePool
                    } else {
                        AllocationAction::Fail(Error::Vulkan(code))
                    }
                },
                _ => AllocationAction::Fail(Error::Vulkan(code)),
            },
        }
    }

    /// What comes of resetting all pools: sets come from the first one again. `outcome` holds the
    /// error of the pool that could not be reset, if there is one.
    pub fn reset(&mut self, outcome: Result<(), VkResult>) -> (r: Result<(), Error>)
        requires
            old(self).wf(),
        ensures
            final(self).wf(),
            final(self).same_size(old(self)),
            final(self).pools == old(self).pools,
            match outcome {
                Ok(_) => r is Ok && final(self).current_pool == 0,
                Err(code) => r == Err::<(), Error>(Error::Vulkan(code)) && *final(self) == *old(
                    self,
                ),
            },
    {
        match outcome {
            Ok(_) => {
                self.current_pool = 0;
                Ok(())
            },
            Err(code) => Err(Error::Vulkan(code)),
        }
    }

    /// Number of pools.
    pub fn pool_count(&self) -> (r: usize)
        ensures
            r == self.pools@.len(),
    {
        self.pools.len()
    }
}

/// A run of allocations, one set per layout.
#[derive(Debug)]
pub struct ManyAllocation {
    /// The layouts.
    pub layouts: Vec<u64>,
    /// The sets so far.
    pub sets: Vec<u64>,
    /// How far the next set has come.
    pub stage: AllocationStage,
}

/// What is to be done next in a run of allocations.
#[derive(Debug)]
pub enum ManyAction {
    /// Create a pool like the others.
    CreatePool,
    /// Allocate a set with this layout from this pool.
    Allocate {
        /// The pool.
        pool: u64,
        /// The layout.
        layout: u64,
    },
    /// All sets have been allocated.
    Done,
    /// A set could not be allocated.
    Fail(Error),
}

impl ManyAllocation {
    /// There are no more sets than layouts.
    pub open spec fn wf(&self) -> bool {
        self.sets@.len() <= self.layouts@.len()
    }

    /// There are sets left to allocate.
    pub open spec fn unfinished(&self) -> bool {
        self.sets@.len() < self.layouts@.len()
    }

    /// A run with no sets yet.
    pub fn new(layouts: Vec<u64>) -> (r: ManyAllocation)
        ensures
            r.wf(),
            r.layouts == layouts,
            r.sets@.len() == 0,
            r.stage == AllocationStage::First,
    {
        ManyAllocation { layouts, sets: Vec::new(), stage: AllocationStage::First }
    }

    /// What is to be done for the next layout, with the pool that sets come from.
    pub open spec fn request(&self, pool: u64) -> ManyAction {
        if self.unfinished() {
            ManyAction::Allocate { pool, layout: self.layouts@[self.sets@.len() as int] }
        } else {
            ManyAction::Done
        }
    }

    /// What is to be done for the next layout.
    pub fn begin(&self, arena: &DescriptorArena) -> (r: ManyAction)
        requires
            self.wf(),
            arena.wf(),
        ensures
            r == self.request(arena.pool()),
    {
        if self.sets.len() < self.layouts.len() {
            ManyAction::Allocate {
                pool: arena.current(),
                layout: self.layouts[self.sets.len()],
            }
        } else {
            ManyAction::Done
        }
    }
}

impl DescriptorArena {
    /// Takes a step in a run of allocations. A set that was allocated is added to the run and the
    /// next layout follows; an error ends the run.
    pub fn allocate_many(&mut self, run: &mut ManyAllocation, outcome: Result<u64, VkResult>) -> (r:
        ManyAction)
        requires
            old(self).wf(),
            old(run).wf(),
            old(run).unfinished(),
        ensures
            final(self).wf(),
            final(self).same_size(old(self)),
            final(run).wf(),
            final(run).layouts == old(run).layouts,
            match next_action(old(run).stage, outcome) {
                AllocationAction::Done(set) => {
                    &&& *final(self) == *old(self)
                    &&& final(run).sets@ == old(run).sets@.push(set)
                    &&& final(run).stage == AllocationStage::First
                    &&& r == final(run).request(final(self).pool())
                },
                AllocationAction::CreatePool => {
                    &&& *final(self) == *old(self)
                    &&& final(run).sets == old(run).sets
                    &&& final(run).stage == AllocationStage::Growing
                    &&& r is CreatePool
                },
                AllocationAction::Allocate(pool) => {
                    &&& final(self).pools@ == old(self).pools@.push(pool)
                    &&& final(self).pool() == pool
                    &&& final(run).sets == old(run).sets
                    &&& final(run).stage == AllocationStage::Retry
                    &&& r == final(run).request(pool)
                },
                AllocationAction::Fail(e) => {
                    &&& *final(self) == *old(self)
                    &&& final(run).sets == old(run).sets
                    &&& r == ManyAction::Fail(e)
                },
            },
    {
        match self.allocate(run.stage, outcome) {
            AllocationAction::Done(set) => {
                run.sets.push(set);
                run.stage = AllocationStage::First;
                run.begin(self)
            },
            AllocationAction::CreatePool => {
                run.stage = AllocationStage::Growing;
                ManyAction::CreatePool
            },
            AllocationAction::Allocate(_) => {
                run.stage = AllocationStage::Retry;
                run.begin(self)
            },
            AllocationAction::Fail(e) => ManyAction::Fail(e),
        }
    }
}

/// An exhausted pool does not make an allocation fail: another pool is created and the set comes
/// from it.
pub proof fn law_exhausted_pool_is_followed_by_another(code: VkResult, pool: u64, set: u64)
    requires
        is_exhausted(code),
    ensures
        next_action(AllocationStage::First, Err(code)) is CreatePool,
        next_action(AllocationStage::Growing, Ok(pool)) == AllocationAction::Allocate(pool),
        next_action(AllocationStage::Retry, Ok(set)) == AllocationAction::Done(set),
{
}

/// One arena per frame in flight. A set lives until its arena comes round again.
#[derive(Debug)]
pub struct DescriptorRing {
    /// The arenas.
    pub arenas: Vec<DescriptorArena>,
    /// The arena of the current frame.
    pub current: usize,
}

/// The arena that follows in a ring of `n`.
pub open spec fn following(current: int, n: int) -> int {
    (current + 1) % n
}

/// The arena after a number of frames.
pub open spec fn after_frames(current: int, n: int, frames: nat) -> int
    decreases frames,
{
    if frames == 0 {
        current
    } else {
        following(after_frames(current, n, (frames - 1) as nat), n)
    }
}

impl DescriptorRing {
    /// There is a current arena, and every arena has a pool.
    pub open spec fn wf(&self) -> bool {
        &&& self.current < self.arenas@.len()
        &&& forall|i: int| 0 <= i < self.arenas@.len() ==> (#[trigger] self.arenas@[i]).wf()
    }

    /// A ring of arenas, of which there is one per frame in flight.
    pub fn new(arenas: Vec<DescriptorArena>) -> (r: DescriptorRing)
        requires
            arenas@.len() > 0,
            forall|i: int| 0 <= i < arenas@.len() ==> (#[trigger] arenas@[i]).wf(),
        ensures
            r.wf(),
            r.arenas == arenas,
            r.current == 0,
    {
        DescriptorRing { arenas, current: 0 }
    }

    /// The arena that is reset for the next frame.
    pub fn next_frame(&self) -> (r: usize)
        requires
            self.wf(),
        ensures
            r == following(self.current as int, self.arenas@.len() as int),
            r < self.arenas@.len(),
    {
        let n: usize = self.arenas.len();
        if self.current + 1 < n {
            assert((self.current + 1) % n as int == self.current + 1) by {
                vstd::arithmetic::div_mod::lemma_small_mod((self.current + 1) as nat, n as nat);
            }
            self.current + 1
        } else {
            assert((self.current + 1) % n as int == 0) by {
                vstd::arithmetic::div_mod::lemma_mod_self_0(n as int);
            }
            0
        }
    }

    /// Goes on to the next frame. `outcome` is what came of resetting the pools of its arena.
    pub fn advance(&mut self, outcome: Result<(), VkResult>) -> (r: Result<(), Error>)
        requires
            old(self).wf(),
        ensures
            final(self).wf(),
            final(self).current == following(
                old(self).current as int,
                old(self).arenas@.len() as int,
            ),
            final(self).arenas@.len() == old(self).arenas@.len(),
            forall|i: int|
                0 <= i < old(self).arenas@.len() && i != final(self).current
                    ==> #[trigger] final(self).arenas@[i] == old(self).arenas@[i],
            ({
                let before = old(self).arenas@[final(self).current as int];
                let after = final(self).arenas@[final(self).current as int];
                &&& after.pools == before.pools
                &&& after.same_size(&before)
                &&& match outcome {
                    Ok(_) => r is Ok && after.current_pool == 0,
                    Err(code) => r == Err::<(), Error>(Error::Vulkan(code)) && after == before,
                }
            }),
    {
        self.current = self.next_frame();
        let k: usize = self.current;
        self.arenas[k].reset(outcome)
    }

    /// Takes a step in the allocation of a set for the current frame.
    pub fn allocate(&mut self, stage: AllocationStage, outcome: Result<u64, VkResult>) -> (r:
        AllocationAction)
        requires
            old(self).wf(),
        ensures
            final(self).wf(),
            final(self).current == old(self).current,
            final(self).arenas@.len() == old(self).arenas@.len(),
            forall|i: int|
                0 <= i < old(self).arenas@.len() && i != old(self).current
                    ==> #[trigger] final(self).arenas@[i] == old(self).arenas@[i],
            r == next_action(stage, outcome),
            ({
                let before = old(self).arenas@[old(self).current as int];
                let after = final(self).arenas@[old(self).current as int];
                &&& after.same_size(&before)
                &&& r matches AllocationAction::Allocate(pool) ==> after.pools@
                    == before.pools@.push(pool) && after.pool() == pool
                &&& !(r is Allocate) ==> after == before
            }),
    {
        let k: usize = self.current;
        self.arenas[k].allocate(stage, outcome)
    }

    /// The arena of the current frame.
    pub fn current_frame(&self) -> (r: usize)
        ensures
            r == self.current,
    {
        self.current
    }
}

/// A set lives as long as there are frames in flight: an arena comes round again after as many
/// frames as there are arenas, and not before.
pub proof fn law_arena_comes_round_after_all_others(current: int, n: int, frames: nat)
    requires
        0 <= current < n,
        0 < frames <= n,
    ensures
        after_frames(current, n, frames) == current <==> frames == n,
{
    lemma_after_frames(current, n, frames);
    if frames == n {
        vstd::arithmetic::div_mod::lemma_mod_add_multiples_vanish(current, n);
        vstd::arithmetic::div_mod::lemma_small_mod(current as nat, n as nat);
    } else if current + frames < n {
        vstd::arithmetic::div_mod::lemma_small_mod((current + frames) as nat, n as nat);
    } else {
        vstd::arithmetic::div_mod::lemma_mod_add_multiples_vanish(current + frames - n, n);
        vstd::arithmetic::div_mod::lemma_small_mod((current + frames - n) as nat, n as nat);
    }
}

proof fn lemma_after_frames(current: int, n: int, frames: nat)
    requires
        0 <= current < n,
    ensures
        after_frames(current, n, frames) == (current + frames) % n,
    decreases frames,
{
    if frames == 0 {
        vstd::arithmetic::div_mod::lemma_small_mod(current as nat, n as nat);
    } else {
        lemma_after_frames(current, n, (frames - 1) as nat);
        vstd::arithmetic::div_mod::lemma_add_mod_noop_right(1, current + frames - 1, n);
    }
}

} // verus!
