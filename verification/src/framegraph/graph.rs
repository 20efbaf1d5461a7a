//! The graph: images, buffers and passes, and what becomes of them when it is compiled.

use crate::error::Error;
use crate::format::Format;
use crate::framegraph::schedule;
use crate::framegraph::schedule::{PassAccess, ResourceAccess};
use crate::memory::resources::{BufferInfo, ImageInfo, MemoryLocation};
use crate::text;
use crate::vulkan;
use vstd::prelude::*;

verus! {

/// A declared image.
#[derive(Debug, Clone, Copy, PartialEq, Eq, Hash, Structural)]
pub struct ImageHandle(pub u32);

/// A declared buffer.
#[derive(Debug, Clone, Copy, PartialEq, Eq, Hash, Structural)]
pub struct BufferHandle(pub u32);

/// An image that the graph allocates.
#[derive(Debug, Clone, Copy, PartialEq, Eq, Structural)]
pub struct ImageDesc {
    /// Width in pixels.
    pub width: u32,
    /// Height in pixels.
    pub height: u32,
    /// Pixel format.
    pub format: Format,
    /// Usage flags: every way in which the image will be used.
    pub usage: u32,
}

impl ImageDesc {
    /// A colour target that can be sampled.
    pub fn color(width: u32, height: u32, format: Format) -> (r: ImageDesc)
        ensures
            r == (ImageDesc {
                width,
                height,
                format,
                usage: vulkan::IMAGE_USAGE_COLOR_ATTACHMENT | vulkan::IMAGE_USAGE_SAMPLED,
            }),
    {
        ImageDesc {
            width,
            height,
            format,
            usage: vulkan::IMAGE_USAGE_COLOR_ATTACHMENT | vulkan::IMAGE_USAGE_SAMPLED,
        }
    }

    /// A depth target.
    pub fn depth(width: u32, height: u32, format: Format) -> (r: ImageDesc)
        ensures
            r == (ImageDesc { width, height, format, usage: vulkan::IMAGE_USAGE_DEPTH_STENCIL }),
    {
        ImageDesc { width, height, format, usage: vulkan::IMAGE_USAGE_DEPTH_STENCIL }
    }
}

/// A buffer that the graph allocates.
#[derive(Debug, Clone, Copy, PartialEq, Eq, Structural)]
pub struct BufferDesc {
    /// Size in bytes.
    pub size: u64,
    /// Usage flags.
    pub usage: u32,
    /// Memory placement.
    pub location: MemoryLocation,
}

/// An image of another owner.
#[derive(Debug, Clone, Copy, PartialEq, Eq, Structural)]
pub struct ImportedImage {
    /// Handle of the image.
    pub handle: u64,
    /// Layout that it is in.
    pub initial_layout: i32,
    /// Mip levels.
    pub mip_levels: u32,
    /// Array layers.
    pub array_layers: u32,
    /// Aspect.
    pub aspect: u32,
}

/// Where an image comes from.
#[derive(Debug, Clone, Copy, PartialEq, Eq, Structural)]
pub enum ImageSource {
    /// The graph allocates it.
    Transient(ImageDesc),
    /// Another owner has it.
    Imported(ImportedImage),
}

/// Where a buffer comes from.
#[derive(Debug, Clone, Copy, PartialEq, Eq, Structural)]
pub enum BufferSource {
    /// The graph allocates it.
    Transient(BufferDesc),
    /// Another owner has it.
    Imported(u64),
}

/// A pass: its name and what it does to the resources.
#[derive(Debug)]
pub struct PassBuilder {
    name: String,
    access: PassAccess,
}

impl PassBuilder {
    /// The name.
    pub closed spec fn label(&self) -> Seq<char> {
        self.name@
    }

    /// The accesses to images.
    pub closed spec fn images(&self) -> Seq<ResourceAccess> {
        self.access.image@
    }

    /// The accesses to buffers.
    pub closed spec fn buffers(&self) -> Seq<ResourceAccess> {
        self.access.buffer@
    }

    /// A pass without accesses.
    pub fn new(name: String) -> (r: PassBuilder)
        ensures
            r.label() == name@,
            r.images() == Seq::<ResourceAccess>::empty(),
            r.buffers() == Seq::<ResourceAccess>::empty(),
    {
        PassBuilder { name, access: PassAccess { image: Vec::new(), buffer: Vec::new() } }
    }

    /// Declares that the pass reads an image.
    pub fn reads_image(&mut self, handle: ImageHandle, usage: u32)
        ensures
            final(self).label() == old(self).label(),
            final(self).images() == old(self).images().push(
                ResourceAccess { handle: handle.0, usage, write: false },
            ),
            final(self).buffers() == old(self).buffers(),
    {
        self.access.image.push(ResourceAccess { handle: handle.0, usage, write: false });
    }

    /// Declares that the pass writes an image.
    pub fn writes_image(&mut self, handle: ImageHandle, usage: u32)
        ensures
            final(self).label() == old(self).label(),
            final(self).images() == old(self).images().push(
                ResourceAccess { handle: handle.0, usage, write: true },
            ),
            final(self).buffers() == old(self).buffers(),
    {
        self.access.image.push(ResourceAccess { handle: handle.0, usage, write: true });
    }

    /// Declares that the pass reads a buffer.
    pub fn reads_buffer(&mut self, handle: BufferHandle, usage: u32)
        ensures
            final(self).label() == old(self).label(),
            final(self).images() == old(self).images(),
            final(self).buffers() == old(self).buffers().push(
                ResourceAccess { handle: handle.0, usage, write: false },
            ),
    {
        self.access.buffer.push(ResourceAccess { handle: handle.0, usage, write: false });
    }

    /// Declares that the pass writes a buffer.
    pub fn writes_buffer(&mut self, handle: BufferHandle, usage: u32)
        ensures
            final(self).label() == old(self).label(),
            final(self).images() == old(self).images(),
            final(self).buffers() == old(self).buffers().push(
                ResourceAccess { handle: handle.0, usage, write: true },
            ),
    {
        self.access.buffer.push(ResourceAccess { handle: handle.0, usage, write: true });
    }
}

/// The graph under construction.
#[derive(Debug)]
pub struct FrameGraph {
    /// Name of each image.
    pub image_names: Vec<String>,
    /// Source of each image.
    pub images: Vec<ImageSource>,
    /// Name of each buffer.
    pub buffer_names: Vec<String>,
    /// Source of each buffer.
    pub buffers: Vec<BufferSource>,
    /// Name of each pass.
    pub pass_names: Vec<String>,
    /// Accesses of each pass.
    pub passes: Vec<PassAccess>,
}

impl FrameGraph {
    /// Each image, buffer and pass has a name.
    pub open spec fn wf(&self) -> bool {
        &&& self.image_names@.len() == self.images@.len()
        &&& self.buffer_names@.len() == self.buffers@.len()
        &&& self.pass_names@.len() == self.passes@.len()
    }

    /// `new` has one image more.
    pub open spec fn adds_image(&self, new: &FrameGraph, name: String, source: ImageSource) -> bool {
        &&& new.image_names@ == self.image_names@.push(name)
        &&& new.images@ == self.images@.push(source)
        &&& new.buffer_names == self.buffer_names
        &&& new.buffers == self.buffers
        &&& new.pass_names == self.pass_names
        &&& new.passes == self.passes
    }

    /// `new` has one buffer more.
    pub open spec fn adds_buffer(
        &self,
        new: &FrameGraph,
        name: String,
        source: BufferSource,
    ) -> bool {
        &&& new.buffer_names@ == self.buffer_names@.push(name)
        &&& new.buffers@ == self.buffers@.push(source)
        &&& new.image_names == self.image_names
        &&& new.images == self.images
        &&& new.pass_names == self.pass_names
        &&& new.passes == self.passes
    }

    /// An empty graph.
    pub fn new() -> (r: FrameGraph)
        ensures
            r.wf(),
            r.images@.len() == 0,
            r.buffers@.len() == 0,
            r.passes@.len() == 0,
    {
        FrameGraph {
            image_names: Vec::new(),
            images: Vec::new(),
            buffer_names: Vec::new(),
            buffers: Vec::new(),
            pass_names: Vec::new(),
            passes: Vec::new(),
        }
    }

    fn add_image(&mut self, name: String, source: ImageSource) -> (r: ImageHandle)
        requires
            old(self).wf(),
            old(self).images@.len() <= u32::MAX,
        ensures
            final(self).wf(),
            r.0 == old(self).images@.len(),
            old(self).adds_image(final(self), name, source),
    {
        let h: ImageHandle = ImageHandle(self.images.len() as u32);
        self.image_names.push(name);
        self.images.push(source);
        h
    }

    fn add_buffer(&mut self, name: String, source: BufferSource) -> (r: BufferHandle)
        requires
            old(self).wf(),
            old(self).buffers@.len() <= u32::MAX,
        ensures
            final(self).wf(),
            r.0 == old(self).buffers@.len(),
            old(self).adds_buffer(final(self), name, source),
    {
        let h: BufferHandle = BufferHandle(self.buffers.len() as u32);
        self.buffer_names.push(name);
        self.buffers.push(source);
        h
    }

    /// Declares an image that the graph allocates. The images are numbered in the order in which
    /// they are declared.
    pub fn declare_image(&mut self, name: String, desc: ImageDesc) -> (r: ImageHandle)
        requires
            old(self).wf(),
            old(self).images@.len() <= u32::MAX,
        ensures
            final(self).wf(),
            r.0 == old(self).images@.len(),
            old(self).adds_image(final(self), name, ImageSource::Transient(desc)),
    {
        self.add_image(name, ImageSource::Transient(desc))
    }

    /// Declares an image of another owner, who keeps it.
    pub fn import_image(&mut self, name: String, image: ImportedImage) -> (r: ImageHandle)
        requires
            old(self).wf(),
            old(self).images@.len() <= u32::MAX,
        ensures
            final(self).wf(),
            r.0 == old(self).images@.len(),
            old(self).adds_image(final(self), name, ImageSource::Imported(image)),
    {
        self.add_image(name, ImageSource::Imported(image))
    }

    /// Declares a buffer that the graph allocates.
    pub fn declare_buffer(&mut self, name: String, desc: BufferDesc) -> (r: BufferHandle)
        requires
            old(self).wf(),
            old(self).buffers@.len() <= u32::MAX,
        ensures
            final(self).wf(),
            r.0 == old(self).buffers@.len(),
            old(self).adds_buffer(final(self), name, BufferSource::Transient(desc)),
    {
        self.add_buffer(name, BufferSource::Transient(desc))
    }

    /// Declares a buffer of another owner, who keeps it.
    pub fn import_buffer(&mut self, name: String, buffer: u64) -> (r: BufferHandle)
        requires
            old(self).wf(),
            old(self).buffers@.len() <= u32::MAX,
        ensures
            final(self).wf(),
            r.0 == old(self).buffers@.len(),
            old(self).adds_buffer(final(self), name, BufferSource::Imported(buffer)),
    {
        self.add_buffer(name, BufferSource::Imported(buffer))
    }

    /// Registers a pass.
    pub fn add_pass(&mut self, pass: PassBuilder)
        requires
            old(self).wf(),
        ensures
            final(self).wf(),
            final(self).pass_names@.len() == old(self).pass_names@.len() + 1,
            final(self).pass_names@.drop_last() == old(self).pass_names@,
            final(self).pass_names@.last()@ == pass.label(),
            final(self).passes@.drop_last() == old(self).passes@,
            final(self).passes@.last().image@ == pass.images(),
            final(self).passes@.last().buffer@ == pass.buffers(),
            final(self).image_names == old(self).image_names,
            final(self).images == old(self).images,
            final(self).buffer_names == old(self).buffer_names,
            final(self).buffers == old(self).buffers,
    {
        self.pass_names.push(pass.name);
        self.passes.push(pass.access);
        assert(self.pass_names@.drop_last() =~= old(self).pass_names@);
        assert(self.passes@.drop_last() =~= old(self).passes@);
    }

    /// What image `i` is created with, if the graph allocates it.
    pub fn image_request(&self, i: usize) -> (r: Option<ImageInfo>)
        requires
            i < self.images@.len(),
        ensures
            r == match self.images@[i as int] {
                ImageSource::Transient(d) => Some(
                    ImageInfo::plain(d.width, d.height, d.format, d.usage),
                ),
                ImageSource::Imported(_) => None,
            },
    {
        match self.images[i] {
            ImageSource::Transient(d) => Some(
                ImageInfo::texture_2d(d.width, d.height, d.format, d.usage),
            ),
            ImageSource::Imported(_) => None,
        }
    }

    /// What buffer `i` is created with, if the graph allocates it.
    pub fn buffer_request(&self, i: usize) -> (r: Option<BufferInfo>)
        requires
            i < self.buffers@.len(),
        ensures
            r == match self.buffers@[i as int] {
                BufferSource::Transient(d) => Some(
                    BufferInfo::exclusive(d.size, d.usage, d.location),
                ),
                BufferSource::Imported(_) => None,
            },
    {
        match self.buffers[i] {
            BufferSource::Transient(d) => Some(
                BufferInfo {
                    size: d.size,
                    usage: d.usage,
                    location: d.location,
                    sharing_mode: vulkan::SHARING_EXCLUSIVE,
                },
            ),
            BufferSource::Imported(_) => None,
        }
    }

    /// Compiles the graph. `images` and `buffers` hold the handles of what was created for the
    /// requests; those of imported resources are not looked at. A graph whose passes depend on
    /// each other in a circle is refused.
    pub fn compile(self, images: &Vec<u64>, buffers: &Vec<u64>) -> (r: Result<
        CompiledFrameGraph,
        Error,
    >)
        requires
            self.wf(),
            images@.len() == self.images@.len(),
            buffers@.len() == self.buffers@.len(),
        ensures
            match r {
                Ok(c) => {
                    &&& !schedule::has_cycle(self.passes@)
                    &&& schedule::is_schedule(self.passes@, c.order@)
                    &&& c.wf()
                    &&& c.images@ == realized_images(self.images@, images@)
                    &&& c.buffers@ == realized_buffers(self.buffers@, buffers@)
                    &&& c.image_names == self.image_names
                    &&& c.buffer_names == self.buffer_names
                    &&& c.pass_names == self.pass_names
                    &&& c.passes == self.passes
                },
                Err(e) => schedule::has_cycle(self.passes@) && e.is_invalid_config(
                    "framegraph: dependency cycle detected"@,
                ),
            },
    {
        let order: Vec<usize> = match schedule::topo_sort(&self.passes) {
            Ok(order) => order,
            Err(e) => {
                return Err(e);
            },
        };
        let mut made_images: Vec<RealizedImage> = Vec::new();
        let mut i: usize = 0;
        while i < self.images.len()
            invariant
                i <= self.images@.len(),
                images@.len() == self.images@.len(),
                made_images@ == realized_images(self.images@, images@).take(i as int),
            decreases self.images@.len() - i,
        {
            made_images.push(realize_image(&self.images[i], images[i]));
            i = i + 1;
            assert(made_images@ =~= realized_images(self.images@, images@).take(i as int));
        }
        assert(made_images@ =~= realized_images(self.images@, images@));
        let mut made_buffers: Vec<u64> = Vec::new();
        let mut j: usize = 0;
        while j < self.buffers.len()
            invariant
                j <= self.buffers@.len(),
                buffers@.len() == self.buffers@.len(),
                made_buffers@ == realized_buffers(self.buffers@, buffers@).take(j as int),
            decreases self.buffers@.len() - j,
        {
            made_buffers.push(
                match self.buffers[j] {
                    BufferSource::Transient(_) => buffers[j],
                    BufferSource::Imported(h) => h,
                },
            );
            j = j + 1;
            assert(made_buffers@ =~= realized_buffers(self.buffers@, buffers@).take(j as int));
        }
        assert(made_buffers@ =~= realized_buffers(self.buffers@, buffers@));
        Ok(
            CompiledFrameGraph {
                images: made_images,
                buffers: made_buffers,
                image_names: self.image_names,
                buffer_names: self.buffer_names,
                pass_names: self.pass_names,
                passes: self.passes,
                order,
            },
        )
    }
}

impl Default for FrameGraph {
    /// An empty graph.
    fn default() -> (r: FrameGraph)
        ensures
            r.wf(),
            r.images@.len() == 0,
            r.buffers@.len() == 0,
            r.passes@.len() == 0,
    {
        FrameGraph::new()
    }
}

/// An image of a compiled graph, as the barrier tracker is told of it.
#[derive(Debug, Clone, Copy, PartialEq, Eq, Structural)]
pub struct RealizedImage {
    /// Handle of the image.
    pub handle: u64,
    /// Whether the graph owns it.
    pub owned: bool,
    /// Aspect.
    pub aspect: u32,
    /// Mip levels.
    pub mip_levels: u32,
    /// Array layers.
    pub array_layers: u32,
    /// Layout that it is in.
    pub initial_layout: i32,
}

/// The image of a declaration, where `created` is the handle of what was created for it.
pub open spec fn realized_image(source: ImageSource, created: u64) -> RealizedImage {
    match source {
        ImageSource::Transient(d) => RealizedImage {
            handle: created,
            owned: true,
            aspect: crate::format::aspects(d.format.raw),
            mip_levels: 1,
            array_layers: 1,
            initial_layout: vulkan::LAYOUT_UNDEFINED,
        },
        ImageSource::Imported(m) => RealizedImage {
            handle: m.handle,
            owned: false,
            aspect: m.aspect,
            mip_levels: m.mip_levels,
            array_layers: m.array_layers,
            initial_layout: m.initial_layout,
        },
    }
}

/// The images of declarations.
pub open spec fn realized_images(sources: Seq<ImageSource>, created: Seq<u64>) -> Seq<
    RealizedImage,
> {
    Seq::new(sources.len(), |i: int| realized_image(sources[i], created[i]))
}

/// The buffers of declarations.
pub open spec fn realized_buffers(sources: Seq<BufferSource>, created: Seq<u64>) -> Seq<u64> {
    Seq::new(
        sources.len(),
        |i: int|
            match sources[i] {
                BufferSource::Transient(_) => created[i],
                BufferSource::Imported(h) => h,
            },
    )
}

fn realize_image(source: &ImageSource, created: u64) -> (r: RealizedImage)
    ensures
        r == realized_image(*source, created),
{
    match source {
        ImageSource::Transient(d) => RealizedImage {
            handle: created,
            owned: true,
            aspect: crate::format::format_aspect_mask(d.format),
            mip_levels: 1,
            array_layers: 1,
            initial_layout: vulkan::LAYOUT_UNDEFINED,
        },
        ImageSource::Imported(m) => RealizedImage {
            handle: m.handle,
            owned: false,
            aspect: m.aspect,
            mip_levels: m.mip_levels,
            array_layers: m.array_layers,
            initial_layout: m.initial_layout,
        },
    }
}

/// A compiled graph.
#[derive(Debug)]
pub struct CompiledFrameGraph {
    /// The images.
    pub images: Vec<RealizedImage>,
    /// Handles of the buffers.
    pub buffers: Vec<u64>,
    /// Name of each image.
    pub image_names: Vec<String>,
    /// Name of each buffer.
    pub buffer_names: Vec<String>,
    /// Name of each pass.
    pub pass_names: Vec<String>,
    /// Accesses of each pass.
    pub passes: Vec<PassAccess>,
    /// The order in which the passes run.
    pub order: Vec<usize>,
}

/// A state change of a resource that is asked of the barrier tracker.
#[derive(Debug, Clone, Copy, PartialEq, Eq, Structural)]
pub struct StateChange {
    /// Handle of the resource.
    pub handle: u64,
    /// How the resource is used next.
    pub usage: u32,
}

/// What is recorded for a pass: the state changes of its images, then those of its buffers, then
/// the pass itself.
#[derive(Debug)]
pub struct PassStep {
    /// Number of the pass.
    pub pass: usize,
    /// State changes of images.
    pub images: Vec<StateChange>,
    /// State changes of buffers.
    pub buffers: Vec<StateChange>,
}

/// All accesses refer to one of the first `n` resources.
pub open spec fn accesses_exist(list: Seq<ResourceAccess>, n: int) -> bool {
    forall|k: int| 0 <= k < list.len() ==> (#[trigger] list[k]).handle < n
}

/// The state changes that accesses to images ask for.
pub open spec fn image_changes(list: Seq<ResourceAccess>, images: Seq<RealizedImage>) -> Seq<
    StateChange,
> {
    list.map_values(
        |a: ResourceAccess| StateChange { handle: images[a.handle as int].handle, usage: a.usage },
    )
}

/// The state changes that accesses to buffers ask for.
pub open spec fn buffer_changes(list: Seq<ResourceAccess>, buffers: Seq<u64>) -> Seq<StateChange> {
    list.map_values(
        |a: ResourceAccess| StateChange { handle: buffers[a.handle as int], usage: a.usage },
    )
}

/// The tag of an access: `R` for a read and `W` for a write.
pub open spec fn tag(a: ResourceAccess) -> Seq<char> {
    if a.write {
        "W"@
    } else {
        "R"@
    }
}

/// The lines of the first `n` accesses of a kind.
pub open spec fn access_lines(
    list: Seq<ResourceAccess>,
    names: Seq<String>,
    kind: Seq<char>,
    n: int,
) -> Seq<char>
    decreases n,
{
    if n <= 0 {
        seq![]
    } else {
        access_lines(list, names, kind, n - 1) + "       ["@ + tag(list[n - 1]) + kind
            + names[list[n - 1].handle as int]@ + "\n"@
    }
}

/// The lines of the first `n` passes of the plan.
pub open spec fn plan_lines(g: CompiledFrameGraph, n: int) -> Seq<char>
    decreases n,
{
    if n <= 0 {
        "FrameGraph plan:\n"@
    } else {
        let pass = g.order@[n - 1] as int;
        let access = g.passes@[pass];
        plan_lines(g, n - 1) + "  "@ + text::padded_left(text::decimal(n - 1), ' ', 2) + ". "@
            + g.pass_names@[pass]@ + "\n"@ + access_lines(
            access.image@,
            g.image_names@,
            "] image  "@,
            access.image@.len() as int,
        ) + access_lines(
            access.buffer@,
            g.buffer_names@,
            "] buffer "@,
            access.buffer@.len() as int,
        )
    }
}

impl CompiledFrameGraph {
    /// Each image, buffer and pass has a name, and the order is one of the passes.
    pub open spec fn wf(&self) -> bool {
        &&& self.image_names@.len() == self.images@.len()
        &&& self.buffer_names@.len() == self.buffers@.len()
        &&& self.pass_names@.len() == self.passes@.len()
        &&& schedule::is_permutation(self.order@, self.passes@.len() as int)
    }

    /// All passes refer to resources of the graph.
    pub open spec fn handles_exist(&self) -> bool {
        forall|p: int|
            0 <= p < self.passes@.len() ==> accesses_exist(
                (#[trigger] self.passes@[p]).image@,
                self.images@.len() as int,
            ) && accesses_exist(self.passes@[p].buffer@, self.buffers@.len() as int)
    }

    /// The handle of a declared image.
    pub fn image(&self, handle: ImageHandle) -> (r: u64)
        requires
            handle.0 < self.images@.len(),
        ensures
            r == self.images@[handle.0 as int].handle,
    {
        self.images[handle.0 as usize].handle
    }

    /// The handle of a declared buffer.
    pub fn buffer(&self, handle: BufferHandle) -> (r: u64)
        requires
            handle.0 < self.buffers@.len(),
        ensures
            r == self.buffers@[handle.0 as int],
    {
        self.buffers[handle.0 as usize]
    }

    /// What is recorded, pass by pass in the order of the schedule. The caller asks the barrier
    /// tracker for each state change, records the barriers that come out and runs the pass.
    pub fn record(&self) -> (steps: Vec<PassStep>)
        requires
            self.wf(),
            self.handles_exist(),
        ensures
            steps@.len() == self.order@.len(),
            forall|i: int|
                0 <= i < steps@.len() ==> {
                    let s = #[trigger] steps@[i];
                    &&& s.pass == self.order@[i]
                    &&& s.images@ == image_changes(
                        self.passes@[s.pass as int].image@,
                        self.images@,
                    )
                    &&& s.buffers@ == buffer_changes(
                        self.passes@[s.pass as int].buffer@,
                        self.buffers@,
                    )
                },
    {
        let mut steps: Vec<PassStep> = Vec::new();
        let mut i: usize = 0;
        while i < self.order.len()
            invariant
                i <= self.order@.len(),
                self.wf(),
                self.handles_exist(),
                steps@.len() == i,
                forall|j: int|
                    0 <= j < i ==> {
                        let s = #[trigger] steps@[j];
                        &&& s.pass == self.order@[j]
                        &&& s.images@ == image_changes(
                            self.passes@[s.pass as int].image@,
                            self.images@,
                        )
                        &&& s.buffers@ == buffer_changes(
                            self.passes@[s.pass as int].buffer@,
                            self.buffers@,
                        )
                    },
            decreases self.order@.len() - i,
        {
            let pass: usize = self.order[i];
            assert(pass < self.passes@.len());
            let images: Vec<StateChange> = changes_of_images(
                &self.passes[pass].image,
                &self.images,
            );
            let buffers: Vec<StateChange> = changes_of_buffers(
                &self.passes[pass].buffer,
                &self.buffers,
            );
            steps.push(PassStep { pass, images, buffers });
            i = i + 1;
        }
        steps
    }

    /// The plan as text: the passes in the order in which they run, each with its accesses.
    pub fn dump_plan(&self) -> (o: String)
        requires
            self.wf(),
            self.handles_exist(),
        ensures
            o@ == plan_lines(*self, self.order@.len() as int),
    {
        let mut o: String = "FrameGraph plan:\n".to_owned();
        let mut i: usize = 0;
        while i < self.order.len()
            invariant
                i <= self.order@.len(),
                self.wf(),
                self.handles_exist(),
                o@ == plan_lines(*self, i as int),
            decreases self.order@.len() - i,
        {
            let pass: usize = self.order[i];
            assert(pass < self.passes@.len());
            o.append("  ");
            text::push_padded_left(&mut o, text::decimal_text(i as u64).as_str(), ' ', 2);
            o.append(". ");
            o.append(self.pass_names[pass].as_str());
            o.append("\n");
            push_access_lines(&mut o, &self.passes[pass].image, &self.image_names, "] image  ");
            push_access_lines(&mut o, &self.passes[pass].buffer, &self.buffer_names, "] buffer ");
            i = i + 1;
        }
        o
    }
}

fn changes_of_images(list: &Vec<ResourceAccess>, images: &Vec<RealizedImage>) -> (r: Vec<
    StateChange,
>)
    requires
        accesses_exist(list@, images@.len() as int),
    ensures
        r@ == image_changes(list@, images@),
{
    let mut r: Vec<StateChange> = Vec::new();
    let mut k: usize = 0;
    while k < list.len()
        invariant
            k <= list@.len(),
            accesses_exist(list@, images@.len() as int),
            r@ == image_changes(list@, images@).take(k as int),
        decreases list@.len() - k,
    {
        let a: ResourceAccess = list[k];
        r.push(StateChange { handle: images[a.handle as usize].handle, usage: a.usage });
        k = k + 1;
        assert(r@ =~= image_changes(list@, images@).take(k as int));
    }
    assert(r@ =~= image_changes(list@, images@));
    r
}

fn changes_of_buffers(list: &Vec<ResourceAccess>, buffers: &Vec<u64>) -> (r: Vec<StateChange>)
    requires
        accesses_exist(list@, buffers@.len() as int),
    ensures
        r@ == buffer_changes(list@, buffers@),
{
    let mut r: Vec<StateChange> = Vec::new();
    let mut k: usize = 0;
    while k < list.len()
        invariant
            k <= list@.len(),
            accesses_exist(list@, buffers@.len() as int),
            r@ == buffer_changes(list@, buffers@).take(k as int),
        decreases list@.len() - k,
    {
        let a: ResourceAccess = list[k];
        r.push(StateChange { handle: buffers[a.handle as usize], usage: a.usage });
        k = k + 1;
        assert(r@ =~= buffer_changes(list@, buffers@).take(k as int));
    }
    assert(r@ =~= buffer_changes(list@, buffers@));
    r
}

fn push_access_lines(o: &mut String, list: &Vec<ResourceAccess>, names: &Vec<String>, kind: &str)
    requires
        accesses_exist(list@, names@.len() as int),
    ensures
        final(o)@ == old(o)@ + access_lines(list@, names@, kind@, list@.len() as int),
{
    let mut k: usize = 0;
    assert(o@ =~= old(o)@ + access_lines(list@, names@, kind@, 0));
    while k < list.len()
        invariant
            k <= list@.len(),
            accesses_exist(list@, names@.len() as int),
            o@ == old(o)@ + access_lines(list@, names@, kind@, k as int),
        decreases list@.len() - k,
    {
        let a: ResourceAccess = list[k];
        o.append("       [");
        if a.write {
            o.append("W");
        } else {
            o.append("R");
        }
        o.append(kind);
        o.append(names[a.handle as usize].as_str());
        o.append("\n");
        k = k + 1;
        assert(o@ =~= old(o)@ + access_lines(list@, names@, kind@, k as int));
    }
}

} // verus!
