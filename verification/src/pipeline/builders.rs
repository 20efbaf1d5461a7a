//! Pipeline builders: what graphics, compute and ray tracing pipelines are created with, and the
//! layout of shader binding tables.
//!
//! A builder collects the configuration; building checks it and hands out what the driver is given.
//! The caller makes the driver call.

use crate::device::RayTracingProperties;
use crate::error::{Error, VkResult};
use crate::format::Format;
use crate::vulkan;
use vstd::prelude::*;

verus! {

/// `VK_PRIMITIVE_TOPOLOGY_TRIANGLE_LIST`.
pub const TOPOLOGY_TRIANGLE_LIST: i32 = 3;

/// `VK_POLYGON_MODE_FILL`.
pub const POLYGON_FILL: i32 = 0;

/// `VK_CULL_MODE_BACK_BIT`.
pub const CULL_BACK: u32 = 2;

/// `VK_FRONT_FACE_COUNTER_CLOCKWISE`.
pub const FRONT_COUNTER_CLOCKWISE: i32 = 0;

/// `VK_COMPARE_OP_LESS`.
pub const COMPARE_LESS: i32 = 1;

/// All four colour components.
pub const COMPONENTS_RGBA: u32 = 0xF;

/// `VK_DYNAMIC_STATE_VIEWPORT`.
pub const DYNAMIC_VIEWPORT: i32 = 0;

/// `VK_DYNAMIC_STATE_SCISSOR`.
pub const DYNAMIC_SCISSOR: i32 = 1;

/// `VK_SHADER_STAGE_COMPUTE_BIT`.
pub const STAGE_COMPUTE: u32 = 0x20;

/// `VK_SHADER_UNUSED_KHR`.
pub const SHADER_UNUSED: u32 = u32::MAX;

/// A constant within specialization data.
#[derive(Debug, Clone, Copy, PartialEq, Eq, Structural)]
pub struct MapEntry {
    /// Number of the constant.
    pub constant_id: u32,
    /// First byte in the data.
    pub offset: u32,
    /// Number of bytes.
    pub size: usize,
}

/// A shader stage.
#[derive(Debug)]
pub struct ShaderStageConfig {
    /// Stage flag.
    pub stage: u32,
    /// Handle of the shader module.
    pub module: u64,
    /// Name of the entry function.
    pub entry_point: String,
    /// Specialization data, if there is any.
    pub specialization_data: Option<Vec<u8>>,
    /// The constants in the specialization data.
    pub specialization_map: Vec<MapEntry>,
}

impl ShaderStageConfig {
    /// The stage has no specialization.
    pub open spec fn is_plain(&self, stage: u32, module: u64, entry_point: Seq<char>) -> bool {
        &&& self.stage == stage
        &&& self.module == module
        &&& self.entry_point@ == entry_point
        &&& self.specialization_data is None
        &&& self.specialization_map@.len() == 0
    }

    /// `new` is the stage with specialization data.
    pub open spec fn specializes(
        &self,
        new: &ShaderStageConfig,
        map_entries: Seq<MapEntry>,
        data: Seq<u8>,
    ) -> bool {
        &&& new.stage == self.stage
        &&& new.module == self.module
        &&& new.entry_point == self.entry_point
        &&& (new.specialization_data matches Some(d) && d@ == data)
        &&& new.specialization_map@ == map_entries
    }

    fn plain(stage: u32, module: u64, entry_point: &str) -> (r: ShaderStageConfig)
        ensures
            r.is_plain(stage, module, entry_point@),
    {
        ShaderStageConfig {
            stage,
            module,
            entry_point: entry_point.to_owned(),
            specialization_data: None,
            specialization_map: Vec::new(),
        }
    }

    fn specialized(self, map_entries: Vec<MapEntry>, data: Vec<u8>) -> (r: ShaderStageConfig)
        ensures
            self.specializes(&r, map_entries@, data@),
    {
        ShaderStageConfig {
            stage: self.stage,
            module: self.module,
            entry_point: self.entry_point,
            specialization_data: Some(data),
            specialization_map: map_entries,
        }
    }
}

/// Sets the specialization data of the last of some stages. Without a stage nothing happens.
fn specialize_last(stages: Vec<ShaderStageConfig>, map_entries: Vec<MapEntry>, data: Vec<u8>) -> (r:
    Vec<ShaderStageConfig>)
    ensures
        specializes_last(stages@, r@, map_entries@, data@),
{
    let mut s: Vec<ShaderStageConfig> = stages;
    match s.pop() {
        Some(last) => {
            s.push(last.specialized(map_entries, data));
            assert(s@.drop_last() =~= stages@.drop_last());
        },
        None => {},
    }
    s
}

/// `after` are the stages with specialization data for the last.
pub open spec fn specializes_last(
    before: Seq<ShaderStageConfig>,
    after: Seq<ShaderStageConfig>,
    map_entries: Seq<MapEntry>,
    data: Seq<u8>,
) -> bool {
    if before.len() == 0 {
        after == before
    } else {
        &&& after.len() == before.len()
        &&& after.drop_last() == before.drop_last()
        &&& before.last().specializes(&after.last(), map_entries, data)
    }
}

/// A vertex buffer binding.
#[derive(Debug, Clone, Copy, PartialEq, Eq, Structural)]
pub struct VertexBinding {
    /// Number of the binding.
    pub binding: u32,
    /// Bytes per element.
    pub stride: u32,
    /// Input rate.
    pub input_rate: i32,
}

/// A vertex attribute.
#[derive(Debug, Clone, Copy, PartialEq, Eq, Structural)]
pub struct VertexAttribute {
    /// Location in the shader.
    pub location: u32,
    /// Number of the binding.
    pub binding: u32,
    /// Format.
    pub format: Format,
    /// First byte within an element.
    pub offset: u32,
}

/// How a colour attachment is blended.
#[derive(Debug, Clone, Copy, PartialEq, Eq, Structural)]
pub struct ColorBlend {
    /// Whether to blend.
    pub blend_enable: bool,
    /// Components that are written.
    pub color_write_mask: u32,
}

/// Builder for a graphics pipeline.
#[derive(Debug)]
pub struct GraphicsPipelineBuilder {
    /// Shader stages.
    pub stages: Vec<ShaderStageConfig>,
    /// Vertex buffer bindings.
    pub vertex_bindings: Vec<VertexBinding>,
    /// Vertex attributes.
    pub vertex_attributes: Vec<VertexAttribute>,
    /// Primitive topology.
    pub topology: i32,
    /// Number of viewports.
    pub viewport_count: u32,
    /// Number of scissor rectangles.
    pub scissor_count: u32,
    /// Polygon mode.
    pub polygon_mode: i32,
    /// Faces that are culled.
    pub cull_mode: u32,
    /// Winding of front faces.
    pub front_face: i32,
    /// Whether depth is tested.
    pub depth_test: bool,
    /// Whether depth is written.
    pub depth_write: bool,
    /// How depths are compared.
    pub depth_compare_op: i32,
    /// Blending per colour attachment.
    pub color_blend_attachments: Vec<ColorBlend>,
    /// Dynamic states.
    pub dynamic_states: Vec<i32>,
    /// Pipeline layout.
    pub layout: u64,
    /// Render pass.
    pub render_pass: u64,
    /// Subpass.
    pub subpass: u32,
    /// Pipeline cache.
    pub cache: u64,
}

impl GraphicsPipelineBuilder {
    /// Filled triangles with back faces culled and depth tested and written, one opaque colour
    /// attachment, and a dynamic viewport and scissor rectangle.
    pub fn new() -> (r: GraphicsPipelineBuilder)
        ensures
            r.stages@.len() == 0,
            r.vertex_bindings@.len() == 0,
            r.vertex_attributes@.len() == 0,
            r.topology == TOPOLOGY_TRIANGLE_LIST,
            r.viewport_count == 1,
            r.scissor_count == 1,
            r.polygon_mode == POLYGON_FILL,
            r.cull_mode == CULL_BACK,
            r.front_face == FRONT_COUNTER_CLOCKWISE,
            r.depth_test,
            r.depth_write,
            r.depth_compare_op == COMPARE_LESS,
            r.color_blend_attachments@ == seq![
                ColorBlend { blend_enable: false, color_write_mask: COMPONENTS_RGBA },
            ],
            r.dynamic_states@ == seq![DYNAMIC_VIEWPORT, DYNAMIC_SCISSOR],
            r.layout == 0,
            r.render_pass == 0,
            r.subpass == 0,
            r.cache == 0,
    {
        let mut blends: Vec<ColorBlend> = Vec::new();
        blends.push(ColorBlend { blend_enable: false, color_write_mask: COMPONENTS_RGBA });
        assert(blends@ =~= seq![
            ColorBlend { blend_enable: false, color_write_mask: COMPONENTS_RGBA },
        ]);
        let mut dynamic: Vec<i32> = Vec::new();
        dynamic.push(DYNAMIC_VIEWPORT);
        dynamic.push(DYNAMIC_SCISSOR);
        assert(dynamic@ =~= seq![DYNAMIC_VIEWPORT, DYNAMIC_SCISSOR]);
        GraphicsPipelineBuilder {
            stages: Vec::new(),
            vertex_bindings: Vec::new(),
            vertex_attributes: Vec::new(),
            topology: TOPOLOGY_TRIANGLE_LIST,
            viewport_count: 1,
            scissor_count: 1,
            polygon_mode: POLYGON_FILL,
            cull_mode: CULL_BACK,
            front_face: FRONT_COUNTER_CLOCKWISE,
            depth_test: true,
            depth_write: true,
            depth_compare_op: COMPARE_LESS,
            color_blend_attachments: blends,
            dynamic_states: dynamic,
            layout: 0,
            render_pass: 0,
            subpass: 0,
            cache: 0,
        }
    }

    /// Adds a shader stage. A name cannot hold a zero character.
    pub fn shader_stage(self, stage: u32, module: u64, entry_point: &str) -> (r:
        GraphicsPipelineBuilder)
        requires
            !entry_point@.contains('\0'),
        ensures
            r.stages@.len() == self.stages@.len() + 1,
            r.stages@.drop_last() == self.stages@,
            r.stages@.last().is_plain(stage, module, entry_point@),
            r.vertex_bindings == self.vertex_bindings,
            r.vertex_attributes == self.vertex_attributes,
            r.topology == self.topology,
            r.viewport_count == self.viewport_count,
            r.scissor_count == self.scissor_count,
            r.polygon_mode == self.polygon_mode,
            r.cull_mode == self.cull_mode,
            r.front_face == self.front_face,
            r.depth_test == self.depth_test,
            r.depth_write == self.depth_write,
            r.depth_compare_op == self.depth_compare_op,
            r.color_blend_attachments == self.color_blend_attachments,
            r.dynamic_states == self.dynamic_states,
            r.layout == self.layout,
            r.render_pass == self.render_pass,
            r.subpass == self.subpass,
            r.cache == self.cache,
    {
        let mut b: GraphicsPipelineBuilder = self;
        b.stages.push(ShaderStageConfig::plain(stage, module, entry_point));
        assert(b.stages@.drop_last() =~= self.stages@);
        b
    }

    /// Sets the specialization data of the stage that was added last.
    pub fn specialization(self, map_entries: Vec<MapEntry>, data: Vec<u8>) -> (r:
        GraphicsPipelineBuilder)
        ensures
            specializes_last(self.stages@, r.stages@, map_entries@, data@),
            r.vertex_bindings == self.vertex_bindings,
            r.vertex_attributes == self.vertex_attributes,
            r.topology == self.topology,
            r.viewport_count == self.viewport_count,
            r.scissor_count == self.scissor_count,
            r.polygon_mode == self.polygon_mode,
            r.cull_mode == self.cull_mode,
            r.front_face == self.front_face,
            r.depth_test == self.depth_test,
            r.depth_write == self.depth_write,
            r.depth_compare_op == self.depth_compare_op,
            r.color_blend_attachments == self.color_blend_attachments,
            r.dynamic_states == self.dynamic_states,
            r.layout == self.layout,
            r.render_pass == self.render_pass,
            r.subpass == self.subpass,
            r.cache == self.cache,
    {
        GraphicsPipelineBuilder {
            stages: specialize_last(self.stages, map_entries, data),
            vertex_bindings: self.vertex_bindings,
            vertex_attributes: self.vertex_attributes,
            topology: self.topology,
            viewport_count: self.viewport_count,
            scissor_count: self.scissor_count,
            polygon_mode: self.polygon_mode,
            cull_mode: self.cull_mode,
            front_face: self.front_face,
            depth_test: self.depth_test,
            depth_write: self.depth_write,
            depth_compare_op: self.depth_compare_op,
            color_blend_attachments: self.color_blend_attachments,
            dynamic_states: self.dynamic_states,
            layout: self.layout,
            render_pass: self.render_pass,
            subpass: self.subpass,
            cache: self.cache,
        }
    }

    /// Adds a vertex buffer binding.
    pub fn vertex_binding(self, binding: u32, stride: u32, input_rate: i32) -> (r:
        GraphicsPipelineBuilder)
        ensures
            r.vertex_bindings@ == self.vertex_bindings@.push(
                VertexBinding { binding, stride, input_rate },
            ),
            r.stages == self.stages,
            r.vertex_attributes == self.vertex_attributes,
            r.topology == self.topology,
            r.viewport_count == self.viewport_count,
            r.scissor_count == self.scissor_count,
            r.polygon_mode == self.polygon_mode,
            r.cull_mode == self.cull_mode,
            r.front_face == self.front_face,
            r.depth_test == self.depth_test,
            r.depth_write == self.depth_write,
            r.depth_compare_op == self.depth_compare_op,
            r.color_blend_attachments == self.color_blend_attachments,
            r.dynamic_states == self.dynamic_states,
            r.layout == self.layout,
            r.render_pass == self.render_pass,
            r.subpass == self.subpass,
            r.cache == self.cache,
    {
        let mut b: GraphicsPipelineBuilder = self;
        b.vertex_bindings.push(VertexBinding { binding, stride, input_rate });
        b
    }

    /// Adds a vertex attribute.
    pub fn vertex_attribute(self, location: u32, binding: u32, format: Format, offset: u32) -> (r:
        GraphicsPipelineBuilder)
        ensures
            r.vertex_attributes@ == self.vertex_attributes@.push(
                VertexAttribute { location, binding, format, offset },
            ),
            r.stages == self.stages,
            r.vertex_bindings == self.vertex_bindings,
            r.topology == self.topology,
            r.viewport_count == self.viewport_count,
            r.scissor_count == self.scissor_count,
            r.polygon_mode == self.polygon_mode,
            r.cull_mode == self.cull_mode,
            r.front_face == self.front_face,
            r.depth_test == self.depth_test,
            r.depth_write == self.depth_write,
            r.depth_compare_op == self.depth_compare_op,
            r.color_blend_attachments == self.color_blend_attachments,
            r.dynamic_states == self.dynamic_states,
            r.layout == self.layout,
            r.render_pass == self.render_pass,
            r.subpass == self.subpass,
            r.cache == self.cache,
    {
        let mut b: GraphicsPipelineBuilder = self;
        b.vertex_attributes.push(VertexAttribute { location, binding, format, offset });
        b
    }

    /// Sets the primitive topology.
    pub fn topology(self, topology: i32) -> (r: GraphicsPipelineBuilder)
        ensures
            r == (GraphicsPipelineBuilder { topology, ..self }),
    {
        GraphicsPipelineBuilder { topology, ..self }
    }

    /// Sets the polygon mode.
    pub fn polygon_mode(self, mode: i32) -> (r: GraphicsPipelineBuilder)
        ensures
            r == (GraphicsPipelineBuilder { polygon_mode: mode, ..self }),
    {
        GraphicsPipelineBuilder { polygon_mode: mode, ..self }
    }

    /// Sets the faces that are culled.
    pub fn cull_mode(self, mode: u32) -> (r: GraphicsPipelineBuilder)
        ensures
            r == (GraphicsPipelineBuilder { cull_mode: mode, ..self }),
    {
        GraphicsPipelineBuilder { cull_mode: mode, ..self }
    }

    /// Sets the winding of front faces.
    pub fn front_face(self, face: i32) -> (r: GraphicsPipelineBuilder)
        ensures
            r == (GraphicsPipelineBuilder { front_face: face, ..self }),
    {
        GraphicsPipelineBuilder { front_face: face, ..self }
    }

    /// Switches the depth test on or off.
    pub fn depth_test(self, enable: bool) -> (r: GraphicsPipelineBuilder)
        ensures
            r == (GraphicsPipelineBuilder { depth_test: enable, ..self }),
    {
        GraphicsPipelineBuilder { depth_test: enable, ..self }
    }

    /// Switches the writing of depth on or off.
    pub fn depth_write(self, enable: bool) -> (r: GraphicsPipelineBuilder)
        ensures
            r == (GraphicsPipelineBuilder { depth_write: enable, ..self }),
    {
        GraphicsPipelineBuilder { depth_write: enable, ..self }
    }

    /// Sets how depths are compared.
    pub fn depth_compare_op(self, op: i32) -> (r: GraphicsPipelineBuilder)
        ensures
            r == (GraphicsPipelineBuilder { depth_compare_op: op, ..self }),
    {
        GraphicsPipelineBuilder { depth_compare_op: op, ..self }
    }

    /// Sets the pipeline layout.
    pub fn layout(self, layout: u64) -> (r: GraphicsPipelineBuilder)
        ensures
            r == (GraphicsPipelineBuilder { layout, ..self }),
    {
        GraphicsPipelineBuilder { layout, ..self }
    }

    /// Sets the pipeline cache.
    pub fn cache(self, cache: u64) -> (r: GraphicsPipelineBuilder)
        ensures
            r == (GraphicsPipelineBuilder { cache, ..self }),
    {
        GraphicsPipelineBuilder { cache, ..self }
    }

    /// Adds dynamic states to those that are set.
    pub fn dynamic_states(self, states: &Vec<i32>) -> (r: GraphicsPipelineBuilder)
        ensures
            r.dynamic_states@ == self.dynamic_states@ + states@,
            r == (GraphicsPipelineBuilder { dynamic_states: r.dynamic_states, ..self }),
    {
        let mut dynamic_states: Vec<i32> = self.dynamic_states;
        let ghost before = dynamic_states@;
        let mut i: usize = 0;
        assert(dynamic_states@ =~= before + states@.take(0));
        while i < states.len()
            invariant
                i <= states@.len(),
                dynamic_states@ == before + states@.take(i as int),
            decreases states@.len() - i,
        {
            dynamic_states.push(states[i]);
            assert(states@.take(i + 1) =~= states@.take(i as int).push(states@[i as int]));
            assert(dynamic_states@ =~= before + states@.take(i + 1));
            i = i + 1;
        }
        assert(states@.take(i as int) =~= states@);
        GraphicsPipelineBuilder { dynamic_states, ..self }
    }

    /// Sets the render pass and the subpass.
    pub fn render_pass(self, render_pass: u64, subpass: u32) -> (r: GraphicsPipelineBuilder)
        ensures
            r == (GraphicsPipelineBuilder { render_pass, subpass, ..self }),
    {
        GraphicsPipelineBuilder { render_pass, subpass, ..self }
    }

    /// Checks the configuration: there has to be a layout, and a shader stage.
    pub fn build(self) -> (r: Result<GraphicsPipelinePlan, Error>)
        ensures
            r is Ok <==> self.layout != 0 && self.stages@.len() > 0,
            r matches Ok(p) ==> p.settings == self && p.samples == vulkan::SAMPLES_1
                && p.all_off(),
            r matches Err(e) ==> e.is_invalid_config(
                if self.layout == 0 {
                    "pipeline layout is required"@
                } else {
                    "at least one shader stage is required"@
                },
            ),
    {
        if self.layout == 0 {
            return Err(Error::InvalidConfig("pipeline layout is required"));
        }
        if self.stages.len() == 0 {
            return Err(Error::InvalidConfig("at least one shader stage is required"));
        }
        Ok(
            GraphicsPipelinePlan {
                settings: self,
                samples: vulkan::SAMPLES_1,
                primitive_restart: false,
                depth_clamp: false,
                rasterizer_discard: false,
                depth_bias: false,
                sample_shading: false,
                depth_bounds_test: false,
                stencil_test: false,
                logic_op: false,
            },
        )
    }
}

/// What a graphics pipeline is created with.
#[derive(Debug)]
pub struct GraphicsPipelinePlan {
    /// What was set.
    pub settings: GraphicsPipelineBuilder,
    /// Samples per pixel.
    pub samples: u32,
    /// Whether an index can restart a primitive.
    pub primitive_restart: bool,
    /// Whether depths are clamped.
    pub depth_clamp: bool,
    /// Whether primitives are discarded before rasterization.
    pub rasterizer_discard: bool,
    /// Whether depths are biased.
    pub depth_bias: bool,
    /// Whether each sample is shaded.
    pub sample_shading: bool,
    /// Whether depth bounds are tested.
    pub depth_bounds_test: bool,
    /// Whether the stencil is tested.
    pub stencil_test: bool,
    /// Whether colours are combined by a logical operation.
    pub logic_op: bool,
}

impl GraphicsPipelinePlan {
    /// All that cannot be set is switched off.
    pub open spec fn all_off(&self) -> bool {
        &&& !self.primitive_restart
        &&& !self.depth_clamp
        &&& !self.rasterizer_discard
        &&& !self.depth_bias
        &&& !self.sample_shading
        &&& !self.depth_bounds_test
        &&& !self.stencil_test
        &&& !self.logic_op
    }
}

/// What comes of creating a pipeline. `outcome` is what the driver says.
pub fn pipeline_created(outcome: Result<u64, VkResult>) -> (r: Result<u64, Error>)
    ensures
        r == match outcome {
            Ok(handle) => Ok::<u64, Error>(handle),
            Err(code) => Err(Error::Vulkan(code)),
        },
{
    match outcome {
        Ok(handle) => Ok(handle),
        Err(code) => Err(Error::Vulkan(code)),
    }
}

/// Builder for a compute pipeline.
#[derive(Debug)]
pub struct ComputePipelineBuilder {
    /// The shader.
    pub stage: Option<ShaderStageConfig>,
    /// Pipeline layout.
    pub layout: u64,
    /// Pipeline cache.
    pub cache: u64,
}

/// What a compute pipeline is created with.
#[derive(Debug)]
pub struct ComputePipelinePlan {
    /// The shader.
    pub stage: ShaderStageConfig,
    /// Pipeline layout.
    pub layout: u64,
    /// Pipeline cache.
    pub cache: u64,
}

impl ComputePipelineBuilder {
    /// Nothing is set.
    pub fn new() -> (r: ComputePipelineBuilder)
        ensures
            r.stage is None,
            r.layout == 0,
            r.cache == 0,
    {
        ComputePipelineBuilder { stage: None, layout: 0, cache: 0 }
    }

    /// Sets the shader. A name cannot hold a zero character.
    pub fn shader(self, module: u64, entry_point: &str) -> (r: ComputePipelineBuilder)
        requires
            !entry_point@.contains('\0'),
        ensures
            r.stage matches Some(s) && s.is_plain(STAGE_COMPUTE, module, entry_point@),
            r.layout == self.layout,
            r.cache == self.cache,
    {
        ComputePipelineBuilder {
            stage: Some(ShaderStageConfig::plain(STAGE_COMPUTE, module, entry_point)),
            layout: self.layout,
            cache: self.cache,
        }
    }

    /// Sets the specialization data of the shader. Without a shader nothing happens.
    pub fn specialization(self, map_entries: Vec<MapEntry>, data: Vec<u8>) -> (r:
        ComputePipelineBuilder)
        ensures
            match self.stage {
                Some(s) => r.stage matches Some(t) && s.specializes(&t, map_entries@, data@),
                None => r.stage is None,
            },
            r.layout == self.layout,
            r.cache == self.cache,
    {
        let stage: Option<ShaderStageConfig> = match self.stage {
            Some(s) => Some(s.specialized(map_entries, data)),
            None => None,
        };
        ComputePipelineBuilder { stage, layout: self.layout, cache: self.cache }
    }

    /// Sets the pipeline layout.
    pub fn layout(self, layout: u64) -> (r: ComputePipelineBuilder)
        ensures
            r == (ComputePipelineBuilder { layout, ..self }),
    {
        ComputePipelineBuilder { layout, ..self }
    }

    /// Sets the pipeline cache.
    pub fn cache(self, cache: u64) -> (r: ComputePipelineBuilder)
        ensures
            r == (ComputePipelineBuilder { cache, ..self }),
    {
        ComputePipelineBuilder { cache, ..self }
    }

    /// Checks the configuration: there has to be a shader, and a layout.
    pub fn build(self) -> (r: Result<ComputePipelinePlan, Error>)
        ensures
            r is Ok <==> self.stage is Some && self.layout != 0,
            r matches Ok(p) ==> self.stage == Some(p.stage) && p.layout == self.layout && p.cache
                == self.cache,
            r matches Err(e) ==> e.is_invalid_config(
                if self.stage is None {
                    "compute shader is required"@
                } else {
                    "pipeline layout is required"@
                },
            ),
    {
        match self.stage {
            None => Err(Error::InvalidConfig("compute shader is required")),
            Some(stage) => {
                if self.layout == 0 {
                    return Err(Error::InvalidConfig("pipeline layout is required"));
                }
                Ok(ComputePipelinePlan { stage, layout: self.layout, cache: self.cache })
            },
        }
    }
}

/// A shader group of a ray tracing pipeline. Shaders are given by their place among the stages.
#[derive(Debug, Clone, Copy, PartialEq, Eq, Structural)]
pub enum ShaderGroup {
    /// A raygen, miss or callable shader.
    General {
        /// The shader.
        shader_index: u32,
    },
    /// Shaders for hits on triangles.
    TrianglesHit {
        /// The closest-hit shader.
        closest_hit: u32,
        /// The any-hit shader.
        any_hit: Option<u32>,
    },
    /// Shaders for hits on procedural geometry.
    ProceduralHit {
        /// The closest-hit shader.
        closest_hit: u32,
        /// The any-hit shader.
        any_hit: Option<u32>,
        /// The intersection shader.
        intersection: u32,
    },
}

/// A shader group as the driver is given it.
#[derive(Debug, Clone, Copy, PartialEq, Eq, Structural)]
pub struct GroupInfo {
    /// Group type: 0 for general, 1 for triangles, 2 for procedural geometry.
    pub group_type: i32,
    /// General shader.
    pub general: u32,
    /// Closest-hit shader.
    pub closest_hit: u32,
    /// Any-hit shader.
    pub any_hit: u32,
    /// Intersection shader.
    pub intersection: u32,
}

/// A shader, or the mark that there is none.
pub open spec fn or_unused(shader: Option<u32>) -> u32 {
    match shader {
        Some(s) => s,
        None => SHADER_UNUSED,
    }
}

/// A shader group as the driver is given it.
pub open spec fn group_info(g: ShaderGroup) -> GroupInfo {
    match g {
        ShaderGroup::General { shader_index } => GroupInfo {
            group_type: 0,
            general: shader_index,
            closest_hit: SHADER_UNUSED,
            any_hit: SHADER_UNUSED,
            intersection: SHADER_UNUSED,
        },
        ShaderGroup::TrianglesHit { closest_hit, any_hit } => GroupInfo {
            group_type: 1,
            general: SHADER_UNUSED,
            closest_hit,
            any_hit: or_unused(any_hit),
            intersection: SHADER_UNUSED,
        },
        ShaderGroup::ProceduralHit { closest_hit, any_hit, intersection } => GroupInfo {
            group_type: 2,
            general: SHADER_UNUSED,
            closest_hit,
            any_hit: or_unused(any_hit),
            intersection,
        },
    }
}

fn shader_or_unused(shader: Option<u32>) -> (r: u32)
    ensures
        r == or_unused(shader),
{
    match shader {
        Some(s) => s,
        None => SHADER_UNUSED,
    }
}

fn to_group_info(g: &ShaderGroup) -> (r: GroupInfo)
    ensures
        r == group_info(*g),
{
    match g {
        ShaderGroup::General { shader_index } => GroupInfo {
            group_type: 0,
            general: *shader_index,
            closest_hit: SHADER_UNUSED,
            any_hit: SHADER_UNUSED,
            intersection: SHADER_UNUSED,
        },
        ShaderGroup::TrianglesHit { closest_hit, any_hit } => GroupInfo {
            group_type: 1,
            general: SHADER_UNUSED,
            closest_hit: *closest_hit,
            any_hit: shader_or_unused(*any_hit),
            intersection: SHADER_UNUSED,
        },
        ShaderGroup::ProceduralHit { closest_hit, any_hit, intersection } => GroupInfo {
            group_type: 2,
            general: SHADER_UNUSED,
            closest_hit: *closest_hit,
            any_hit: shader_or_unused(*any_hit),
            intersection: *intersection,
        },
    }
}

/// Builder for a ray tracing pipeline.
#[derive(Debug)]
pub struct RayTracingPipelineBuilder {
    /// Shader stages.
    pub stages: Vec<ShaderStageConfig>,
    /// Shader groups.
    pub groups: Vec<ShaderGroup>,
    /// Greatest recursion depth.
    pub max_recursion_depth: u32,
    /// Pipeline layout.
    pub layout: u64,
    /// Pipeline cache.
    pub cache: u64,
}

/// What a ray tracing pipeline is created with.
#[derive(Debug)]
pub struct RayTracingPipelinePlan {
    /// Shader stages.
    pub stages: Vec<ShaderStageConfig>,
    /// Shader groups.
    pub groups: Vec<GroupInfo>,
    /// Greatest recursion depth.
    pub max_recursion_depth: u32,
    /// Pipeline layout.
    pub layout: u64,
    /// Pipeline cache.
    pub cache: u64,
}

impl RayTracingPipelineBuilder {
    /// Nothing is set; rays do not recurse beyond the first.
    pub fn new() -> (r: RayTracingPipelineBuilder)
        ensures
            r.stages@.len() == 0,
            r.groups@.len() == 0,
            r.max_recursion_depth == 1,
            r.layout == 0,
            r.cache == 0,
    {
        RayTracingPipelineBuilder {
            stages: Vec::new(),
            groups: Vec::new(),
            max_recursion_depth: 1,
            layout: 0,
            cache: 0,
        }
    }

    /// Adds a shader stage. A name cannot hold a zero character.
    pub fn stage(self, stage_flags: u32, module: u64, entry_point: &str) -> (r:
        RayTracingPipelineBuilder)
        requires
            !entry_point@.contains('\0'),
        ensures
            r.stages@.len() == self.stages@.len() + 1,
            r.stages@.drop_last() == self.stages@,
            r.stages@.last().is_plain(stage_flags, module, entry_point@),
            r.groups == self.groups,
            r.max_recursion_depth == self.max_recursion_depth,
            r.layout == self.layout,
            r.cache == self.cache,
    {
        let mut b: RayTracingPipelineBuilder = self;
        b.stages.push(ShaderStageConfig::plain(stage_flags, module, entry_point));
        assert(b.stages@.drop_last() =~= self.stages@);
        b
    }

    /// Sets the specialization data of the stage that was added last.
    pub fn specialization(self, map_entries: Vec<MapEntry>, data: Vec<u8>) -> (r:
        RayTracingPipelineBuilder)
        ensures
            specializes_last(self.stages@, r.stages@, map_entries@, data@),
            r.groups == self.groups,
            r.max_recursion_depth == self.max_recursion_depth,
            r.layout == self.layout,
            r.cache == self.cache,
    {
        RayTracingPipelineBuilder {
            stages: specialize_last(self.stages, map_entries, data),
            groups: self.groups,
            max_recursion_depth: self.max_recursion_depth,
            layout: self.layout,
            cache: self.cache,
        }
    }

    /// Adds a shader group.
    pub fn group(self, group: ShaderGroup) -> (r: RayTracingPipelineBuilder)
        ensures
            r.groups@ == self.groups@.push(group),
            r.stages == self.stages,
            r.max_recursion_depth == self.max_recursion_depth,
            r.layout == self.layout,
            r.cache == self.cache,
    {
        let mut b: RayTracingPipelineBuilder = self;
        b.groups.push(group);
        b
    }

    /// Sets the greatest recursion depth.
    pub fn max_recursion_depth(self, depth: u32) -> (r: RayTracingPipelineBuilder)
        ensures
            r == (RayTracingPipelineBuilder { max_recursion_depth: depth, ..self }),
    {
        RayTracingPipelineBuilder { max_recursion_depth: depth, ..self }
    }

    /// Sets the pipeline layout.
    pub fn layout(self, layout: u64) -> (r: RayTracingPipelineBuilder)
        ensures
            r == (RayTracingPipelineBuilder { layout, ..self }),
    {
        RayTracingPipelineBuilder { layout, ..self }
    }

    /// Sets the pipeline cache.
    pub fn cache(self, cache: u64) -> (r: RayTracingPipelineBuilder)
        ensures
            r == (RayTracingPipelineBuilder { cache, ..self }),
    {
        RayTracingPipelineBuilder { cache, ..self }
    }

    /// The first thing that is missing, if anything is.
    pub open spec fn missing(&self) -> Option<Seq<char>> {
        if self.layout == 0 {
            Some("pipeline layout is required"@)
        } else if self.stages@.len() == 0 {
            Some("at least one shader stage is required"@)
        } else if self.groups@.len() == 0 {
            Some("at least one shader group is required"@)
        } else {
            None
        }
    }

    /// Checks the configuration and turns the groups into what the driver is given. Ray tracing has
    /// to be loaded, and there has to be a layout, a shader stage and a shader group.
    pub fn build(self, raytracing: bool) -> (r: Result<RayTracingPipelinePlan, Error>)
        ensures
            r is Ok <==> raytracing && self.missing() is None,
            r matches Ok(p) ==> {
                &&& p.stages == self.stages
                &&& p.groups@ == self.groups@.map_values(|g: ShaderGroup| group_info(g))
                &&& p.groups@.len() == self.groups@.len()
                &&& forall|i: int| #![trigger p.groups@[i]] #![trigger self.groups@[i]]
                    0 <= i < self.groups@.len() ==> match self.groups@[i] {
                        ShaderGroup::General { shader_index } => p.groups@[i] == (GroupInfo {
                            group_type: 0,
                            general: shader_index,
                            closest_hit: 0xFFFF_FFFF,
                            any_hit: 0xFFFF_FFFF,
                            intersection: 0xFFFF_FFFF,
                        }),
                        ShaderGroup::TrianglesHit { closest_hit, any_hit } => p.groups@[i] == (
                        GroupInfo {
                            group_type: 1,
                            general: 0xFFFF_FFFF,
                            closest_hit,
                            any_hit: if any_hit is Some { any_hit->0 } else { 0xFFFF_FFFF },
                            intersection: 0xFFFF_FFFF,
                        }),
                        ShaderGroup::ProceduralHit {
                            closest_hit,
                            any_hit,
                            intersection,
                        } => p.groups@[i] == (GroupInfo {
                            group_type: 2,
                            general: 0xFFFF_FFFF,
                            closest_hit,
                            any_hit: if any_hit is Some { any_hit->0 } else { 0xFFFF_FFFF },
                            intersection,
                        }),
                    }
                &&& p.max_recursion_depth == self.max_recursion_depth
                &&& p.layout == self.layout
                &&& p.cache == self.cache
            },
            r matches Err(e) ==> if !raytracing {
                e.is_feature_not_enabled("VK_KHR_ray_tracing_pipeline"@)
            } else {
                self.missing() matches Some(words) && e.is_invalid_config(words)
            },
    {
        if !raytracing {
            return Err(Error::FeatureNotEnabled("VK_KHR_ray_tracing_pipeline"));
        }
        if self.layout == 0 {
            return Err(Error::InvalidConfig("pipeline layout is required"));
        }
        if self.stages.len() == 0 {
            return Err(Error::InvalidConfig("at least one shader stage is required"));
        }
        if self.groups.len() == 0 {
            return Err(Error::InvalidConfig("at least one shader group is required"));
        }
        let ghost all = self.groups@.map_values(|g: ShaderGroup| group_info(g));
        let mut groups: Vec<GroupInfo> = Vec::new();
        let mut i: usize = 0;
        while i < self.groups.len()
            invariant
                i <= self.groups@.len(),
                all == self.groups@.map_values(|g: ShaderGroup| group_info(g)),
                groups@ == all.take(i as int),
            decreases self.groups@.len() - i,
        {
            groups.push(to_group_info(&self.groups[i]));
            i = i + 1;
            assert(groups@ =~= all.take(i as int));
        }
        assert(groups@ =~= all);
        Ok(
            RayTracingPipelinePlan {
                stages: self.stages,
                groups,
                max_recursion_depth: self.max_recursion_depth,
                layout: self.layout,
                cache: self.cache,
            },
        )
    }
}

impl RayTracingPipelinePlan {
    /// What comes of creating the pipeline. `outcome` is what the driver says.
    pub fn created(&self, outcome: Result<u64, VkResult>) -> (r: Result<RayTracingPipeline, Error>)
        ensures
            r is Ok <==> outcome is Ok,
            r matches Ok(p) ==> {
                &&& p.handle == outcome->Ok_0
                &&& p.group_count == self.groups@.len() as u32
                &&& self.groups@.len() <= u32::MAX ==> p.group_count == self.groups@.len()
            },
            r matches Err(e) ==> e == Error::Vulkan(outcome->Err_0),
    {
        match pipeline_created(outcome) {
            Ok(handle) => Ok(
                RayTracingPipeline { handle, group_count: self.groups.len() as u32 },
            ),
            Err(e) => Err(e),
        }
    }
}

/// A ray tracing pipeline.
#[derive(Debug, Clone, Copy, PartialEq, Eq, Structural)]
pub struct RayTracingPipeline {
    /// Handle of the pipeline.
    pub handle: u64,
    /// Number of shader groups.
    pub group_count: u32,
}

/// Layout of a shader binding table: four regions one behind the other, each aligned to the base
/// alignment. Within a region the handles stand at the stride.
#[derive(Debug)]
pub struct ShaderBindingTableLayout {
    /// The shader group handles, as the driver gave them.
    pub handle_data: Vec<u8>,
    /// Bytes of a handle.
    pub handle_size: u32,
    /// Bytes of a handle with its alignment.
    pub handle_size_aligned: u32,
    /// Alignment of the regions.
    pub base_alignment: u32,
    /// First byte of the raygen region.
    pub raygen_offset: u64,
    /// Bytes of the raygen region.
    pub raygen_size: u64,
    /// Stride in the raygen region.
    pub raygen_stride: u64,
    /// First byte of the miss region.
    pub miss_offset: u64,
    /// Bytes of the miss region.
    pub miss_size: u64,
    /// Stride in the miss region.
    pub miss_stride: u64,
    /// First byte of the hit region.
    pub hit_offset: u64,
    /// Bytes of the hit region.
    pub hit_size: u64,
    /// Stride in the hit region.
    pub hit_stride: u64,
    /// First byte of the callable region.
    pub callable_offset: u64,
    /// Bytes of the callable region.
    pub callable_size: u64,
    /// Stride in the callable region.
    pub callable_stride: u64,
    /// Bytes of the table.
    pub total_size: u64,
}

/// Numbers of shader groups per region.
#[derive(Debug, Clone, Copy, PartialEq, Eq, Structural)]
pub struct GroupCounts {
    /// Raygen groups.
    pub raygen: u32,
    /// Miss groups.
    pub miss: u32,
    /// Hit groups.
    pub hit: u32,
    /// Callable groups.
    pub callable: u32,
}

/// The stride between handles.
pub open spec fn sbt_stride(p: RayTracingProperties) -> u64 {
    vulkan::mask_up(p.shader_group_handle_size as u64, p.shader_group_handle_alignment as u64)
}

/// Bytes of a region of `n` groups.
pub open spec fn region_size(p: RayTracingProperties, n: u32) -> u64 {
    vulkan::mask_up((n * sbt_stride(p)) as u64, p.shader_group_base_alignment as u64)
}

/// The sizes that the layout is made of fit their types.
pub open spec fn sbt_fits(p: RayTracingProperties, c: GroupCounts) -> bool {
    &&& p.shader_group_handle_alignment >= 1
    &&& p.shader_group_base_alignment >= 1
    &&& sbt_stride(p) <= u32::MAX
    &&& region_size(p, c.raygen) + region_size(p, c.miss) + region_size(p, c.hit) + region_size(
        p,
        c.callable,
    ) <= u64::MAX
}

impl ShaderBindingTableLayout {
    /// The layout for numbers of groups on a device.
    pub open spec fn is_for(&self, p: RayTracingProperties, c: GroupCounts) -> bool {
        let raygen = region_size(p, c.raygen);
        let miss = region_size(p, c.miss);
        let hit = region_size(p, c.hit);
        let callable = region_size(p, c.callable);
        &&& self.handle_size == p.shader_group_handle_size
        &&& self.handle_size_aligned == sbt_stride(p)
        &&& self.base_alignment == p.shader_group_base_alignment
        &&& self.raygen_offset == 0
        &&& self.raygen_size == raygen
        &&& self.raygen_stride == sbt_stride(p)
        &&& self.miss_offset == raygen
        &&& self.miss_size == miss
        &&& self.miss_stride == sbt_stride(p)
        &&& self.hit_offset == raygen + miss
        &&& self.hit_size == hit
        &&& self.hit_stride == sbt_stride(p)
        &&& self.callable_offset == raygen + miss + hit
        &&& self.callable_size == callable
        &&& self.callable_stride == sbt_stride(p)
        &&& self.total_size == raygen + miss + hit + callable
    }
}

/// Bytes of a region.
fn region_bytes(n: u32, stride: u64, base_alignment: u64) -> (r: u64)
    requires
        stride <= u32::MAX,
        1 <= base_alignment <= u32::MAX,
    ensures
        r == vulkan::mask_up((n * stride) as u64, base_alignment),
{
    assert(0 <= n as int * stride as int <= 0xffff_ffff * 0xffff_ffff) by (nonlinear_arith)
        requires
            0 <= n <= 0xffff_ffff,
            0 <= stride <= 0xffff_ffff,
    ;
    vulkan::align_up((n as u64) * stride, base_alignment)
}

/// Whether the sizes of a shader binding table fit their types.
pub fn sbt_layout_fits(p: &RayTracingProperties, c: &GroupCounts) -> (r: bool)
    ensures
        r == sbt_fits(*p, *c),
{
    if p.shader_group_handle_alignment == 0 || p.shader_group_base_alignment == 0 {
        return false;
    }
    let stride: u64 = vulkan::align_up(
        p.shader_group_handle_size as u64,
        p.shader_group_handle_alignment as u64,
    );
    if stride > u32::MAX as u64 {
        return false;
    }
    let base: u64 = p.shader_group_base_alignment as u64;
    let raygen: u128 = region_bytes(c.raygen, stride, base) as u128;
    let miss: u128 = region_bytes(c.miss, stride, base) as u128;
    let hit: u128 = region_bytes(c.hit, stride, base) as u128;
    let callable: u128 = region_bytes(c.callable, stride, base) as u128;
    raygen + miss + hit + callable <= u64::MAX as u128
}

impl RayTracingPipeline {
    /// Handle of the pipeline.
    pub fn handle(&self) -> (r: u64)
        ensures
            r == self.handle,
    {
        self.handle
    }

    /// Number of shader groups.
    pub fn group_count(&self) -> (r: u32)
        ensures
            r == self.group_count,
    {
        self.group_count
    }

    /// Number of bytes of all shader group handles.
    pub fn handle_bytes(&self, p: &RayTracingProperties) -> (r: u64)
        ensures
            r == self.group_count * p.shader_group_handle_size,
    {
        assert(0 <= self.group_count as int * p.shader_group_handle_size as int <= 0xffff_ffff
            * 0xffff_ffff) by (nonlinear_arith)
            requires
                0 <= self.group_count <= 0xffff_ffff,
                0 <= p.shader_group_handle_size <= 0xffff_ffff,
        ;
        (self.group_count as u64) * (p.shader_group_handle_size as u64)
    }

    /// Computes the layout of the shader binding table. Ray tracing has to be loaded and the
    /// properties of the device known. `handles` are the shader group handles, as the driver gave
    /// them.
    pub fn sbt_layout(
        &self,
        raytracing: bool,
        properties: Option<RayTracingProperties>,
        handles: Result<Vec<u8>, VkResult>,
        counts: GroupCounts,
    ) -> (r: Result<ShaderBindingTableLayout, Error>)
        requires
            raytracing && handles is Ok ==> (properties matches Some(p) ==> sbt_fits(p, counts)),
        ensures
            r is Ok <==> raytracing && properties is Some && handles is Ok,
            r matches Ok(l) ==> l.is_for(properties->0, counts) && l.handle_data == handles->Ok_0,
            r matches Err(e) ==> if !raytracing {
                e.is_feature_not_enabled("VK_KHR_ray_tracing_pipeline"@)
            } else if properties is None {
                e.is_feature_not_enabled("ray tracing properties"@)
            } else {
                e == Error::Vulkan(handles->Err_0)
            },
    {
        if !raytracing {
            return Err(Error::FeatureNotEnabled("VK_KHR_ray_tracing_pipeline"));
        }
        let p: RayTracingProperties = match properties {
            Some(p) => p,
            None => {
                return Err(Error::FeatureNotEnabled("ray tracing properties"));
            },
        };
        let handle_data: Vec<u8> = match handles {
            Ok(d) => d,
            Err(code) => {
                return Err(Error::Vulkan(code));
            },
        };
        let stride: u64 = vulkan::align_up(
            p.shader_group_handle_size as u64,
            p.shader_group_handle_alignment as u64,
        );
        let base: u64 = p.shader_group_base_alignment as u64;
        let raygen: u64 = region_bytes(counts.raygen, stride, base);
        let miss: u64 = region_bytes(counts.miss, stride, base);
        let hit: u64 = region_bytes(counts.hit, stride, base);
        let callable: u64 = region_bytes(counts.callable, stride, base);
        Ok(
            ShaderBindingTableLayout {
                handle_data,
                handle_size: p.shader_group_handle_size,
                handle_size_aligned: stride as u32,
                base_alignment: p.shader_group_base_alignment,
                raygen_offset: 0,
                raygen_size: raygen,
                raygen_stride: stride,
                miss_offset: raygen,
                miss_size: miss,
                miss_stride: stride,
                hit_offset: raygen + miss,
                hit_size: hit,
                hit_stride: stride,
                callable_offset: raygen + miss + hit,
                callable_size: callable,
                callable_stride: stride,
                total_size: raygen + miss + hit + callable,
            },
        )
    }
}

/// A region of a shader binding table at its address.
#[derive(Debug, Clone, Copy, PartialEq, Eq, Structural)]
pub struct AddressRegion {
    /// Address of the first byte.
    pub device_address: u64,
    /// Stride between handles.
    pub stride: u64,
    /// Bytes of the region.
    pub size: u64,
}

impl ShaderBindingTableLayout {
    /// The raygen region of a table at an address.
    pub fn raygen_region(&self, base_address: u64) -> (r: AddressRegion)
        requires
            base_address + self.raygen_offset <= u64::MAX,
        ensures
            r == (AddressRegion {
                device_address: (base_address + self.raygen_offset) as u64,
                stride: self.raygen_stride,
                size: self.raygen_size,
            }),
    {
        AddressRegion {
            device_address: base_address + self.raygen_offset,
            stride: self.raygen_stride,
            size: self.raygen_size,
        }
    }

    /// The miss region of a table at an address.
    pub fn miss_region(&self, base_address: u64) -> (r: AddressRegion)
        requires
            base_address + self.miss_offset <= u64::MAX,
        ensures
            r == (AddressRegion {
                device_address: (base_address + self.miss_offset) as u64,
                stride: self.miss_stride,
                size: self.miss_size,
            }),
    {
        AddressRegion {
            device_address: base_address + self.miss_offset,
            stride: self.miss_stride,
            size: self.miss_size,
        }
    }

    /// The hit region of a table at an address.
    pub fn hit_region(&self, base_address: u64) -> (r: AddressRegion)
        requires
            base_address + self.hit_offset <= u64::MAX,
        ensures
            r == (AddressRegion {
                device_address: (base_address + self.hit_offset) as u64,
                stride: self.hit_stride,
                size: self.hit_size,
            }),
    {
        AddressRegion {
            device_address: base_address + self.hit_offset,
            stride: self.hit_stride,
            size: self.hit_size,
        }
    }

    /// The callable region of a table at an address.
    pub fn callable_region(&self, base_address: u64) -> (r: AddressRegion)
        requires
            base_address + self.callable_offset <= u64::MAX,
        ensures
            r == (AddressRegion {
                device_address: (base_address + self.callable_offset) as u64,
                stride: self.callable_stride,
                size: self.callable_size,
            }),
    {
        AddressRegion {
            device_address: base_address + self.callable_offset,
            stride: self.callable_stride,
            size: self.callable_size,
        }
    }
}

/// With alignments that are powers of two, as devices have them, every region starts at a multiple
/// of the base alignment, has room for its handles and ends where the next one starts.
pub proof fn law_sbt_regions_are_aligned_and_large_enough(
    l: ShaderBindingTableLayout,
    p: RayTracingProperties,
    c: GroupCounts,
)
    requires
        sbt_fits(p, c),
        l.is_for(p, c),
        vulkan::is_pow2(p.shader_group_handle_alignment as u64),
        vulkan::is_pow2(p.shader_group_base_alignment as u64),
    ensures
        ({
            let base = p.shader_group_base_alignment as int;
            &&& l.raygen_offset as int % base == 0
            &&& l.miss_offset as int % base == 0
            &&& l.hit_offset as int % base == 0
            &&& l.callable_offset as int % base == 0
            &&& l.total_size as int % base == 0
        }),
        l.raygen_stride % (p.shader_group_handle_alignment as u64) == 0,
        l.raygen_stride >= p.shader_group_handle_size,
        c.raygen * l.raygen_stride <= l.raygen_size,
        c.miss * l.miss_stride <= l.miss_size,
        c.hit * l.hit_stride <= l.hit_size,
        c.callable * l.callable_stride <= l.callable_size,
        l.raygen_offset + l.raygen_size == l.miss_offset,
        l.miss_offset + l.miss_size == l.hit_offset,
        l.hit_offset + l.hit_size == l.callable_offset,
        l.callable_offset + l.callable_size == l.total_size,
{
    let base = p.shader_group_base_alignment as u64;
    vulkan::lemma_mask_up_rounds_up(
        p.shader_group_handle_size as u64,
        p.shader_group_handle_alignment as u64,
    );
    lemma_region(c.raygen, sbt_stride(p), base);
    lemma_region(c.miss, sbt_stride(p), base);
    lemma_region(c.hit, sbt_stride(p), base);
    lemma_region(c.callable, sbt_stride(p), base);
    let (a, b, d, e) = (
        l.raygen_size as int,
        l.miss_size as int,
        l.hit_size as int,
        l.callable_size as int,
    );
    let m = base as int;
    lemma_sum_of_multiples(a, b, m);
    lemma_sum_of_multiples(a + b, d, m);
    lemma_sum_of_multiples(a + b + d, e, m);
}

proof fn lemma_sum_of_multiples(a: int, b: int, m: int)
    requires
        m > 0,
        a % m == 0,
        b % m == 0,
    ensures
        (a + b) % m == 0,
{
    vstd::arithmetic::div_mod::lemma_add_mod_noop(a, b, m);
    vstd::arithmetic::div_mod::lemma_small_mod(0, m as nat);
}

pub(crate) proof fn lemma_region(n: u32, stride: u64, base: u64)
    requires
        stride <= u32::MAX,
        base <= u32::MAX,
        vulkan::is_pow2(base),
    ensures
        n * stride <= vulkan::mask_up((n * stride) as u64, base),
        vulkan::mask_up((n * stride) as u64, base) as int % (base as int) == 0,
        vulkan::mask_up((n * stride) as u64, base) < n * stride + base,
        base > 0,
{
    assert(0 <= n as int * stride as int <= 0xffff_ffff * 0xffff_ffff) by (nonlinear_arith)
        requires
            0 <= n <= 0xffff_ffff,
            0 <= stride <= 0xffff_ffff,
    ;
    vulkan::lemma_pow2_is_positive(base);
    vulkan::lemma_mask_up_rounds_up((n * stride) as u64, base);
}

/// A push constant range.
#[derive(Debug, Clone, Copy, PartialEq, Eq, Structural)]
pub struct PushConstantRange {
    /// Shader stages.
    pub stage_flags: u32,
    /// First byte.
    pub offset: u32,
    /// Number of bytes.
    pub size: u32,
}

/// Builder for a pipeline layout. It is what the driver is given.
#[derive(Debug)]
pub struct PipelineLayoutBuilder {
    /// Descriptor set layouts.
    pub set_layouts: Vec<u64>,
    /// Push constant ranges.
    pub push_constant_ranges: Vec<PushConstantRange>,
}

impl PipelineLayoutBuilder {
    /// An empty layout.
    pub fn new() -> (r: PipelineLayoutBuilder)
        ensures
            r.set_layouts@.len() == 0,
            r.push_constant_ranges@.len() == 0,
    {
        PipelineLayoutBuilder { set_layouts: Vec::new(), push_constant_ranges: Vec::new() }
    }

    /// Adds a descriptor set layout.
    pub fn descriptor_set_layout(self, layout: u64) -> (r: PipelineLayoutBuilder)
        ensures
            r.set_layouts@ == self.set_layouts@.push(layout),
            r.push_constant_ranges == self.push_constant_ranges,
    {
        let mut b: PipelineLayoutBuilder = self;
        b.set_layouts.push(layout);
        b
    }

    /// Adds descriptor set layouts.
    pub fn descriptor_set_layouts(self, layouts: &Vec<u64>) -> (r: PipelineLayoutBuilder)
        ensures
            r.set_layouts@ == self.set_layouts@ + layouts@,
            r.push_constant_ranges == self.push_constant_ranges,
    {
        let mut b: PipelineLayoutBuilder = self;
        let mut i: usize = 0;
        assert(b.set_layouts@ =~= self.set_layouts@ + layouts@.take(0));
        while i < layouts.len()
            invariant
                i <= layouts@.len(),
                b.set_layouts@ == self.set_layouts@ + layouts@.take(i as int),
                b.push_constant_ranges == self.push_constant_ranges,
            decreases layouts@.len() - i,
        {
            b.set_layouts.push(layouts[i]);
            i = i + 1;
            assert(b.set_layouts@ =~= self.set_layouts@ + layouts@.take(i as int));
        }
        assert(layouts@.take(i as int) =~= layouts@);
        b
    }

    /// Adds a push constant range.
    pub fn push_constant_range(self, stage_flags: u32, offset: u32, size: u32) -> (r:
        PipelineLayoutBuilder)
        ensures
            r.push_constant_ranges@ == self.push_constant_ranges@.push(
                PushConstantRange { stage_flags, offset, size },
            ),
            r.set_layouts == self.set_layouts,
    {
        let mut b: PipelineLayoutBuilder = self;
        b.push_constant_ranges.push(PushConstantRange { stage_flags, offset, size });
        b
    }
}

} // verus!
