//! What the driver is given of a ray tracing pipeline, value by value.

use crate::device::RayTracingProperties;
use crate::pipeline::builders;
use crate::pipeline::builders::{
    GraphicsPipelinePlan, GroupCounts, MapEntry, RayTracingPipelineBuilder,
    ShaderBindingTableLayout, ShaderGroup, ShaderStageConfig,
};
use crate::vulkan;
use vstd::prelude::*;

verus! {

/// What a group holds in place of a shader that it does not have.
pub open spec fn absent(shader: u32) -> bool {
    shader == 0xFFFF_FFFF
}

/// A general group holds its shader and no other.
pub proof fn law_general_group_has_one_shader(shader_index: u32)
    ensures
        ({
            let g = builders::group_info(ShaderGroup::General { shader_index });
            &&& g.group_type == 0
            &&& g.general == shader_index
            &&& absent(g.closest_hit)
            &&& absent(g.any_hit)
            &&& absent(g.intersection)
        }),
{
}

/// A group for triangles holds its closest-hit shader and, where it was declared with one, its
/// any-hit shader.
pub proof fn law_triangle_group_keeps_its_shaders(closest_hit: u32, shader: u32)
    ensures
        ({
            let g = builders::group_info(
                ShaderGroup::TrianglesHit { closest_hit, any_hit: Some(shader) },
            );
            let plain = builders::group_info(
                ShaderGroup::TrianglesHit { closest_hit, any_hit: None },
            );
            &&& g.any_hit == shader
            &&& absent(plain.any_hit)
            &&& g.group_type == 1 && plain.group_type == 1
            &&& g.closest_hit == closest_hit && plain.closest_hit == closest_hit
            &&& absent(g.general) && absent(plain.general)
            &&& absent(g.intersection) && absent(plain.intersection)
        }),
{
}

/// A group for procedural geometry holds its closest-hit and intersection shaders and, where it was
/// declared with one, its any-hit shader.
pub proof fn law_procedural_group_keeps_its_shaders(
    closest_hit: u32,
    shader: u32,
    intersection: u32,
)
    ensures
        ({
            let g = builders::group_info(
                ShaderGroup::ProceduralHit { closest_hit, any_hit: Some(shader), intersection },
            );
            let plain = builders::group_info(
                ShaderGroup::ProceduralHit { closest_hit, any_hit: None, intersection },
            );
            &&& g.any_hit == shader
            &&& absent(plain.any_hit)
            &&& g.group_type == 2 && plain.group_type == 2
            &&& g.closest_hit == closest_hit && plain.closest_hit == closest_hit
            &&& absent(g.general) && absent(plain.general)
            &&& g.intersection == intersection && plain.intersection == intersection
        }),
{
}

/// Two groups that look alike to the driver were declared alike, except that a shader can be
/// declared absent by its number.
pub proof fn law_groups_can_be_told_apart(a: ShaderGroup, b: ShaderGroup)
    requires
        builders::group_info(a) == builders::group_info(b),
        a matches ShaderGroup::TrianglesHit { any_hit: Some(s), .. } ==> s != 0xFFFF_FFFF,
        b matches ShaderGroup::TrianglesHit { any_hit: Some(s), .. } ==> s != 0xFFFF_FFFF,
        a matches ShaderGroup::ProceduralHit { any_hit: Some(s), .. } ==> s != 0xFFFF_FFFF,
        b matches ShaderGroup::ProceduralHit { any_hit: Some(s), .. } ==> s != 0xFFFF_FFFF,
    ensures
        a == b,
{
}

/// A layout, a shader stage and a shader group are all that a ray tracing pipeline has to have.
pub proof fn law_ray_tracing_needs_a_layout_a_stage_and_a_group(b: RayTracingPipelineBuilder)
    ensures
        b.missing() is None <==> b.layout != 0 && b.stages@.len() > 0 && b.groups@.len() > 0,
        b.layout == 0 ==> b.missing() == Some("pipeline layout is required"@),
        b.layout != 0 && b.stages@.len() == 0 ==> b.missing() == Some(
            "at least one shader stage is required"@,
        ),
        b.layout != 0 && b.stages@.len() > 0 && b.groups@.len() == 0 ==> b.missing() == Some(
            "at least one shader group is required"@,
        ),
{
}

/// The regions of a shader binding table are no larger than they have to be, and share a stride that
/// is no larger than it has to be.
pub proof fn law_sbt_wastes_nothing(
    l: ShaderBindingTableLayout,
    p: RayTracingProperties,
    c: GroupCounts,
)
    requires
        builders::sbt_fits(p, c),
        l.is_for(p, c),
        vulkan::is_pow2(p.shader_group_handle_alignment as u64),
        vulkan::is_pow2(p.shader_group_base_alignment as u64),
    ensures
        l.handle_size == p.shader_group_handle_size,
        l.base_alignment == p.shader_group_base_alignment,
        l.raygen_offset == 0,
        l.raygen_stride == l.handle_size_aligned,
        l.miss_stride == l.handle_size_aligned,
        l.hit_stride == l.handle_size_aligned,
        l.callable_stride == l.handle_size_aligned,
        l.handle_size_aligned < p.shader_group_handle_size + p.shader_group_handle_alignment,
        l.raygen_size < c.raygen * l.raygen_stride + p.shader_group_base_alignment,
        l.miss_size < c.miss * l.miss_stride + p.shader_group_base_alignment,
        l.hit_size < c.hit * l.hit_stride + p.shader_group_base_alignment,
        l.callable_size < c.callable * l.callable_stride + p.shader_group_base_alignment,
{
    let base = p.shader_group_base_alignment as u64;
    vulkan::lemma_mask_up_rounds_up(
        p.shader_group_handle_size as u64,
        p.shader_group_handle_alignment as u64,
    );
    builders::lemma_region(c.raygen, builders::sbt_stride(p), base);
    builders::lemma_region(c.miss, builders::sbt_stride(p), base);
    builders::lemma_region(c.hit, builders::sbt_stride(p), base);
    builders::lemma_region(c.callable, builders::sbt_stride(p), base);
}

/// A stage has the shader that it was given and no constants. Constants that are set afterwards go
/// to the last stage and change nothing else.
pub proof fn law_constants_go_to_the_last_stage(
    before: Seq<ShaderStageConfig>,
    after: Seq<ShaderStageConfig>,
    entries: Seq<MapEntry>,
    data: Seq<u8>,
    i: int,
)
    requires
        builders::specializes_last(before, after, entries, data),
    ensures
        after.len() == before.len(),
        0 <= i < before.len() - 1 ==> after[i] == before[i],
        before.len() > 0 ==> {
            let old = before[before.len() - 1];
            let new = after[before.len() - 1];
            &&& new.stage == old.stage
            &&& new.module == old.module
            &&& new.entry_point == old.entry_point
            &&& new.specialization_data is Some && new.specialization_data->0@ == data
            &&& new.specialization_map@ == entries
        },
{
    if 0 <= i < before.len() - 1 {
        assert(after.drop_last()[i] == before.drop_last()[i]);
    }
}

/// A plain stage has its shader and nothing else.
pub proof fn law_plain_stage_has_its_shader(
    s: ShaderStageConfig,
    stage: u32,
    module: u64,
    entry_point: Seq<char>,
)
    ensures
        s.is_plain(stage, module, entry_point) <==> s.stage == stage && s.module == module
            && s.entry_point@ == entry_point && s.specialization_data is None
            && s.specialization_map@.len() == 0,
{
}

/// What a graphics pipeline cannot be given stays off.
pub proof fn law_what_cannot_be_set_is_off(p: GraphicsPipelinePlan)
    ensures
        p.all_off() <==> !(p.primitive_restart || p.depth_clamp || p.rasterizer_discard
            || p.depth_bias || p.sample_shading || p.depth_bounds_test || p.stencil_test
            || p.logic_op),
{
}

/// A table fits if both alignments are there, the stride fits 32 bits and the regions together fit
/// 64.
pub proof fn law_table_fits_its_types(p: RayTracingProperties, c: GroupCounts)
    requires
        vulkan::is_pow2(p.shader_group_handle_alignment as u64),
        vulkan::is_pow2(p.shader_group_base_alignment as u64),
    ensures
        builders::sbt_fits(p, c) <==> {
            let stride = vulkan::round_up(
                p.shader_group_handle_size as int,
                p.shader_group_handle_alignment as int,
            );
            let base = p.shader_group_base_alignment as int;
            &&& stride <= 0xFFFF_FFFF
            &&& vulkan::round_up(c.raygen * stride, base) + vulkan::round_up(c.miss * stride, base)
                + vulkan::round_up(c.hit * stride, base) + vulkan::round_up(
                c.callable * stride,
                base,
            ) <= 0xFFFF_FFFF_FFFF_FFFF
        },
{
    let base = p.shader_group_base_alignment as u64;
    vulkan::lemma_pow2_is_positive(base);
    vulkan::lemma_pow2_is_positive(p.shader_group_handle_alignment as u64);
    vulkan::lemma_mask_up_rounds_up(
        p.shader_group_handle_size as u64,
        p.shader_group_handle_alignment as u64,
    );
    let stride = builders::sbt_stride(p);
    if stride <= u32::MAX {
        lemma_region_rounds_up(c.raygen, stride, base);
        lemma_region_rounds_up(c.miss, stride, base);
        lemma_region_rounds_up(c.hit, stride, base);
        lemma_region_rounds_up(c.callable, stride, base);
    }
}

proof fn lemma_region_rounds_up(n: u32, stride: u64, base: u64)
    requires
        stride <= u32::MAX,
        base <= u32::MAX,
        vulkan::is_pow2(base),
    ensures
        vulkan::mask_up((n * stride) as u64, base) == vulkan::round_up(n * stride, base as int),
{
    assert(0 <= n as int * stride as int <= 0xffff_ffff * 0xffff_ffff) by (nonlinear_arith)
        requires
            0 <= n <= 0xffff_ffff,
            0 <= stride <= 0xffff_ffff,
    ;
    vulkan::lemma_mask_up_rounds_up((n * stride) as u64, base);
}

/// Without an alignment a table does not fit.
pub proof fn law_table_needs_alignments(p: RayTracingProperties, c: GroupCounts)
    requires
        builders::sbt_fits(p, c),
    ensures
        p.shader_group_handle_alignment >= 1,
        p.shader_group_base_alignment >= 1,
{
}

} // verus!
