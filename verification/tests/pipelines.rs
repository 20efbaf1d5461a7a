//! Pipelines, render passes and pipeline caches.

use ignis::device::RayTracingProperties;
use ignis::error::{Error, VkResult};
use ignis::format::Format;
use ignis::pipeline::builders::{
    sbt_layout_fits,
    pipeline_created, AddressRegion, ColorBlend, ComputePipelineBuilder, GraphicsPipelineBuilder,
    GroupCounts, GroupInfo, MapEntry, PipelineLayoutBuilder, PushConstantRange,
    RayTracingPipeline, RayTracingPipelineBuilder, ShaderGroup, VertexAttribute, VertexBinding,
    SHADER_UNUSED,
};
use ignis::pipeline::cache::PipelineCache;
use ignis::pipeline::renderpass::{
    AttachmentConfig, AttachmentRef, RenderPassBuilder, RenderPassHandle, SubpassConfig,
    SubpassDependency,
};

#[test]
fn graphics_pipeline_starts_with_its_defaults() {
    let b = GraphicsPipelineBuilder::new();
    assert_eq!(b.topology, 3);
    assert_eq!(b.cull_mode, 2);
    assert!(b.depth_test && b.depth_write);
    assert_eq!(
        b.color_blend_attachments,
        vec![ColorBlend { blend_enable: false, color_write_mask: 15 }]
    );
    assert_eq!(b.dynamic_states, vec![0, 1]);
}

#[test]
fn graphics_pipeline_needs_a_layout_and_a_stage() {
    assert!(matches!(
        GraphicsPipelineBuilder::new().shader_stage(1, 5, "main").build(),
        Err(Error::InvalidConfig("pipeline layout is required"))
    ));
    assert!(matches!(
        GraphicsPipelineBuilder::new().layout(4).build(),
        Err(Error::InvalidConfig("at least one shader stage is required"))
    ));
    assert!(matches!(
        GraphicsPipelineBuilder::new().build(),
        Err(Error::InvalidConfig("pipeline layout is required"))
    ));
}

#[test]
fn graphics_pipeline_keeps_what_was_set() {
    let built = GraphicsPipelineBuilder::new()
        .specialization(vec![], vec![9])
        .shader_stage(1, 5, "vs_main")
        .shader_stage(16, 6, "fs_main")
        .specialization(vec![MapEntry { constant_id: 0, offset: 0, size: 4 }], vec![1, 0, 0, 0])
        .vertex_binding(0, 12, 0)
        .vertex_attribute(0, 0, Format { raw: 106 }, 0)
        .topology(4)
        .polygon_mode(1)
        .cull_mode(0)
        .front_face(1)
        .depth_test(false)
        .depth_write(false)
        .depth_compare_op(3)
        .dynamic_states(&vec![2])
        .layout(77)
        .render_pass(88, 2)
        .cache(99)
        .build();
    match built {
        Ok(p) => {
            assert!(!p.primitive_restart && !p.depth_clamp && !p.rasterizer_discard);
            assert!(!p.depth_bias && !p.sample_shading && !p.depth_bounds_test);
            assert!(!p.stencil_test && !p.logic_op);
            assert_eq!(p.samples, 1);
            let b = p.settings;
            assert_eq!(b.stages.len(), 2);
            assert_eq!(b.stages[0].entry_point, "vs_main");
            assert_eq!(b.stages[0].specialization_data, None);
            assert_eq!(b.stages[1].specialization_data, Some(vec![1, 0, 0, 0]));
            assert_eq!(b.stages[1].specialization_map.len(), 1);
            assert_eq!(
                b.vertex_bindings,
                vec![VertexBinding { binding: 0, stride: 12, input_rate: 0 }]
            );
            assert_eq!(
                b.vertex_attributes,
                vec![VertexAttribute {
                    location: 0,
                    binding: 0,
                    format: Format { raw: 106 },
                    offset: 0
                }]
            );
            assert_eq!((b.topology, b.polygon_mode, b.cull_mode, b.front_face), (4, 1, 0, 1));
            assert_eq!((b.depth_test, b.depth_write, b.depth_compare_op), (false, false, 3));
            assert_eq!(b.dynamic_states, vec![0, 1, 2]);
            assert_eq!((b.layout, b.render_pass, b.subpass, b.cache), (77, 88, 2, 99));
        }
        Err(_) => unreachable!(),
    }
    assert!(matches!(pipeline_created(Ok(3)), Ok(3)));
    assert!(matches!(pipeline_created(Err(VkResult { raw: -1 })), Err(Error::Vulkan(_))));
}

#[test]
fn compute_pipeline_needs_a_shader_then_a_layout() {
    assert!(matches!(
        ComputePipelineBuilder::new().build(),
        Err(Error::InvalidConfig("compute shader is required"))
    ));
    assert!(matches!(
        ComputePipelineBuilder::new().shader(3, "main").build(),
        Err(Error::InvalidConfig("pipeline layout is required"))
    ));
    match ComputePipelineBuilder::new()
        .specialization(vec![], vec![1])
        .shader(3, "main")
        .specialization(vec![], vec![2])
        .layout(4)
        .cache(5)
        .build()
    {
        Ok(p) => {
            assert_eq!(p.stage.stage, 0x20);
            assert_eq!(p.stage.module, 3);
            assert_eq!(p.stage.specialization_data, Some(vec![2]));
            assert_eq!((p.layout, p.cache), (4, 5));
        }
        Err(_) => unreachable!(),
    }
}

#[test]
fn ray_tracing_pipeline_names_what_is_missing() {
    let full = || {
        RayTracingPipelineBuilder::new()
            .stage(0x100, 1, "rgen")
            .group(ShaderGroup::General { shader_index: 0 })
            .layout(9)
    };
    assert!(full().build(true).is_ok());
    assert!(matches!(
        full().build(false),
        Err(Error::FeatureNotEnabled("VK_KHR_ray_tracing_pipeline"))
    ));
    assert!(matches!(
        full().layout(0).build(true),
        Err(Error::InvalidConfig("pipeline layout is required"))
    ));
    assert!(matches!(
        RayTracingPipelineBuilder::new().layout(1).build(true),
        Err(Error::InvalidConfig("at least one shader stage is required"))
    ));
    assert!(matches!(
        RayTracingPipelineBuilder::new().layout(1).stage(1, 1, "a").build(true),
        Err(Error::InvalidConfig("at least one shader group is required"))
    ));
}

#[test]
fn shader_groups_mark_unused_shaders() {
    let built = RayTracingPipelineBuilder::new()
        .stage(0x100, 1, "rgen")
        .group(ShaderGroup::General { shader_index: 4 })
        .group(ShaderGroup::TrianglesHit { closest_hit: 5, any_hit: None })
        .group(ShaderGroup::ProceduralHit { closest_hit: 6, any_hit: Some(7), intersection: 8 })
        .max_recursion_depth(3)
        .layout(1)
        .build(true);
    match built {
        Ok(p) => {
            let no = SHADER_UNUSED;
            assert_eq!(
                p.groups,
                vec![
                    GroupInfo {
                        group_type: 0,
                        general: 4,
                        closest_hit: no,
                        any_hit: no,
                        intersection: no
                    },
                    GroupInfo {
                        group_type: 1,
                        general: no,
                        closest_hit: 5,
                        any_hit: no,
                        intersection: no
                    },
                    GroupInfo {
                        group_type: 2,
                        general: no,
                        closest_hit: 6,
                        any_hit: 7,
                        intersection: 8
                    },
                ]
            );
            assert_eq!(p.max_recursion_depth, 3);
        }
        Err(_) => unreachable!(),
    }
}

fn properties() -> RayTracingProperties {
    RayTracingProperties {
        shader_group_handle_size: 32,
        max_ray_recursion_depth: 1,
        shader_group_handle_alignment: 64,
        shader_group_base_alignment: 128,
        max_shader_group_stride: 4096,
    }
}

#[test]
fn shader_binding_table_regions_follow_each_other() {
    let pipeline = RayTracingPipeline { handle: 1, group_count: 5 };
    assert_eq!(pipeline.handle(), 1);
    assert_eq!(pipeline.group_count(), 5);
    assert_eq!(pipeline.handle_bytes(&properties()), 160);
    let counts = GroupCounts { raygen: 1, miss: 2, hit: 3, callable: 0 };
    match pipeline.sbt_layout(true, Some(properties()), Ok(vec![7; 160]), counts) {
        Ok(l) => {
            assert_eq!(l.handle_size_aligned, 64);
            assert_eq!((l.raygen_offset, l.raygen_size), (0, 128));
            assert_eq!((l.miss_offset, l.miss_size), (128, 128));
            assert_eq!((l.hit_offset, l.hit_size), (256, 256));
            assert_eq!((l.callable_offset, l.callable_size), (512, 0));
            assert_eq!(l.total_size, 512);
            assert_eq!(l.handle_data.len(), 160);
            assert_eq!(
                l.hit_region(10000),
                AddressRegion { device_address: 10256, stride: 64, size: 256 }
            );
            assert_eq!(l.raygen_region(10000).device_address, 10000);
            assert_eq!(l.miss_region(10000).device_address, 10128);
            assert_eq!(l.callable_region(10000).size, 0);
        }
        Err(_) => unreachable!(),
    }
}

#[test]
fn shader_binding_table_needs_its_features() {
    let pipeline = RayTracingPipeline { handle: 1, group_count: 5 };
    let counts = GroupCounts { raygen: 1, miss: 0, hit: 0, callable: 0 };
    assert!(matches!(
        pipeline.sbt_layout(false, Some(properties()), Ok(vec![]), counts),
        Err(Error::FeatureNotEnabled("VK_KHR_ray_tracing_pipeline"))
    ));
    let unusable = RayTracingProperties { shader_group_base_alignment: 0, ..properties() };
    assert!(matches!(
        pipeline.sbt_layout(false, Some(unusable), Ok(vec![]), counts),
        Err(Error::FeatureNotEnabled("VK_KHR_ray_tracing_pipeline"))
    ));
    assert!(matches!(
        pipeline.sbt_layout(true, Some(unusable), Err(VkResult { raw: -2 }), counts),
        Err(Error::Vulkan(VkResult { raw: -2 }))
    ));
    assert!(matches!(
        pipeline.sbt_layout(true, None, Ok(vec![]), counts),
        Err(Error::FeatureNotEnabled("ray tracing properties"))
    ));
    assert!(matches!(
        pipeline.sbt_layout(true, Some(properties()), Err(VkResult { raw: -1 }), counts),
        Err(Error::Vulkan(VkResult { raw: -1 }))
    ));
}

#[test]
fn pipeline_layout_keeps_its_parts() {
    let b = PipelineLayoutBuilder::new()
        .descriptor_set_layout(1)
        .descriptor_set_layouts(&vec![2, 3])
        .push_constant_range(16, 0, 64);
    assert_eq!(b.set_layouts, vec![1, 2, 3]);
    assert_eq!(
        b.push_constant_ranges,
        vec![PushConstantRange { stage_flags: 16, offset: 0, size: 64 }]
    );
}

#[test]
fn render_pass_needs_a_subpass() {
    assert!(matches!(
        RenderPassBuilder::new().attachment(AttachmentConfig::default()).build(),
        Err(Error::InvalidConfig("at least one subpass is required"))
    ));
}

#[test]
fn render_pass_keeps_its_parts_in_order() {
    let dep = SubpassDependency {
        src_subpass: u32::MAX,
        dst_subpass: 0,
        src_stage_mask: 1,
        dst_stage_mask: 2,
        src_access_mask: 3,
        dst_access_mask: 4,
        dependency_flags: 5,
    };
    let built = RenderPassBuilder::new()
        .attachment(AttachmentConfig { format: Format { raw: 50 }, ..AttachmentConfig::default() })
        .subpass(SubpassConfig {
            color_attachments: vec![AttachmentRef { attachment: 0, layout: 2 }],
            ..SubpassConfig::default()
        })
        .subpass(SubpassConfig {
            depth_stencil_attachment: Some(AttachmentRef { attachment: 1, layout: 3 }),
            preserve_attachments: vec![0],
            ..SubpassConfig::default()
        })
        .dependency(dep)
        .build();
    match built {
        Ok(p) => {
            assert_eq!(p.attachments.len(), 1);
            assert_eq!(p.attachments[0].load_op, 1);
            assert_eq!(p.subpasses.len(), 2);
            assert_eq!(p.subpasses[0].pipeline_bind_point, 0);
            assert_eq!(p.subpasses[0].config.color_attachments.len(), 1);
            assert_eq!(
                p.subpasses[1].config.depth_stencil_attachment,
                Some(AttachmentRef { attachment: 1, layout: 3 })
            );
            assert_eq!(p.subpasses[1].config.preserve_attachments, vec![0]);
            assert_eq!(p.dependencies, vec![dep]);
        }
        Err(_) => unreachable!(),
    }
    assert!(matches!(RenderPassHandle::created(Ok(4)), Ok(h) if h.handle() == 4));
    assert!(matches!(
        RenderPassHandle::created(Err(VkResult { raw: -2 })),
        Err(Error::Vulkan(_))
    ));
}

#[test]
fn pipeline_cache_starts_from_its_file() {
    assert_eq!(PipelineCache::initial_data(Some(vec![1, 2])), vec![1, 2]);
    assert!(PipelineCache::initial_data(None).is_empty());
    assert!(matches!(PipelineCache::new(Ok(6)), Ok(c) if c.handle() == 6));
    assert!(matches!(PipelineCache::new(Err(VkResult { raw: -1 })), Err(Error::Vulkan(_))));
    assert!(matches!(PipelineCache::data_to_save(Ok(vec![3])), Ok(d) if d == vec![3]));
    assert!(PipelineCache::save(true).is_ok());
    assert!(matches!(
        PipelineCache::save(false),
        Err(Error::InvalidConfig("failed to write pipeline cache file"))
    ));
    let cache = PipelineCache { handle: 1 };
    assert!(cache.merge(Ok(())).is_ok());
    assert!(matches!(cache.merge(Err(VkResult { raw: -1 })), Err(Error::Vulkan(_))));
}

#[test]
fn ray_tracing_pipeline_counts_its_groups() {
    let built = RayTracingPipelineBuilder::new()
        .stage(0x100, 1, "rgen")
        .group(ShaderGroup::General { shader_index: 0 })
        .group(ShaderGroup::TrianglesHit { closest_hit: 1, any_hit: None })
        .layout(9)
        .build(true);
    match built {
        Ok(plan) => {
            assert!(matches!(
                plan.created(Ok(77)),
                Ok(RayTracingPipeline { handle: 77, group_count: 2 })
            ));
            assert!(matches!(
                plan.created(Err(VkResult { raw: -3 })),
                Err(Error::Vulkan(VkResult { raw: -3 }))
            ));
        }
        Err(_) => unreachable!(),
    }
}

#[test]
fn shader_binding_table_has_to_fit() {
    let counts = GroupCounts { raygen: 1, miss: 2, hit: 3, callable: 0 };
    assert!(sbt_layout_fits(&properties(), &counts));
    let huge = RayTracingProperties { shader_group_handle_size: u32::MAX - 63, ..properties() };
    assert!(sbt_layout_fits(&huge, &counts));
    let many = GroupCounts { raygen: u32::MAX, miss: u32::MAX, hit: 1, callable: 0 };
    assert!(!sbt_layout_fits(&huge, &many));
    let none = RayTracingProperties { shader_group_base_alignment: 0, ..properties() };
    assert!(!sbt_layout_fits(&none, &counts));
}
