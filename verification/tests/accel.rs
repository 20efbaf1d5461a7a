//! Acceleration structures.

use ignis::error::{Error, VkResult};
use ignis::format::Format;
use ignis::pipeline::accel_struct::{
    encode_instances, identity_transform, AabbGeometry, AccelerationStructure, BlasBuilder, Build,
    BuildAction, BuildEvent, BuildStage, Compaction, CompactionAction, CompactionEvent,
    DeviceBuffer, GeometryData, InstanceDesc, TlasBuilder, TriangleGeometry, ALLOW_COMPACTION,
    BOTTOM_LEVEL, INDEX_TYPE_NONE, PREFER_FAST_TRACE, TOP_LEVEL,
};

fn triangles() -> TriangleGeometry {
    TriangleGeometry {
        vertex_buffer: 0x1000,
        vertex_format: Format { raw: 106 },
        vertex_stride: 12,
        max_vertex: 1024,
        index_buffer: 0x2000,
        index_type: 1,
        triangle_count: 512,
    }
}

fn blas() -> BlasBuilder {
    match BlasBuilder::new(true) {
        Ok(b) => b,
        Err(_) => unreachable!(),
    }
}

fn instance() -> InstanceDesc {
    InstanceDesc {
        blas_address: 0x0102_0304_0506_0708,
        transform: identity_transform(),
        instance_id: 0xAB12_3456,
        mask: 0xFE,
        sbt_offset: 0xCD65_4321,
        flags: 3,
    }
}

#[test]
fn structures_need_their_extension() {
    assert!(matches!(
        BlasBuilder::new(false),
        Err(Error::FeatureNotEnabled("VK_KHR_acceleration_structure"))
    ));
    assert!(matches!(
        TlasBuilder::new(false),
        Err(Error::FeatureNotEnabled("VK_KHR_acceleration_structure"))
    ));
}

#[test]
fn bottom_level_structure_lists_its_geometries() {
    let b = blas()
        .triangles(triangles())
        .aabbs(AabbGeometry { aabb_buffer: 0x3000, stride: 24, count: 7 });
    assert_eq!(b.flags, PREFER_FAST_TRACE);
    match b.plan(true) {
        Ok(p) => {
            assert_eq!(p.ty, BOTTOM_LEVEL);
            assert_eq!(p.primitive_counts, vec![512, 7]);
            assert_eq!(p.ranges[1].primitive_count, 7);
            assert_eq!(p.ranges[1].primitive_offset, 0);
            assert_eq!(p.geometries[0].geometry_type, 0);
            assert_eq!(p.geometries[0].flags, 1);
            assert_eq!(p.geometries[1].data, GeometryData::Aabbs { data: 0x3000, stride: 24 });
        }
        Err(_) => unreachable!(),
    }
}

#[test]
fn bottom_level_structure_refuses_what_cannot_be_built() {
    assert!(matches!(
        blas().plan(false),
        Err(Error::InvalidConfig("BLAS builder: no geometries added"))
    ));
    let b = blas().triangles(triangles()).compact(true);
    assert_eq!(b.flags, PREFER_FAST_TRACE | ALLOW_COMPACTION);
    assert!(b.plan(false).is_ok());
    assert!(matches!(
        b.plan(true),
        Err(Error::InvalidConfig(
            "BLAS compaction requires synchronous build; use build() or drop compact(true)"
        ))
    ));
    assert_eq!(b.compact(false).flags(8).flags, 8);
}

#[test]
fn instances_have_64_bytes() {
    let bytes = encode_instances(&vec![instance(), instance()]);
    assert_eq!(bytes.len(), 128);
    let one = 1.0f32.to_le_bytes();
    assert_eq!(&bytes[0..4], &one);
    assert_eq!(&bytes[4..8], &[0; 4]);
    assert_eq!(&bytes[20..24], &one);
    assert_eq!(&bytes[40..44], &one);
    assert_eq!(&bytes[48..52], &[0x56, 0x34, 0x12, 0xFE]);
    assert_eq!(&bytes[52..56], &[0x21, 0x43, 0x65, 0x03]);
    assert_eq!(&bytes[56..64], &0x0102_0304_0506_0708u64.to_le_bytes());
    assert_eq!(&bytes[64..128], &bytes[0..64]);
}

#[test]
fn top_level_structure_reads_its_instances() {
    let empty = match TlasBuilder::new(true) {
        Ok(b) => b,
        Err(_) => unreachable!(),
    };
    assert!(matches!(
        empty.upload(),
        Err(Error::InvalidConfig("TLAS builder: no instances added"))
    ));
    let b = empty.add_instance(instance()).add_instances(&vec![instance()]).flags(9);
    match b.upload() {
        Ok(u) => {
            assert_eq!(u.info.size, 128);
            assert_eq!(u.bytes.len(), 128);
        }
        Err(_) => unreachable!(),
    }
    let p = b.plan(0x7000);
    assert_eq!(p.ty, TOP_LEVEL);
    assert_eq!(p.flags, 9);
    assert_eq!(p.primitive_counts, vec![2]);
    assert_eq!(
        p.geometries[0].data,
        GeometryData::Instances { data: 0x7000, array_of_pointers: false }
    );
    assert_eq!(p.geometries[0].flags, 0);
}

fn storage() -> DeviceBuffer {
    DeviceBuffer { handle: 20, address: 0, size: 4096 }
}

fn scratch() -> DeviceBuffer {
    DeviceBuffer { handle: 21, address: 1000, size: 512 + 128 }
}

fn run(build: &mut Build) -> BuildAction {
    assert!(matches!(
        build.step(BuildEvent::Sizes { structure: 4096, scratch: 512 }),
        BuildAction::Allocate(info) if info.size == 4096
    ));
    assert!(matches!(
        build.step(BuildEvent::Allocated(Ok(storage()))),
        BuildAction::Create { buffer: 20, size: 4096, ty: BOTTOM_LEVEL }
    ));
    assert!(matches!(
        build.step(BuildEvent::Created(Ok(30))),
        BuildAction::Allocate(info) if info.size == 512 + 128
    ));
    assert!(matches!(
        build.step(BuildEvent::Allocated(Ok(scratch()))),
        BuildAction::Record { dst: 30, scratch_address: 1024 }
    ));
    assert!(matches!(build.step(BuildEvent::Recorded(Ok(0x9000))), BuildAction::Submit));
    build.step(BuildEvent::Submitted(Ok(())))
}

#[test]
fn synchronous_build_waits_and_keeps_nothing() {
    let mut build = Build::new(BOTTOM_LEVEL, false, 128, None);
    assert!(matches!(run(&mut build), BuildAction::Wait));
    match build.step(BuildEvent::Waited(Ok(()))) {
        BuildAction::Finish(s) => {
            assert_eq!(s.handle(), 30);
            assert_eq!(s.device_address(), 0x9000);
            assert_eq!(s.ty(), BOTTOM_LEVEL);
            assert!(s.residue.is_none());
        }
        _ => unreachable!(),
    }
}

#[test]
fn asynchronous_build_keeps_its_scratch() {
    let mut build = Build::new(BOTTOM_LEVEL, true, 128, None);
    match run(&mut build) {
        BuildAction::Finish(s) => match s.residue {
            Some(r) => assert_eq!(r.scratch, scratch()),
            None => unreachable!(),
        },
        _ => unreachable!(),
    }
}

#[test]
fn failed_step_ends_the_build() {
    let mut build = Build::new(BOTTOM_LEVEL, false, 0, None);
    assert_eq!(build.alignment, 1);
    build.step(BuildEvent::Sizes { structure: 1, scratch: 1 });
    build.step(BuildEvent::Allocated(Ok(storage())));
    assert!(matches!(
        build.step(BuildEvent::Created(Err(VkResult { raw: -2 }))),
        BuildAction::Fail(Error::Vulkan(VkResult { raw: -2 }))
    ));
    assert_eq!(build.stage, BuildStage::Ended);
}

fn built() -> AccelerationStructure {
    AccelerationStructure {
        handle: 30,
        buffer: storage(),
        device_address: 0x9000,
        ty: BOTTOM_LEVEL,
        residue: None,
    }
}

#[test]
fn compaction_replaces_the_structure() {
    let mut c = Compaction::new(built());
    assert!(matches!(
        c.step(CompactionEvent::Measured(Ok(1024))),
        CompactionAction::Allocate(info) if info.size == 1024
    ));
    let small = DeviceBuffer { handle: 40, address: 0, size: 1024 };
    assert!(matches!(
        c.step(CompactionEvent::Allocated(Ok(small))),
        CompactionAction::Create { buffer: 40, size: 1024, ty: BOTTOM_LEVEL }
    ));
    assert!(matches!(
        c.step(CompactionEvent::Created(Ok(41))),
        CompactionAction::Copy { src: 30, dst: 41, mode: 1 }
    ));
    match c.step(CompactionEvent::Copied(Ok(0xA000))) {
        CompactionAction::Replace { compacted, destroyed } => {
            assert_eq!(destroyed, 30);
            assert_eq!(compacted.handle, 41);
            assert_eq!(compacted.device_address, 0xA000);
            assert_eq!(compacted.buffer, small);
        }
        _ => unreachable!(),
    }
}

#[test]
fn structure_that_does_not_shrink_is_kept() {
    for size in [0u64, 4096, 5000] {
        let mut c = Compaction::new(built());
        assert!(matches!(
            c.step(CompactionEvent::Measured(Ok(size))),
            CompactionAction::Keep(s) if s == built()
        ));
    }
    let mut c = Compaction::new(built());
    assert!(matches!(
        c.step(CompactionEvent::Measured(Err(Error::Timeout))),
        CompactionAction::Fail(Error::Timeout)
    ));
}

#[test]
fn triangles_without_index_buffer_have_no_index_type() {
    let type_of = |t: TriangleGeometry| match blas().triangles(t).plan(false) {
        Ok(p) => match p.geometries[0].data {
            GeometryData::Triangles { index_type, index_data, .. } => (index_type, index_data),
            _ => unreachable!(),
        },
        Err(_) => unreachable!(),
    };
    assert_eq!(type_of(triangles()), (1, 0x2000));
    assert_eq!(
        type_of(TriangleGeometry { index_buffer: 0, ..triangles() }),
        (INDEX_TYPE_NONE, 0)
    );
}
