//! What an acceleration structure is built from and what the driver is handed, value by value.

use crate::live_link::readback;
use crate::live_link::wire;
use crate::memory::resources::{BufferInfo, MemoryLocation};
use crate::pipeline::accel_struct;
use crate::pipeline::accel_struct::{
    AabbGeometry, AccelerationStructure, Build, BuildAction, BuildEvent, BuildStage, Compaction, CompactionAction, CompactionEvent,
    CompactionStage, DeviceBuffer, GeometryData, GeometryInput, InstanceDesc, TriangleGeometry,
};
use crate::error::{Error, VkResult};
use vstd::prelude::*;

verus! {

/// The numbers of a matrix read back from its bytes, four bytes each.
proof fn lemma_matrix_word(m: Seq<u32>, k: int)
    requires
        0 <= k < m.len(),
    ensures
        accel_struct::matrix_bytes(m).len() == 4 * m.len(),
        accel_struct::matrix_bytes(m).subrange(4 * k, 4 * k + 4) == wire::word(m[k] as int),
    decreases m.len(),
{
    let b = accel_struct::matrix_bytes(m);
    let front = accel_struct::matrix_bytes(m.drop_last());
    accel_struct::lemma_matrix_len(m);
    accel_struct::lemma_matrix_len(m.drop_last());
    wire::lemma_le_len(m.last() as int, 4);
    if k == m.len() - 1 {
        assert(b.subrange(4 * k, 4 * k + 4) =~= wire::word(m[k] as int));
    } else {
        lemma_matrix_word(m.drop_last(), k);
        assert(b.subrange(4 * k, 4 * k + 4) =~= front.subrange(4 * k, 4 * k + 4));
    }
}

/// The matrix of every instance reads back from the bytes: number `k` of instance `i` stands at byte
/// `64 * i + 4 * k`, with its lowest byte first.
pub proof fn law_matrix_reads_back(s: Seq<InstanceDesc>, i: int, k: int)
    requires
        0 <= i < s.len(),
        0 <= k < 12,
    ensures
        accel_struct::encoded(s).len() == 64 * s.len(),
        readback::word_at(accel_struct::encoded(s), 64 * i + 4 * k) == s[i].transform@[k],
{
    let all = accel_struct::encoded(s);
    let b = accel_struct::instance_bytes(s[i]);
    let m = s[i].transform@;
    accel_struct::law_instances_are_64_bytes_apart(s, i);
    lemma_matrix_word(m, k);
    assert(b.subrange(4 * k, 4 * k + 4) =~= accel_struct::matrix_bytes(m).subrange(
        4 * k,
        4 * k + 4,
    ));
    let part = all.subrange(64 * i, 64 * (i + 1));
    assert(part == b);
    assert(all.subrange(64 * i + 4 * k, 64 * i + 4 * k + 4) =~= part.subrange(4 * k, 4 * k + 4));
    readback::lemma_word_read(all, 64 * i + 4 * k, m[k] as int);
}

/// Behind its matrix an instance has the low 24 bits of its number below its mask, the low 24 bits
/// of its record offset below its flags, and the address of its structure.
pub proof fn law_instance_fields_read_back(s: Seq<InstanceDesc>, i: int)
    requires
        0 <= i < s.len(),
    ensures
        ({
            let b = accel_struct::encoded(s);
            &&& readback::word_at(b, 64 * i + 48) == s[i].instance_id as int % 16777216 + 16777216
                * s[i].mask
            &&& readback::word_at(b, 64 * i + 52) == s[i].sbt_offset as int % 16777216 + 16777216
                * s[i].flags
            &&& readback::long_at(b, 64 * i + 56) == s[i].blas_address
        }),
{
    let all = accel_struct::encoded(s);
    let b = accel_struct::instance_bytes(s[i]);
    let id = accel_struct::packed(s[i].instance_id, s[i].mask);
    let sbt = accel_struct::packed(s[i].sbt_offset, s[i].flags);
    accel_struct::law_instances_are_64_bytes_apart(s, i);
    accel_struct::lemma_matrix_len(s[i].transform@);
    wire::lemma_le_len(id as int, 4);
    wire::lemma_le_len(sbt as int, 4);
    wire::lemma_le_len(s[i].blas_address as int, 8);
    let part = all.subrange(64 * i, 64 * (i + 1));
    assert(part == b);
    assert(all.subrange(64 * i + 48, 64 * i + 52) =~= part.subrange(48, 52));
    assert(part.subrange(48, 52) =~= wire::word(id as int));
    assert(all.subrange(64 * i + 52, 64 * i + 56) =~= part.subrange(52, 56));
    assert(part.subrange(52, 56) =~= wire::word(sbt as int));
    assert(all.subrange(64 * i + 56, 64 * i + 64) =~= part.subrange(56, 64));
    assert(part.subrange(56, 64) =~= wire::long(s[i].blas_address as int));
    readback::lemma_word_read(all, 64 * i + 48, id as int);
    readback::lemma_word_read(all, 64 * i + 52, sbt as int);
    readback::lemma_long_read(all, 64 * i + 56, s[i].blas_address as int);
    lemma_packed_parts(s[i].instance_id, s[i].mask);
    lemma_packed_parts(s[i].sbt_offset, s[i].flags);
}

proof fn lemma_packed_parts(low: u32, high: u8)
    ensures
        accel_struct::packed(low, high) == low as int % 16777216 + 16777216 * high,
{
    assert((low & 0x00FF_FFFFu32) | ((high as u32) << 24u32) == low % 16777216u32 + 16777216u32
        * high) by (bit_vector);
}

/// The driver is given triangles as they were declared. Without an index buffer there is no index
/// type.
pub proof fn law_triangles_are_handed_on(t: TriangleGeometry)
    ensures
        ({
            let g = accel_struct::geometry_info(GeometryInput::Triangles(t));
            &&& g.geometry_type == 0
            &&& g.flags == 1
            &&& g.data matches GeometryData::Triangles {
                vertex_format,
                vertex_data,
                vertex_stride,
                max_vertex,
                index_type,
                index_data,
            } && vertex_format == t.vertex_format && vertex_data == t.vertex_buffer
                && vertex_stride == t.vertex_stride && max_vertex == t.max_vertex && index_data
                == t.index_buffer && (t.index_buffer != 0 ==> index_type == t.index_type) && (
            t.index_buffer == 0 ==> index_type == 1000165000)
        }),
        accel_struct::primitives(GeometryInput::Triangles(t)) == t.triangle_count,
{
}

/// The driver is given boxes as they were declared.
pub proof fn law_boxes_are_handed_on(a: AabbGeometry)
    ensures
        ({
            let g = accel_struct::geometry_info(GeometryInput::Aabbs(a));
            &&& g.geometry_type == 1
            &&& g.flags == 1
            &&& g.data matches GeometryData::Aabbs { data, stride } && data == a.aabb_buffer
                && stride == a.stride
        }),
        accel_struct::primitives(GeometryInput::Aabbs(a)) == a.count,
{
}

/// All primitives of a geometry are built, from the first on.
pub proof fn law_all_primitives_are_built(n: u32)
    ensures
        accel_struct::whole_range(n).primitive_count == n,
        accel_struct::whole_range(n).primitive_offset == 0,
        accel_struct::whole_range(n).first_vertex == 0,
        accel_struct::whole_range(n).transform_offset == 0,
{
}

/// The buffer of a structure has the size that the driver asked for; a scratch buffer has room for
/// its alignment on top. Both have a device address and lie on the device.
pub proof fn law_build_buffers_are_large_enough(size: u64, required: u64, alignment: u64)
    requires
        required + alignment <= u64::MAX,
    ensures
        accel_struct::storage_info(size) == (BufferInfo {
            size,
            usage: 0x100000u32 | 0x20000u32,
            location: MemoryLocation::GpuOnly,
            sharing_mode: 0,
        }),
        accel_struct::scratch_info(required, alignment).size == required + alignment,
        accel_struct::scratch_info(required, alignment).usage == 0x20u32 | 0x20000u32,
        accel_struct::scratch_info(required, alignment).location == MemoryLocation::GpuOnly,
{
}

/// A structure that compaction makes smaller is replaced: it is copied into a structure in a buffer
/// of the compacted size, and then destroyed.
pub proof fn law_compaction_replaces_the_structure(
    c0: Compaction,
    size: u64,
    buffer: DeviceBuffer,
    handle: u64,
    device_address: u64,
)
    requires
        c0.stage == CompactionStage::Measuring,
        0 < size < c0.original.buffer.size,
    ensures
        ({
            let measured = c0.next(CompactionEvent::Measured(Ok(size)));
            let c1 = Compaction { stage: measured.0, ..c0 };
            let allocated = c1.next(CompactionEvent::Allocated(Ok(buffer)));
            let c2 = Compaction { stage: allocated.0, ..c0 };
            let created = c2.next(CompactionEvent::Created(Ok(handle)));
            let c3 = Compaction { stage: created.0, ..c0 };
            let copied = c3.next(CompactionEvent::Copied(Ok(device_address)));
            &&& measured.1 matches CompactionAction::Allocate(info) && info.size == size
            &&& allocated.1 == (CompactionAction::Create { buffer: buffer.handle, size, ty: 1 })
            &&& created.1 == (CompactionAction::Copy {
                src: c0.original.handle,
                dst: handle,
                mode: 1,
            })
            &&& copied.0 == CompactionStage::Ended
            &&& copied.1 == (CompactionAction::Replace {
                compacted: AccelerationStructure {
                    handle,
                    buffer,
                    device_address,
                    ty: 1,
                    residue: None,
                },
                destroyed: c0.original.handle,
            })
        }),
{
}

/// A failed step ends the compaction with its error.
pub proof fn law_failed_step_ends_the_compaction(c: Compaction, e: Error)
    ensures
        c.accepts(CompactionEvent::Measured(Err(e))) ==> c.next(
            CompactionEvent::Measured(Err(e)),
        ) == (CompactionStage::Ended, CompactionAction::Fail(e)),
        c.accepts(CompactionEvent::Allocated(Err(e))) ==> c.next(
            CompactionEvent::Allocated(Err(e)),
        ) == (CompactionStage::Ended, CompactionAction::Fail(e)),
        c.accepts(CompactionEvent::Copied(Err(e))) ==> c.next(CompactionEvent::Copied(Err(e))) == (
            CompactionStage::Ended,
            CompactionAction::Fail(e),
        ),
{
}

/// A structure or its copy that the driver cannot create ends the work with the code of the driver.
pub proof fn law_failed_creation_is_reported(b: Build, c: Compaction, code: VkResult)
    ensures
        b.accepts(BuildEvent::Created(Err(code))) ==> b.next(BuildEvent::Created(Err(code))) == (
            BuildStage::Ended,
            BuildAction::Fail(Error::Vulkan(code)),
        ),
        c.accepts(CompactionEvent::Created(Err(code))) ==> c.next(
            CompactionEvent::Created(Err(code)),
        ) == (CompactionStage::Ended, CompactionAction::Fail(Error::Vulkan(code))),
{
}

/// A step takes the outcome of what was asked for last, and no other.
pub proof fn law_only_the_awaited_outcome_is_taken(b: Build, c: Compaction)
    ensures
        forall|r: Result<u64, Error>|
            #![trigger c.accepts(CompactionEvent::Measured(r))]
            c.accepts(CompactionEvent::Measured(r)) <==> c.stage is Measuring,
        forall|r: Result<DeviceBuffer, Error>|
            #![trigger c.accepts(CompactionEvent::Allocated(r))]
            c.accepts(CompactionEvent::Allocated(r)) <==> c.stage is Storage,
        forall|r: Result<u64, VkResult>|
            #![trigger c.accepts(CompactionEvent::Created(r))]
            c.accepts(CompactionEvent::Created(r)) <==> c.stage is Handle,
        forall|r: Result<u64, Error>|
            #![trigger c.accepts(CompactionEvent::Copied(r))]
            c.accepts(CompactionEvent::Copied(r)) <==> c.stage is Copying,
        forall|r: Result<u64, VkResult>|
            #![trigger b.accepts(BuildEvent::Created(r))]
            b.accepts(BuildEvent::Created(r)) <==> b.stage is Handle,
{
}

} // verus!
