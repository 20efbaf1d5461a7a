//! Acceleration structures: what bottom and top level structures are built from, the bytes of
//! instances, and the course of a build and of a compaction.
//!
//! A build and a compaction are state machines. The caller performs the action that a step asks
//! for and hands back what came of it.

use crate::error::{Error, VkResult};
use crate::format::Format;
use crate::live_link::wire;
use crate::memory::resources::{BufferInfo, MemoryLocation};
use crate::vulkan;
use vstd::prelude::*;

verus! {

/// `VK_BUFFER_USAGE_SHADER_DEVICE_ADDRESS_BIT`.
pub const USAGE_DEVICE_ADDRESS: u32 = 0x20000;

/// `VK_BUFFER_USAGE_ACCELERATION_STRUCTURE_BUILD_INPUT_READ_ONLY_BIT_KHR`.
pub const USAGE_BUILD_INPUT: u32 = 0x80000;

/// `VK_BUFFER_USAGE_ACCELERATION_STRUCTURE_STORAGE_BIT_KHR`.
pub const USAGE_STRUCTURE_STORAGE: u32 = 0x100000;

/// `VK_ACCELERATION_STRUCTURE_TYPE_TOP_LEVEL_KHR`.
pub const TOP_LEVEL: i32 = 0;

/// `VK_ACCELERATION_STRUCTURE_TYPE_BOTTOM_LEVEL_KHR`.
pub const BOTTOM_LEVEL: i32 = 1;

/// `VK_BUILD_ACCELERATION_STRUCTURE_ALLOW_COMPACTION_BIT_KHR`.
pub const ALLOW_COMPACTION: u32 = 2;

/// `VK_BUILD_ACCELERATION_STRUCTURE_PREFER_FAST_TRACE_BIT_KHR`.
pub const PREFER_FAST_TRACE: u32 = 4;

/// `VK_BUILD_ACCELERATION_STRUCTURE_MODE_BUILD_KHR`.
pub const MODE_BUILD: i32 = 0;

/// `VK_COPY_ACCELERATION_STRUCTURE_MODE_COMPACT_KHR`.
pub const MODE_COMPACT: i32 = 1;

/// `VK_GEOMETRY_TYPE_TRIANGLES_KHR`.
pub const GEOMETRY_TRIANGLES: i32 = 0;

/// `VK_GEOMETRY_TYPE_AABBS_KHR`.
pub const GEOMETRY_AABBS: i32 = 1;

/// `VK_GEOMETRY_TYPE_INSTANCES_KHR`.
pub const GEOMETRY_INSTANCES: i32 = 2;

/// `VK_GEOMETRY_OPAQUE_BIT_KHR`.
pub const GEOMETRY_OPAQUE: u32 = 1;

/// `VK_INDEX_TYPE_NONE_KHR`.
pub const INDEX_TYPE_NONE: i32 = 1000165000;

/// Bytes of an instance.
pub const INSTANCE_BYTES: usize = 64;

/// Triangles for a bottom level structure.
#[derive(Debug, Clone, Copy, PartialEq, Eq, Structural)]
pub struct TriangleGeometry {
    /// Device address of the vertex buffer.
    pub vertex_buffer: u64,
    /// Format of a vertex position.
    pub vertex_format: Format,
    /// Bytes between vertices.
    pub vertex_stride: u64,
    /// Highest index of a vertex.
    pub max_vertex: u32,
    /// Device address of the index buffer, or 0 without one.
    pub index_buffer: u64,
    /// Index type, which does not matter without an index buffer.
    pub index_type: i32,
    /// Number of triangles.
    pub triangle_count: u32,
}

/// Axis-aligned boxes for a procedural bottom level structure.
#[derive(Debug, Clone, Copy, PartialEq, Eq, Structural)]
pub struct AabbGeometry {
    /// Device address of the boxes.
    pub aabb_buffer: u64,
    /// Bytes between boxes.
    pub stride: u64,
    /// Number of boxes.
    pub count: u32,
}

/// An instance of a bottom level structure in a top level structure.
#[derive(Debug, Clone, Copy)]
pub struct InstanceDesc {
    /// Device address of the bottom level structure.
    pub blas_address: u64,
    /// The bits of the twelve 32-bit floating-point numbers of a 3x4 matrix, row by row.
    pub transform: [u32; 12],
    /// Number for shaders, of which the lower 24 bits count.
    pub instance_id: u32,
    /// Visibility mask.
    pub mask: u8,
    /// Offset of the shader binding table record, of which the lower 24 bits count.
    pub sbt_offset: u32,
    /// Instance flags.
    pub flags: u8,
}

/// A geometry of a bottom level structure.
#[derive(Debug, Clone, Copy, PartialEq, Eq, Structural)]
pub enum GeometryInput {
    /// Triangles.
    Triangles(TriangleGeometry),
    /// Axis-aligned boxes.
    Aabbs(AabbGeometry),
}

/// Where the data of a geometry lie.
#[derive(Debug, Clone, Copy, PartialEq, Eq, Structural)]
pub enum GeometryData {
    /// Triangles.
    Triangles {
        /// Format of a vertex position.
        vertex_format: Format,
        /// Device address of the vertex buffer.
        vertex_data: u64,
        /// Bytes between vertices.
        vertex_stride: u64,
        /// Highest index of a vertex.
        max_vertex: u32,
        /// Index type.
        index_type: i32,
        /// Device address of the index buffer.
        index_data: u64,
    },
    /// Axis-aligned boxes.
    Aabbs {
        /// Device address of the boxes.
        data: u64,
        /// Bytes between boxes.
        stride: u64,
    },
    /// Instances.
    Instances {
        /// Device address of the instances.
        data: u64,
        /// Whether the instances are given by their addresses.
        array_of_pointers: bool,
    },
}

/// A geometry as the driver is given it.
#[derive(Debug, Clone, Copy, PartialEq, Eq, Structural)]
pub struct GeometryInfo {
    /// Geometry type.
    pub geometry_type: i32,
    /// Where the data lie.
    pub data: GeometryData,
    /// Geometry flags.
    pub flags: u32,
}

/// Which primitives of a geometry are built.
#[derive(Debug, Clone, Copy, PartialEq, Eq, Structural)]
pub struct BuildRange {
    /// Number of primitives.
    pub primitive_count: u32,
    /// First byte of the primitives.
    pub primitive_offset: u32,
    /// First vertex.
    pub first_vertex: u32,
    /// First byte of the transform.
    pub transform_offset: u32,
}

/// A geometry as the driver is given it.
pub open spec fn geometry_info(g: GeometryInput) -> GeometryInfo {
    match g {
        GeometryInput::Triangles(t) => GeometryInfo {
            geometry_type: GEOMETRY_TRIANGLES,
            data: GeometryData::Triangles {
                vertex_format: t.vertex_format,
                vertex_data: t.vertex_buffer,
                vertex_stride: t.vertex_stride,
                max_vertex: t.max_vertex,
                index_type: if t.index_buffer == 0 {
                    INDEX_TYPE_NONE
                } else {
                    t.index_type
                },
                index_data: t.index_buffer,
            },
            flags: GEOMETRY_OPAQUE,
        },
        GeometryInput::Aabbs(a) => GeometryInfo {
            geometry_type: GEOMETRY_AABBS,
            data: GeometryData::Aabbs { data: a.aabb_buffer, stride: a.stride },
            flags: GEOMETRY_OPAQUE,
        },
    }
}

/// Number of primitives of a geometry.
pub open spec fn primitives(g: GeometryInput) -> u32 {
    match g {
        GeometryInput::Triangles(t) => t.triangle_count,
        GeometryInput::Aabbs(a) => a.count,
    }
}

/// The first `n` primitives.
pub open spec fn whole_range(n: u32) -> BuildRange {
    BuildRange { primitive_count: n, primitive_offset: 0, first_vertex: 0, transform_offset: 0 }
}

fn to_geometry_info(g: &GeometryInput) -> (r: GeometryInfo)
    ensures
        r == geometry_info(*g),
{
    match g {
        GeometryInput::Triangles(t) => GeometryInfo {
            geometry_type: GEOMETRY_TRIANGLES,
            data: GeometryData::Triangles {
                vertex_format: t.vertex_format,
                vertex_data: t.vertex_buffer,
                vertex_stride: t.vertex_stride,
                max_vertex: t.max_vertex,
                index_type: if t.index_buffer == 0 {
                    INDEX_TYPE_NONE
                } else {
                    t.index_type
                },
                index_data: t.index_buffer,
            },
            flags: GEOMETRY_OPAQUE,
        },
        GeometryInput::Aabbs(a) => GeometryInfo {
            geometry_type: GEOMETRY_AABBS,
            data: GeometryData::Aabbs { data: a.aabb_buffer, stride: a.stride },
            flags: GEOMETRY_OPAQUE,
        },
    }
}

fn primitives_of(g: &GeometryInput) -> (r: u32)
    ensures
        r == primitives(*g),
{
    match g {
        GeometryInput::Triangles(t) => t.triangle_count,
        GeometryInput::Aabbs(a) => a.count,
    }
}

fn range_of(n: u32) -> (r: BuildRange)
    ensures
        r == whole_range(n),
{
    BuildRange { primitive_count: n, primitive_offset: 0, first_vertex: 0, transform_offset: 0 }
}

/// What the driver is asked to build.
#[derive(Debug)]
pub struct BuildPlan {
    /// Type of the structure.
    pub ty: i32,
    /// Build flags.
    pub flags: u32,
    /// Build mode.
    pub mode: i32,
    /// Geometries.
    pub geometries: Vec<GeometryInfo>,
    /// Number of primitives per geometry.
    pub primitive_counts: Vec<u32>,
    /// Primitives to build, per geometry.
    pub ranges: Vec<BuildRange>,
}

/// Builder for a bottom level structure.
#[derive(Debug)]
pub struct BlasBuilder {
    /// Geometries.
    pub geometries: Vec<GeometryInput>,
    /// Build flags.
    pub flags: u32,
    /// Whether to compact the structure.
    pub compact: bool,
}

impl BlasBuilder {
    /// A builder without geometries. Acceleration structures have to be loaded.
    pub fn new(acceleration_structures: bool) -> (r: Result<BlasBuilder, Error>)
        ensures
            r is Ok <==> acceleration_structures,
            r matches Ok(b) ==> b.geometries@.len() == 0 && b.flags == PREFER_FAST_TRACE
                && !b.compact,
            r matches Err(e) ==> e.is_feature_not_enabled("VK_KHR_acceleration_structure"@),
    {
        if !acceleration_structures {
            return Err(Error::FeatureNotEnabled("VK_KHR_acceleration_structure"));
        }
        Ok(BlasBuilder { geometries: Vec::new(), flags: PREFER_FAST_TRACE, compact: false })
    }

    /// Adds triangles.
    pub fn triangles(self, geo: TriangleGeometry) -> (r: BlasBuilder)
        ensures
            r.geometries@ == self.geometries@.push(GeometryInput::Triangles(geo)),
            r.flags == self.flags,
            r.compact == self.compact,
    {
        let mut b: BlasBuilder = self;
        b.geometries.push(GeometryInput::Triangles(geo));
        b
    }

    /// Adds axis-aligned boxes.
    pub fn aabbs(self, geo: AabbGeometry) -> (r: BlasBuilder)
        ensures
            r.geometries@ == self.geometries@.push(GeometryInput::Aabbs(geo)),
            r.flags == self.flags,
            r.compact == self.compact,
    {
        let mut b: BlasBuilder = self;
        b.geometries.push(GeometryInput::Aabbs(geo));
        b
    }

    /// Sets the build flags.
    pub fn flags(self, flags: u32) -> (r: BlasBuilder)
        ensures
            r == (BlasBuilder { flags, ..self }),
    {
        BlasBuilder { flags, ..self }
    }

    /// Switches compaction on or off. What is to be compacted is built so that it can be.
    pub fn compact(self, enable: bool) -> (r: BlasBuilder)
        ensures
            r == (BlasBuilder {
                compact: enable,
                flags: if enable {
                    self.flags | ALLOW_COMPACTION
                } else {
                    self.flags
                },
                ..self
            }),
    {
        let flags: u32 = if enable {
            self.flags | ALLOW_COMPACTION
        } else {
            self.flags
        };
        BlasBuilder { compact: enable, flags, ..self }
    }

    /// What the driver is asked to build. A structure without geometries is refused, and one that is
    /// to be compacted cannot be built asynchronously.
    pub fn plan(&self, asynchronous: bool) -> (r: Result<BuildPlan, Error>)
        ensures
            r is Ok <==> !(asynchronous && self.compact) && self.geometries@.len() > 0,
            r matches Ok(p) ==> {
                &&& p.ty == BOTTOM_LEVEL
                &&& p.flags == self.flags
                &&& p.mode == MODE_BUILD
                &&& p.geometries@ == self.geometries@.map_values(
                    |g: GeometryInput| geometry_info(g),
                )
                &&& p.primitive_counts@ == self.geometries@.map_values(
                    |g: GeometryInput| primitives(g),
                )
                &&& p.ranges@ == self.geometries@.map_values(
                    |g: GeometryInput| whole_range(primitives(g)),
                )
            },
            r matches Err(e) ==> e.is_invalid_config(
                if asynchronous && self.compact {
                    "BLAS compaction requires synchronous build; use build() or drop compact(true)"@
                } else {
                    "BLAS builder: no geometries added"@
                },
            ),
    {
        if asynchronous && self.compact {
            return Err(
                Error::InvalidConfig(
                    "BLAS compaction requires synchronous build; use build() or drop compact(true)",
                ),
            );
        }
        if self.geometries.len() == 0 {
            return Err(Error::InvalidConfig("BLAS builder: no geometries added"));
        }
        let ghost infos = self.geometries@.map_values(|g: GeometryInput| geometry_info(g));
        let ghost counts = self.geometries@.map_values(|g: GeometryInput| primitives(g));
        let ghost all = self.geometries@.map_values(
            |g: GeometryInput| whole_range(primitives(g)),
        );
        let mut geometries: Vec<GeometryInfo> = Vec::new();
        let mut primitive_counts: Vec<u32> = Vec::new();
        let mut ranges: Vec<BuildRange> = Vec::new();
        let mut i: usize = 0;
        while i < self.geometries.len()
            invariant
                i <= self.geometries@.len(),
                infos == self.geometries@.map_values(|g: GeometryInput| geometry_info(g)),
                counts == self.geometries@.map_values(|g: GeometryInput| primitives(g)),
                all == self.geometries@.map_values(
                    |g: GeometryInput| whole_range(primitives(g)),
                ),
                geometries@ == infos.take(i as int),
                primitive_counts@ == counts.take(i as int),
                ranges@ == all.take(i as int),
            decreases self.geometries@.len() - i,
        {
            let n: u32 = primitives_of(&self.geometries[i]);
            geometries.push(to_geometry_info(&self.geometries[i]));
            primitive_counts.push(n);
            ranges.push(range_of(n));
            i = i + 1;
            assert(geometries@ =~= infos.take(i as int));
            assert(primitive_counts@ =~= counts.take(i as int));
            assert(ranges@ =~= all.take(i as int));
        }
        assert(geometries@ =~= infos);
        assert(primitive_counts@ =~= counts);
        assert(ranges@ =~= all);
        Ok(
            BuildPlan {
                ty: BOTTOM_LEVEL,
                flags: self.flags,
                mode: MODE_BUILD,
                geometries,
                primitive_counts,
                ranges,
            },
        )
    }
}

/// A number of 24 bits below one of 8 bits.
pub open spec fn packed(low: u32, high: u8) -> u32 {
    (low & 0x00FF_FFFF) | ((high as u32) << 24)
}

/// The bytes of an instance.
pub open spec fn instance_bytes(i: InstanceDesc) -> Seq<u8> {
    matrix_bytes(i.transform@) + wire::word(packed(i.instance_id, i.mask) as int) + wire::word(
        packed(i.sbt_offset, i.flags) as int,
    ) + wire::long(i.blas_address as int)
}

/// The bytes of the numbers of a matrix.
pub open spec fn matrix_bytes(m: Seq<u32>) -> Seq<u8>
    decreases m.len(),
{
    if m.len() == 0 {
        seq![]
    } else {
        matrix_bytes(m.drop_last()) + wire::word(m.last() as int)
    }
}

/// The bytes of instances, one after the other.
pub open spec fn encoded(s: Seq<InstanceDesc>) -> Seq<u8>
    decreases s.len(),
{
    if s.len() == 0 {
        seq![]
    } else {
        encoded(s.drop_last()) + instance_bytes(s.last())
    }
}

fn pack(low: u32, high: u8) -> (r: u32)
    ensures
        r == packed(low, high),
{
    (low & 0x00FF_FFFF) | ((high as u32) << 24)
}

fn push_matrix(out: &mut Vec<u8>, m: &[u32; 12])
    ensures
        final(out)@ == old(out)@ + matrix_bytes(m@),
{
    let mut i: usize = 0;
    assert(out@ =~= old(out)@ + matrix_bytes(m@.take(0)));
    while i < 12
        invariant
            i <= 12,
            m@.len() == 12,
            out@ == old(out)@ + matrix_bytes(m@.take(i as int)),
        decreases 12 - i,
    {
        let ghost before = out@;
        wire::push_le(out, m[i] as u64, 4);
        i = i + 1;
        assert(m@.take(i as int).drop_last() =~= m@.take(i - 1));
        assert(out@ =~= old(out)@ + matrix_bytes(m@.take(i as int)));
    }
    assert(m@.take(12) =~= m@);
}

/// The bytes of instances, as the driver reads them: per instance 48 bytes of matrix, 4 of number
/// and mask, 4 of record offset and flags and 8 of address, each number with its lowest byte first.
pub fn encode_instances(instances: &Vec<InstanceDesc>) -> (r: Vec<u8>)
    ensures
        r@ == encoded(instances@),
{
    let mut out: Vec<u8> = Vec::new();
    let mut i: usize = 0;
    assert(out@ =~= encoded(instances@.take(0)));
    while i < instances.len()
        invariant
            i <= instances@.len(),
            out@ == encoded(instances@.take(i as int)),
        decreases instances@.len() - i,
    {
        let inst: &InstanceDesc = &instances[i];
        push_matrix(&mut out, &inst.transform);
        wire::push_le(&mut out, pack(inst.instance_id, inst.mask) as u64, 4);
        wire::push_le(&mut out, pack(inst.sbt_offset, inst.flags) as u64, 4);
        wire::push_le(&mut out, inst.blas_address, 8);
        i = i + 1;
        assert(instances@.take(i as int).drop_last() =~= instances@.take(i - 1));
        assert(out@ =~= encoded(instances@.take(i as int)));
    }
    assert(instances@.take(i as int) =~= instances@);
    out
}

/// The bits of the identity matrix.
pub fn identity_transform() -> (r: [u32; 12])
    ensures
        r@ == seq![
            0x3F80_0000u32, 0, 0, 0,
            0, 0x3F80_0000, 0, 0,
            0, 0, 0x3F80_0000, 0,
        ],
{
    let r: [u32; 12] = [
        0x3F80_0000,
        0,
        0,
        0,
        0,
        0x3F80_0000,
        0,
        0,
        0,
        0,
        0x3F80_0000,
        0,
    ];
    assert(r@ =~= seq![
        0x3F80_0000u32, 0, 0, 0,
        0, 0x3F80_0000, 0, 0,
        0, 0, 0x3F80_0000, 0,
    ]);
    r
}

pub(crate) proof fn lemma_matrix_len(m: Seq<u32>)
    ensures
        matrix_bytes(m).len() == 4 * m.len(),
    decreases m.len(),
{
    if m.len() > 0 {
        lemma_matrix_len(m.drop_last());
        wire::lemma_le_len(m.last() as int, 4);
    }
}

proof fn lemma_instance_len(i: InstanceDesc)
    ensures
        instance_bytes(i).len() == INSTANCE_BYTES,
{
    lemma_matrix_len(i.transform@);
    wire::lemma_le_len(packed(i.instance_id, i.mask) as int, 4);
    wire::lemma_le_len(packed(i.sbt_offset, i.flags) as int, 4);
    wire::lemma_le_len(i.blas_address as int, 8);
}

/// Instances lie one after the other, 64 bytes each.
pub proof fn law_instances_are_64_bytes_apart(s: Seq<InstanceDesc>, k: int)
    requires
        0 <= k < s.len(),
    ensures
        encoded(s).len() == INSTANCE_BYTES * s.len(),
        encoded(s).subrange(INSTANCE_BYTES * k, INSTANCE_BYTES * (k + 1)) == instance_bytes(s[k]),
    decreases s.len(),
{
    lemma_encoded_len(s);
    lemma_encoded_len(s.drop_last());
    lemma_instance_len(s.last());
    if k == s.len() - 1 {
        assert(encoded(s).subrange(INSTANCE_BYTES * k, INSTANCE_BYTES * (k + 1)) =~= instance_bytes(
            s[k],
        ));
    } else {
        law_instances_are_64_bytes_apart(s.drop_last(), k);
        assert(encoded(s).subrange(INSTANCE_BYTES * k, INSTANCE_BYTES * (k + 1)) =~= encoded(
            s.drop_last(),
        ).subrange(INSTANCE_BYTES * k, INSTANCE_BYTES * (k + 1)));
    }
}

proof fn lemma_encoded_len(s: Seq<InstanceDesc>)
    ensures
        encoded(s).len() == INSTANCE_BYTES * s.len(),
    decreases s.len(),
{
    if s.len() > 0 {
        lemma_encoded_len(s.drop_last());
        lemma_instance_len(s.last());
    }
}

/// What an instance says can be read back from its bytes: the lower 24 bits of the number, the mask,
/// the lower 24 bits of the record offset, the flags and the address.
pub proof fn law_instance_reads_back(i: InstanceDesc)
    ensures
        ({
            let b = instance_bytes(i);
            let id = wire::read_le(b.subrange(48, 52));
            let sbt = wire::read_le(b.subrange(52, 56));
            &&& id == (i.instance_id & 0x00FF_FFFF) + 0x100_0000 * i.mask
            &&& sbt == (i.sbt_offset & 0x00FF_FFFF) + 0x100_0000 * i.flags
            &&& wire::read_le(b.subrange(56, 64)) == i.blas_address
        }),
{
    let b = instance_bytes(i);
    let id = packed(i.instance_id, i.mask);
    let sbt = packed(i.sbt_offset, i.flags);
    lemma_matrix_len(i.transform@);
    wire::lemma_le_len(id as int, 4);
    wire::lemma_le_len(sbt as int, 4);
    wire::lemma_le_len(i.blas_address as int, 8);
    assert(b.subrange(48, 52) =~= wire::word(id as int));
    assert(b.subrange(52, 56) =~= wire::word(sbt as int));
    assert(b.subrange(56, 64) =~= wire::long(i.blas_address as int));
    assert(vstd::arithmetic::power::pow(256, 4) == 0x1_0000_0000) by {
        reveal_with_fuel(vstd::arithmetic::power::pow, 5);
    }
    assert(vstd::arithmetic::power::pow(256, 8) == 0x1_0000_0000_0000_0000) by {
        reveal_with_fuel(vstd::arithmetic::power::pow, 9);
    }
    wire::law_number_reads_back(id as int, 4);
    wire::law_number_reads_back(sbt as int, 4);
    wire::law_number_reads_back(i.blas_address as int, 8);
    lemma_packed(i.instance_id, i.mask);
    lemma_packed(i.sbt_offset, i.flags);
}

proof fn lemma_packed(low: u32, high: u8)
    ensures
        packed(low, high) == (low & 0x00FF_FFFF) + 0x100_0000 * high,
{
    assert((low & 0x00FF_FFFFu32) | ((high as u32) << 24u32) == (low & 0x00FF_FFFFu32) + 0x100_0000
        * high) by (bit_vector);
}

/// Builder for a top level structure.
#[derive(Debug)]
pub struct TlasBuilder {
    /// Instances.
    pub instances: Vec<InstanceDesc>,
    /// Build flags.
    pub flags: u32,
}

/// Bytes for the instance buffer and what it is created with.
#[derive(Debug)]
pub struct InstanceUpload {
    /// What the buffer is created with.
    pub info: BufferInfo,
    /// What is written to it.
    pub bytes: Vec<u8>,
}

impl TlasBuilder {
    /// A builder without instances. Acceleration structures have to be loaded.
    pub fn new(acceleration_structures: bool) -> (r: Result<TlasBuilder, Error>)
        ensures
            r is Ok <==> acceleration_structures,
            r matches Ok(b) ==> b.instances@.len() == 0 && b.flags == PREFER_FAST_TRACE,
            r matches Err(e) ==> e.is_feature_not_enabled("VK_KHR_acceleration_structure"@),
    {
        if !acceleration_structures {
            return Err(Error::FeatureNotEnabled("VK_KHR_acceleration_structure"));
        }
        Ok(TlasBuilder { instances: Vec::new(), flags: PREFER_FAST_TRACE })
    }

    /// Sets the build flags.
    pub fn flags(self, flags: u32) -> (r: TlasBuilder)
        ensures
            r == (TlasBuilder { flags, ..self }),
    {
        TlasBuilder { flags, ..self }
    }

    /// Adds an instance.
    pub fn add_instance(self, inst: InstanceDesc) -> (r: TlasBuilder)
        ensures
            r.instances@ == self.instances@.push(inst),
            r.flags == self.flags,
    {
        let mut b: TlasBuilder = self;
        b.instances.push(inst);
        b
    }

    /// Adds instances.
    pub fn add_instances(self, insts: &Vec<InstanceDesc>) -> (r: TlasBuilder)
        ensures
            r.instances@ == self.instances@ + insts@,
            r.flags == self.flags,
    {
        let mut b: TlasBuilder = self;
        let mut i: usize = 0;
        assert(b.instances@ =~= self.instances@ + insts@.take(0));
        while i < insts.len()
            invariant
                i <= insts@.len(),
                b.instances@ == self.instances@ + insts@.take(i as int),
                b.flags == self.flags,
            decreases insts@.len() - i,
        {
            b.instances.push(insts[i]);
            i = i + 1;
            assert(b.instances@ =~= self.instances@ + insts@.take(i as int));
        }
        assert(insts@.take(i as int) =~= insts@);
        b
    }

    /// The instances for the buffer that the build reads them from. A structure without instances is
    /// refused.
    pub fn upload(&self) -> (r: Result<InstanceUpload, Error>)
        ensures
            r is Ok <==> self.instances@.len() > 0,
            r matches Ok(u) ==> {
                &&& u.bytes@ == encoded(self.instances@)
                &&& u.info == BufferInfo::exclusive(
                    u.bytes@.len() as u64,
                    USAGE_BUILD_INPUT | USAGE_DEVICE_ADDRESS,
                    MemoryLocation::CpuToGpu,
                )
            },
            r matches Err(e) ==> e.is_invalid_config("TLAS builder: no instances added"@),
    {
        if self.instances.len() == 0 {
            return Err(Error::InvalidConfig("TLAS builder: no instances added"));
        }
        let bytes: Vec<u8> = encode_instances(&self.instances);
        let info: BufferInfo = BufferInfo {
            size: bytes.len() as u64,
            usage: USAGE_BUILD_INPUT | USAGE_DEVICE_ADDRESS,
            location: MemoryLocation::CpuToGpu,
            sharing_mode: vulkan::SHARING_EXCLUSIVE,
        };
        Ok(InstanceUpload { info, bytes })
    }

    /// What the driver is asked to build. The instances have been written to a buffer at an address.
    pub fn plan(&self, instance_address: u64) -> (r: BuildPlan)
        requires
            self.instances@.len() <= u32::MAX,
        ensures
            r.ty == TOP_LEVEL,
            r.flags == self.flags,
            r.mode == MODE_BUILD,
            r.geometries@ == seq![
                GeometryInfo {
                    geometry_type: GEOMETRY_INSTANCES,
                    data: GeometryData::Instances {
                        data: instance_address,
                        array_of_pointers: false,
                    },
                    flags: 0,
                },
            ],
            r.primitive_counts@ == seq![self.instances@.len() as u32],
            r.ranges@ == seq![whole_range(self.instances@.len() as u32)],
    {
        let n: u32 = self.instances.len() as u32;
        let info: GeometryInfo = GeometryInfo {
            geometry_type: GEOMETRY_INSTANCES,
            data: GeometryData::Instances { data: instance_address, array_of_pointers: false },
            flags: 0,
        };
        let mut geometries: Vec<GeometryInfo> = Vec::new();
        geometries.push(info);
        let mut primitive_counts: Vec<u32> = Vec::new();
        primitive_counts.push(n);
        let mut ranges: Vec<BuildRange> = Vec::new();
        ranges.push(range_of(n));
        assert(geometries@ =~= seq![info]);
        assert(primitive_counts@ =~= seq![n]);
        assert(ranges@ =~= seq![whole_range(n)]);
        BuildPlan {
            ty: TOP_LEVEL,
            flags: self.flags,
            mode: MODE_BUILD,
            geometries,
            primitive_counts,
            ranges,
        }
    }
}

/// A buffer on the device.
#[derive(Debug, Clone, Copy, PartialEq, Eq, Structural)]
pub struct DeviceBuffer {
    /// Handle of the buffer.
    pub handle: u64,
    /// Device address of its first byte.
    pub address: u64,
    /// Size in bytes.
    pub size: u64,
}

/// Buffers that a build on the device still reads.
#[derive(Debug, Clone, Copy, PartialEq, Eq, Structural)]
pub struct BuildResidue {
    /// The scratch buffer.
    pub scratch: DeviceBuffer,
    /// The instance buffer of a top level structure.
    pub instance: Option<DeviceBuffer>,
}

/// An acceleration structure with all that it holds.
#[derive(Debug, Clone, Copy, PartialEq, Eq, Structural)]
pub struct AccelerationStructure {
    /// Handle of the structure.
    pub handle: u64,
    /// The buffer that it lies in.
    pub buffer: DeviceBuffer,
    /// Its device address.
    pub device_address: u64,
    /// Its type.
    pub ty: i32,
    /// What an asynchronous build still reads.
    pub residue: Option<BuildResidue>,
}

impl AccelerationStructure {
    /// Handle of the structure.
    pub fn handle(&self) -> (r: u64)
        ensures
            r == self.handle,
    {
        self.handle
    }

    /// Its device address.
    pub fn device_address(&self) -> (r: u64)
        ensures
            r == self.device_address,
    {
        self.device_address
    }

    /// Its type.
    pub fn ty(&self) -> (r: i32)
        ensures
            r == self.ty,
    {
        self.ty
    }
}

/// What the buffer of a structure is created with.
pub open spec fn storage_info(size: u64) -> BufferInfo {
    BufferInfo::exclusive(
        size,
        USAGE_STRUCTURE_STORAGE | USAGE_DEVICE_ADDRESS,
        MemoryLocation::GpuOnly,
    )
}

/// What a scratch buffer is created with: there is room to align the address within it.
pub open spec fn scratch_info(required: u64, alignment: u64) -> BufferInfo {
    BufferInfo::exclusive(
        (required + alignment) as u64,
        vulkan::BUFFER_USAGE_STORAGE | USAGE_DEVICE_ADDRESS,
        MemoryLocation::GpuOnly,
    )
}

fn storage_buffer(size: u64) -> (r: BufferInfo)
    ensures
        r == storage_info(size),
{
    BufferInfo {
        size,
        usage: USAGE_STRUCTURE_STORAGE | USAGE_DEVICE_ADDRESS,
        location: MemoryLocation::GpuOnly,
        sharing_mode: vulkan::SHARING_EXCLUSIVE,
    }
}

fn scratch_buffer(required: u64, alignment: u64) -> (r: BufferInfo)
    requires
        required + alignment <= u64::MAX,
    ensures
        r == scratch_info(required, alignment),
{
    BufferInfo {
        size: required + alignment,
        usage: vulkan::BUFFER_USAGE_STORAGE | USAGE_DEVICE_ADDRESS,
        location: MemoryLocation::GpuOnly,
        sharing_mode: vulkan::SHARING_EXCLUSIVE,
    }
}

/// Where a build stands.
#[derive(Debug, Clone, Copy, PartialEq, Eq, Structural)]
pub enum BuildStage {
    /// The sizes are being asked for.
    Sizes,
    /// The buffer of the structure is being allocated.
    Storage {
        /// Size of the structure.
        size: u64,
        /// Size of the scratch memory.
        scratch_size: u64,
    },
    /// The structure is being created.
    Handle {
        /// The buffer of the structure.
        buffer: DeviceBuffer,
        /// Size of the scratch memory.
        scratch_size: u64,
    },
    /// The scratch buffer is being allocated.
    Scratch {
        /// The buffer of the structure.
        buffer: DeviceBuffer,
        /// The structure.
        handle: u64,
    },
    /// The build command is being recorded.
    Recording {
        /// The buffer of the structure.
        buffer: DeviceBuffer,
        /// The structure.
        handle: u64,
        /// The scratch buffer.
        scratch: DeviceBuffer,
    },
    /// The build command is being submitted.
    Submitting {
        /// The structure.
        structure: AccelerationStructure,
    },
    /// The device is being waited for.
    Waiting {
        /// The structure.
        structure: AccelerationStructure,
    },
    /// The build has ended.
    Ended,
}

/// The course of a build.
#[derive(Debug, Clone, Copy, PartialEq, Eq, Structural)]
pub struct Build {
    /// Type of the structure.
    pub ty: i32,
    /// Whether not to wait for the device.
    pub asynchronous: bool,
    /// Alignment of the scratch address.
    pub alignment: u64,
    /// The instance buffer of a top level structure.
    pub instance: Option<DeviceBuffer>,
    /// Where the build stands.
    pub stage: BuildStage,
}

/// What came of an action.
#[derive(Debug)]
pub enum BuildEvent {
    /// The sizes that the build needs.
    Sizes {
        /// Size of the structure.
        structure: u64,
        /// Size of the scratch memory.
        scratch: u64,
    },
    /// What came of allocating a buffer.
    Allocated(Result<DeviceBuffer, Error>),
    /// What came of creating the structure: its handle.
    Created(Result<u64, VkResult>),
    /// What came of recording the command: the device address of the structure.
    Recorded(Result<u64, Error>),
    /// What came of submitting the command.
    Submitted(Result<(), Error>),
    /// What came of waiting for the device.
    Waited(Result<(), Error>),
}

/// What is to be done next.
#[derive(Debug)]
pub enum BuildAction {
    /// Allocate a buffer.
    Allocate(BufferInfo),
    /// Create the structure.
    Create {
        /// The buffer that it lies in.
        buffer: u64,
        /// Its size.
        size: u64,
        /// Its type.
        ty: i32,
    },
    /// Record the build command.
    Record {
        /// The structure.
        dst: u64,
        /// The scratch address.
        scratch_address: u64,
    },
    /// Submit the command.
    Submit,
    /// Wait for the device.
    Wait,
    /// The structure has been built, or is being built.
    Finish(AccelerationStructure),
    /// The build failed.
    Fail(Error),
}

impl Build {
    /// The build is waiting for what this event says, and the sizes and addresses that it brings
    /// leave room for the alignment.
    pub open spec fn accepts(self, event: BuildEvent) -> bool {
        match (self.stage, event) {
            (BuildStage::Sizes, BuildEvent::Sizes { scratch, .. }) => scratch + self.alignment
                <= u64::MAX,
            (BuildStage::Storage { .. }, BuildEvent::Allocated(_)) => true,
            (BuildStage::Handle { .. }, BuildEvent::Created(_)) => true,
            (BuildStage::Scratch { .. }, BuildEvent::Allocated(r)) => r matches Ok(b)
                ==> b.address + self.alignment <= u64::MAX,
            (BuildStage::Recording { .. }, BuildEvent::Recorded(_)) => true,
            (BuildStage::Submitting { .. }, BuildEvent::Submitted(_)) => true,
            (BuildStage::Waiting { .. }, BuildEvent::Waited(_)) => true,
            _ => false,
        }
    }

    /// The scratch memory that is still to be asked for has room for its alignment.
    pub open spec fn wf(self) -> bool {
        &&& self.alignment >= 1
        &&& match self.stage {
            BuildStage::Storage { scratch_size, .. } => scratch_size + self.alignment <= u64::MAX,
            BuildStage::Handle { scratch_size, .. } => scratch_size + self.alignment <= u64::MAX,
            _ => true,
        }
    }

    /// What has been built once the build command is recorded. An asynchronous build keeps the
    /// buffers that the device still reads.
    pub open spec fn built(
        self,
        buffer: DeviceBuffer,
        handle: u64,
        scratch: DeviceBuffer,
        device_address: u64,
    ) -> AccelerationStructure {
        AccelerationStructure {
            handle,
            buffer,
            device_address,
            ty: self.ty,
            residue: if self.asynchronous {
                Some(BuildResidue { scratch, instance: self.instance })
            } else {
                None
            },
        }
    }

    /// Where the build stands after an event, and what is to be done next.
    pub open spec fn next(self, event: BuildEvent) -> (BuildStage, BuildAction) {
        match (self.stage, event) {
            (BuildStage::Sizes, BuildEvent::Sizes { structure, scratch }) => (
                BuildStage::Storage { size: structure, scratch_size: scratch },
                BuildAction::Allocate(storage_info(structure)),
            ),
            (
                BuildStage::Storage { size, scratch_size },
                BuildEvent::Allocated(Ok(buffer)),
            ) => (
                BuildStage::Handle { buffer, scratch_size },
                BuildAction::Create { buffer: buffer.handle, size, ty: self.ty },
            ),
            (BuildStage::Handle { buffer, scratch_size }, BuildEvent::Created(Ok(handle))) => (
                BuildStage::Scratch { buffer, handle },
                BuildAction::Allocate(scratch_info(scratch_size, self.alignment)),
            ),
            (BuildStage::Scratch { buffer, handle }, BuildEvent::Allocated(Ok(scratch))) => (
                BuildStage::Recording { buffer, handle, scratch },
                BuildAction::Record {
                    dst: handle,
                    scratch_address: vulkan::mask_up(scratch.address, self.alignment),
                },
            ),
            (
                BuildStage::Recording { buffer, handle, scratch },
                BuildEvent::Recorded(Ok(device_address)),
            ) => (
                BuildStage::Submitting {
                    structure: self.built(buffer, handle, scratch, device_address),
                },
                BuildAction::Submit,
            ),
            (BuildStage::Submitting { structure }, BuildEvent::Submitted(Ok(_))) => {
                if self.asynchronous {
                    (BuildStage::Ended, BuildAction::Finish(structure))
                } else {
                    (BuildStage::Waiting { structure }, BuildAction::Wait)
                }
            },
            (BuildStage::Waiting { structure }, BuildEvent::Waited(Ok(_))) => (
                BuildStage::Ended,
                BuildAction::Finish(structure),
            ),
            (_, BuildEvent::Allocated(Err(e))) => (BuildStage::Ended, BuildAction::Fail(e)),
            (_, BuildEvent::Created(Err(code))) => (
                BuildStage::Ended,
                BuildAction::Fail(Error::Vulkan(code)),
            ),
            (_, BuildEvent::Recorded(Err(e))) => (BuildStage::Ended, BuildAction::Fail(e)),
            (_, BuildEvent::Submitted(Err(e))) => (BuildStage::Ended, BuildAction::Fail(e)),
            (_, BuildEvent::Waited(Err(e))) => (BuildStage::Ended, BuildAction::Fail(e)),
            _ => (BuildStage::Ended, BuildAction::Submit),
        }
    }

    /// A build that has yet to ask for its sizes. The alignment is what the device asks for, and at
    /// least one.
    pub fn new(
        ty: i32,
        asynchronous: bool,
        min_alignment: u32,
        instance: Option<DeviceBuffer>,
    ) -> (r: Build)
        ensures
            r.wf(),
            r == (Build {
                ty,
                asynchronous,
                alignment: if min_alignment == 0 {
                    1
                } else {
                    min_alignment as u64
                },
                instance,
                stage: BuildStage::Sizes,
            }),
    {
        let alignment: u64 = if min_alignment == 0 {
            1
        } else {
            min_alignment as u64
        };
        Build { ty, asynchronous, alignment, instance, stage: BuildStage::Sizes }
    }

    /// Takes a step.
    pub fn step(&mut self, event: BuildEvent) -> (r: BuildAction)
        requires
            old(self).wf(),
            old(self).accepts(event),
        ensures
            final(self).wf(),
            r == old(self).next(event).1,
            *final(self) == (Build { stage: old(self).next(event).0, ..*old(self) }),
    {
        let stage: BuildStage = self.stage;
        self.stage = BuildStage::Ended;
        match event {
            BuildEvent::Sizes { structure, scratch } => {
                self.stage = BuildStage::Storage { size: structure, scratch_size: scratch };
                BuildAction::Allocate(storage_buffer(structure))
            },
            BuildEvent::Allocated(Err(e)) => BuildAction::Fail(e),
            BuildEvent::Allocated(Ok(b)) => match stage {
                BuildStage::Storage { size, scratch_size } => {
                    self.stage = BuildStage::Handle { buffer: b, scratch_size };
                    BuildAction::Create { buffer: b.handle, size, ty: self.ty }
                },
                BuildStage::Scratch { buffer, handle } => {
                    self.stage = BuildStage::Recording { buffer, handle, scratch: b };
                    BuildAction::Record {
                        dst: handle,
                        scratch_address: vulkan::align_up(b.address, self.alignment),
                    }
                },
                _ => BuildAction::Submit,
            },
            BuildEvent::Created(Err(code)) => BuildAction::Fail(Error::Vulkan(code)),
            BuildEvent::Created(Ok(handle)) => match stage {
                BuildStage::Handle { buffer, scratch_size } => {
                    self.stage = BuildStage::Scratch { buffer, handle };
                    BuildAction::Allocate(scratch_buffer(scratch_size, self.alignment))
                },
                _ => BuildAction::Submit,
            },
            BuildEvent::Recorded(Err(e)) => BuildAction::Fail(e),
            BuildEvent::Recorded(Ok(device_address)) => match stage {
                BuildStage::Recording { buffer, handle, scratch } => {
                    let residue: Option<BuildResidue> = if self.asynchronous {
                        Some(BuildResidue { scratch, instance: self.instance })
                    } else {
                        None
                    };
                    let structure: AccelerationStructure = AccelerationStructure {
                        handle,
                        buffer,
                        device_address,
                        ty: self.ty,
                        residue,
                    };
                    self.stage = BuildStage::Submitting { structure };
                    BuildAction::Submit
                },
                _ => BuildAction::Submit,
            },
            BuildEvent::Submitted(Err(e)) => BuildAction::Fail(e),
            BuildEvent::Submitted(Ok(_)) => match stage {
                BuildStage::Submitting { structure } => {
                    if self.asynchronous {
                        BuildAction::Finish(structure)
                    } else {
                        self.stage = BuildStage::Waiting { structure };
                        BuildAction::Wait
                    }
                },
                _ => BuildAction::Submit,
            },
            BuildEvent::Waited(Err(e)) => BuildAction::Fail(e),
            BuildEvent::Waited(Ok(_)) => match stage {
                BuildStage::Waiting { structure } => BuildAction::Finish(structure),
                _ => BuildAction::Submit,
            },
        }
    }
}

/// The scratch address of a build is aligned, and all the scratch memory that the build asked for
/// lies within the scratch buffer.
pub proof fn law_scratch_is_aligned_and_fits(scratch: DeviceBuffer, required: u64, alignment: u64)
    requires
        vulkan::is_pow2(alignment),
        required + alignment <= u64::MAX,
        scratch.size == scratch_info(required, alignment).size,
        scratch.address + alignment <= u64::MAX,
    ensures
        ({
            let address = vulkan::mask_up(scratch.address, alignment);
            &&& address % alignment == 0
            &&& scratch.address <= address
            &&& address + required <= scratch.address + scratch.size
        }),
{
    vulkan::lemma_mask_up_rounds_up(scratch.address, alignment);
}

/// A build whose steps all succeed ends with its structure: a synchronous one once the device has
/// been waited for, without any buffers but its own, an asynchronous one once it is submitted, with
/// all the buffers that the device still reads.
pub proof fn law_successful_build_hands_out_its_structure(
    b0: Build,
    size: u64,
    scratch_size: u64,
    buffer: DeviceBuffer,
    handle: u64,
    scratch: DeviceBuffer,
    device_address: u64,
)
    requires
        b0.wf(),
        b0.stage == BuildStage::Sizes,
        scratch_size + b0.alignment <= u64::MAX,
        scratch.address + b0.alignment <= u64::MAX,
    ensures
        ({
            let sizes = b0.next(BuildEvent::Sizes { structure: size, scratch: scratch_size });
            let b1 = Build { stage: sizes.0, ..b0 };
            let storage = b1.next(BuildEvent::Allocated(Ok(buffer)));
            let b2 = Build { stage: storage.0, ..b0 };
            let created = b2.next(BuildEvent::Created(Ok(handle)));
            let b3 = Build { stage: created.0, ..b0 };
            let allocated = b3.next(BuildEvent::Allocated(Ok(scratch)));
            let b4 = Build { stage: allocated.0, ..b0 };
            let recorded = b4.next(BuildEvent::Recorded(Ok(device_address)));
            let b5 = Build { stage: recorded.0, ..b0 };
            let submitted = b5.next(BuildEvent::Submitted(Ok(())));
            let b6 = Build { stage: submitted.0, ..b0 };
            let waited = b6.next(BuildEvent::Waited(Ok(())));
            let last = if b0.asynchronous {
                submitted.1
            } else {
                waited.1
            };
            &&& sizes.1 == BuildAction::Allocate(storage_info(size))
            &&& storage.1 == BuildAction::Create { buffer: buffer.handle, size, ty: b0.ty }
            &&& created.1 == BuildAction::Allocate(scratch_info(scratch_size, b0.alignment))
            &&& allocated.1 == BuildAction::Record {
                dst: handle,
                scratch_address: vulkan::mask_up(scratch.address, b0.alignment),
            }
            &&& recorded.1 is Submit
            &&& !b0.asynchronous ==> submitted.1 is Wait
            &&& last matches BuildAction::Finish(s) && s.handle == handle && s.buffer == buffer
                && s.device_address == device_address && s.ty == b0.ty && s.residue == (
            if b0.asynchronous {
                Some(BuildResidue { scratch, instance: b0.instance })
            } else {
                None
            })
        }),
{
}

/// A failed step ends the build with its error.
pub proof fn law_failed_step_ends_the_build(b: Build, e: Error)
    requires
        b.wf(),
    ensures
        ({
            let ended = (BuildStage::Ended, BuildAction::Fail(e));
            &&& b.accepts(BuildEvent::Allocated(Err(e))) ==> b.next(BuildEvent::Allocated(Err(e)))
                == ended
            &&& b.accepts(BuildEvent::Recorded(Err(e))) ==> b.next(BuildEvent::Recorded(Err(e)))
                == ended
            &&& b.accepts(BuildEvent::Submitted(Err(e))) ==> b.next(BuildEvent::Submitted(Err(e)))
                == ended
            &&& b.accepts(BuildEvent::Waited(Err(e))) ==> b.next(BuildEvent::Waited(Err(e)))
                == ended
        }),
{
}

/// Where a compaction stands.
#[derive(Debug, Clone, Copy, PartialEq, Eq, Structural)]
pub enum CompactionStage {
    /// The compacted size is being read.
    Measuring,
    /// The buffer of the compacted structure is being allocated.
    Storage {
        /// The compacted size.
        size: u64,
    },
    /// The compacted structure is being created.
    Handle {
        /// Its buffer.
        buffer: DeviceBuffer,
    },
    /// The structure is being copied.
    Copying {
        /// The buffer of the compacted structure.
        buffer: DeviceBuffer,
        /// The compacted structure.
        handle: u64,
    },
    /// The compaction has ended.
    Ended,
}

/// The course of a compaction.
#[derive(Debug, Clone, Copy, PartialEq, Eq, Structural)]
pub struct Compaction {
    /// The structure to compact.
    pub original: AccelerationStructure,
    /// Where the compaction stands.
    pub stage: CompactionStage,
}

/// What came of an action.
#[derive(Debug)]
pub enum CompactionEvent {
    /// What came of reading the compacted size.
    Measured(Result<u64, Error>),
    /// What came of allocating a buffer.
    Allocated(Result<DeviceBuffer, Error>),
    /// What came of creating the structure: its handle.
    Created(Result<u64, VkResult>),
    /// What came of copying: the device address of the compacted structure.
    Copied(Result<u64, Error>),
}

/// What is to be done next.
#[derive(Debug)]
pub enum CompactionAction {
    /// Allocate a buffer.
    Allocate(BufferInfo),
    /// Create the compacted structure.
    Create {
        /// The buffer that it lies in.
        buffer: u64,
        /// Its size.
        size: u64,
        /// Its type.
        ty: i32,
    },
    /// Copy the structure, and wait for the device.
    Copy {
        /// The structure.
        src: u64,
        /// The compacted structure.
        dst: u64,
        /// Copy mode.
        mode: i32,
    },
    /// The structure stays as it is.
    Keep(AccelerationStructure),
    /// The structure has been compacted; the old one is to be destroyed.
    Replace {
        /// The compacted structure.
        compacted: AccelerationStructure,
        /// The old one.
        destroyed: u64,
    },
    /// The compaction failed.
    Fail(Error),
}

impl Compaction {
    /// The compaction is waiting for what this event says.
    pub open spec fn accepts(self, event: CompactionEvent) -> bool {
        match (self.stage, event) {
            (CompactionStage::Measuring, CompactionEvent::Measured(_)) => true,
            (CompactionStage::Storage { .. }, CompactionEvent::Allocated(_)) => true,
            (CompactionStage::Handle { .. }, CompactionEvent::Created(_)) => true,
            (CompactionStage::Copying { .. }, CompactionEvent::Copied(_)) => true,
            _ => false,
        }
    }

    /// Compaction to this size makes the structure smaller.
    pub open spec fn shrinks(self, size: u64) -> bool {
        0 < size < self.original.buffer.size
    }

    /// Where the compaction stands after an event, and what is to be done next.
    pub open spec fn next(self, event: CompactionEvent) -> (CompactionStage, CompactionAction) {
        match (self.stage, event) {
            (CompactionStage::Measuring, CompactionEvent::Measured(Ok(size))) => {
                if self.shrinks(size) {
                    (
                        CompactionStage::Storage { size },
                        CompactionAction::Allocate(storage_info(size)),
                    )
                } else {
                    (CompactionStage::Ended, CompactionAction::Keep(self.original))
                }
            },
            (CompactionStage::Storage { size }, CompactionEvent::Allocated(Ok(buffer))) => (
                CompactionStage::Handle { buffer },
                CompactionAction::Create { buffer: buffer.handle, size, ty: BOTTOM_LEVEL },
            ),
            (CompactionStage::Handle { buffer }, CompactionEvent::Created(Ok(handle))) => (
                CompactionStage::Copying { buffer, handle },
                CompactionAction::Copy {
                    src: self.original.handle,
                    dst: handle,
                    mode: MODE_COMPACT,
                },
            ),
            (
                CompactionStage::Copying { buffer, handle },
                CompactionEvent::Copied(Ok(device_address)),
            ) => (
                CompactionStage::Ended,
                CompactionAction::Replace {
                    compacted: AccelerationStructure {
                        handle,
                        buffer,
                        device_address,
                        ty: BOTTOM_LEVEL,
                        residue: None,
                    },
                    destroyed: self.original.handle,
                },
            ),
            (_, CompactionEvent::Measured(Err(e))) => (
                CompactionStage::Ended,
                CompactionAction::Fail(e),
            ),
            (_, CompactionEvent::Allocated(Err(e))) => (
                CompactionStage::Ended,
                CompactionAction::Fail(e),
            ),
            (_, CompactionEvent::Created(Err(code))) => (
                CompactionStage::Ended,
                CompactionAction::Fail(Error::Vulkan(code)),
            ),
            (_, CompactionEvent::Copied(Err(e))) => (
                CompactionStage::Ended,
                CompactionAction::Fail(e),
            ),
            _ => (CompactionStage::Ended, CompactionAction::Keep(self.original)),
        }
    }

    /// A compaction that has yet to read the compacted size.
    pub fn new(original: AccelerationStructure) -> (r: Compaction)
        ensures
            r == (Compaction { original, stage: CompactionStage::Measuring }),
    {
        Compaction { original, stage: CompactionStage::Measuring }
    }

    /// Takes a step.
    pub fn step(&mut self, event: CompactionEvent) -> (r: CompactionAction)
        requires
            old(self).accepts(event),
        ensures
            r == old(self).next(event).1,
            *final(self) == (Compaction { stage: old(self).next(event).0, ..*old(self) }),
    {
        let stage: CompactionStage = self.stage;
        self.stage = CompactionStage::Ended;
        match event {
            CompactionEvent::Measured(Ok(size)) => {
                if size == 0 || size >= self.original.buffer.size {
                    CompactionAction::Keep(self.original)
                } else {
                    self.stage = CompactionStage::Storage { size };
                    CompactionAction::Allocate(storage_buffer(size))
                }
            },
            CompactionEvent::Measured(Err(e)) => CompactionAction::Fail(e),
            CompactionEvent::Allocated(Ok(buffer)) => match stage {
                CompactionStage::Storage { size } => {
                    self.stage = CompactionStage::Handle { buffer };
                    CompactionAction::Create { buffer: buffer.handle, size, ty: BOTTOM_LEVEL }
                },
                _ => CompactionAction::Keep(self.original),
            },
            CompactionEvent::Allocated(Err(e)) => CompactionAction::Fail(e),
            CompactionEvent::Created(Ok(handle)) => match stage {
                CompactionStage::Handle { buffer } => {
                    self.stage = CompactionStage::Copying { buffer, handle };
                    CompactionAction::Copy {
                        src: self.original.handle,
                        dst: handle,
                        mode: MODE_COMPACT,
                    }
                },
                _ => CompactionAction::Keep(self.original),
            },
            CompactionEvent::Created(Err(code)) => CompactionAction::Fail(Error::Vulkan(code)),
            CompactionEvent::Copied(Ok(device_address)) => match stage {
                CompactionStage::Copying { buffer, handle } => CompactionAction::Replace {
                    compacted: AccelerationStructure {
                        handle,
                        buffer,
                        device_address,
                        ty: BOTTOM_LEVEL,
                        residue: None,
                    },
                    destroyed: self.original.handle,
                },
                _ => CompactionAction::Keep(self.original),
            },
            CompactionEvent::Copied(Err(e)) => CompactionAction::Fail(e),
        }
    }
}

/// A structure that compaction does not make smaller is kept.
pub proof fn law_structure_that_does_not_shrink_is_kept(c: Compaction, size: u64)
    requires
        c.stage == CompactionStage::Measuring,
        size == 0 || size >= c.original.buffer.size,
    ensures
        c.next(CompactionEvent::Measured(Ok(size))) == (
            CompactionStage::Ended,
            CompactionAction::Keep(c.original),
        ),
{
}

} // verus!
