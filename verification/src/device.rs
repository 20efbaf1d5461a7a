//! Device management: what is asked of the driver when an instance and a device are made, and
//! how a physical device and its queue families are chosen.
//!
//! The driver calls are made by the caller, in the order of the functions here.

use crate::api_version;
use crate::error::Error;
use crate::queue::QueueType;
use crate::text;
use crate::vulkan;
use vstd::prelude::*;

verus! {

/// `VK_API_VERSION_1_2`.
pub const API_VERSION_1_2: u32 = 4202496;

/// Ray tracing properties of a device.
#[derive(Debug, Clone, Copy, PartialEq, Eq, Structural)]
pub struct RayTracingProperties {
    /// Bytes of a shader group handle.
    pub shader_group_handle_size: u32,
    /// Greatest recursion depth.
    pub max_ray_recursion_depth: u32,
    /// Alignment of handles in a shader binding table.
    pub shader_group_handle_alignment: u32,
    /// Alignment of the regions of a shader binding table.
    pub shader_group_base_alignment: u32,
    /// Greatest stride between handles.
    pub max_shader_group_stride: u32,
}

/// Configuration of a device that this library creates and owns.
#[derive(Debug)]
pub struct ManagedConfig {
    /// Application name reported to the driver.
    pub app_name: String,
    /// Application version.
    pub app_version: u32,
    /// Minimum API version.
    pub vulkan_version: u32,
    /// Whether to enable the validation layer.
    pub validation: bool,
    /// Whether to enable ray tracing.
    pub raytracing: bool,
    /// Further instance extensions.
    pub instance_extensions: Vec<String>,
    /// Further device extensions.
    pub device_extensions: Vec<String>,
}

/// The texts of a list.
pub open spec fn texts(v: Seq<String>) -> Seq<Seq<char>> {
    v.map_values(|s: String| s@)
}

impl ManagedConfig {
    /// A configuration without validation, ray tracing or further extensions. A name that a C
    /// string cannot hold, because it has a zero character, is replaced by `ignis`.
    pub fn new(app_name: &str, vulkan_version: u32) -> (r: ManagedConfig)
        ensures
            r.app_name@ == if app_name@.contains('\0') { "ignis"@ } else { app_name@ },
            r.app_version == 0x40_0000,
            r.vulkan_version == vulkan_version,
            !r.validation,
            !r.raytracing,
            r.instance_extensions@.len() == 0,
            r.device_extensions@.len() == 0,
    {
        let app_version: u32 = ash::vk::make_api_version(0, 1, 0, 0);
        assert((0u32 << 29u32) | (1u32 << 22u32) | (0u32 << 12u32) | 0u32 == 0x40_0000u32)
            by (bit_vector);
        ManagedConfig {
            app_name: if has_zero(app_name) {
                "ignis".to_owned()
            } else {
                app_name.to_owned()
            },
            app_version,
            vulkan_version,
            validation: false,
            raytracing: false,
            instance_extensions: Vec::new(),
            device_extensions: Vec::new(),
        }
    }

    /// Sets the application version.
    pub fn app_version(self, version: u32) -> (r: ManagedConfig)
        ensures
            r == (ManagedConfig { app_version: version, ..self }),
    {
        ManagedConfig { app_version: version, ..self }
    }

    /// Enables or disables the validation layer.
    pub fn enable_validation(self, enable: bool) -> (r: ManagedConfig)
        ensures
            r == (ManagedConfig { validation: enable, ..self }),
    {
        ManagedConfig { validation: enable, ..self }
    }

    /// Enables or disables ray tracing.
    pub fn enable_raytracing(self, enable: bool) -> (r: ManagedConfig)
        ensures
            r == (ManagedConfig { raytracing: enable, ..self }),
    {
        ManagedConfig { raytracing: enable, ..self }
    }

    /// The configurations agree in everything but their lists of extensions.
    pub open spec fn same_but_extensions(self, other: ManagedConfig) -> bool {
        &&& other.app_name == self.app_name
        &&& other.app_version == self.app_version
        &&& other.vulkan_version == self.vulkan_version
        &&& other.validation == self.validation
        &&& other.raytracing == self.raytracing
    }

    /// Adds an instance extension.
    pub fn instance_extension(self, name: &str) -> (r: ManagedConfig)
        ensures
            self.same_but_extensions(r),
            texts(r.instance_extensions@) == texts(self.instance_extensions@).push(name@),
            r.device_extensions == self.device_extensions,
    {
        let ghost before = self.instance_extensions@;
        let mut c: ManagedConfig = self;
        c.instance_extensions.push(name.to_owned());
        assert(texts(c.instance_extensions@) =~= texts(before).push(name@));
        c
    }

    /// Adds a device extension.
    pub fn device_extension(self, name: &str) -> (r: ManagedConfig)
        ensures
            self.same_but_extensions(r),
            texts(r.device_extensions@) == texts(self.device_extensions@).push(name@),
            r.instance_extensions == self.instance_extensions,
    {
        let ghost before = self.device_extensions@;
        let mut c: ManagedConfig = self;
        c.device_extensions.push(name.to_owned());
        assert(texts(c.device_extensions@) =~= texts(before).push(name@));
        c
    }
}

/// Whether a text has a zero character.
fn has_zero(t: &str) -> (r: bool)
    ensures
        r == t@.contains('\0'),
{
    let chars: Vec<char> = text::characters(t);
    let mut i: usize = 0;
    while i < chars.len()
        invariant
            i <= chars@.len(),
            chars@ == t@,
            forall|j: int| 0 <= j < i ==> chars@[j] != '\0',
        decreases chars@.len() - i,
    {
        if chars[i] == '\0' {
            assert(t@[i as int] == '\0');
            return true;
        }
        i = i + 1;
    }
    false
}

/// What an instance is created with.
#[derive(Debug)]
pub struct InstancePlan {
    /// Application name.
    pub app_name: String,
    /// Application version.
    pub app_version: u32,
    /// Engine name.
    pub engine_name: &'static str,
    /// Engine version.
    pub engine_version: u32,
    /// API version.
    pub api_version: u32,
    /// Layers.
    pub layers: Vec<String>,
    /// Extensions.
    pub extensions: Vec<String>,
}

/// Appends copies of texts.
fn push_texts(out: &mut Vec<String>, from: &Vec<String>)
    ensures
        texts(final(out)@) == texts(old(out)@) + texts(from@),
{
    let mut i: usize = 0;
    assert(texts(out@) =~= texts(old(out)@) + texts(from@.take(0)));
    while i < from.len()
        invariant
            i <= from@.len(),
            texts(out@) == texts(old(out)@) + texts(from@.take(i as int)),
        decreases from@.len() - i,
    {
        let ghost before = out@;
        out.push(from[i].as_str().to_owned());
        assert(texts(out@) =~= texts(before).push(from@[i as int]@));
        assert(texts(from@.take(i + 1)) =~= texts(from@.take(i as int)).push(from@[i as int]@));
        i = i + 1;
    }
    assert(from@.take(i as int) =~= from@);
}

/// Appends a text.
fn push_text(out: &mut Vec<String>, t: &str)
    ensures
        texts(final(out)@) == texts(old(out)@).push(t@),
{
    let ghost before = out@;
    out.push(t.to_owned());
    assert(texts(out@) =~= texts(before).push(t@));
}

/// What the instance of a configuration is created with. `platform` are the extensions that the
/// platform needs on top.
pub fn instance_plan(config: &ManagedConfig, platform: &Vec<String>) -> (r: InstancePlan)
    ensures
        r.app_name@ == config.app_name@,
        r.app_version == config.app_version,
        r.engine_name@ == "Ignis"@,
        r.engine_version == 0x1000,
        r.api_version == config.vulkan_version,
        texts(r.layers@) == if config.validation {
            seq!["VK_LAYER_KHRONOS_validation"@]
        } else {
            seq![]
        },
        texts(r.extensions@) == texts(config.instance_extensions@) + texts(platform@),
{
    let engine_version: u32 = ash::vk::make_api_version(0, 0, 1, 0);
    assert((0u32 << 29u32) | (0u32 << 22u32) | (1u32 << 12u32) | 0u32 == 0x1000u32) by (bit_vector);
    let mut layers: Vec<String> = Vec::new();
    assert(texts(layers@) =~= seq![]);
    if config.validation {
        push_text(&mut layers, "VK_LAYER_KHRONOS_validation");
        assert(texts(layers@) =~= seq!["VK_LAYER_KHRONOS_validation"@]);
    }
    let mut extensions: Vec<String> = Vec::new();
    push_texts(&mut extensions, &config.instance_extensions);
    assert(texts(extensions@) =~= texts(config.instance_extensions@));
    push_texts(&mut extensions, platform);
    InstancePlan {
        app_name: config.app_name.as_str().to_owned(),
        app_version: config.app_version,
        engine_name: "Ignis",
        engine_version,
        api_version: config.vulkan_version,
        layers,
        extensions,
    }
}

/// `VK_PHYSICAL_DEVICE_TYPE_INTEGRATED_GPU`.
pub const TYPE_INTEGRATED_GPU: i32 = 1;

/// `VK_PHYSICAL_DEVICE_TYPE_DISCRETE_GPU`.
pub const TYPE_DISCRETE_GPU: i32 = 2;

/// `VK_PHYSICAL_DEVICE_TYPE_VIRTUAL_GPU`.
pub const TYPE_VIRTUAL_GPU: i32 = 3;

/// `VK_PHYSICAL_DEVICE_TYPE_CPU`.
pub const TYPE_CPU: i32 = 4;

/// What is known of a physical device when one is chosen.
#[derive(Debug, Clone)]
pub struct PhysicalDeviceInfo {
    /// Handle of the device.
    pub handle: u64,
    /// Type of the device.
    pub device_type: i32,
    /// Bytes of memory that is local to the device.
    pub local_memory: u64,
    /// Capability flags of the queue families.
    pub queue_families: Vec<u32>,
}

/// `VK_MEMORY_HEAP_DEVICE_LOCAL_BIT`.
pub const HEAP_DEVICE_LOCAL: u32 = 1;

/// A memory heap of a device.
#[derive(Debug, Clone, Copy, PartialEq, Eq, Structural)]
pub struct MemoryHeap {
    /// Size in bytes.
    pub size: u64,
    /// Flags of the heap.
    pub flags: u32,
}

/// The bytes of all heaps that are local to the device.
pub open spec fn local_bytes(heaps: Seq<MemoryHeap>) -> int
    decreases heaps.len(),
{
    if heaps.len() == 0 {
        0
    } else {
        local_bytes(heaps.drop_last()) + if vulkan::has_flags(
            heaps.last().flags,
            HEAP_DEVICE_LOCAL,
        ) {
            heaps.last().size as int
        } else {
            0
        }
    }
}

/// The bytes of all heaps that are local to the device, cut off at what the number can hold.
pub fn local_memory(heaps: &Vec<MemoryHeap>) -> (r: u64)
    ensures
        r == if local_bytes(heaps@) > u64::MAX {
            u64::MAX as int
        } else {
            local_bytes(heaps@)
        },
{
    let mut sum: u64 = 0;
    let mut i: usize = 0;
    while i < heaps.len()
        invariant
            i <= heaps@.len(),
            sum == if local_bytes(heaps@.take(i as int)) > u64::MAX {
                u64::MAX as int
            } else {
                local_bytes(heaps@.take(i as int))
            },
        decreases heaps@.len() - i,
    {
        assert(heaps@.take(i + 1).drop_last() =~= heaps@.take(i as int));
        if vulkan::contains_flags(heaps[i].flags, HEAP_DEVICE_LOCAL) {
            sum = sum.saturating_add(heaps[i].size);
        }
        i = i + 1;
    }
    assert(heaps@.take(i as int) =~= heaps@);
    sum
}

/// How much a type of device is preferred.
pub open spec fn type_score(device_type: i32) -> int {
    if device_type == TYPE_DISCRETE_GPU {
        2
    } else if device_type == TYPE_INTEGRATED_GPU {
        1
    } else {
        0
    }
}

/// Device `a` is not preferred to device `b`: its type is preferred less, or as much and it has no
/// more local memory.
pub open spec fn not_better(a: PhysicalDeviceInfo, b: PhysicalDeviceInfo) -> bool {
    ||| type_score(a.device_type) < type_score(b.device_type)
    ||| type_score(a.device_type) == type_score(b.device_type) && a.local_memory <= b.local_memory
}

/// Device `i` is the one to choose: none is better, and all that come after it are worse.
pub open spec fn is_best(devices: Seq<PhysicalDeviceInfo>, i: int) -> bool {
    &&& 0 <= i < devices.len()
    &&& forall|j: int| 0 <= j < devices.len() ==> not_better(#[trigger] devices[j], devices[i])
    &&& forall|j: int| i < j < devices.len() ==> !not_better(devices[i], #[trigger] devices[j])
}

fn score_of(device_type: i32) -> (r: u8)
    ensures
        r == type_score(device_type),
{
    if device_type == TYPE_DISCRETE_GPU {
        2
    } else if device_type == TYPE_INTEGRATED_GPU {
        1
    } else {
        0
    }
}

/// The device that is preferred: a discrete one before an integrated one before any other, then
/// the one with the most local memory, then the last. It is 0 where there is no device.
pub fn default_device_score(devices: &Vec<PhysicalDeviceInfo>) -> (r: usize)
    ensures
        devices@.len() == 0 ==> r == 0,
        devices@.len() > 0 ==> is_best(devices@, r as int),
{
    let mut best: usize = 0;
    let mut i: usize = 1;
    while i < devices.len()
        invariant
            1 <= i,
            devices@.len() > 0 ==> i <= devices@.len(),
            devices@.len() > 0 ==> is_best(devices@.take(i as int), best as int),
            devices@.len() == 0 ==> best == 0,
        decreases devices@.len() - i,
    {
        let a: u8 = score_of(devices[i].device_type);
        let b: u8 = score_of(devices[best].device_type);
        let ghost before = devices@.take(i as int);
        let ghost after = devices@.take(i + 1);
        assert(after =~= before.push(devices@[i as int]));
        if a > b || (a == b && devices[i].local_memory >= devices[best].local_memory) {
            proof {
                assert forall|j: int| 0 <= j < after.len() implies not_better(
                    #[trigger] after[j],
                    after[i as int],
                ) by {
                    if j < i {
                        assert(not_better(before[j], before[best as int]));
                    }
                }
            }
            best = i;
        } else {
            proof {
                assert forall|j: int| 0 <= j < after.len() implies not_better(
                    #[trigger] after[j],
                    after[best as int],
                ) by {
                    if j < i {
                        assert(not_better(before[j], before[best as int]));
                    }
                }
                assert forall|j: int| best < j < after.len() implies !not_better(
                    after[best as int],
                    #[trigger] after[j],
                ) by {
                    if j < i {
                        assert(!not_better(before[best as int], before[j]));
                    }
                }
            }
        }
        i = i + 1;
    }
    proof {
        if devices@.len() > 0 {
            assert(devices@.take(i as int) =~= devices@);
        }
    }
    best
}

/// Chooses a physical device. `selected` is the index that a selector of the application gave.
pub fn choose_device(devices: &Vec<PhysicalDeviceInfo>, selected: Option<usize>) -> (r: Result<
    usize,
    Error,
>)
    requires
        selected matches Some(k) ==> devices@.len() == 0 || k < devices@.len(),
    ensures
        r is Err <==> devices@.len() == 0,
        r matches Err(e) ==> e is NoSuitableDevice,
        r matches Ok(i) ==> i < devices@.len() && match selected {
            Some(k) => i == k,
            None => is_best(devices@, i as int),
        },
{
    if devices.len() == 0 {
        return Err(Error::NoSuitableDevice);
    }
    match selected {
        Some(k) => Ok(k),
        None => Ok(default_device_score(devices)),
    }
}

/// A family has flags and lacks others.
pub open spec fn family_fits(flags: u32, wanted: u32, without: u32) -> bool {
    vulkan::has_flags(flags, wanted) && flags & without == 0
}

/// `i` is the first family that fits.
pub open spec fn is_first_fit(families: Seq<u32>, wanted: u32, without: u32, i: int) -> bool {
    &&& 0 <= i < families.len()
    &&& family_fits(families[i], wanted, without)
    &&& forall|j: int| 0 <= j < i ==> !family_fits(#[trigger] families[j], wanted, without)
}

/// Some family fits.
pub open spec fn any_fit(families: Seq<u32>, wanted: u32, without: u32) -> bool {
    exists|i: int|
        0 <= i < families.len() && family_fits(#[trigger] families[i], wanted, without)
}

fn first_fit(families: &Vec<u32>, wanted: u32, without: u32) -> (r: Option<u32>)
    requires
        families@.len() <= u32::MAX,
    ensures
        match r {
            Some(i) => is_first_fit(families@, wanted, without, i as int),
            None => !any_fit(families@, wanted, without),
        },
{
    let mut i: usize = 0;
    while i < families.len()
        invariant
            i <= families@.len() <= u32::MAX,
            forall|j: int| 0 <= j < i ==> !family_fits(#[trigger] families@[j], wanted, without),
        decreases families@.len() - i,
    {
        if vulkan::contains_flags(families[i], wanted) && families[i] & without == 0 {
            return Some(i as u32);
        }
        i = i + 1;
    }
    None
}

/// The queue families of a device.
#[derive(Debug, Clone, Copy, PartialEq, Eq, Structural)]
pub struct QueueFamilies {
    /// For graphics.
    pub graphics: u32,
    /// For compute work.
    pub compute: u32,
    /// For transfers.
    pub transfer: u32,
}

/// A family that fits if there is one, else a fallback.
pub open spec fn is_fit_or(
    families: Seq<u32>,
    wanted: u32,
    without: u32,
    fallback: u32,
    i: u32,
) -> bool {
    if any_fit(families, wanted, without) {
        is_first_fit(families, wanted, without, i as int)
    } else {
        i == fallback
    }
}

/// Chooses queue families: the first with graphics; for compute work the first without graphics,
/// and for transfers the first with neither graphics nor compute, where there is one, else that
/// for graphics.
pub fn choose_families(families: &Vec<u32>) -> (r: Result<QueueFamilies, Error>)
    requires
        families@.len() <= u32::MAX,
    ensures
        r is Ok <==> any_fit(families@, vulkan::QUEUE_GRAPHICS, 0),
        r matches Err(e) ==> e == Error::NoSuitableQueueFamily(QueueType::Graphics),
        r matches Ok(f) ==> {
            &&& is_first_fit(families@, vulkan::QUEUE_GRAPHICS, 0, f.graphics as int)
            &&& is_fit_or(
                families@,
                vulkan::QUEUE_COMPUTE,
                vulkan::QUEUE_GRAPHICS,
                f.graphics,
                f.compute,
            )
            &&& is_fit_or(
                families@,
                vulkan::QUEUE_TRANSFER,
                vulkan::QUEUE_GRAPHICS | vulkan::QUEUE_COMPUTE,
                f.graphics,
                f.transfer,
            )
        },
{
    let graphics: u32 = match first_fit(families, vulkan::QUEUE_GRAPHICS, 0) {
        Some(i) => i,
        None => {
            return Err(Error::NoSuitableQueueFamily(QueueType::Graphics));
        },
    };
    let compute: u32 = match first_fit(families, vulkan::QUEUE_COMPUTE, vulkan::QUEUE_GRAPHICS) {
        Some(i) => i,
        None => graphics,
    };
    let transfer: u32 = match first_fit(
        families,
        vulkan::QUEUE_TRANSFER,
        vulkan::QUEUE_GRAPHICS | vulkan::QUEUE_COMPUTE,
    ) {
        Some(i) => i,
        None => graphics,
    };
    Ok(QueueFamilies { graphics, compute, transfer })
}

impl QueueFamilies {
    /// The families without repetition: graphics, compute, transfer.
    pub open spec fn distinct(self) -> Seq<u32> {
        let two = if self.compute == self.graphics {
            seq![self.graphics]
        } else {
            seq![self.graphics, self.compute]
        };
        if self.transfer == self.graphics || self.transfer == self.compute {
            two
        } else {
            two.push(self.transfer)
        }
    }

    /// The families without repetition.
    pub fn unique(&self) -> (r: Vec<u32>)
        ensures
            r@ == self.distinct(),
    {
        let mut r: Vec<u32> = Vec::new();
        r.push(self.graphics);
        if self.compute != self.graphics {
            r.push(self.compute);
        }
        if self.transfer != self.graphics && self.transfer != self.compute {
            r.push(self.transfer);
        }
        assert(r@ =~= self.distinct());
        r
    }
}

/// No family is asked for twice.
pub proof fn law_families_are_asked_for_once(f: QueueFamilies)
    ensures
        f.distinct().no_duplicates(),
        f.distinct().contains(f.graphics),
        f.distinct().contains(f.compute),
        f.distinct().contains(f.transfer),
{
    let d = f.distinct();
    assert(d[0] == f.graphics);
    if f.compute != f.graphics {
        assert(d[1] == f.compute);
    }
    if f.transfer != f.graphics && f.transfer != f.compute {
        assert(d[d.len() - 1] == f.transfer);
    }
}

/// A queue, with what it can do.
#[derive(Debug, Clone, Copy, PartialEq, Eq, Structural)]
pub struct QueueAllocation {
    /// Queue family.
    pub family_index: u32,
    /// Index within the family.
    pub queue_index: u32,
    /// Handle of the queue.
    pub handle: u64,
    /// Capability flags of the family.
    pub capabilities: u32,
}

/// Device features that are switched on.
#[derive(Debug, Clone, Copy, PartialEq, Eq, Structural)]
pub struct DeviceFeatures {
    /// Timeline semaphores.
    pub timeline_semaphore: bool,
    /// Addresses of buffers.
    pub buffer_device_address: bool,
    /// Descriptor indexing.
    pub descriptor_indexing: bool,
    /// Ray tracing pipelines.
    pub ray_tracing_pipeline: bool,
    /// Acceleration structures.
    pub acceleration_structure: bool,
}

/// What a device is created with.
#[derive(Debug)]
pub struct DevicePlan {
    /// Families of which one queue each is asked for.
    pub families: Vec<u32>,
    /// Extensions.
    pub extensions: Vec<String>,
    /// Features.
    pub features: DeviceFeatures,
    /// Whether timeline semaphores are available.
    pub supports_timelines: bool,
}

/// The extensions of ray tracing.
pub open spec fn raytracing_extensions() -> Seq<Seq<char>> {
    seq![
        "VK_KHR_ray_tracing_pipeline"@,
        "VK_KHR_acceleration_structure"@,
        "VK_KHR_deferred_host_operations"@,
    ]
}

fn push_raytracing_extensions(out: &mut Vec<String>)
    ensures
        texts(final(out)@) == texts(old(out)@) + raytracing_extensions(),
{
    push_text(out, "VK_KHR_ray_tracing_pipeline");
    push_text(out, "VK_KHR_acceleration_structure");
    push_text(out, "VK_KHR_deferred_host_operations");
    assert(texts(out@) =~= texts(old(out)@) + raytracing_extensions());
}

/// What the device of a configuration is created with. `families` are the capability flags of the
/// queue families of the chosen device, `platform` the extensions that the platform needs on top.
/// The list names the extensions of ray tracing twice.
pub fn device_plan(config: &ManagedConfig, families: &Vec<u32>, platform: &Vec<String>) -> (r:
    Result<DevicePlan, Error>)
    requires
        families@.len() <= u32::MAX,
    ensures
        r is Ok <==> any_fit(families@, vulkan::QUEUE_GRAPHICS, 0),
        r matches Err(e) ==> e == Error::NoSuitableQueueFamily(QueueType::Graphics),
        r matches Ok(p) ==> {
            &&& exists|f: QueueFamilies|
                p.families@ == #[trigger] f.distinct() && is_first_fit(
                    families@,
                    vulkan::QUEUE_GRAPHICS,
                    0,
                    f.graphics as int,
                ) && is_fit_or(
                    families@,
                    vulkan::QUEUE_COMPUTE,
                    vulkan::QUEUE_GRAPHICS,
                    f.graphics,
                    f.compute,
                ) && is_fit_or(
                    families@,
                    vulkan::QUEUE_TRANSFER,
                    vulkan::QUEUE_GRAPHICS | vulkan::QUEUE_COMPUTE,
                    f.graphics,
                    f.transfer,
                )
            &&& texts(p.extensions@) == texts(config.device_extensions@) + texts(platform@) + (
            if config.raytracing {
                raytracing_extensions() + raytracing_extensions()
            } else {
                seq![]
            })
            &&& p.features == (DeviceFeatures {
                timeline_semaphore: config.vulkan_version >= API_VERSION_1_2,
                buffer_device_address: config.raytracing,
                descriptor_indexing: config.raytracing,
                ray_tracing_pipeline: config.raytracing,
                acceleration_structure: config.raytracing,
            })
            &&& p.supports_timelines == (config.vulkan_version >= API_VERSION_1_2)
        },
{
    let chosen: QueueFamilies = match choose_families(families) {
        Ok(f) => f,
        Err(e) => {
            return Err(e);
        },
    };
    let mut extensions: Vec<String> = Vec::new();
    push_texts(&mut extensions, &config.device_extensions);
    assert(texts(extensions@) =~= texts(config.device_extensions@));
    push_texts(&mut extensions, platform);
    let ghost base = texts(extensions@);
    if config.raytracing {
        push_raytracing_extensions(&mut extensions);
        push_raytracing_extensions(&mut extensions);
        assert(texts(extensions@) =~= base + (raytracing_extensions() + raytracing_extensions()));
    } else {
        assert(texts(extensions@) =~= base + Seq::<Seq<char>>::empty());
    }
    let timelines: bool = config.vulkan_version >= API_VERSION_1_2;
    Ok(
        DevicePlan {
            families: chosen.unique(),
            extensions,
            features: DeviceFeatures {
                timeline_semaphore: timelines,
                buffer_device_address: config.raytracing,
                descriptor_indexing: config.raytracing,
                ray_tracing_pipeline: config.raytracing,
                acceleration_structure: config.raytracing,
            },
            supports_timelines: timelines,
        },
    )
}

/// The queues of a new device: the first of each family that was asked for. `handles` are what
/// the driver gave for the families.
pub fn queue_allocations(plan: &DevicePlan, families: &Vec<u32>, handles: &Vec<u64>) -> (r: Vec<
    QueueAllocation,
>)
    requires
        handles@.len() == plan.families@.len(),
        forall|i: int| 0 <= i < plan.families@.len() ==> (#[trigger] plan.families@[i]) < families@.len(),
    ensures
        r@.len() == plan.families@.len(),
        forall|i: int|
            0 <= i < r@.len() ==> #[trigger] r@[i] == (QueueAllocation {
                family_index: plan.families@[i],
                queue_index: 0,
                handle: handles@[i],
                capabilities: families@[plan.families@[i] as int],
            }),
{
    let mut r: Vec<QueueAllocation> = Vec::new();
    let mut i: usize = 0;
    while i < plan.families.len()
        invariant
            i <= plan.families@.len(),
            handles@.len() == plan.families@.len(),
            forall|j: int|
                0 <= j < plan.families@.len() ==> (#[trigger] plan.families@[j]) < families@.len(),
            r@.len() == i,
            forall|j: int|
                0 <= j < i ==> #[trigger] r@[j] == (QueueAllocation {
                    family_index: plan.families@[j],
                    queue_index: 0,
                    handle: handles@[j],
                    capabilities: families@[plan.families@[j] as int],
                }),
        decreases plan.families@.len() - i,
    {
        let family: u32 = plan.families[i];
        r.push(
            QueueAllocation {
                family_index: family,
                queue_index: 0,
                handle: handles[i],
                capabilities: families[family as usize],
            },
        );
        i = i + 1;
    }
    r
}

/// Takes over a device of another owner. There has to be a queue. Timeline semaphores are
/// available from version 1.2 of the API on; the result says whether they are.
pub fn external_device(allocations: &Vec<QueueAllocation>, version: u32) -> (r: Result<
    bool,
    Error,
>)
    ensures
        r is Err <==> allocations@.len() == 0,
        r matches Err(e) ==> e.is_invalid_config("at least one queue allocation is required"@),
        r matches Ok(timelines) ==> timelines == (api_version::major(version) > 1 || api_version::major(
            version,
        ) == 1 && api_version::minor(version) >= 2),
{
    if allocations.len() == 0 {
        return Err(Error::InvalidConfig("at least one queue allocation is required"));
    }
    let timelines: bool = ash::vk::api_version_major(version) > 1 || (
    ash::vk::api_version_major(version) == 1 && ash::vk::api_version_minor(version) >= 2);
    Ok(timelines)
}

} // verus!
