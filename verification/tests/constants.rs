//! Numbers that the Vulkan headers assign.

use ash::vk;
use ignis::device;
use ignis::pipeline::{accel_struct, bindless, builders, descriptor, renderpass};
use ignis::vulkan;

#[test]
fn flags_are_those_of_the_headers() {
    assert_eq!(vulkan::QUEUE_GRAPHICS, vk::QueueFlags::GRAPHICS.as_raw());
    assert_eq!(vulkan::QUEUE_COMPUTE, vk::QueueFlags::COMPUTE.as_raw());
    assert_eq!(vulkan::QUEUE_TRANSFER, vk::QueueFlags::TRANSFER.as_raw());
    assert_eq!(vulkan::MEMORY_DEVICE_LOCAL, vk::MemoryPropertyFlags::DEVICE_LOCAL.as_raw());
    assert_eq!(vulkan::MEMORY_HOST_VISIBLE, vk::MemoryPropertyFlags::HOST_VISIBLE.as_raw());
    assert_eq!(vulkan::MEMORY_HOST_COHERENT, vk::MemoryPropertyFlags::HOST_COHERENT.as_raw());
    assert_eq!(vulkan::BUFFER_USAGE_TRANSFER_SRC, vk::BufferUsageFlags::TRANSFER_SRC.as_raw());
    assert_eq!(vulkan::BUFFER_USAGE_TRANSFER_DST, vk::BufferUsageFlags::TRANSFER_DST.as_raw());
    assert_eq!(vulkan::BUFFER_USAGE_UNIFORM, vk::BufferUsageFlags::UNIFORM_BUFFER.as_raw());
    assert_eq!(vulkan::BUFFER_USAGE_STORAGE, vk::BufferUsageFlags::STORAGE_BUFFER.as_raw());
    assert_eq!(vulkan::BUFFER_USAGE_INDEX, vk::BufferUsageFlags::INDEX_BUFFER.as_raw());
    assert_eq!(vulkan::BUFFER_USAGE_VERTEX, vk::BufferUsageFlags::VERTEX_BUFFER.as_raw());
    assert_eq!(vulkan::IMAGE_USAGE_SAMPLED, vk::ImageUsageFlags::SAMPLED.as_raw());
    assert_eq!(vulkan::IMAGE_USAGE_TRANSFER_DST, vk::ImageUsageFlags::TRANSFER_DST.as_raw());
    assert_eq!(
        vulkan::IMAGE_USAGE_COLOR_ATTACHMENT,
        vk::ImageUsageFlags::COLOR_ATTACHMENT.as_raw()
    );
    assert_eq!(
        vulkan::IMAGE_USAGE_DEPTH_STENCIL,
        vk::ImageUsageFlags::DEPTH_STENCIL_ATTACHMENT.as_raw()
    );
    assert_eq!(vulkan::SAMPLES_1, vk::SampleCountFlags::TYPE_1.as_raw());
    assert_eq!(vulkan::ACCESS_TRANSFER_WRITE, vk::AccessFlags::TRANSFER_WRITE.as_raw());
    assert_eq!(vulkan::STAGE_TOP_OF_PIPE, vk::PipelineStageFlags::TOP_OF_PIPE.as_raw());
    assert_eq!(vulkan::STAGE_TRANSFER, vk::PipelineStageFlags::TRANSFER.as_raw());
    assert_eq!(vulkan::STAGE_BOTTOM_OF_PIPE, vk::PipelineStageFlags::BOTTOM_OF_PIPE.as_raw());
}

#[test]
fn enumerants_are_those_of_the_headers() {
    assert_eq!(vulkan::SHARING_EXCLUSIVE, vk::SharingMode::EXCLUSIVE.as_raw());
    assert_eq!(vulkan::IMAGE_TYPE_2D, vk::ImageType::TYPE_2D.as_raw());
    assert_eq!(vulkan::VIEW_TYPE_2D, vk::ImageViewType::TYPE_2D.as_raw());
    assert_eq!(vulkan::VIEW_TYPE_2D_ARRAY, vk::ImageViewType::TYPE_2D_ARRAY.as_raw());
    assert_eq!(vulkan::TILING_OPTIMAL, vk::ImageTiling::OPTIMAL.as_raw());
    assert_eq!(vulkan::PRESENT_MODE_FIFO, vk::PresentModeKHR::FIFO.as_raw());
    assert_eq!(vulkan::LAYOUT_UNDEFINED, vk::ImageLayout::UNDEFINED.as_raw());
    assert_eq!(vulkan::LAYOUT_TRANSFER_DST, vk::ImageLayout::TRANSFER_DST_OPTIMAL.as_raw());
    assert_eq!(vulkan::LAYOUT_PRESENT_SRC, vk::ImageLayout::PRESENT_SRC_KHR.as_raw());
    assert_eq!(device::API_VERSION_1_2, vk::API_VERSION_1_2);
    assert_eq!(
        device::TYPE_INTEGRATED_GPU,
        vk::PhysicalDeviceType::INTEGRATED_GPU.as_raw()
    );
    assert_eq!(device::TYPE_DISCRETE_GPU, vk::PhysicalDeviceType::DISCRETE_GPU.as_raw());
    assert_eq!(device::TYPE_VIRTUAL_GPU, vk::PhysicalDeviceType::VIRTUAL_GPU.as_raw());
    assert_eq!(device::TYPE_CPU, vk::PhysicalDeviceType::CPU.as_raw());
    assert_eq!(ignis::queue::RESULT_TIMEOUT, vk::Result::TIMEOUT.as_raw());
}

#[test]
fn pipeline_numbers_are_those_of_the_headers() {
    assert_eq!(
        builders::TOPOLOGY_TRIANGLE_LIST,
        vk::PrimitiveTopology::TRIANGLE_LIST.as_raw()
    );
    assert_eq!(builders::POLYGON_FILL, vk::PolygonMode::FILL.as_raw());
    assert_eq!(builders::CULL_BACK, vk::CullModeFlags::BACK.as_raw());
    assert_eq!(
        builders::FRONT_COUNTER_CLOCKWISE,
        vk::FrontFace::COUNTER_CLOCKWISE.as_raw()
    );
    assert_eq!(builders::COMPARE_LESS, vk::CompareOp::LESS.as_raw());
    assert_eq!(builders::COMPONENTS_RGBA, vk::ColorComponentFlags::RGBA.as_raw());
    assert_eq!(builders::DYNAMIC_VIEWPORT, vk::DynamicState::VIEWPORT.as_raw());
    assert_eq!(builders::DYNAMIC_SCISSOR, vk::DynamicState::SCISSOR.as_raw());
    assert_eq!(builders::STAGE_COMPUTE, vk::ShaderStageFlags::COMPUTE.as_raw());
    assert_eq!(builders::SHADER_UNUSED, vk::SHADER_UNUSED_KHR);
    assert_eq!(renderpass::LOAD_CLEAR, vk::AttachmentLoadOp::CLEAR.as_raw());
    assert_eq!(renderpass::LOAD_DONT_CARE, vk::AttachmentLoadOp::DONT_CARE.as_raw());
    assert_eq!(renderpass::STORE_STORE, vk::AttachmentStoreOp::STORE.as_raw());
    assert_eq!(renderpass::STORE_DONT_CARE, vk::AttachmentStoreOp::DONT_CARE.as_raw());
    assert_eq!(
        renderpass::LAYOUT_COLOR_ATTACHMENT,
        vk::ImageLayout::COLOR_ATTACHMENT_OPTIMAL.as_raw()
    );
    assert_eq!(renderpass::BIND_POINT_GRAPHICS, vk::PipelineBindPoint::GRAPHICS.as_raw());
    assert_eq!(
        descriptor::POOL_FREE_DESCRIPTOR_SET,
        vk::DescriptorPoolCreateFlags::FREE_DESCRIPTOR_SET.as_raw()
    );
    assert_eq!(
        descriptor::OUT_OF_POOL_MEMORY,
        vk::Result::ERROR_OUT_OF_POOL_MEMORY.as_raw()
    );
    assert_eq!(descriptor::FRAGMENTED_POOL, vk::Result::ERROR_FRAGMENTED_POOL.as_raw());
    assert_eq!(bindless::TYPE_SAMPLER, vk::DescriptorType::SAMPLER.as_raw());
    assert_eq!(bindless::TYPE_SAMPLED_IMAGE, vk::DescriptorType::SAMPLED_IMAGE.as_raw());
    assert_eq!(bindless::TYPE_STORAGE_IMAGE, vk::DescriptorType::STORAGE_IMAGE.as_raw());
    assert_eq!(bindless::TYPE_STORAGE_BUFFER, vk::DescriptorType::STORAGE_BUFFER.as_raw());
    assert_eq!(bindless::STAGE_ALL, vk::ShaderStageFlags::ALL.as_raw());
    assert_eq!(bindless::LAYOUT_GENERAL, vk::ImageLayout::GENERAL.as_raw());
    assert_eq!(
        bindless::UPDATE_AFTER_BIND,
        vk::DescriptorPoolCreateFlags::UPDATE_AFTER_BIND.as_raw()
    );
    assert_eq!(
        bindless::BINDING_FLAGS,
        (vk::DescriptorBindingFlags::PARTIALLY_BOUND
            | vk::DescriptorBindingFlags::UPDATE_AFTER_BIND
            | vk::DescriptorBindingFlags::UPDATE_UNUSED_WHILE_PENDING)
            .as_raw()
    );
}

#[test]
fn ray_tracing_numbers_are_those_of_the_headers() {
    assert_eq!(
        accel_struct::USAGE_DEVICE_ADDRESS,
        vk::BufferUsageFlags::SHADER_DEVICE_ADDRESS.as_raw()
    );
    assert_eq!(
        accel_struct::USAGE_BUILD_INPUT,
        vk::BufferUsageFlags::ACCELERATION_STRUCTURE_BUILD_INPUT_READ_ONLY_KHR.as_raw()
    );
    assert_eq!(
        accel_struct::USAGE_STRUCTURE_STORAGE,
        vk::BufferUsageFlags::ACCELERATION_STRUCTURE_STORAGE_KHR.as_raw()
    );
    assert_eq!(accel_struct::INDEX_TYPE_NONE, vk::IndexType::NONE_KHR.as_raw());
    assert_eq!(
        accel_struct::TOP_LEVEL,
        vk::AccelerationStructureTypeKHR::TOP_LEVEL.as_raw()
    );
    assert_eq!(
        accel_struct::BOTTOM_LEVEL,
        vk::AccelerationStructureTypeKHR::BOTTOM_LEVEL.as_raw()
    );
    assert_eq!(
        accel_struct::ALLOW_COMPACTION,
        vk::BuildAccelerationStructureFlagsKHR::ALLOW_COMPACTION.as_raw()
    );
    assert_eq!(
        accel_struct::PREFER_FAST_TRACE,
        vk::BuildAccelerationStructureFlagsKHR::PREFER_FAST_TRACE.as_raw()
    );
    assert_eq!(
        accel_struct::MODE_BUILD,
        vk::BuildAccelerationStructureModeKHR::BUILD.as_raw()
    );
    assert_eq!(
        accel_struct::MODE_COMPACT,
        vk::CopyAccelerationStructureModeKHR::COMPACT.as_raw()
    );
    assert_eq!(accel_struct::GEOMETRY_TRIANGLES, vk::GeometryTypeKHR::TRIANGLES.as_raw());
    assert_eq!(accel_struct::GEOMETRY_AABBS, vk::GeometryTypeKHR::AABBS.as_raw());
    assert_eq!(accel_struct::GEOMETRY_INSTANCES, vk::GeometryTypeKHR::INSTANCES.as_raw());
    assert_eq!(accel_struct::GEOMETRY_OPAQUE, vk::GeometryFlagsKHR::OPAQUE.as_raw());
    for (i, group) in [
        vk::RayTracingShaderGroupTypeKHR::GENERAL,
        vk::RayTracingShaderGroupTypeKHR::TRIANGLES_HIT_GROUP,
        vk::RayTracingShaderGroupTypeKHR::PROCEDURAL_HIT_GROUP,
    ]
    .into_iter()
    .enumerate()
    {
        assert_eq!(group.as_raw(), i as i32);
    }
}
