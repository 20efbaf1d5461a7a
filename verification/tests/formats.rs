//! Pixel formats and sizes.

use ash::vk;
use ignis::format::{
    dispatch_size, dispatch_size_3d, format_aspect_mask, format_block_extent, format_byte_size,
    is_compressed_format, is_depth_format, is_stencil_format, mip_levels_for_size, Format,
};

fn format_of(f: vk::Format) -> Format {
    Format { raw: f.as_raw() }
}

#[test]
fn test_format_byte_size() {
    assert_eq!(format_byte_size(format_of(vk::Format::R8G8B8A8_UNORM)), Some(4));
    assert_eq!(format_byte_size(format_of(vk::Format::R32G32B32A32_SFLOAT)), Some(16));
    assert_eq!(format_byte_size(format_of(vk::Format::D32_SFLOAT)), Some(4));
    assert_eq!(format_byte_size(format_of(vk::Format::R16_SFLOAT)), Some(2));
}

#[test]
fn test_dispatch_size() {
    assert_eq!(dispatch_size(1000, 64), 16);
    assert_eq!(dispatch_size(64, 64), 1);
    assert_eq!(dispatch_size(65, 64), 2);
    assert_eq!(dispatch_size(0, 64), 0);
}

#[test]
fn test_mip_levels() {
    assert_eq!(mip_levels_for_size(256, 256), 9);
    assert_eq!(mip_levels_for_size(1, 1), 1);
    assert_eq!(mip_levels_for_size(1024, 512), 11);
}

#[test]
fn test_aspect_mask() {
    assert_eq!(
        format_aspect_mask(format_of(vk::Format::R8G8B8A8_UNORM)),
        vk::ImageAspectFlags::COLOR.as_raw()
    );
    assert_eq!(
        format_aspect_mask(format_of(vk::Format::D32_SFLOAT)),
        vk::ImageAspectFlags::DEPTH.as_raw()
    );
    assert_eq!(
        format_aspect_mask(format_of(vk::Format::D24_UNORM_S8_UINT)),
        (vk::ImageAspectFlags::DEPTH | vk::ImageAspectFlags::STENCIL).as_raw()
    );
}

#[test]
fn unknown_formats_have_no_size() {
    assert_eq!(format_byte_size(format_of(vk::Format::UNDEFINED)), None);
    assert_eq!(format_byte_size(Format { raw: -1 }), None);
}

#[test]
fn depth_and_stencil_are_told_apart() {
    assert!(is_depth_format(format_of(vk::Format::D16_UNORM)));
    assert!(!is_stencil_format(format_of(vk::Format::D16_UNORM)));
    assert!(is_stencil_format(format_of(vk::Format::S8_UINT)));
    assert!(!is_depth_format(format_of(vk::Format::S8_UINT)));
    assert_eq!(
        format_aspect_mask(format_of(vk::Format::S8_UINT)),
        vk::ImageAspectFlags::STENCIL.as_raw()
    );
}

#[test]
fn compressed_formats_have_blocks() {
    assert!(is_compressed_format(format_of(vk::Format::BC1_RGB_UNORM_BLOCK)));
    assert_eq!(format_block_extent(format_of(vk::Format::BC1_RGB_UNORM_BLOCK)), (4, 4));
    assert!(!is_compressed_format(format_of(vk::Format::R8G8B8A8_UNORM)));
    assert_eq!(format_block_extent(format_of(vk::Format::R8G8B8A8_UNORM)), (1, 1));
    assert_eq!(format_block_extent(format_of(vk::Format::ASTC_8X5_UNORM_BLOCK)), (8, 5));
}

#[test]
fn dispatch_rounds_up_in_every_dimension() {
    assert_eq!(dispatch_size_3d([100, 64, 0], [64, 64, 1]), [2, 1, 0]);
    assert_eq!(dispatch_size(u32::MAX, 64), 67108864);
}
