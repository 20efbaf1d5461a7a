//! API versions as numbers.

use vstd::prelude::*;

verus! {

/// The major version of an API version.
pub open spec fn major(version: u32) -> u32 {
    (version >> 22u32) & 0x7f
}

/// The minor version of an API version.
pub open spec fn minor(version: u32) -> u32 {
    (version >> 12u32) & 0x3ff
}

/// `ash::vk::make_api_version` packs the parts of a version into one number: the variant from
/// bit 29 on, the major version from bit 22 on, the minor version from bit 12 on, and the patch
/// below.
pub assume_specification[ ash::vk::make_api_version ](
    variant: u32,
    major: u32,
    minor: u32,
    patch: u32,
) -> (r: u32)
    ensures
        r == (variant << 29u32) | (major << 22u32) | (minor << 12u32) | patch,
;

/// `ash::vk::api_version_major` reads the seven bits of the major version.
pub assume_specification[ ash::vk::api_version_major ](version: u32) -> (r: u32)
    ensures
        r == major(version),
;

/// `ash::vk::api_version_minor` reads the ten bits of the minor version.
pub assume_specification[ ash::vk::api_version_minor ](version: u32) -> (r: u32)
    ensures
        r == minor(version),
;

} // verus!
