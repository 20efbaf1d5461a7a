//! Properties of pixel formats, and sizes of compute dispatches.

use vstd::prelude::*;

verus! {

/// A pixel format, given by the number that the Vulkan headers assign to it.
#[derive(Debug, Clone, Copy, PartialEq, Eq, Hash, Structural)]
pub struct Format {
    /// The number.
    pub raw: i32,
}

/// `VK_FORMAT_UNDEFINED`.
pub const UNDEFINED: i32 = 0;

/// `VK_FORMAT_R8G8B8A8_UNORM`.
pub const R8G8B8A8_UNORM: i32 = 37;

/// `VK_IMAGE_ASPECT_COLOR_BIT`.
pub const ASPECT_COLOR: u32 = 1;

/// `VK_IMAGE_ASPECT_DEPTH_BIT`.
pub const ASPECT_DEPTH: u32 = 2;

/// `VK_IMAGE_ASPECT_STENCIL_BIT`.
pub const ASPECT_STENCIL: u32 = 4;

/// Bytes per pixel, or per block of a compressed format, by format number.
pub open spec fn texel_bytes(f: i32) -> Option<u32> {
    if f == 9 || f == 10 || f == 13 || f == 14 || f == 15 {
        // One byte: R8.
        Some(1u32)
    }     else if f == 4 || f == 8 || f == 16 || f == 17 || f == 20 || f == 21 || f == 70 || f == 71 || f == 74 || f == 75 || f == 76 || f == 124 {
        // Two bytes: R8G8, R16, D16 and packed 16-bit formats.
        Some(2u32)
    }     else if f == 23 || f == 24 || f == 27 || f == 28 || f == 29 || f == 30 || f == 36 {
        // Three bytes: R8G8B8 and B8G8R8.
        Some(3u32)
    }     else if f == 37 || f == 38 || f == 41 || f == 42 || f == 43 || f == 44 || f == 45 || f == 50 || f == 51 || f == 57 || f == 58 || f == 64 || f == 77 || f == 78 || f == 81 || f == 82 || f == 83 || f == 98 || f == 99 || f == 100 || f == 122 || f == 123 || f == 125 || f == 126 || f == 129 {
        // Four bytes: 8-bit RGBA orders, packed 32-bit formats, R16G16, R32 and depth formats.
        Some(4u32)
    }     else if f == 130 {
        // Five bytes: D32 with stencil.
        Some(5u32)
    }     else if f == 88 || f == 90 {
        // Six bytes: R16G16B16.
        Some(6u32)
    }     else if f == 91 || f == 92 || f == 95 || f == 96 || f == 97 || f == 101 || f == 102 || f == 103 || f == 112 {
        // Eight bytes: R16G16B16A16, R32G32 and R64.
        Some(8u32)
    }     else if f == 104 || f == 105 || f == 106 {
        // Twelve bytes: R32G32B32.
        Some(12u32)
    }     else if f == 107 || f == 108 || f == 109 || f == 115 {
        // Sixteen bytes: R32G32B32A32 and R64G64.
        Some(16u32)
    }     else if f == 131 || f == 132 || f == 133 || f == 134 || f == 139 || f == 140 || f == 147 || f == 148 {
        // Blocks of eight bytes: BC1, BC4 and ETC2 without alpha.
        Some(8u32)
    }     else if f == 135 || f == 136 || f == 137 || f == 138 || f == 141 || f == 142 || f == 143 || f == 144 || f == 145 || f == 146 || f == 151 || f == 152 || f == 157 || f == 158 {
        // Blocks of sixteen bytes: BC2, BC3, BC5 to BC7, ETC2 with alpha and ASTC 4x4.
        Some(16u32)
    } else {
        None
    }
}

/// Bytes per pixel, or per block of a compressed format.
///
/// `None` for a format that is not in the table.
pub fn format_byte_size(format: Format) -> (r: Option<u32>)
    ensures
        r == texel_bytes(format.raw),
{
    match format.raw {
        // One byte: R8.
        9 | 10 | 13 | 14 | 15 => Some(1),
        // Two bytes: R8G8, R16, D16 and packed 16-bit formats.
        4 | 8 | 16 | 17 | 20 | 21 | 70 | 71 | 74 | 75 | 76 | 124 => Some(2),
        // Three bytes: R8G8B8 and B8G8R8.
        23 | 24 | 27 | 28 | 29 | 30 | 36 => Some(3),
        // Four bytes: 8-bit RGBA orders, packed 32-bit formats, R16G16, R32 and depth formats.
        37 | 38 | 41 | 42 | 43 | 44 | 45 | 50 | 51 | 57 | 58 | 64 | 77 | 78 | 81 | 82 | 83 | 98 | 99 | 100 | 122 | 123 | 125 | 126 | 129 => Some(4),
        // Five bytes: D32 with stencil.
        130 => Some(5),
        // Six bytes: R16G16B16.
        88 | 90 => Some(6),
        // Eight bytes: R16G16B16A16, R32G32 and R64.
        91 | 92 | 95 | 96 | 97 | 101 | 102 | 103 | 112 => Some(8),
        // Twelve bytes: R32G32B32.
        104 | 105 | 106 => Some(12),
        // Sixteen bytes: R32G32B32A32 and R64G64.
        107 | 108 | 109 | 115 => Some(16),
        // Blocks of eight bytes: BC1, BC4 and ETC2 without alpha.
        131 | 132 | 133 | 134 | 139 | 140 | 147 | 148 => Some(8),
        // Blocks of sixteen bytes: BC2, BC3, BC5 to BC7, ETC2 with alpha and ASTC 4x4.
        135 | 136 | 137 | 138 | 141 | 142 | 143 | 144 | 145 | 146 | 151 | 152 | 157 | 158 => Some(16),
        _ => None,
    }
}

/// The format has a depth component: D16, X8_D24, D32, and these with stencil.
pub open spec fn has_depth(f: i32) -> bool {
    f == 124 || f == 125 || f == 126 || f == 128 || f == 129 || f == 130
}

/// The format has a stencil component: S8, and the depth formats with stencil.
pub open spec fn has_stencil(f: i32) -> bool {
    f == 127 || f == 128 || f == 129 || f == 130
}

/// Whether the format has a depth component.
pub fn is_depth_format(format: Format) -> (r: bool)
    ensures
        r == has_depth(format.raw),
{
    matches!(format.raw, 124 | 125 | 126 | 128 | 129 | 130)
}

/// Whether the format has a stencil component.
pub fn is_stencil_format(format: Format) -> (r: bool)
    ensures
        r == has_stencil(format.raw),
{
    matches!(format.raw, 127 | 128 | 129 | 130)
}

/// The aspects of an image of the format: depth, stencil or both, else colour.
pub open spec fn aspects(f: i32) -> u32 {
    if has_depth(f) && has_stencil(f) {
        ASPECT_DEPTH | ASPECT_STENCIL
    } else if has_depth(f) {
        ASPECT_DEPTH
    } else if has_stencil(f) {
        ASPECT_STENCIL
    } else {
        ASPECT_COLOR
    }
}

/// The aspects of an image of the format.
pub fn format_aspect_mask(format: Format) -> (r: u32)
    ensures
        r == aspects(format.raw),
{
    match format.raw {
        124 | 125 | 126 => ASPECT_DEPTH,
        128 | 129 | 130 => ASPECT_DEPTH | ASPECT_STENCIL,
        127 => ASPECT_STENCIL,
        _ => ASPECT_COLOR,
    }
}

/// The format is block-compressed: BC, ETC2 or ASTC.
pub open spec fn is_block(f: i32) -> bool {
    131 <= f <= 184
}

/// Whether the format is block-compressed.
pub fn is_compressed_format(format: Format) -> (r: bool)
    ensures
        r == is_block(format.raw),
{
    131 <= format.raw && format.raw <= 184
}

/// Width and height of a block in pixels: 1 by 1 if the format is not compressed, 4 by 4
/// for BC, ETC2 and the smallest ASTC blocks.
pub open spec fn block_extent(f: i32) -> (u32, u32) {
    if !is_block(f) { (1u32, 1u32) }
    else if f == 159 || f == 160 { (5u32, 4u32) }
    else if f == 161 || f == 162 { (5u32, 5u32) }
    else if f == 163 || f == 164 { (6u32, 5u32) }
    else if f == 165 || f == 166 { (6u32, 6u32) }
    else if f == 167 || f == 168 { (8u32, 5u32) }
    else if f == 169 || f == 170 { (8u32, 6u32) }
    else if f == 171 || f == 172 { (8u32, 8u32) }
    else if f == 173 || f == 174 { (10u32, 5u32) }
    else if f == 175 || f == 176 { (10u32, 6u32) }
    else if f == 177 || f == 178 { (10u32, 8u32) }
    else if f == 179 || f == 180 { (10u32, 10u32) }
    else if f == 181 || f == 182 { (12u32, 10u32) }
    else if f == 183 || f == 184 { (12u32, 12u32) }
    else { (4u32, 4u32) }
}

/// Width and height of a block in pixels.
pub fn format_block_extent(format: Format) -> (r: (u32, u32))
    ensures
        r == block_extent(format.raw),
{
    if !is_compressed_format(format) {
        return (1, 1);
    }
    match format.raw {
        159 | 160 => (5, 4),
        161 | 162 => (5, 5),
        163 | 164 => (6, 5),
        165 | 166 => (6, 6),
        167 | 168 => (8, 5),
        169 | 170 => (8, 6),
        171 | 172 => (8, 8),
        173 | 174 => (10, 5),
        175 | 176 => (10, 6),
        177 | 178 => (10, 8),
        179 | 180 => (10, 10),
        181 | 182 => (12, 10),
        183 | 184 => (12, 12),
        _ => (4, 4),
    }
}

/// The least number of groups of a size that covers all items.
pub open spec fn groups(work_items: int, local_size: int) -> int {
    (work_items + local_size - 1) / local_size
}

/// Number of groups in a dispatch: the work items divided by the group size, rounded up.
pub fn dispatch_size(work_items: u32, local_size: u32) -> (r: u32)
    requires
        local_size != 0,
    ensures
        r == groups(work_items as int, local_size as int),
{
    proof {
        law_dispatch_covers_work(work_items as int, local_size as int);
    }
    ((work_items as u64 + local_size as u64 - 1) / (local_size as u64)) as u32
}

/// Number of groups in each of three dimensions.
pub fn dispatch_size_3d(work: [u32; 3], local: [u32; 3]) -> (r: [u32; 3])
    requires
        local@[0] != 0,
        local@[1] != 0,
        local@[2] != 0,
    ensures
        forall|i: int|
            0 <= i < 3 ==> #[trigger] r@[i] == groups(work@[i] as int, local@[i] as int),
{
    [
        dispatch_size(work[0], local[0]),
        dispatch_size(work[1], local[1]),
        dispatch_size(work[2], local[2]),
    ]
}

/// The groups of a dispatch cover all work items, and one group fewer would not.
pub proof fn law_dispatch_covers_work(work_items: int, local_size: int)
    requires
        0 <= work_items,
        0 < local_size,
    ensures
        groups(work_items, local_size) * local_size >= work_items,
        (groups(work_items, local_size) - 1) * local_size < work_items,
        0 <= groups(work_items, local_size) <= work_items,
{
    let g = groups(work_items, local_size);
    let s = work_items + local_size - 1;
    vstd::arithmetic::div_mod::lemma_fundamental_div_mod(s, local_size);
    vstd::arithmetic::div_mod::lemma_mod_bound(s, local_size);
    vstd::arithmetic::mul::lemma_mul_is_commutative(local_size, g);
    assert((g - 1) * local_size == g * local_size - local_size) by (nonlinear_arith);
    assert(0 <= g) by {
        vstd::arithmetic::div_mod::lemma_div_pos_is_pos(s, local_size);
    }
    assert(g <= work_items) by (nonlinear_arith)
        requires
            g * local_size <= work_items + local_size - 1,
            0 < local_size,
            0 <= work_items,
            0 <= g,
            (g - 1) * local_size < work_items,
    ;
}

/// The larger of two sizes.
pub open spec fn larger_side(width: u32, height: u32) -> u32 {
    if width > height {
        width
    } else {
        height
    }
}

/// Number of mip levels of a 2D image: one more than the logarithm to base two of its
/// larger side, rounded down, and one for an empty image.
pub fn mip_levels_for_size(width: u32, height: u32) -> (r: u32)
    ensures
        1 <= r <= 32,
        larger_side(width, height) == 0 ==> r == 1,
        larger_side(width, height) > 0 ==> vstd::arithmetic::power2::pow2((r - 1) as nat)
            <= larger_side(width, height) < vstd::arithmetic::power2::pow2(r as nat),
{
    let max_dim: u32 = if width > height {
        width
    } else {
        height
    };
    if max_dim == 0 {
        return 1;
    }
    let lz: u32 = max_dim.leading_zeros();
    proof {
        vstd::std_specs::bits::axiom_u32_leading_zeros(max_dim);
        lemma_top_bit(max_dim, (32 - lz) as u32);
    }
    32 - lz
}

/// A number whose highest set bit is bit `n - 1`.
proof fn lemma_top_bit(x: u32, n: u32)
    requires
        1 <= n <= 32,
        n < 32 ==> x >> n == 0,
        (x >> ((n - 1) as u32)) & 1u32 != 0,
    ensures
        vstd::arithmetic::power2::pow2((n - 1) as nat) <= x < vstd::arithmetic::power2::pow2(
            n as nat,
        ),
{
    let k = (n - 1) as u32;
    vstd::bits::lemma_u32_shr_is_div(x, k);
    vstd::arithmetic::power2::lemma_pow2_pos(k as nat);
    let p = vstd::arithmetic::power2::pow2(k as nat) as int;
    assert(x >> k != 0) by (bit_vector)
        requires
            (x >> k) & 1u32 != 0,
    ;
    if x < p {
        vstd::arithmetic::div_mod::lemma_basic_div(x as int, p);
    }
    if n < 32 {
        vstd::bits::lemma_u32_shr_is_div(x, n);
        vstd::arithmetic::power2::lemma_pow2_pos(n as nat);
        let q = vstd::arithmetic::power2::pow2(n as nat) as int;
        if x >= q {
            vstd::arithmetic::div_mod::lemma_div_non_zero(x as int, q);
        }
    } else {
        vstd::arithmetic::power2::lemma2_to64();
    }
}

} // verus!
