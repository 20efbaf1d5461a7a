//! Plain values that stand for Vulkan handles, flags and enumerants.
//!
//! Handles are carried as their raw 64-bit value, flag sets and enumerants as
//! the integer that the Vulkan headers assign to them.

use vstd::prelude::*;

verus! {

/// The null handle.
pub const NULL_HANDLE: u64 = 0;

/// `VK_QUEUE_GRAPHICS_BIT`.
pub const QUEUE_GRAPHICS: u32 = 1;

/// `VK_QUEUE_COMPUTE_BIT`.
pub const QUEUE_COMPUTE: u32 = 2;

/// `VK_QUEUE_TRANSFER_BIT`.
pub const QUEUE_TRANSFER: u32 = 4;

/// `VK_MEMORY_PROPERTY_DEVICE_LOCAL_BIT`.
pub const MEMORY_DEVICE_LOCAL: u32 = 1;

/// `VK_MEMORY_PROPERTY_HOST_VISIBLE_BIT`.
pub const MEMORY_HOST_VISIBLE: u32 = 2;

/// `VK_MEMORY_PROPERTY_HOST_COHERENT_BIT`.
pub const MEMORY_HOST_COHERENT: u32 = 4;

/// `VK_BUFFER_USAGE_TRANSFER_SRC_BIT`.
pub const BUFFER_USAGE_TRANSFER_SRC: u32 = 0x1;

/// `VK_BUFFER_USAGE_TRANSFER_DST_BIT`.
pub const BUFFER_USAGE_TRANSFER_DST: u32 = 0x2;

/// `VK_BUFFER_USAGE_UNIFORM_BUFFER_BIT`.
pub const BUFFER_USAGE_UNIFORM: u32 = 0x10;

/// `VK_BUFFER_USAGE_STORAGE_BUFFER_BIT`.
pub const BUFFER_USAGE_STORAGE: u32 = 0x20;

/// `VK_BUFFER_USAGE_INDEX_BUFFER_BIT`.
pub const BUFFER_USAGE_INDEX: u32 = 0x40;

/// `VK_BUFFER_USAGE_VERTEX_BUFFER_BIT`.
pub const BUFFER_USAGE_VERTEX: u32 = 0x80;

/// `VK_SHARING_MODE_EXCLUSIVE`.
pub const SHARING_EXCLUSIVE: i32 = 0;

/// `VK_IMAGE_TYPE_2D`.
pub const IMAGE_TYPE_2D: i32 = 1;

/// `VK_IMAGE_VIEW_TYPE_2D`.
pub const VIEW_TYPE_2D: i32 = 1;

/// `VK_IMAGE_VIEW_TYPE_2D_ARRAY`.
pub const VIEW_TYPE_2D_ARRAY: i32 = 5;

/// `VK_IMAGE_TILING_OPTIMAL`.
pub const TILING_OPTIMAL: i32 = 0;

/// `VK_SAMPLE_COUNT_1_BIT`.
pub const SAMPLES_1: u32 = 1;

/// `VK_IMAGE_USAGE_SAMPLED_BIT`.
pub const IMAGE_USAGE_SAMPLED: u32 = 0x4;

/// `VK_IMAGE_USAGE_DEPTH_STENCIL_ATTACHMENT_BIT`.
pub const IMAGE_USAGE_DEPTH_STENCIL: u32 = 0x20;

/// `VK_IMAGE_USAGE_TRANSFER_DST_BIT`.
pub const IMAGE_USAGE_TRANSFER_DST: u32 = 0x2;

/// `VK_IMAGE_USAGE_COLOR_ATTACHMENT_BIT`.
pub const IMAGE_USAGE_COLOR_ATTACHMENT: u32 = 0x10;

/// `VK_PRESENT_MODE_FIFO_KHR`.
pub const PRESENT_MODE_FIFO: i32 = 2;

/// `VK_IMAGE_LAYOUT_UNDEFINED`.
pub const LAYOUT_UNDEFINED: i32 = 0;

/// `VK_IMAGE_LAYOUT_TRANSFER_DST_OPTIMAL`.
pub const LAYOUT_TRANSFER_DST: i32 = 7;

/// `VK_IMAGE_LAYOUT_PRESENT_SRC_KHR`.
pub const LAYOUT_PRESENT_SRC: i32 = 1000001002;

/// `VK_ACCESS_TRANSFER_WRITE_BIT`.
pub const ACCESS_TRANSFER_WRITE: u32 = 0x1000;

/// `VK_PIPELINE_STAGE_TOP_OF_PIPE_BIT`.
pub const STAGE_TOP_OF_PIPE: u32 = 0x1;

/// `VK_PIPELINE_STAGE_TRANSFER_BIT`.
pub const STAGE_TRANSFER: u32 = 0x1000;

/// `VK_PIPELINE_STAGE_BOTTOM_OF_PIPE_BIT`.
pub const STAGE_BOTTOM_OF_PIPE: u32 = 0x2000;

/// Every bit of `wanted` is set in `flags`.
pub open spec fn has_flags(flags: u32, wanted: u32) -> bool {
    flags & wanted == wanted
}

/// Whether every bit of `wanted` is set in `flags`.
pub fn contains_flags(flags: u32, wanted: u32) -> (r: bool)
    ensures
        r == has_flags(flags, wanted),
{
    flags & wanted == wanted
}

/// `a` is a power of two that fits in 64 bits.
pub open spec fn is_pow2(a: u64) -> bool {
    exists|k: u64| k < 64 && a == #[trigger] (1u64 << k)
}

/// The least multiple of `a` that is not below `v`.
pub open spec fn round_up(v: int, a: int) -> int {
    ((v + a - 1) / a) * a
}

/// What masking the low bits of `v + a - 1` leaves.
pub open spec fn mask_up(v: u64, a: u64) -> u64 {
    ((v + a - 1) as u64) & !((a - 1) as u64)
}

/// A power of two is not zero.
pub proof fn lemma_pow2_is_positive(a: u64)
    requires
        is_pow2(a),
    ensures
        a >= 1,
{
    let k = choose|k: u64| k < 64 && a == #[trigger] (1u64 << k);
    assert(1u64 << k >= 1) by (bit_vector)
        requires
            k < 64,
    ;
}

/// For a power of two the mask rounds up.
pub proof fn lemma_mask_up_rounds_up(v: u64, a: u64)
    requires
        is_pow2(a),
        v + a - 1 <= u64::MAX,
    ensures
        mask_up(v, a) == round_up(v as int, a as int),
        mask_up(v, a) % a == 0,
        v <= mask_up(v, a) < v + a,
{
    let k = choose|k: u64| k < 64 && a == #[trigger] (1u64 << k);
    let x = (v + a - 1) as u64;
    assert(x & !(((1u64 << k) - 1) as u64) == (x >> k) << k) by (bit_vector)
        requires
            k < 64,
    ;
    vstd::bits::lemma_u64_pow2_no_overflow(k as nat);
    vstd::arithmetic::power2::lemma_pow2_pos(k as nat);
    let p = vstd::arithmetic::power2::pow2(k as nat) as int;
    assert(1 * p == p);
    vstd::bits::lemma_u64_shl_is_mul(1u64, k);
    vstd::bits::lemma_u64_shr_is_div(x, k);
    let q = (x >> k) as int;
    assert(q == x as int / p);
    vstd::arithmetic::div_mod::lemma_fundamental_div_mod(x as int, p);
    vstd::arithmetic::mul::lemma_mul_is_commutative(p, q);
    assert(q * p <= x);
    vstd::bits::lemma_u64_shl_is_mul(x >> k, k);
    vstd::arithmetic::div_mod::lemma_mod_multiples_basic(q, p);
    vstd::arithmetic::div_mod::lemma_mod_bound(x as int, p);
}

/// Masking never goes below the value, whatever the alignment.
pub proof fn lemma_mask_up_is_not_below(v: u64, a: u64)
    requires
        a >= 1,
        v + a - 1 <= u64::MAX,
    ensures
        v <= mask_up(v, a),
{
    let m = (a - 1) as u64;
    let x = (v + a - 1) as u64;
    assert(x & !m >= v) by (bit_vector)
        requires
            x == v + m,
    ;
}

/// Rounds `value` up by masking its low bits.
pub fn align_up(value: u64, alignment: u64) -> (r: u64)
    requires
        alignment >= 1,
        value + alignment <= u64::MAX,
    ensures
        r == mask_up(value, alignment),
        is_pow2(alignment) ==> r == round_up(value as int, alignment as int),
{
    proof {
        if is_pow2(alignment) {
            lemma_mask_up_rounds_up(value, alignment);
        }
    }
    (value + alignment - 1) & !(alignment - 1)
}

} // verus!
