//! What the tables of formats say, and what numbers look like in text.

use crate::text;
use vstd::prelude::*;

verus! {

/// The size of a texel is the number of its channels times the bytes of a channel; that of a block
/// is eight or sixteen bytes.
pub proof fn law_size_follows_from_the_channels(f: i32, n: u32)
    requires
        crate::format::texel_bytes(f) == Some(n),
    ensures
        4 <= f <= 8 ==> n == 2,
        9 <= f <= 15 ==> n == 1,
        16 <= f <= 22 ==> n == 2 * 1,
        23 <= f <= 36 ==> n == 3 * 1,
        37 <= f <= 57 ==> n == 4 * 1,
        58 <= f <= 69 ==> n == 4,
        70 <= f <= 76 ==> n == 2,
        77 <= f <= 83 ==> n == 2 * 2,
        84 <= f <= 90 ==> n == 3 * 2,
        91 <= f <= 97 ==> n == 4 * 2,
        98 <= f <= 100 ==> n == 4,
        101 <= f <= 103 ==> n == 2 * 4,
        104 <= f <= 106 ==> n == 3 * 4,
        107 <= f <= 109 ==> n == 4 * 4,
        110 <= f <= 112 ==> n == 8,
        113 <= f <= 115 ==> n == 2 * 8,
        122 <= f <= 123 ==> n == 4,
        f == 124 ==> n == 2,
        125 <= f <= 129 ==> n == 4,
        f == 130 ==> n == 4 + 1,
        131 <= f <= 134 ==> n == 8,
        135 <= f <= 138 ==> n == 16,
        139 <= f <= 140 ==> n == 8,
        141 <= f <= 146 ==> n == 16,
        147 <= f <= 150 ==> n == 8,
        151 <= f <= 184 ==> n == 16,
        4 <= f <= 158,
{
}

/// These formats have no known size, and no others among the numbers up to that of the smallest
/// block of ASTC.
pub proof fn law_formats_without_a_size(f: i32)
    ensures
        f < 4 || f > 158 ==> crate::format::texel_bytes(f) is None,
        4 <= f <= 158 ==> (crate::format::texel_bytes(f) is None <==> 5 <= f <= 7 || 11 <= f <= 12 || 18
            <= f <= 19 || f == 22 || 25 <= f <= 26 || 31 <= f <= 35 || 39 <= f <= 40 || 46 <= f
            <= 49 || 52 <= f <= 56 || 59 <= f <= 63 || 65 <= f <= 69 || 72 <= f <= 73 || 79 <= f
            <= 80 || 84 <= f <= 87 || f == 89 || 93 <= f <= 94 || 110 <= f <= 111 || 113 <= f
            <= 114 || 116 <= f <= 121 || 127 <= f <= 128 || 149 <= f <= 150 || 153 <= f <= 156),
{
}

/// The formats with depth and those with a stencil lie together. An image has the aspects of its
/// format, and colour if it has neither.
pub proof fn law_aspects_follow_from_the_format(f: i32)
    ensures
        crate::format::has_depth(f) <==> 124 <= f <= 130 && f != 127,
        crate::format::has_stencil(f) <==> 127 <= f <= 130,
        crate::format::aspects(f) & 2 == 2 <==> 124 <= f <= 130 && f != 127,
        crate::format::aspects(f) & 4 == 4 <==> 127 <= f <= 130,
        crate::format::aspects(f) & 1 == 1 <==> f < 124 || f > 130,
        crate::format::aspects(f) <= 6,
{
    assert(2u32 | 4u32 == 6u32 && 6u32 & 2u32 == 2u32 && 6u32 & 4u32 == 4u32 && 6u32 & 1u32 == 0u32
        && 2u32 & 2u32 == 2u32 && 2u32 & 4u32 == 0u32 && 2u32 & 1u32 == 0u32 && 4u32 & 2u32 == 0u32
        && 4u32 & 4u32 == 4u32 && 4u32 & 1u32 == 0u32 && 1u32 & 2u32 == 0u32 && 1u32 & 4u32 == 0u32
        && 1u32 & 1u32 == 1u32) by (bit_vector);
}

/// A block is a single texel exactly if the format is not compressed. A format and the one with the
/// same blocks and another encoding have blocks of one size.
pub proof fn law_blocks_follow_from_the_format(f: i32)
    ensures
        crate::format::is_block(f) <==> 131 <= f <= 184,
        crate::format::block_extent(f) == (1u32, 1u32) <==> f < 131 || f > 184,
        131 <= f <= 158 ==> crate::format::block_extent(f) == (4u32, 4u32),
        157 <= f <= 183 && f % 2 == 1 ==> crate::format::block_extent(f) == crate::format::block_extent(
            (f + 1) as i32,
        ),
        159 <= f <= 160 ==> crate::format::block_extent(f) == (5u32, 4u32),
        161 <= f <= 162 ==> crate::format::block_extent(f) == (5u32, 5u32),
        163 <= f <= 164 ==> crate::format::block_extent(f) == (6u32, 5u32),
        165 <= f <= 166 ==> crate::format::block_extent(f) == (6u32, 6u32),
        167 <= f <= 172 ==> crate::format::block_extent(f).0 == 8,
        173 <= f <= 180 ==> crate::format::block_extent(f).0 == 10,
        181 <= f <= 184 ==> crate::format::block_extent(f).0 == 12,
        167 <= f <= 168 || 173 <= f <= 174 ==> crate::format::block_extent(f).1 == 5,
        169 <= f <= 170 || 175 <= f <= 176 ==> crate::format::block_extent(f).1 == 6,
        171 <= f <= 172 || 177 <= f <= 178 ==> crate::format::block_extent(f).1 == 8,
        179 <= f <= 182 ==> crate::format::block_extent(f).1 == 10,
        183 <= f <= 184 ==> crate::format::block_extent(f).1 == 12,
{
}

/// The larger side is one of the two and not below the other.
pub proof fn law_larger_side_is_the_larger(width: u32, height: u32)
    ensures
        crate::format::larger_side(width, height) >= width,
        crate::format::larger_side(width, height) >= height,
        crate::format::larger_side(width, height) == width || crate::format::larger_side(width, height)
            == height,
{
}

/// The number of a digit: `0` to `9`, then `a` to `f`.
pub open spec fn digit_value(c: char) -> int {
    if '0' <= c <= '9' {
        c as int - '0' as int
    } else {
        c as int - 'a' as int + 10
    }
}

/// The number that digits stand for.
pub open spec fn value_of(t: Seq<char>, base: int) -> int
    decreases t.len(),
{
    if t.len() == 0 {
        0
    } else {
        value_of(t.drop_last(), base) * base + digit_value(t.last())
    }
}

/// The text of a number reads back as the number. It has no leading zeros, and only digits of its
/// base.
pub proof fn law_number_reads_back_from_its_text(n: nat, base: nat)
    requires
        2 <= base <= 16,
    ensures
        ({
            let t = text::digits(n, base);
            &&& t.len() >= 1
            &&& value_of(t, base as int) == n
            &&& n > 0 ==> t[0] != '0'
            &&& n == 0 ==> t == seq!['0']
            &&& forall|i: int|
                0 <= i < t.len() ==> 0 <= digit_value(#[trigger] t[i]) < base && ('0' <= t[i] <= '9'
                    || 'a' <= t[i] <= 'f')
        }),
    decreases n,
{
    let t = text::digits(n, base);
    if n < base {
        assert(t =~= seq![text::digit(n as int)]);
        assert(t.drop_last() =~= Seq::empty());
        assert(value_of(t.drop_last(), base as int) == 0);
        assert(0 * base == 0);
    } else {
        vstd::arithmetic::div_mod::lemma_div_decreases(n as int, base as int);
        vstd::arithmetic::div_mod::lemma_div_non_zero(n as int, base as int);
        vstd::arithmetic::div_mod::lemma_fundamental_div_mod(n as int, base as int);
        vstd::arithmetic::div_mod::lemma_mod_bound(n as int, base as int);
        law_number_reads_back_from_its_text(n / base, base);
        let front = text::digits(n / base, base);
        let d = text::digit((n % base) as int);
        assert(t == front.push(d));
        assert(t.drop_last() =~= front);
        assert(t.last() == d);
        vstd::arithmetic::mul::lemma_mul_is_commutative(base as int, n as int / base as int);
        assert forall|i: int| 0 <= i < t.len() implies 0 <= digit_value(#[trigger] t[i]) < base && (
        '0' <= t[i] <= '9' || 'a' <= t[i] <= 'f') by {
            if i < front.len() {
                assert(t[i] == front[i]);
            }
        }
        assert(t[0] == front[0]);
    }
}

/// A hexadecimal number stands behind `0x` and has zeros in front up to its width.
pub proof fn law_hexadecimal_has_its_width(n: int, width: int, i: int)
    requires
        0 <= n,
    ensures
        ({
            let d = text::digits(n as nat, 16);
            let t = text::hex_prefixed(n, width);
            let lead = if d.len() < width {
                width - d.len()
            } else {
                0
            };
            &&& t.len() == 2 + lead + d.len()
            &&& t[0] == '0' && t[1] == 'x'
            &&& 0 <= i < lead ==> t[2 + i] == '0'
            &&& 0 <= i < d.len() ==> t[2 + lead + i] == d[i]
        }),
{
}

/// A padded text is the text behind as many fill characters as are missing to the width.
pub proof fn law_padding_fills_up_to_the_width(t: Seq<char>, c: char, width: int, i: int)
    ensures
        ({
            let p = text::padded_left(t, c, width);
            let lead = if t.len() < width {
                width - t.len()
            } else {
                0
            };
            &&& p.len() == lead + t.len()
            &&& 0 <= i < lead ==> p[i] == c
            &&& 0 <= i < t.len() ==> p[lead + i] == t[i]
        }),
{
}

/// A missing text is the empty one.
pub proof fn law_missing_text_is_empty(t: String)
    ensures
        text::or_empty(Some(t)) == t@,
        text::or_empty(None).len() == 0,
{
    reveal_strlit("");
}

} // verus!
