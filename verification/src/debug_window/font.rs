//! An 8 by 8 bitmap font for the printable ASCII characters.

use vstd::prelude::*;

verus! {

/// The rows of the glyph of a character code: eight bytes, the topmost row in the highest
/// byte, the leftmost pixel in the highest bit of its byte. A box stands for a character
/// that the font lacks.
pub open spec fn glyph_rows(code: u32) -> u64 {
    match code {
        32 => 0x0000000000000000,
        33 => 0x1010101010001000,
        34 => 0x2828280000000000,
        35 => 0x28287C287C282800,
        36 => 0x103C503814781000,
        37 => 0x60640810204C0C00,
        38 => 0x2050502054483400,
        39 => 0x3010200000000000,
        40 => 0x0810202020100800,
        41 => 0x2010080808102000,
        42 => 0x0010543854100000,
        43 => 0x0010107C10100000,
        44 => 0x0000000030102000,
        45 => 0x0000007C00000000,
        46 => 0x0000000000303000,
        47 => 0x0004081020400000,
        48 => 0x38444C5464443800,
        49 => 0x1030101010103800,
        50 => 0x3844040810207C00,
        51 => 0x7C08100804443800,
        52 => 0x081828487C080800,
        53 => 0x7C40780404443800,
        54 => 0x1820407844443800,
        55 => 0x7C04081020202000,
        56 => 0x3844443844443800,
        57 => 0x3844443C04083000,
        58 => 0x0030300030300000,
        59 => 0x0030300030102000,
        60 => 0x0810204020100800,
        61 => 0x00007C007C000000,
        62 => 0x2010080408102000,
        63 => 0x3844040810001000,
        64 => 0x3844043454543800,
        65 => 0x384444447C444400,
        66 => 0x7844447844447800,
        67 => 0x3844404040443800,
        68 => 0x7048444444487000,
        69 => 0x7C40407840407C00,
        70 => 0x7C40407840404000,
        71 => 0x3844405C44443C00,
        72 => 0x4444447C44444400,
        73 => 0x3810101010103800,
        74 => 0x1C08080808483000,
        75 => 0x4448506050484400,
        76 => 0x4040404040407C00,
        77 => 0x446C545444444400,
        78 => 0x444464544C444400,
        79 => 0x3844444444443800,
        80 => 0x7844447840404000,
        81 => 0x3844444454483400,
        82 => 0x7844447850484400,
        83 => 0x3C40403804047800,
        84 => 0x7C10101010101000,
        85 => 0x4444444444443800,
        86 => 0x4444444444281000,
        87 => 0x4444445454542800,
        88 => 0x4444281028444400,
        89 => 0x4444442810101000,
        90 => 0x7C04081020407C00,
        91 => 0x3820202020203800,
        92 => 0x0040201008040000,
        93 => 0x3808080808083800,
        94 => 0x1028440000000000,
        95 => 0x0000000000007C00,
        96 => 0x2010080000000000,
        97 => 0x000038043C443C00,
        98 => 0x4040586444447800,
        99 => 0x0000384040443800,
        100 => 0x0404344C44443C00,
        101 => 0x000038447C403800,
        102 => 0x1824207020202000,
        103 => 0x003C44443C043800,
        104 => 0x4040586444444400,
        105 => 0x1000301010103800,
        106 => 0x0800180808483000,
        107 => 0x4040485060504800,
        108 => 0x3010101010103800,
        109 => 0x0000685454444400,
        110 => 0x0000586444444400,
        111 => 0x0000384444443800,
        112 => 0x0000784478404000,
        113 => 0x0000344C3C040400,
        114 => 0x0000586440404000,
        115 => 0x0000384038047800,
        116 => 0x2020702020241800,
        117 => 0x00004444444C3400,
        118 => 0x0000444444281000,
        119 => 0x0000444454542800,
        120 => 0x0000442810284400,
        121 => 0x000044443C043800,
        122 => 0x00007C0810207C00,
        123 => 0x0810102010100800,
        124 => 0x1010101010101000,
        125 => 0x2010100810102000,
        126 => 0x0000205408000000,
        _ => 0x7E4242424242427E,
    }
}

/// The pixel of a glyph in a row and a column is set.
pub open spec fn glyph_pixel(ch: char, row: int, col: int) -> bool {
    (glyph_rows(ch as u32) >> ((63 - 8 * row - col) as u64)) & 1u64 == 1u64
}

/// The rows of the glyph of a character code.
fn rows_of(code: u32) -> (r: u64)
    ensures
        r == glyph_rows(code),
{
    match code {
        32 => 0x0000000000000000,
        33 => 0x1010101010001000,
        34 => 0x2828280000000000,
        35 => 0x28287C287C282800,
        36 => 0x103C503814781000,
        37 => 0x60640810204C0C00,
        38 => 0x2050502054483400,
        39 => 0x3010200000000000,
        40 => 0x0810202020100800,
        41 => 0x2010080808102000,
        42 => 0x0010543854100000,
        43 => 0x0010107C10100000,
        44 => 0x0000000030102000,
        45 => 0x0000007C00000000,
        46 => 0x0000000000303000,
        47 => 0x0004081020400000,
        48 => 0x38444C5464443800,
        49 => 0x1030101010103800,
        50 => 0x3844040810207C00,
        51 => 0x7C08100804443800,
        52 => 0x081828487C080800,
        53 => 0x7C40780404443800,
        54 => 0x1820407844443800,
        55 => 0x7C04081020202000,
        56 => 0x3844443844443800,
        57 => 0x3844443C04083000,
        58 => 0x0030300030300000,
        59 => 0x0030300030102000,
        60 => 0x0810204020100800,
        61 => 0x00007C007C000000,
        62 => 0x2010080408102000,
        63 => 0x3844040810001000,
        64 => 0x3844043454543800,
        65 => 0x384444447C444400,
        66 => 0x7844447844447800,
        67 => 0x3844404040443800,
        68 => 0x7048444444487000,
        69 => 0x7C40407840407C00,
        70 => 0x7C40407840404000,
        71 => 0x3844405C44443C00,
        72 => 0x4444447C44444400,
        73 => 0x3810101010103800,
        74 => 0x1C08080808483000,
        75 => 0x4448506050484400,
        76 => 0x4040404040407C00,
        77 => 0x446C545444444400,
        78 => 0x444464544C444400,
        79 => 0x3844444444443800,
        80 => 0x7844447840404000,
        81 => 0x3844444454483400,
        82 => 0x7844447850484400,
        83 => 0x3C40403804047800,
        84 => 0x7C10101010101000,
        85 => 0x4444444444443800,
        86 => 0x4444444444281000,
        87 => 0x4444445454542800,
        88 => 0x4444281028444400,
        89 => 0x4444442810101000,
        90 => 0x7C04081020407C00,
        91 => 0x3820202020203800,
        92 => 0x0040201008040000,
        93 => 0x3808080808083800,
        94 => 0x1028440000000000,
        95 => 0x0000000000007C00,
        96 => 0x2010080000000000,
        97 => 0x000038043C443C00,
        98 => 0x4040586444447800,
        99 => 0x0000384040443800,
        100 => 0x0404344C44443C00,
        101 => 0x000038447C403800,
        102 => 0x1824207020202000,
        103 => 0x003C44443C043800,
        104 => 0x4040586444444400,
        105 => 0x1000301010103800,
        106 => 0x0800180808483000,
        107 => 0x4040485060504800,
        108 => 0x3010101010103800,
        109 => 0x0000685454444400,
        110 => 0x0000586444444400,
        111 => 0x0000384444443800,
        112 => 0x0000784478404000,
        113 => 0x0000344C3C040400,
        114 => 0x0000586440404000,
        115 => 0x0000384038047800,
        116 => 0x2020702020241800,
        117 => 0x00004444444C3400,
        118 => 0x0000444444281000,
        119 => 0x0000444454542800,
        120 => 0x0000442810284400,
        121 => 0x000044443C043800,
        122 => 0x00007C0810207C00,
        123 => 0x0810102010100800,
        124 => 0x1010101010101000,
        125 => 0x2010100810102000,
        126 => 0x0000205408000000,
        _ => 0x7E4242424242427E,
    }
}

/// Whether a pixel of the glyph of a character is set.
pub fn is_set(ch: char, row: u8, col: u8) -> (r: bool)
    requires
        row < 8,
        col < 8,
    ensures
        r == glyph_pixel(ch, row as int, col as int),
{
    let shift: u64 = (63 - 8 * row - col) as u64;
    (rows_of(ch as u32) >> shift) & 1 == 1
}

/// The rows of the glyph of a character, topmost first, leftmost pixel in the highest bit.
pub fn glyph_bytes(ch: char) -> (r: [u8; 8])
    ensures
        forall|row: int, col: int|
            0 <= row < 8 && 0 <= col < 8 ==> ((#[trigger] r@[row] >> (#[trigger] low_bit(col)))
                & 1u8 == 1u8) == glyph_pixel(ch, row, col),
{
    let w: u64 = rows_of(ch as u32);
    let r: [u8; 8] = [
        (w >> 56) as u8,
        ((w >> 48) & 0xFF) as u8,
        ((w >> 40) & 0xFF) as u8,
        ((w >> 32) & 0xFF) as u8,
        ((w >> 24) & 0xFF) as u8,
        ((w >> 16) & 0xFF) as u8,
        ((w >> 8) & 0xFF) as u8,
        (w & 0xFF) as u8,
    ];
    proof {
        assert forall|row: int, col: int| 0 <= row < 8 && 0 <= col < 8 implies ((#[trigger] r@[row]
            >> (#[trigger] low_bit(col))) & 1u8 == 1u8) == glyph_pixel(ch, row, col) by {
            let s = (56 - 8 * row) as u64;
            let b = low_bit(col);
            let byte = r@[row];
            assert(byte == ((w >> s) & 0xFF) as u8) by {
                assert((w >> 56) as u8 == ((w >> 56) & 0xFF) as u8) by (bit_vector);
                assert((w >> 0) == w) by (bit_vector);
            }
            let t = (63 - 8 * row - col) as u64;
            assert(t == s + b);
            assert((((w >> s) & 0xFF) as u8 >> b) & 1u8 == 1u8 <==> (w >> t) & 1u64 == 1u64)
                by (bit_vector)
                requires
                    b < 8,
                    s <= 56,
                    t == s + b,
            ;
        }
    }
    r
}

/// The bit of a row in which the pixel of a column stands.
pub open spec fn low_bit(col: int) -> u8 {
    (7 - col) as u8
}

} // verus!
