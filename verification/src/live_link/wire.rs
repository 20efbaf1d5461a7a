//! The bytes of numbers and texts in records.

use vstd::prelude::*;

verus! {

/// The lowest `n` bytes of a number, lowest first.
pub open spec fn le(v: int, n: int) -> Seq<u8>
    decreases n,
{
    if n <= 0 {
        seq![]
    } else {
        seq![(v % 256) as u8] + le(v / 256, n - 1)
    }
}

/// The number that bytes stand for, lowest first.
pub open spec fn read_le(b: Seq<u8>) -> int
    decreases b.len(),
{
    if b.len() == 0 {
        0
    } else {
        b[0] + 256 * read_le(b.drop_first())
    }
}

/// A 32-bit number.
pub open spec fn word(v: int) -> Seq<u8> {
    le(v, 4)
}

/// A 64-bit number.
pub open spec fn long(v: int) -> Seq<u8> {
    le(v, 8)
}

/// `n` zero bytes.
pub open spec fn zeros(n: int) -> Seq<u8> {
    Seq::new(n as nat, |i: int| 0u8)
}

/// The first `n` bytes, followed by zeros where there are fewer.
pub open spec fn padded(b: Seq<u8>, n: int) -> Seq<u8> {
    if b.len() < n {
        b + zeros(n - b.len())
    } else {
        b.take(n)
    }
}

/// The bytes of a text.
pub open spec fn utf8(t: Seq<char>) -> Seq<u8> {
    vstd::utf8::encode_utf8(t)
}

/// A text in a field of `n` bytes: what does not fit is cut off, and a zero byte follows.
pub open spec fn field(t: Seq<char>, n: int) -> Seq<u8> {
    let b = utf8(t);
    padded(b.take(if b.len() < n { b.len() as int } else { n - 1 }), n)
}

/// 1 for `true`, 0 for `false`.
pub open spec fn flag(b: bool) -> int {
    if b {
        1
    } else {
        0
    }
}

/// The number of a signed number's 32 bits.
pub open spec fn bits_of(v: int) -> int {
    if v < 0 {
        v + 0x1_0000_0000
    } else {
        v
    }
}

/// The length of a number's bytes.
pub proof fn lemma_le_len(v: int, n: int)
    requires
        0 <= n,
    ensures
        le(v, n).len() == n,
    decreases n,
{
    if n > 0 {
        lemma_le_len(v / 256, n - 1);
    }
}

/// A number that fits can be read back from its bytes.
pub proof fn law_number_reads_back(v: int, n: int)
    requires
        0 <= n,
        0 <= v < vstd::arithmetic::power::pow(256, n as nat),
    ensures
        read_le(le(v, n)) == v,
    decreases n,
{
    if n == 0 {
        vstd::arithmetic::power::lemma_pow0(256);
    } else {
        vstd::arithmetic::power::lemma_pow1(256);
        vstd::arithmetic::power::lemma_pow_adds(256, 1, (n - 1) as nat);
        let p = vstd::arithmetic::power::pow(256, (n - 1) as nat);
        assert(v / 256 < p) by {
            vstd::arithmetic::div_mod::lemma_multiply_divide_lt(v, 256, p);
            vstd::arithmetic::mul::lemma_mul_is_commutative(256, p);
        }
        law_number_reads_back(v / 256, n - 1);
        assert(le(v, n).drop_first() =~= le(v / 256, n - 1));
    }
}

/// Appends the lowest `n` bytes of a number.
pub fn push_le(out: &mut Vec<u8>, v: u64, n: usize)
    ensures
        final(out)@ == old(out)@ + le(v as int, n as int),
{
    let mut rest: u64 = v;
    let mut i: usize = 0;
    assert(out@ + le(v as int, n as int) =~= old(out)@ + le(v as int, n as int));
    while i < n
        invariant
            i <= n,
            out@ + le(rest as int, n - i) == old(out)@ + le(v as int, n as int),
        decreases n - i,
    {
        let ghost before = out@;
        out.push((rest % 256) as u8);
        assert(out@ + le(rest as int / 256, n - i - 1) =~= before + le(rest as int, n - i));
        rest = rest / 256;
        i = i + 1;
    }
    assert(out@ + le(rest as int, 0) =~= out@);
}

/// Appends a 32-bit number.
pub fn push_word(out: &mut Vec<u8>, v: u32)
    ensures
        final(out)@ == old(out)@ + word(v as int),
        final(out)@.len() == old(out)@.len() + 4,
{
    push_le(out, v as u64, 4);
    proof {
        lemma_le_len(v as int, 4);
    }
}

/// Appends the bits of a signed 32-bit number.
pub fn push_signed(out: &mut Vec<u8>, v: i32)
    ensures
        final(out)@ == old(out)@ + word(bits_of(v as int)),
        final(out)@.len() == old(out)@.len() + 4,
{
    let bits: i64 = if v < 0 {
        (v as i64) + 0x1_0000_0000
    } else {
        v as i64
    };
    push_word(out, bits as u32);
}

/// Appends 1 or 0 as a 32-bit number.
pub fn push_flag(out: &mut Vec<u8>, b: bool)
    ensures
        final(out)@ == old(out)@ + word(flag(b)),
        final(out)@.len() == old(out)@.len() + 4,
{
    push_word(out, if b { 1 } else { 0 });
}

/// Appends a 64-bit number.
pub fn push_long(out: &mut Vec<u8>, v: u64)
    ensures
        final(out)@ == old(out)@ + long(v as int),
        final(out)@.len() == old(out)@.len() + 8,
{
    push_le(out, v, 8);
    proof {
        lemma_le_len(v as int, 8);
    }
}

/// Appends zero bytes.
pub fn push_zeros(out: &mut Vec<u8>, n: usize)
    ensures
        final(out)@ == old(out)@ + zeros(n as int),
        final(out)@.len() == old(out)@.len() + n,
{
    let mut i: usize = 0;
    assert(out@ =~= old(out)@ + zeros(0));
    while i < n
        invariant
            i <= n,
            out@ == old(out)@ + zeros(i as int),
        decreases n - i,
    {
        out.push(0);
        i = i + 1;
        assert(out@ =~= old(out)@ + zeros(i as int));
    }
}

/// Appends a part of some bytes.
pub fn push_bytes(out: &mut Vec<u8>, b: &[u8], from: usize, to: usize)
    requires
        from <= to <= b@.len(),
    ensures
        final(out)@ == old(out)@ + b@.subrange(from as int, to as int),
        final(out)@.len() == old(out)@.len() + (to - from),
{
    let mut i: usize = from;
    assert(out@ =~= old(out)@ + b@.subrange(from as int, from as int));
    while i < to
        invariant
            from <= i <= to <= b@.len(),
            out@ == old(out)@ + b@.subrange(from as int, i as int),
        decreases to - i,
    {
        out.push(b[i]);
        i = i + 1;
        assert(out@ =~= old(out)@ + b@.subrange(from as int, i as int));
    }
}

/// Appends a text in a field of `n` bytes.
pub fn push_field(out: &mut Vec<u8>, t: &str, n: usize)
    requires
        1 <= n,
    ensures
        final(out)@ == old(out)@ + field(t@, n as int),
        final(out)@.len() == old(out)@.len() + n,
{
    let b: &[u8] = t.as_bytes();
    let kept: usize = if b.len() < n {
        b.len()
    } else {
        n - 1
    };
    push_bytes(out, b, 0, kept);
    push_zeros(out, n - kept);
    assert(out@ =~= old(out)@ + field(t@, n as int));
}

} // verus!
