//! Text: numbers in decimal and hexadecimal, padding, lines.

use vstd::prelude::*;

verus! {

/// `String::push` appends one character to the end of the string.
pub assume_specification[ String::push ](s: &mut String, c: char)
    ensures
        final(s)@ == old(s)@.push(c),
;

/// The character of a digit in base 16 or below.
pub open spec fn digit(d: int) -> char {
    if d < 10 {
        (48 + d) as char
    } else {
        (87 + d) as char
    }
}

/// The digits of a number in a base, without leading zeros.
pub open spec fn digits(n: nat, base: nat) -> Seq<char>
    decreases n,
{
    if base < 2 || n < base {
        seq![digit(n as int)]
    } else {
        proof {
            vstd::arithmetic::div_mod::lemma_div_decreases(n as int, base as int);
        }
        digits(n / base, base).push(digit((n % base) as int))
    }
}

/// A number in decimal.
pub open spec fn decimal(n: int) -> Seq<char> {
    digits(n as nat, 10)
}

/// `count` times the same character.
pub open spec fn repeated(c: char, count: int) -> Seq<char> {
    Seq::new(count as nat, |i: int| c)
}

/// Text with characters added in front up to a width.
pub open spec fn padded_left(t: Seq<char>, c: char, width: int) -> Seq<char> {
    if t.len() < width {
        repeated(c, width - t.len()) + t
    } else {
        t
    }
}

/// A number in hexadecimal, with zeros in front up to a width.
pub open spec fn hex(n: int, width: int) -> Seq<char> {
    padded_left(digits(n as nat, 16), '0', width)
}

/// A number in hexadecimal behind `0x`, with zeros in between up to a width of digits.
pub open spec fn hex_prefixed(n: int, width: int) -> Seq<char> {
    seq!['0', 'x'] + hex(n, width)
}

fn push_digit(o: &mut String, d: u8)
    requires
        d < 16,
    ensures
        final(o)@ == old(o)@.push(digit(d as int)),
{
    if d < 10 {
        o.push((48 + d) as char);
    } else {
        o.push((87 + d) as char);
    }
}

/// Appends the digits of a number in a base.
pub fn push_digits(o: &mut String, n: u64, base: u64)
    requires
        2 <= base <= 16,
    ensures
        final(o)@ == old(o)@ + digits(n as nat, base as nat),
    decreases n,
{
    if n < base {
        push_digit(o, n as u8);
        assert(o@ =~= old(o)@ + digits(n as nat, base as nat));
    } else {
        proof {
            vstd::arithmetic::div_mod::lemma_div_decreases(n as int, base as int);
        }
        push_digits(o, n / base, base);
        push_digit(o, (n % base) as u8);
        assert(o@ =~= old(o)@ + digits(n as nat, base as nat));
    }
}

/// Appends a number in decimal.
pub fn push_decimal(o: &mut String, n: u64)
    ensures
        final(o)@ == old(o)@ + decimal(n as int),
{
    push_digits(o, n, 10);
}

/// A number in decimal.
pub fn decimal_text(n: u64) -> (r: String)
    ensures
        r@ == decimal(n as int),
{
    let mut o: String = String::new();
    push_decimal(&mut o, n);
    assert(o@ =~= decimal(n as int));
    o
}

/// Appends the same character `count` times.
pub fn push_repeated(o: &mut String, c: char, count: usize)
    ensures
        final(o)@ == old(o)@ + repeated(c, count as int),
{
    let mut i: usize = 0;
    assert(o@ =~= old(o)@ + repeated(c, 0));
    while i < count
        invariant
            i <= count,
            o@ == old(o)@ + repeated(c, i as int),
        decreases count - i,
    {
        o.push(c);
        i = i + 1;
        assert(o@ =~= old(o)@ + repeated(c, i as int));
    }
}

/// Appends text with characters added in front up to a width.
pub fn push_padded_left(o: &mut String, t: &str, c: char, width: usize)
    ensures
        final(o)@ == old(o)@ + padded_left(t@, c, width as int),
{
    let len: usize = t.unicode_len();
    if len < width {
        push_repeated(o, c, width - len);
    }
    o.append(t);
    assert(o@ =~= old(o)@ + padded_left(t@, c, width as int));
}

/// Appends a number in hexadecimal with zeros in front up to a width.
pub fn push_hex(o: &mut String, n: u64, width: usize)
    ensures
        final(o)@ == old(o)@ + hex(n as int, width as int),
{
    let mut t: String = String::new();
    push_digits(&mut t, n, 16);
    assert(t@ =~= digits(n as nat, 16));
    push_padded_left(o, t.as_str(), '0', width);
}

/// Appends a number in hexadecimal behind `0x`.
pub fn push_hex_prefixed(o: &mut String, n: u64, width: usize)
    ensures
        final(o)@ == old(o)@ + hex_prefixed(n as int, width as int),
{
    o.push('0');
    o.push('x');
    push_hex(o, n, width);
    assert(o@ =~= old(o)@ + hex_prefixed(n as int, width as int));
}

/// The characters of a text.
pub fn characters(t: &str) -> (r: Vec<char>)
    ensures
        r@ == t@,
{
    let mut r: Vec<char> = Vec::new();
    for c in iter: t.chars()
        invariant
            r@ == iter.seq().take(iter.index() as int),
            iter.seq() == t@,
    {
        r.push(c);
        assert(r@ =~= iter.seq().take(iter.index() as int + 1));
    }
    assert(r@ =~= t@);
    r
}

/// Appends a part of a character sequence.
pub fn push_part(o: &mut String, chars: &Vec<char>, from: usize, to: usize)
    requires
        from <= to <= chars@.len(),
    ensures
        final(o)@ == old(o)@ + chars@.subrange(from as int, to as int),
{
    let mut i: usize = from;
    assert(o@ =~= old(o)@ + chars@.subrange(from as int, from as int));
    while i < to
        invariant
            from <= i <= to <= chars@.len(),
            o@ == old(o)@ + chars@.subrange(from as int, i as int),
        decreases to - i,
    {
        o.push(chars[i]);
        i = i + 1;
        assert(o@ =~= old(o)@ + chars@.subrange(from as int, i as int));
    }
}

/// The length of a text in bytes.
pub open spec fn byte_len(t: Seq<char>) -> int {
    vstd::utf8::encode_utf8(t).len() as int
}

/// The length of a text in bytes.
pub fn byte_count(t: &str) -> (r: usize)
    ensures
        r == byte_len(t@),
{
    t.as_bytes().len()
}

/// A character takes four bytes at most.
pub proof fn lemma_byte_len_bound(t: Seq<char>)
    ensures
        byte_len(t) <= 4 * t.len(),
    decreases t.len(),
{
    if t.len() > 0 {
        lemma_byte_len_bound(t.drop_first());
    }
}

/// A 64-bit number has no more than 64 digits in any base.
pub proof fn lemma_digits_len(n: nat, base: nat, k: nat)
    requires
        2 <= base,
        n < vstd::arithmetic::power2::pow2(k),
    ensures
        1 <= digits(n, base).len() <= k + 1,
    decreases n,
{
    if n >= base {
        vstd::arithmetic::div_mod::lemma_div_decreases(n as int, base as int);
        if k == 0 {
            vstd::arithmetic::power2::lemma2_to64();
        } else {
            vstd::arithmetic::power2::lemma_pow2_unfold(k);
            assert(n / base <= n / 2) by (nonlinear_arith)
                requires
                    2 <= base,
            ;
            lemma_digits_len(n / base, base, (k - 1) as nat);
        }
    }
}

/// A 64-bit number in decimal is a short text.
pub proof fn lemma_decimal_len(n: u64)
    ensures
        decimal(n as int).len() <= 65,
{
    vstd::arithmetic::power2::lemma2_to64();
    vstd::arithmetic::power2::lemma2_to64_rest();
    lemma_digits_len(n as nat, 10, 64);
}

/// Two texts one behind the other.
pub fn joined(a: &str, b: &str) -> (r: String)
    ensures
        r@ == a@ + b@,
{
    let mut o: String = String::new();
    o.append(a);
    o.append(b);
    assert(o@ =~= a@ + b@);
    o
}

/// Whether two texts are the same.
pub fn same(a: &str, b: &str) -> (r: bool)
    ensures
        r == (a@ == b@),
{
    let x: Vec<char> = characters(a);
    let y: Vec<char> = characters(b);
    if x.len() != y.len() {
        return false;
    }
    let mut i: usize = 0;
    while i < x.len()
        invariant
            i <= x@.len(),
            x@ == a@,
            y@ == b@,
            x@.len() == y@.len(),
            forall|j: int| 0 <= j < i ==> x@[j] == y@[j],
        decreases x@.len() - i,
    {
        if x[i] != y[i] {
            return false;
        }
        i = i + 1;
    }
    assert(a@ =~= b@);
    true
}

/// The text, or the empty text where there is none.
pub open spec fn or_empty(t: Option<String>) -> Seq<char> {
    match t {
        Some(s) => s@,
        None => ""@,
    }
}

/// The text, or the empty text where there is none.
pub fn unwrap_or_empty(t: &Option<String>) -> (r: &str)
    ensures
        r@ == or_empty(*t),
{
    match t {
        Some(s) => s.as_str(),
        None => "",
    }
}

} // verus!
