//! One bit per slot.

use vstd::prelude::*;

verus! {

/// A fixed number of bits, packed into 64-bit words.
#[derive(Debug)]
pub struct Bitmap {
    /// The words, lowest slots first.
    pub words: Vec<u64>,
}

/// Bit `b` of a word.
pub open spec fn word_bit(word: u64, b: u64) -> bool {
    (word >> b) & 1u64 == 1u64
}

proof fn lemma_set_bit(word: u64, b: u64)
    requires
        b < 64,
    ensures
        forall|c: u64|
            c < 64 ==> #[trigger] word_bit(word | (1u64 << b), c) == (c == b || word_bit(word, c)),
{
    assert forall|c: u64| c < 64 implies #[trigger] word_bit(word | (1u64 << b), c) == (c == b
        || word_bit(word, c)) by {
        assert(((word | (1u64 << b)) >> c) & 1u64 == (if c == b {
            1u64
        } else {
            (word >> c) & 1u64
        })) by (bit_vector)
            requires
                b < 64,
                c < 64,
        ;
    }
}

proof fn lemma_clear_bit(word: u64, b: u64)
    requires
        b < 64,
    ensures
        forall|c: u64|
            c < 64 ==> #[trigger] word_bit(word & !(1u64 << b), c) == (c != b && word_bit(word, c)),
{
    assert forall|c: u64| c < 64 implies #[trigger] word_bit(word & !(1u64 << b), c) == (c != b
        && word_bit(word, c)) by {
        assert(((word & !(1u64 << b)) >> c) & 1u64 == (if c == b {
            0u64
        } else {
            (word >> c) & 1u64
        })) by (bit_vector)
            requires
                b < 64,
                c < 64,
        ;
    }
}

impl Bitmap {
    /// How many slots the bitmap has room for.
    pub open spec fn capacity(&self) -> int {
        (self.words@.len() * 64) as int
    }

    /// The bit of slot `i` is set.
    pub open spec fn has(&self, i: int) -> bool {
        word_bit(self.words@[i / 64], (i % 64) as u64)
    }

    /// A bitmap for `slots` slots, all clear.
    pub fn new(slots: u32) -> (r: Bitmap)
        requires
            slots + 63 <= u32::MAX,
        ensures
            r.words@.len() == (slots + 63) / 64,
            slots <= r.capacity(),
            forall|i: int| 0 <= i < r.capacity() ==> !#[trigger] r.has(i),
    {
        let count: usize = ((slots + 63) / 64) as usize;
        let mut words: Vec<u64> = Vec::new();
        while words.len() < count
            invariant
                words@.len() <= count,
                forall|k: int| 0 <= k < words@.len() ==> #[trigger] words@[k] == 0,
            decreases count - words@.len(),
        {
            words.push(0);
        }
        let r: Bitmap = Bitmap { words };
        proof {
            assert forall|i: int| 0 <= i < r.capacity() implies !#[trigger] r.has(i) by {
                let c = (i % 64) as u64;
                assert(r.words@[i / 64] == 0);
                assert((0u64 >> c) & 1u64 == 0u64) by (bit_vector)
                    requires
                        c < 64,
                ;
            }
        }
        r
    }

    /// Whether the bit of a slot is set.
    pub fn get(&self, slot: u32) -> (r: bool)
        requires
            slot < self.capacity(),
        ensures
            r == self.has(slot as int),
    {
        let word: u32 = slot / 64;
        let bit: u32 = slot % 64;
        (self.words[word as usize] >> (bit as u64)) & 1 == 1
    }

    /// Sets the bit of a slot.
    pub fn set(&mut self, slot: u32)
        requires
            slot < old(self).capacity(),
        ensures
            final(self).capacity() == old(self).capacity(),
            forall|i: int|
                0 <= i < old(self).capacity() ==> #[trigger] final(self).has(i) == (i == slot
                    || old(self).has(i)),
    {
        let word: usize = (slot / 64) as usize;
        let bit: u64 = (slot % 64) as u64;
        let ghost before = self.words@[word as int];
        self.words.set(word, self.words[word] | (1u64 << bit));
        proof {
            lemma_set_bit(before, bit);
            assert forall|i: int| 0 <= i < old(self).capacity() implies #[trigger] self.has(i) == (i
                == slot || old(self).has(i)) by {
                if i / 64 == word {
                    assert(self.words@[i / 64] == before | (1u64 << bit));
                }
            }
        }
    }

    /// Clears the bit of a slot.
    pub fn clear(&mut self, slot: u32)
        requires
            slot < old(self).capacity(),
        ensures
            final(self).capacity() == old(self).capacity(),
            forall|i: int|
                0 <= i < old(self).capacity() ==> #[trigger] final(self).has(i) == (i != slot
                    && old(self).has(i)),
    {
        let word: usize = (slot / 64) as usize;
        let bit: u64 = (slot % 64) as u64;
        let ghost before = self.words@[word as int];
        self.words.set(word, self.words[word] & !(1u64 << bit));
        proof {
            lemma_clear_bit(before, bit);
            assert forall|i: int| 0 <= i < old(self).capacity() implies #[trigger] self.has(i) == (i
                != slot && old(self).has(i)) by {
                if i / 64 == word {
                    assert(self.words@[i / 64] == before & !(1u64 << bit));
                }
            }
        }
    }
}

} // verus!
