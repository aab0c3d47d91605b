//! A fixed-size set of bit positions, stored in 64-bit words.

use vstd::prelude::*;

verus! {

/// Bit `b` (0 is the lowest) of the word `w`.
pub open spec fn word_bit(w: u64, b: u64) -> bool {
    (w >> b) & 1u64 == 1u64
}

/// Position `at` is set in the words `words`: word `at / 64`, bit `at % 64`.
pub open spec fn spec_is_set(words: Seq<u64>, at: int) -> bool {
    &&& 0 <= at < words.len() * 64
    &&& word_bit(words[(at / 64) as int], (at % 64) as u64)
}

proof fn lemma_or_bit(w: u64, b: u64, c: u64)
    requires
        b < 64,
        c < 64,
    ensures
        word_bit(w | (1u64 << b), b),
        c != b ==> word_bit(w | (1u64 << b), c) == word_bit(w, c),
{
    assert(word_bit(w | (1u64 << b), b)) by (bit_vector)
        requires
            b < 64,
    ;
    assert(c != b ==> ((w | (1u64 << b)) >> c) & 1u64 == (w >> c) & 1u64) by (bit_vector)
        requires
            b < 64,
            c < 64,
    ;
}

proof fn lemma_zero_word_has_no_bit(b: u64)
    requires
        b < 64,
    ensures
        !word_bit(0u64, b),
{
    assert((0u64 >> b) & 1u64 == 0u64) by (bit_vector);
}

/// A set of bit positions, from 0 up to a capacity fixed at creation.
pub struct BitSet {
    bits: Vec<u64>,
}

impl BitSet {
    /// The words that hold the bits.
    pub closed spec fn spec_words(&self) -> Seq<u64> {
        self.bits@
    }

    /// A set with room for positions `0..count` (rounded up to the next
    /// multiple of 64, with one more word when `count` is a multiple of 64),
    /// none of them set.
    pub fn new(count: usize) -> (res: BitSet)
        ensures
            res.spec_words().len() == 1 + count / 64,
            forall|i: int| 0 <= i < res.spec_words().len() ==> res.spec_words()[i] == 0,
            forall|at: int| !spec_is_set(res.spec_words(), at),
            count < res.spec_words().len() * 64,
    {
        let count64 = 1 + count / 64;
        let bits: Vec<u64> = vec![0u64; count64];
        let res = BitSet { bits };
        proof {
            assert forall|at: int| !spec_is_set(res.spec_words(), at) by {
                if 0 <= at < res.spec_words().len() * 64 {
                    lemma_zero_word_has_no_bit((at % 64) as u64);
                }
            }
        }
        res
    }

    /// Sets position `at`: word `at / 64` gets bit `at % 64`; nothing else
    /// changes.
    pub fn set(&mut self, at: usize)
        requires
            at / 64 < old(self).spec_words().len(),
        ensures
            final(self).spec_words() == old(self).spec_words().update(
                (at / 64) as int,
                old(self).spec_words()[(at / 64) as int] | (1u64 << ((at % 64) as u64)),
            ),
            spec_is_set(final(self).spec_words(), at as int),
            forall|i: int| i != at ==> spec_is_set(final(self).spec_words(), i) == spec_is_set(old(self).spec_words(), i),
    {
        let segment = at / 64;
        let offset = (at % 64) as u64;
        let word = self.bits[segment] | (1u64 << offset);
        self.bits.set(segment, word);
        proof {
            let old_words = old(self).spec_words();
            let new_words = self.spec_words();
            lemma_or_bit(old_words[(at / 64) as int], offset, offset);
            assert forall|i: int| i != at implies spec_is_set(new_words, i) == spec_is_set(old_words, i) by {
                if 0 <= i < new_words.len() * 64 {
                    if i / 64 == at / 64 {
                        lemma_or_bit(old_words[(at / 64) as int], offset, (i % 64) as u64);
                    }
                }
            }
        }
    }

    /// Clears every position; the capacity stays.
    pub fn clear_all(&mut self)
        ensures
            final(self).spec_words().len() == old(self).spec_words().len(),
            forall|i: int| 0 <= i < final(self).spec_words().len() ==> final(self).spec_words()[i] == 0,
            forall|at: int| !spec_is_set(final(self).spec_words(), at),
    {
        let len = self.bits.len();
        let mut i: usize = 0;
        while i < len
            invariant
                i <= len,
                len == self.bits@.len(),
                len == old(self).spec_words().len(),
                forall|j: int| 0 <= j < i ==> self.bits@[j] == 0,
            decreases len - i,
        {
            self.bits.set(i, 0);
            i = i + 1;
        }
        proof {
            assert forall|at: int| !spec_is_set(self.spec_words(), at) by {
                if 0 <= at < self.spec_words().len() * 64 {
                    lemma_zero_word_has_no_bit((at % 64) as u64);
                }
            }
        }
    }

    /// Calls `fun` with each word's index and value, in index order.
    pub fn for_each<F: Fn(usize, u64)>(&mut self, fun: F)
        requires
            forall|i: int| 0 <= i < old(self).spec_words().len() ==> call_requires(fun, (i as usize, #[trigger] old(self).spec_words()[i])),
        ensures
            final(self).spec_words() == old(self).spec_words(),
            forall|i: int|
                0 <= i < old(self).spec_words().len() ==> call_ensures(
                    fun,
                    (i as usize, #[trigger] old(self).spec_words()[i]),
                    (),
                ),
    {
        let max = self.bits.len();
        let mut i: usize = 0;
        while i < max
            invariant
                i <= max,
                max == self.bits@.len(),
                self.bits@ == old(self).spec_words(),
                forall|j: int| 0 <= j < max ==> call_requires(fun, (j as usize, #[trigger] self.bits@[j])),
                forall|j: int| 0 <= j < i ==> call_ensures(fun, (j as usize, #[trigger] self.bits@[j]), ()),
            decreases max - i,
        {
            fun(i, self.bits[i]);
            i = i + 1;
        }
    }
}

} // verus!
