//! Byte layout of a uniform block.
//!
//! A block is a sequence of 32-bit words, each stored little-endian. Vectors
//! of four lanes are sixteen bytes wide and sixteen-byte aligned, so a block
//! made of such vectors followed by scalars needs padding only at its end.

use vstd::prelude::*;

verus! {

/// Byte `k` of a word in little-endian order.
pub open spec fn le_byte(word: u32, k: int) -> u8 {
    if k == 0 {
        (word & 0xff) as u8
    } else if k == 1 {
        ((word >> 8) & 0xff) as u8
    } else if k == 2 {
        ((word >> 16) & 0xff) as u8
    } else {
        ((word >> 24) & 0xff) as u8
    }
}

/// The bytes of a sequence of words, each word little-endian, in order.
pub open spec fn words_to_bytes(words: Seq<u32>) -> Seq<u8> {
    Seq::new(4 * words.len(), |j: int| le_byte(words[j / 4], j % 4))
}

/// The word that four little-endian bytes stand for.
pub open spec fn le_word(b0: u8, b1: u8, b2: u8, b3: u8) -> u32 {
    (b0 as u32) | ((b1 as u32) << 8) | ((b2 as u32) << 16) | ((b3 as u32) << 24)
}

/// Reading the four bytes of a word back gives the word.
pub proof fn lemma_le_bytes_round_trip(word: u32)
    ensures
        le_word(le_byte(word, 0), le_byte(word, 1), le_byte(word, 2), le_byte(word, 3)) == word,
{
    assert((((word & 0xff) as u8) as u32) | ((((word >> 8) & 0xff) as u8) as u32) << 8 | ((((word
        >> 16) & 0xff) as u8) as u32) << 16 | ((((word >> 24) & 0xff) as u8) as u32) << 24
        == word) by (bit_vector);
}

/// Words can be read back from their bytes: sequences of words with the same
/// bytes are the same.
pub proof fn lemma_bytes_determine_words(x: Seq<u32>, y: Seq<u32>)
    requires
        words_to_bytes(x) == words_to_bytes(y),
    ensures
        x == y,
{
    let bx = words_to_bytes(x);
    let by = words_to_bytes(y);
    assert(bx.len() == 4 * x.len());
    assert(by.len() == 4 * y.len());
    assert forall|k: int| 0 <= k < x.len() implies x[k] == y[k] by {
        assert(bx[4 * k] == le_byte(x[k], 0) && by[4 * k] == le_byte(y[k], 0));
        assert(bx[4 * k + 1] == le_byte(x[k], 1) && by[4 * k + 1] == le_byte(y[k], 1));
        assert(bx[4 * k + 2] == le_byte(x[k], 2) && by[4 * k + 2] == le_byte(y[k], 2));
        assert(bx[4 * k + 3] == le_byte(x[k], 3) && by[4 * k + 3] == le_byte(y[k], 3));
        lemma_le_bytes_round_trip(x[k]);
        lemma_le_bytes_round_trip(y[k]);
    }
    assert(x =~= y);
}

/// Writes `word` little-endian into bytes `4 * index .. 4 * index + 4` of
/// `block` and leaves every other byte as it was.
pub(crate) fn store_word<const N: usize>(block: &mut [u8; N], index: usize, word: u32)
    requires
        4 * index + 4 <= N,
    ensures
        forall|j: int|
            0 <= j < N ==> #[trigger] final(block)@[j] == (if 4 * index <= j < 4 * index + 4 {
                le_byte(word, j - 4 * index)
            } else {
                old(block)@[j]
            }),
{
    let base: usize = 4 * index;
    block[base] = (word & 0xff) as u8;
    block[base + 1] = ((word >> 8) & 0xff) as u8;
    block[base + 2] = ((word >> 16) & 0xff) as u8;
    block[base + 3] = ((word >> 24) & 0xff) as u8;
}

} // verus!
