//! Buffer contents as the bytes that are uploaded to the device.

use vstd::prelude::*;

verus! {

/// Order in which the four bytes of a word lie in memory.
#[derive(Clone, Copy, Debug, PartialEq, Eq, Structural)]
pub enum ByteOrder {
    /// Least significant byte first.
    Little,
    /// Most significant byte first.
    Big,
}

/// The byte of `word` with significance `place`: place 0 is the least
/// significant byte, place 3 the most significant.
pub open spec fn byte_of(word: u32, place: int) -> u8 {
    if place == 0 {
        (word % 0x100) as u8
    } else if place == 1 {
        (word / 0x100 % 0x100) as u8
    } else if place == 2 {
        (word / 0x1_0000 % 0x100) as u8
    } else {
        (word / 0x100_0000 % 0x100) as u8
    }
}

/// The byte at offset `k` (0 to 3) of `word` as it lies in memory.
pub open spec fn byte_in_memory(word: u32, k: int, order: ByteOrder) -> u8 {
    match order {
        ByteOrder::Little => byte_of(word, k),
        ByteOrder::Big => byte_of(word, 3 - k),
    }
}

/// The bytes of a slice of words as it lies in memory: four bytes a word,
/// the words in their order.
pub open spec fn in_memory(words: Seq<u32>, order: ByteOrder) -> Seq<u8> {
    Seq::new(4 * words.len(), |k: int| byte_in_memory(words[k / 4], k % 4, order))
}

/// Whether `bytes` is what `words` is in memory on some machine: the byte
/// order is one of the two, the same for every word.
pub open spec fn native(words: Seq<u32>, bytes: Seq<u8>) -> bool {
    bytes == in_memory(words, ByteOrder::Little) || bytes == in_memory(words, ByteOrder::Big)
}

/// `bytemuck::cast_slice` from `u32` to `u8`, copied into a vector. The cast
/// reinterprets the memory of the slice, so the result is the words' bytes in
/// the byte order of the machine. From `u32` to `u8` the cast cannot fail:
/// `u8` needs no alignment and every length in bytes is a whole number of
/// `u8`s.
#[verifier::external_body]
fn cast_words(words: &Vec<u32>) -> (bytes: Vec<u8>)
    ensures
        native(words@, bytes@),
{
    bytemuck::cast_slice::<u32, u8>(words.as_slice()).to_vec()
}

/// The bytes of `words` as a buffer is initialised with them.
pub fn words_to_bytes(words: &Vec<u32>) -> (bytes: Vec<u8>)
    ensures
        native(words@, bytes@),
        bytes@.len() == 4 * words@.len(),
{
    cast_words(words)
}

} // verus!
