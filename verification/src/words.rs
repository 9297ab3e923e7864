//! Buffers of 32-bit words and the bytes that the device receives.
//!
//! Every value that the viewer shares with a GPU program is a sequence of
//! 32-bit words: an unsigned integer as it is, a binary32 number as its bit
//! pattern. The device is handed the bytes of those words as they lie in
//! memory.

use vstd::prelude::*;

verus! {

/// Byte `k` of a word, byte 0 being the least significant.
pub open spec fn byte_of(word: u32, k: int) -> u8 {
    if k == 0 {
        (word % 256) as u8
    } else if k == 1 {
        ((word / 0x100) % 256) as u8
    } else if k == 2 {
        ((word / 0x1_0000) % 256) as u8
    } else {
        ((word / 0x100_0000) % 256) as u8
    }
}

/// The bytes of `words`, least significant byte of each word first.
pub open spec fn le_bytes(words: Seq<u32>) -> Seq<u8> {
    Seq::new(4 * words.len(), |i: int| byte_of(words[i / 4], i % 4))
}

/// The bytes of `words`, most significant byte of each word first.
pub open spec fn be_bytes(words: Seq<u32>) -> Seq<u8> {
    Seq::new(4 * words.len(), |i: int| byte_of(words[i / 4], 3 - i % 4))
}

/// The bytes of `words` as they may lie in memory: in one of the two byte
/// orders, the same for every word.
pub open spec fn is_memory_image(bytes: Seq<u8>, words: Seq<u32>) -> bool {
    bytes == le_bytes(words) || bytes == be_bytes(words)
}

/// Calls `bytemuck::cast_slice` to view the words as bytes, and copies the
/// bytes out. The cast keeps the memory as it is and only changes the
/// element type, so the result has four bytes for each word, in the byte
/// order of the machine. From `u32` to `u8` the cast cannot fail: the
/// target has the weaker alignment and every length is a whole number of
/// bytes.
#[verifier::external_body]
pub(crate) fn cast_words(words: &Vec<u32>) -> (bytes: Vec<u8>)
    ensures
        is_memory_image(bytes@, words@),
{
    bytemuck::cast_slice::<u32, u8>(words.as_slice()).to_vec()
}

} // verus!
