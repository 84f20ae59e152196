//! Words as the bytes that go over the wire to the device.

use vstd::prelude::*;

verus! {

/// `bytemuck::cast_slice` from 32-bit words to bytes, copied into a vector.
/// The cast reinterprets the words' memory, so it cannot fail for this pair
/// of types and yields four bytes per word. Which byte of a word comes first
/// is the machine's choice, and nothing is claimed about it here.
#[verifier::external_body]
fn cast_words(words: &[u32]) -> (bytes: Vec<u8>)
    ensures
        bytes@.len() == 4 * words@.len(),
{
    bytemuck::cast_slice::<u32, u8>(words).to_vec()
}

/// The bytes of a run of words, in memory order: four per word.
pub fn word_bytes(words: &Vec<u32>) -> (bytes: Vec<u8>)
    ensures
        bytes@.len() == 4 * words@.len(),
{
    cast_words(words.as_slice())
}

} // verus!
