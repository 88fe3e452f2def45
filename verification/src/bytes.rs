//! Byte buffers: appending, and 32-bit words in the byte order of the GPU.

use vstd::prelude::*;

verus! {

/// `count` zero bytes.
pub open spec fn zeros(count: nat) -> Seq<u8> {
    Seq::new(count, |i: int| 0u8)
}

/// Appends `bytes` to `data`.
pub fn append(data: &mut Vec<u8>, bytes: &[u8])
    ensures
        final(data)@ == old(data)@ + bytes@,
{
    data.extend_from_slice(bytes);
}

/// Appends `count` zero bytes to `data`.
pub fn append_zeros(data: &mut Vec<u8>, count: usize)
    ensures
        final(data)@ == old(data)@ + zeros(count as nat),
{
    let mut done: usize = 0;
    while done < count
        invariant
            done <= count,
            data@ == old(data)@ + zeros(done as nat),
        decreases count - done,
    {
        data.push(0u8);
        done += 1;
    }
}

/// The four bytes of a 32-bit word, least significant first: the order in
/// which the GPU reads a word from a buffer.
pub open spec fn word_bytes(word: u32) -> Seq<u8> {
    seq![
        (word % 256) as u8,
        (word / 256 % 256) as u8,
        (word / 65536 % 256) as u8,
        (word / 16777216) as u8,
    ]
}

/// The word that four bytes hold, least significant first.
pub open spec fn word_of(bytes: Seq<u8>) -> int {
    bytes[0] + 256 * bytes[1] + 65536 * bytes[2] + 16777216 * bytes[3]
}

/// Reading the bytes of a word gives the word back.
pub proof fn lemma_word_round_trip(word: u32)
    ensures
        word_bytes(word).len() == 4,
        word_of(word_bytes(word)) == word,
{
}

/// Appends the bytes of `word` to `data`, least significant first.
pub fn append_word(data: &mut Vec<u8>, word: u32)
    ensures
        final(data)@ == old(data)@ + word_bytes(word),
{
    data.push((word % 256) as u8);
    data.push((word / 256 % 256) as u8);
    data.push((word / 65536 % 256) as u8);
    data.push((word / 16777216) as u8);
}

} // verus!
