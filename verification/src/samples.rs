//! Decoding raw capture bytes into 32-bit samples.
//!
//! The record connection delivers a byte buffer; every aligned 4-byte chunk
//! is one little-endian 32-bit word — the bit pattern of one float sample.
//! The words are kept as `u32` here; the unverified shell reinterprets each
//! word as a float when it hands samples to the consumer.

use vstd::prelude::*;

verus! {

/// The 32-bit word stored little-endian in the `i`-th aligned 4-byte chunk
/// of `bytes`.
pub open spec fn le_word_at(bytes: Seq<u8>, i: int) -> u32 {
    (bytes[4 * i] + bytes[4 * i + 1] * 0x100 + bytes[4 * i + 2] * 0x1_0000 + bytes[4 * i + 3]
        * 0x100_0000) as u32
}

/// Decode a capture buffer: one sample per aligned 4-byte chunk, little
/// endian, in buffer order; a trailing partial chunk is ignored.
pub fn decode_samples(buffer: &Vec<u8>) -> (samples: Vec<u32>)
    ensures
        samples@.len() == buffer@.len() / 4,
        forall|i: int| 0 <= i < samples@.len() ==> samples@[i] == le_word_at(buffer@, i),
{
    let total = buffer.len();
    let n = total / 4;
    let mut samples: Vec<u32> = Vec::new();
    let mut i: usize = 0;
    while i < n
        invariant
            total == buffer@.len(),
            n == buffer@.len() / 4,
            4 * n <= total,
            i <= n,
            samples@.len() == i,
            forall|k: int| 0 <= k < i ==> samples@[k] == le_word_at(buffer@, k),
        decreases n - i,
    {
        let b0 = buffer[4 * i];
        let b1 = buffer[4 * i + 1];
        let b2 = buffer[4 * i + 2];
        let b3 = buffer[4 * i + 3];
        let word: u32 = (b0 as u32) + (b1 as u32) * 0x100 + (b2 as u32) * 0x1_0000 + (b3 as u32)
            * 0x100_0000;
        samples.push(word);
        i += 1;
    }
    samples
}

} // verus!
