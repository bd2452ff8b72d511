//! Little-endian layout of 32-bit words on the wire.
//!
//! Command values and telemetry fields travel as IEEE-754 binary32
//! numbers. This crate never computes with them: it carries each one as
//! the 32-bit word of its bit pattern, so that what is sent is what was
//! given, bit for bit.

use vstd::prelude::*;

verus! {

/// The four bytes of `word`, least significant first.
pub open spec fn le_bytes(word: u32) -> Seq<u8> {
    seq![
        (word % 256) as u8,
        (word / 256 % 256) as u8,
        (word / 65536 % 256) as u8,
        (word / 16777216) as u8,
    ]
}

/// The word that the four bytes of `bytes` from index `at` on spell,
/// least significant first.
pub open spec fn le_word(bytes: Seq<u8>, at: int) -> u32
    recommends
        0 <= at,
        at + 4 <= bytes.len(),
{
    (bytes[at] + 256 * bytes[at + 1] + 65536 * bytes[at + 2] + 16777216 * bytes[at + 3]) as u32
}

/// Splits `word` into its little-endian bytes.
pub fn word_to_le(word: u32) -> (bytes: [u8; 4])
    ensures
        bytes@ == le_bytes(word),
{
    let b0: u8 = (word % 256) as u8;
    let b1: u8 = (word / 256 % 256) as u8;
    let b2: u8 = (word / 65536 % 256) as u8;
    let b3: u8 = (word / 16777216) as u8;
    let bytes: [u8; 4] = [b0, b1, b2, b3];
    assert(bytes@ =~= le_bytes(word));
    bytes
}

/// Reads the little-endian word that starts at `bytes[at]`.
pub fn word_from_le(bytes: &[u8], at: usize) -> (word: u32)
    requires
        at + 4 <= bytes@.len(),
    ensures
        word == le_word(bytes@, at as int),
{
    let b0: u32 = bytes[at] as u32;
    let b1: u32 = bytes[at + 1] as u32;
    let b2: u32 = bytes[at + 2] as u32;
    let b3: u32 = bytes[at + 3] as u32;
    b0 + 256 * b1 + 65536 * b2 + 16777216 * b3
}

/// Decoding the bytes of a word gives the word back, bit for bit.
pub proof fn lemma_word_round_trip(word: u32)
    ensures
        le_bytes(word).len() == 4,
        le_word(le_bytes(word), 0) == word,
{
}

/// Encoding the word that four bytes spell gives those bytes back.
pub proof fn lemma_bytes_round_trip(bytes: Seq<u8>)
    requires
        bytes.len() == 4,
    ensures
        le_bytes(le_word(bytes, 0)) == bytes,
{
    assert(le_bytes(le_word(bytes, 0)) =~= bytes);
}

/// A word decodes to itself from wherever its bytes lie in a buffer.
pub proof fn lemma_word_embedded(buffer: Seq<u8>, at: int, word: u32)
    requires
        0 <= at,
        at + 4 <= buffer.len(),
        buffer.subrange(at, at + 4) == le_bytes(word),
    ensures
        le_word(buffer, at) == word,
{
    let span = buffer.subrange(at, at + 4);
    assert(span[0] == buffer[at]);
    assert(span[1] == buffer[at + 1]);
    assert(span[2] == buffer[at + 2]);
    assert(span[3] == buffer[at + 3]);
}

} // verus!
