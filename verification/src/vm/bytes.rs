//! Little-endian layout of the immediates that follow an opcode.

use vstd::prelude::*;

verus! {

/// The machine's only value type: a 32-bit signed integer.
pub type Word = i32;

/// The two bytes of a 16-bit operand, least significant first.
pub open spec fn u16_le(v: u16) -> Seq<u8> {
    seq![(v % 256) as u8, (v / 256) as u8]
}

/// The 16-bit operand whose low byte is `lo` and whose high byte is `hi`.
pub open spec fn u16_from_le(lo: u8, hi: u8) -> u16 {
    (lo + 256 * hi) as u16
}

/// The two's-complement bit pattern of a word, read as an unsigned number.
pub open spec fn word_bits(v: Word) -> int {
    if v < 0 {
        v + 0x1_0000_0000
    } else {
        v as int
    }
}

/// The word whose two's-complement bit pattern is `u`, for `u` below 2^32.
pub open spec fn word_of_bits(u: int) -> Word {
    if u >= 0x8000_0000 {
        (u - 0x1_0000_0000) as Word
    } else {
        u as Word
    }
}

/// The four bytes of a word immediate, least significant first.
pub open spec fn word_le(v: Word) -> Seq<u8> {
    let u = word_bits(v);
    seq![
        (u % 256) as u8,
        (u / 0x100 % 256) as u8,
        (u / 0x1_0000 % 256) as u8,
        (u / 0x100_0000) as u8,
    ]
}

/// The word immediate made of four bytes, least significant first.
pub open spec fn word_from_le(b0: u8, b1: u8, b2: u8, b3: u8) -> Word {
    word_of_bits(b0 + 0x100 * b1 + 0x1_0000 * b2 + 0x100_0000 * b3)
}

/// The 16-bit operand stored in `bytes` at offset `at`.
pub open spec fn u16_at(bytes: Seq<u8>, at: int) -> u16
    recommends
        0 <= at,
        at + 2 <= bytes.len(),
{
    u16_from_le(bytes[at], bytes[at + 1])
}

/// The word immediate stored in `bytes` at offset `at`.
pub open spec fn word_at(bytes: Seq<u8>, at: int) -> Word
    recommends
        0 <= at,
        at + 4 <= bytes.len(),
{
    word_from_le(bytes[at], bytes[at + 1], bytes[at + 2], bytes[at + 3])
}

/// Splits a 16-bit operand into its little-endian bytes.
pub fn encode_u16(v: u16) -> (out: [u8; 2])
    ensures
        out@ == u16_le(v),
{
    let lo: u8 = (v % 256) as u8;
    let hi: u8 = (v / 256) as u8;
    let out = [lo, hi];
    out
}

/// Joins two little-endian bytes into a 16-bit operand.
pub fn decode_u16(lo: u8, hi: u8) -> (v: u16)
    ensures
        v == u16_from_le(lo, hi),
{
    let l: u16 = lo as u16;
    let h: u16 = hi as u16;
    l + 256 * h
}

/// Splits a word into its little-endian bytes.
pub fn encode_word(v: Word) -> (out: [u8; 4])
    ensures
        out@ == word_le(v),
{
    let u: u32 = if v < 0 {
        (v as i64 + 0x1_0000_0000) as u32
    } else {
        v as u32
    };
    let b0: u8 = (u % 256) as u8;
    let b1: u8 = (u / 0x100 % 256) as u8;
    let b2: u8 = (u / 0x1_0000 % 256) as u8;
    let b3: u8 = (u / 0x100_0000) as u8;
    let out = [b0, b1, b2, b3];
    out
}

/// Joins four little-endian bytes into a word.
pub fn decode_word(b0: u8, b1: u8, b2: u8, b3: u8) -> (v: Word)
    ensures
        v == word_from_le(b0, b1, b2, b3),
{
    let u: u32 = b0 as u32 + 0x100 * (b1 as u32) + 0x1_0000 * (b2 as u32) + 0x100_0000 * (
    b3 as u32);
    if u >= 0x8000_0000 {
        (u as i64 - 0x1_0000_0000) as i32
    } else {
        u as i32
    }
}

/// Decoding the encoding of a 16-bit operand gives the operand back.
pub proof fn lemma_u16_roundtrip(v: u16)
    ensures
        u16_le(v).len() == 2,
        u16_from_le(u16_le(v)[0], u16_le(v)[1]) == v,
{
}

/// Decoding the encoding of a word gives the word back.
pub proof fn lemma_word_roundtrip(v: Word)
    ensures
        word_le(v).len() == 4,
        word_from_le(word_le(v)[0], word_le(v)[1], word_le(v)[2], word_le(v)[3]) == v,
{
}

/// Encoding the word read from four bytes gives the four bytes back.
pub proof fn lemma_bytes_roundtrip(b0: u8, b1: u8, b2: u8, b3: u8)
    ensures
        word_le(word_from_le(b0, b1, b2, b3)) == seq![b0, b1, b2, b3],
{
    let u: int = b0 + 0x100 * b1 + 0x1_0000 * b2 + 0x100_0000 * b3;
    assert(u / 0x100 == b1 + 0x100 * b2 + 0x1_0000 * b3);
    assert(u / 0x1_0000 == b2 + 0x100 * b3);
}

} // verus!
