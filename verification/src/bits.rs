//! Bit-exact reinterpretation between unsigned and two's-complement words.
use vstd::prelude::*;

verus! {

/// The signed 32-bit integer whose two's-complement bit pattern is `v`.
pub open spec fn signed_of(v: u32) -> i32 {
    if v < 0x8000_0000 {
        v as i32
    } else {
        (v - 0x1_0000_0000) as i32
    }
}

/// The bit pattern of the signed 32-bit integer `v`.
pub open spec fn unsigned_of(v: i32) -> u32 {
    if v >= 0 {
        v as u32
    } else {
        (v + 0x1_0000_0000) as u32
    }
}

/// The signed 64-bit integer whose two's-complement bit pattern is `v`.
pub open spec fn signed_of_wide(v: u64) -> i64 {
    if v < 0x8000_0000_0000_0000 {
        v as i64
    } else {
        (v - 0x1_0000_0000_0000_0000) as i64
    }
}

/// The bit pattern of the signed 64-bit integer `v`.
pub open spec fn unsigned_of_wide(v: i64) -> u64 {
    if v >= 0 {
        v as u64
    } else {
        (v + 0x1_0000_0000_0000_0000) as u64
    }
}

/// The upper 32 bits of a 64-bit pattern.
pub open spec fn high_word(v: u64) -> u32 {
    (v / 0x1_0000_0000) as u32
}

/// The lower 32 bits of a 64-bit pattern.
pub open spec fn low_word(v: u64) -> u32 {
    (v % 0x1_0000_0000) as u32
}

/// Reinterprets a signed word as its bit pattern.
pub fn i32_to_bits(v: i32) -> (r: u32)
    ensures
        r == unsigned_of(v),
{
    if v >= 0 {
        v as u32
    } else {
        let below: u32 = (v + 0x7fff_ffff + 1) as u32;
        below + 0x8000_0000
    }
}

/// Reinterprets a bit pattern as a signed word.
pub fn bits_to_i32(v: u32) -> (r: i32)
    ensures
        r == signed_of(v),
{
    if v < 0x8000_0000 {
        v as i32
    } else {
        let below: i32 = (v - 0x8000_0000) as i32;
        below - 0x7fff_ffff - 1
    }
}

/// Reinterprets a signed double word as its bit pattern.
pub fn i64_to_bits(v: i64) -> (r: u64)
    ensures
        r == unsigned_of_wide(v),
{
    if v >= 0 {
        v as u64
    } else {
        let below: u64 = (v + 0x7fff_ffff_ffff_ffff + 1) as u64;
        below + 0x8000_0000_0000_0000
    }
}

/// Reinterprets a 64-bit pattern as a signed double word.
pub fn bits_to_i64(v: u64) -> (r: i64)
    ensures
        r == signed_of_wide(v),
{
    if v < 0x8000_0000_0000_0000 {
        v as i64
    } else {
        let below: i64 = (v - 0x8000_0000_0000_0000) as i64;
        below - 0x7fff_ffff_ffff_ffff - 1
    }
}

/// Splits a 64-bit pattern into its upper and lower words.
pub fn split_words(v: u64) -> (r: (u32, u32))
    ensures
        r.0 == high_word(v),
        r.1 == low_word(v),
{
    let hi: u64 = v / 0x1_0000_0000;
    let lo: u64 = v % 0x1_0000_0000;
    (hi as u32, lo as u32)
}

/// Reinterpreting a bit pattern as signed and back gives the pattern again.
pub proof fn lemma_bits_roundtrip(v: u32)
    ensures
        unsigned_of(signed_of(v)) == v,
{
}

/// Reinterpreting a signed word as bits and back gives the word again.
pub proof fn lemma_signed_roundtrip(v: i32)
    ensures
        signed_of(unsigned_of(v)) == v,
{
}

} // verus!
