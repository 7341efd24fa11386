//! Byte-level primitives of the canonical wire encoding.
//!
//! Every multi-byte integer is written as a fixed-width little-endian word;
//! signed confidences are written as their two's-complement 64-bit image.
//! The encoding is deterministic and bit-stable across machines, which is
//! what makes signatures over encoded opinions interoperable.

use vstd::prelude::*;
use vstd::arithmetic::div_mod::lemma_div_denominator;
use vstd::arithmetic::div_mod::lemma_fundamental_div_mod;

verus! {

/// Little-endian bytes of a 64-bit word value in `[0, 2^64)`.
pub open spec fn spec_enc_word(x: int) -> Seq<u8> {
    seq![
        (x % 256) as u8,
        (x / 256 % 256) as u8,
        (x / 65536 % 256) as u8,
        (x / 16777216 % 256) as u8,
        (x / 4294967296 % 256) as u8,
        (x / 1099511627776 % 256) as u8,
        (x / 281474976710656 % 256) as u8,
        (x / 72057594037927936 % 256) as u8,
    ]
}

/// Value of 8 little-endian bytes.
pub open spec fn spec_dec_u64(s: Seq<u8>) -> int {
    s[0] + s[1] * 256 + s[2] * 65536 + s[3] * 16777216 + s[4] * 4294967296
        + s[5] * 1099511627776 + s[6] * 281474976710656 + s[7] * 72057594037927936
}

/// Append the little-endian bytes of `x` to `out`.
pub fn enc_u64(out: &mut Vec<u8>, x: u64)
    ensures
        final(out)@ == old(out)@ + spec_enc_word(x as int),
{
    out.push((x % 256) as u8);
    out.push((x / 256 % 256) as u8);
    out.push((x / 65536 % 256) as u8);
    out.push((x / 16777216 % 256) as u8);
    out.push((x / 4294967296 % 256) as u8);
    out.push((x / 1099511627776 % 256) as u8);
    out.push((x / 281474976710656 % 256) as u8);
    out.push((x / 72057594037927936 % 256) as u8);
    proof {
        assert(out@ =~= old(out)@ + spec_enc_word(x as int));
    }
}

/// Read the 64-bit word stored little-endian at `bytes[off..off + 8]`.
pub fn dec_u64(bytes: &[u8], off: usize) -> (r: u64)
    requires
        off + 8 <= bytes@.len(),
    ensures
        r as int == spec_dec_u64(bytes@.subrange(off as int, off as int + 8)),
{
    let b0: u64 = bytes[off] as u64;
    let b1: u64 = bytes[off + 1] as u64;
    let b2: u64 = bytes[off + 2] as u64;
    let b3: u64 = bytes[off + 3] as u64;
    let b4: u64 = bytes[off + 4] as u64;
    let b5: u64 = bytes[off + 5] as u64;
    let b6: u64 = bytes[off + 6] as u64;
    let b7: u64 = bytes[off + 7] as u64;
    b0 + b1 * 256 + b2 * 65536 + b3 * 16777216 + b4 * 4294967296 + b5 * 1099511627776
        + b6 * 281474976710656 + b7 * 72057594037927936
}

/// Reading back the encoding of a word restores the word.
pub proof fn lemma_word_codec(x: int)
    requires
        0 <= x < 0x1_0000_0000_0000_0000,
    ensures
        spec_dec_u64(spec_enc_word(x)) == x,
{
    let xi: int = x;
    lemma_div_denominator(xi, 256, 256);
    lemma_div_denominator(xi, 65536, 256);
    lemma_div_denominator(xi, 16777216, 256);
    lemma_div_denominator(xi, 4294967296, 256);
    lemma_div_denominator(xi, 1099511627776, 256);
    lemma_div_denominator(xi, 281474976710656, 256);
    lemma_fundamental_div_mod(xi, 256);
    lemma_fundamental_div_mod(xi / 256, 256);
    lemma_fundamental_div_mod(xi / 65536, 256);
    lemma_fundamental_div_mod(xi / 16777216, 256);
    lemma_fundamental_div_mod(xi / 4294967296, 256);
    lemma_fundamental_div_mod(xi / 1099511627776, 256);
    lemma_fundamental_div_mod(xi / 281474976710656, 256);
    assert(xi / 72057594037927936 < 256);
    assert(xi / 72057594037927936 % 256 == xi / 72057594037927936);
}

/// Two's-complement 64-bit image of a signed value: a number in `[0, 2^64)`.
pub open spec fn i64_image(x: i64) -> int {
    if x >= 0 {
        x as int
    } else {
        x as int + 0x1_0000_0000_0000_0000
    }
}

/// The word whose two's-complement reading is `x`.
pub fn i64_to_word(x: i64) -> (r: u64)
    ensures
        r as int == i64_image(x),
{
    if x >= 0 {
        x as u64
    } else {
        let m: u64 = (-(x + 1)) as u64;
        u64::MAX - m
    }
}

/// Two's-complement reading of a 64-bit word.
pub fn word_to_i64(w: u64) -> (r: i64)
    ensures
        i64_image(r) == w as int,
{
    if w <= i64::MAX as u64 {
        w as i64
    } else {
        let m: i64 = (u64::MAX - w) as i64;
        -m - 1
    }
}

} // verus!
