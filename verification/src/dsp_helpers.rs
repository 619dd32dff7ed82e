//! Fixed-point helpers shared by the decoder, the voices and the mixer.
//!
//! Every helper is stated over unbounded integers: an arithmetic right shift
//! by `k` is floor division by `2^k`, and masking off bit 0 rounds down to the
//! nearest even number.

use vstd::arithmetic::power2::{lemma2_to64, lemma_pow2_strictly_increases, pow2};
use vstd::bits::{lemma_u32_shl_is_mul, lemma_u8_shr_is_div};
use vstd::prelude::*;

verus! {

/// `value` limited to the signed 16-bit range.
pub open spec fn clamp16(value: int) -> int {
    if value < -32768 {
        -32768
    } else if value > 32767 {
        32767
    } else {
        value
    }
}

/// `value` reduced modulo 2^16 into the signed 16-bit range, as a
/// two's-complement register of that width would hold it.
pub open spec fn wrap16(value: int) -> int {
    (value + 32768) % 65536 - 32768
}

/// `value` rounded down to an even number (bit 0 cleared).
pub open spec fn clear_low_bit(value: int) -> int {
    value - value % 2
}

/// A register byte read as a two's-complement number.
pub open spec fn signed8(value: u8) -> int {
    if value < 128 {
        value as int
    } else {
        value as int - 256
    }
}

/// `value` scaled by a signed volume register: their product divided by
/// 128, rounded towards negative infinity.
pub open spec fn scale_by_volume(value: int, volume: u8) -> int {
    (value * signed8(volume)) / 128
}

/// Whether bit `index` of `mask` is set; bit 0 is the lowest.
pub open spec fn mask_bit(mask: u8, index: int) -> bool {
    (mask as int / pow2(index as nat) as int) % 2 == 1
}

/// Limits `value` to the signed 16-bit range.
pub fn clamp(value: i32) -> (result: i32)
    ensures
        result == clamp16(value as int),
{
    if value < -32768 {
        -32768
    } else if value > 32767 {
        32767
    } else {
        value
    }
}

/// Rounds `value` down to an even number.
pub fn mask_even(value: i32) -> (result: i32)
    ensures
        result == clear_low_bit(value as int),
{
    let result: i32 = value & !1;
    assert(value & !1 == value - (value as int % 2)) by (bit_vector);
    result
}

/// Reads a register byte as a two's-complement number.
pub fn sign_extend(value: u8) -> (result: i32)
    ensures
        result == signed8(value),
{
    let signed: i8 = value as i8;
    assert(value as i8 == if value < 128 {
        value as int
    } else {
        value as int - 256
    }) by (bit_vector);
    signed as i32
}

/// Scales `value` by a signed volume register.
///
/// The one product that does not fit the result type, the most negative
/// input at volume -128, is left out. The result is never larger in
/// magnitude than `value`.
pub fn multiply_volume(value: i32, volume: u8) -> (result: i32)
    requires
        value > i32::MIN || volume != 0x80,
    ensures
        result == scale_by_volume(value as int, volume),
        value >= 0 ==> -value <= result <= value,
        value < 0 ==> value <= result <= -value,
{
    let gain: i64 = sign_extend(volume) as i64;
    let wide: i64 = value as i64;
    assert(-0x40_0000_0000 <= wide * gain <= 0x40_0000_0000) by (nonlinear_arith)
        requires
            -0x8000_0000 <= wide <= 0x7fff_ffff,
            -128 <= gain <= 127,
    ;
    let product: i64 = wide * gain;
    let scaled: i64 = product >> 7;
    assert(product >> 7 == product as int / 128) by (bit_vector);
    assert(-0x8000_0000 <= product as int / 128 <= 0x7fff_ffff && (wide >= 0 ==> -wide
        <= product as int / 128 <= wide) && (wide < 0 ==> wide <= product as int / 128 <= -wide))
        by (nonlinear_arith)
        requires
            product == wide * gain,
            -0x8000_0000 <= wide <= 0x7fff_ffff,
            -128 <= gain <= 127,
            wide > -0x8000_0000 || gain != -128,
    ;
    scaled as i32
}

/// Tests bit `index` of `mask`.
pub fn bit_is_set(mask: u8, index: u8) -> (set: bool)
    requires
        index < 8,
    ensures
        set == mask_bit(mask, index as int),
{
    let shifted: u8 = mask >> index;
    proof {
        lemma_u8_shr_is_div(mask, index);
    }
    assert((shifted & 1 == 1) <==> shifted as int % 2 == 1) by (bit_vector);
    shifted & 1 == 1
}

/// Reads an unsigned sixteen-bit word as a two's-complement number.
pub fn sign_extend_word(word: u32) -> (value: i32)
    requires
        word < 0x10000,
    ensures
        value == wrap16(word as int),
        -32768 <= value <= 32767,
{
    if word >= 0x8000 {
        word as i32 - 0x10000
    } else {
        word as i32
    }
}

/// Reduces `value` modulo 2^16 into the signed 16-bit range.
pub fn wrap_to_i16(value: i32) -> (result: i16)
    ensures
        result == wrap16(value as int),
{
    let result: i16 = value as i16;
    assert(value as i16 as int == (value as int + 32768) % 65536 - 32768) by (bit_vector);
    result
}

/// An arithmetic right shift of a signed word is floor division by the
/// matching power of two, for each shift distance the processor uses.
pub proof fn lemma_shift_right(value: i32)
    ensures
        (value >> 1u32) as int == value as int / 2,
        (value >> 4u32) as int == value as int / 16,
        (value >> 5u32) as int == value as int / 32,
        (value >> 6u32) as int == value as int / 64,
        (value >> 7u32) as int == value as int / 128,
        (value >> 8u32) as int == value as int / 256,
        (value >> 11u32) as int == value as int / 2048,
        (value >> 12u32) as int == value as int / 4096,
{
    assert((value >> 1u32) as int == value as int / 2) by (bit_vector);
    assert((value >> 4u32) as int == value as int / 16) by (bit_vector);
    assert((value >> 5u32) as int == value as int / 32) by (bit_vector);
    assert((value >> 6u32) as int == value as int / 64) by (bit_vector);
    assert((value >> 7u32) as int == value as int / 128) by (bit_vector);
    assert((value >> 8u32) as int == value as int / 256) by (bit_vector);
    assert((value >> 11u32) as int == value as int / 2048) by (bit_vector);
    assert((value >> 12u32) as int == value as int / 4096) by (bit_vector);
}

/// Shifting a four-bit signed value left by at most twelve places multiplies
/// it by the matching power of two without losing bits.
pub proof fn lemma_shift_left_nibble(value: i32, bits: u32)
    requires
        bits <= 12,
        -8 <= value < 8,
    ensures
        (value << bits) as int == value as int * pow2(bits as nat) as int,
        1 <= pow2(bits as nat) <= 4096,
{
    assert((value << bits) as int == value as int * ((1u32 << bits) as int)) by (bit_vector)
        requires
            bits <= 12,
            -8 <= value < 8,
    ;
    lemma2_to64();
    if bits < 12 {
        lemma_pow2_strictly_increases(bits as nat, 12);
    }
    if bits > 0 {
        lemma_pow2_strictly_increases(0, bits as nat);
    }
    lemma_u32_shl_is_mul(1, bits);
}

} // verus!
