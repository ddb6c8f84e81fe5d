use vstd::prelude::*;

verus! {

/// The byte that an integer leaves after 8-bit wrap-around.
pub open spec fn wrap8(i: int) -> u8 {
    (i % 256) as u8
}

/// The word that an integer leaves after 16-bit wrap-around.
pub open spec fn wrap16(i: int) -> u16 {
    (i % 65536) as u16
}

/// The little-endian word made of a low and a high byte.
pub open spec fn word(lo: u8, hi: u8) -> u16 {
    (hi * 256 + lo) as u16
}

pub open spec fn low_byte(w: u16) -> u8 {
    (w % 256) as u8
}

pub open spec fn high_byte(w: u16) -> u8 {
    (w / 256) as u8
}

/// A byte read as a two's-complement number.
pub open spec fn signed(b: u8) -> int {
    if b < 128 {
        b as int
    } else {
        b - 256
    }
}

/// The bitwise complement of a byte.
pub open spec fn complement(b: u8) -> u8 {
    (255 - b) as u8
}

/// A byte shifted left by one bit, with `carry_in` moved into bit 0.
pub open spec fn shifted_left(b: u8, carry_in: bool) -> u8 {
    wrap8(2 * b + if carry_in { 1int } else { 0int })
}

/// A byte shifted right by one bit, with `carry_in` moved into bit 7.
pub open spec fn shifted_right(b: u8, carry_in: bool) -> u8 {
    (b / 2 + if carry_in { 128int } else { 0int }) as u8
}

pub fn make_word(lo: u8, hi: u8) -> (w: u16)
    ensures
        w == word(lo, hi),
{
    let w = ((hi as u16) << 8) | (lo as u16);
    assert(((hi as u16) << 8) | (lo as u16) == (hi as u16) * 256 + (lo as u16)) by (bit_vector);
    w
}

/// The low byte, then the high byte.
pub fn split_word(w: u16) -> (bytes: (u8, u8))
    ensures
        bytes.0 == low_byte(w),
        bytes.1 == high_byte(w),
{
    let hi = (w >> 8) as u8;
    let lo = (w & 0xff) as u8;
    assert((w >> 8) as u8 == w / 256 && (w & 0xff) as u8 == w % 256) by (bit_vector);
    (lo, hi)
}

/// Shifts `value` left by one bit and moves `carry_in` into bit 0. Returns
/// the result and the bit that left at the top.
pub fn shift_left(value: u8, carry_in: bool) -> (shifted: (u8, bool))
    ensures
        shifted.0 == shifted_left(value, carry_in),
        shifted.1 == (value >= 128),
{
    let carry_out = value >> 7 == 1;
    let mut result = value << 1;
    if carry_in {
        result = result | 1;
    }
    assert((value >> 7 == 1) == (value >= 128) && (value << 1) == (2 * value) % 256 && (value << 1)
        | 1 == (2 * value + 1) % 256) by (bit_vector);
    (result, carry_out)
}

/// Shifts `value` right by one bit and moves `carry_in` into bit 7. Returns
/// the result and the bit that left at the bottom.
pub fn shift_right(value: u8, carry_in: bool) -> (shifted: (u8, bool))
    ensures
        shifted.0 == shifted_right(value, carry_in),
        shifted.1 == (value % 2 == 1),
{
    let carry_out = value & 1 == 1;
    let mut result = value >> 1;
    if carry_in {
        result = result | 0b1000_0000;
    }
    assert((value & 1 == 1) == (value % 2 == 1) && (value >> 1) == value / 2 && (value >> 1)
        | 0b1000_0000 == value / 2 + 128) by (bit_vector);
    (result, carry_out)
}

} // verus!
