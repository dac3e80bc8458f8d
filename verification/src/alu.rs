//! The arithmetic of the ADD family: sums that wrap, and the carries out of
//! the full width and out of the lower part.

use vstd::prelude::*;

verus! {

/// The 8-bit sum of `a` and `b`, wrapping at 256.
pub open spec fn sum8(a: u8, b: u8) -> u8 {
    if a + b > 0xFF {
        (a + b - 0x100) as u8
    } else {
        (a + b) as u8
    }
}

/// Carry out of bit 7: the 8-bit sum of `a` and `b` overflows.
pub open spec fn carry8(a: u8, b: u8) -> bool {
    a + b > 0xFF
}

/// Carry out of bit 3: the lower nibbles of `a` and `b` add up to more than 15.
pub open spec fn half_carry8(a: u8, b: u8) -> bool {
    (a & 0xF) + (b & 0xF) > 0xF
}

/// The 16-bit sum of `a` and `b`, wrapping at 65536.
pub open spec fn sum16(a: u16, b: u16) -> u16 {
    if a + b > 0xFFFF {
        (a + b - 0x1_0000) as u16
    } else {
        (a + b) as u16
    }
}

/// Carry out of bit 15: the 16-bit sum of `a` and `b` overflows.
pub open spec fn carry16(a: u16, b: u16) -> bool {
    a + b > 0xFFFF
}

/// Carry out of bit 11: the lower 12 bits of `a` and `b` add up to more than 4095.
pub open spec fn half_carry16(a: u16, b: u16) -> bool {
    (a & 0xFFF) + (b & 0xFFF) > 0xFFF
}

/// `base` moved by the signed `offset`, wrapping at both ends of the 16-bit range.
pub open spec fn offset16(base: u16, offset: i8) -> u16 {
    if base + offset > 0xFFFF {
        (base + offset - 0x1_0000) as u16
    } else if base + offset < 0 {
        (base + offset + 0x1_0000) as u16
    } else {
        (base + offset) as u16
    }
}

/// Half-carry of a signed move. Forwards it is the carry out of bit 3 of the
/// two lower nibbles; backwards it is read off the result, whose lower nibble
/// has then not grown.
pub open spec fn offset_half_carry(base: u16, offset: i8) -> bool {
    if offset >= 0 {
        (base & 0xF) + ((offset as u8) & 0xF) > 0xF
    } else {
        (offset16(base, offset) & 0xF) <= (base & 0xF)
    }
}

/// Carry of a signed move. Forwards it is the overflow of the 16-bit sum;
/// backwards it is read off the result, whose lower byte has then not grown.
pub open spec fn offset_carry(base: u16, offset: i8) -> bool {
    if offset >= 0 {
        base + offset > 0xFFFF
    } else {
        (offset16(base, offset) & 0xFF) <= (base & 0xFF)
    }
}

/// Adds two bytes: the wrapped sum, and whether it overflowed.
pub fn overflowing_add8(a: u8, b: u8) -> (res: (u8, bool))
    ensures
        res.0 == sum8(a, b),
        res.1 == carry8(a, b),
{
    let wide: u16 = a as u16 + b as u16;
    (a.wrapping_add(b), wide > 0xFF)
}

/// Adds two 16-bit values: the wrapped sum, and whether it overflowed.
pub fn overflowing_add16(a: u16, b: u16) -> (res: (u16, bool))
    ensures
        res.0 == sum16(a, b),
        res.1 == carry16(a, b),
{
    let wide: u32 = a as u32 + b as u32;
    (a.wrapping_add(b), wide > 0xFFFF)
}

/// Whether adding the bytes `a` and `b` carries out of bit 3.
pub fn half_carries8(a: u8, b: u8) -> (carries: bool)
    ensures
        carries == half_carry8(a, b),
{
    assert(a & 0xF <= 0xF && b & 0xF <= 0xF) by (bit_vector);
    (a & 0xF) + (b & 0xF) > 0xF
}

/// Whether adding the 16-bit values `a` and `b` carries out of bit 11.
pub fn half_carries16(a: u16, b: u16) -> (carries: bool)
    ensures
        carries == half_carry16(a, b),
{
    assert(a & 0xFFF <= 0xFFF && b & 0xFFF <= 0xFFF) by (bit_vector);
    (a & 0xFFF) + (b & 0xFFF) > 0xFFF
}

} // verus!
