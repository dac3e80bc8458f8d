//! The flag byte: four named bits in the upper nibble, the lower nibble zero.

use vstd::prelude::*;
use crate::names::Flag;

verus! {

/// Whether `flag` is set in the flag byte `state`.
pub open spec fn flag_is_set(state: u8, flag: Flag) -> bool {
    (state >> flag.shift()) & 1 == 1
}

/// The flag byte `state` with `flag` set (`value`) or cleared (`!value`).
pub open spec fn flag_written(state: u8, flag: Flag, value: bool) -> u8 {
    if value {
        state | (1u8 << flag.shift())
    } else {
        state & !(1u8 << flag.shift())
    }
}

/// The flag byte in which exactly the given flags are set.
pub open spec fn flag_byte(zero: bool, subtract: bool, half_carry: bool, carry: bool) -> u8 {
    ((if zero { 0x80int } else { 0 }) + (if subtract { 0x40int } else { 0 })
        + (if half_carry { 0x20int } else { 0 }) + (if carry { 0x10int } else { 0 })) as u8
}

/// A flag byte is clean when its lower nibble is zero.
pub open spec fn flags_clean(state: u8) -> bool {
    state & 0x0F == 0
}

proof fn lemma_bit_written(state: u8, k: u8, j: u8)
    by (bit_vector)
    requires
        4 <= k <= 7,
        4 <= j <= 7,
    ensures
        ((state | (1u8 << k)) >> k) & 1 == 1,
        ((state & !(1u8 << k)) >> k) & 1 == 0,
        j != k ==> ((state | (1u8 << k)) >> j) & 1 == (state >> j) & 1,
        j != k ==> ((state & !(1u8 << k)) >> j) & 1 == (state >> j) & 1,
        (state | (1u8 << k)) & 0x0F == state & 0x0F,
        (state & !(1u8 << k)) & 0x0F == state & 0x0F,
{
}

proof fn lemma_clean_byte_is_sum_of_bits(state: u8)
    by (bit_vector)
    requires
        state & 0x0F == 0,
    ensures
        state == ((state >> 7) & 1) * 0x80 + ((state >> 6) & 1) * 0x40 + ((state >> 5) & 1) * 0x20
            + ((state >> 4) & 1) * 0x10,
        (state >> 7) & 1 <= 1,
        (state >> 6) & 1 <= 1,
        (state >> 5) & 1 <= 1,
        (state >> 4) & 1 <= 1,
{
}

proof fn lemma_bits_of_upper_nibble(state: u8)
    by (bit_vector)
    requires
        state == 0x00 || state == 0x10 || state == 0x20 || state == 0x30 || state == 0x40 || state
            == 0x50 || state == 0x60 || state == 0x70 || state == 0x80 || state == 0x90 || state
            == 0xA0 || state == 0xB0 || state == 0xC0 || state == 0xD0 || state == 0xE0 || state
            == 0xF0,
    ensures
        state & 0x0F == 0,
        ((state >> 7) & 1 == 1) == (state >= 0x80),
        ((state >> 6) & 1 == 1) == (state % 0x80 >= 0x40),
        ((state >> 5) & 1 == 1) == (state % 0x40 >= 0x20),
        ((state >> 4) & 1 == 1) == (state % 0x20 >= 0x10),
{
}

/// Writing a flag and reading it back gives the value written, and no other
/// flag changes: setting sets exactly that bit, clearing clears exactly it.
pub proof fn lemma_flag_written_then_read(state: u8, flag: Flag, value: bool, other: Flag)
    ensures
        flag_is_set(flag_written(state, flag, value), flag) == value,
        other != flag ==> flag_is_set(flag_written(state, flag, value), other) == flag_is_set(
            state,
            other,
        ),
{
    lemma_bit_written(state, flag.shift(), other.shift());
}

/// Writing a flag leaves the lower nibble of the flag byte as it was; in
/// particular a clean flag byte stays clean.
pub proof fn lemma_flag_written_keeps_low_nibble(state: u8, flag: Flag, value: bool)
    ensures
        flag_written(state, flag, value) & 0x0F == state & 0x0F,
        flags_clean(state) ==> flags_clean(flag_written(state, flag, value)),
{
    lemma_bit_written(state, flag.shift(), flag.shift());
}

/// `flag_byte` is clean and holds each flag at its bit.
pub proof fn lemma_flag_byte_bits(zero: bool, subtract: bool, half_carry: bool, carry: bool)
    ensures
        flags_clean(flag_byte(zero, subtract, half_carry, carry)),
        flag_is_set(flag_byte(zero, subtract, half_carry, carry), Flag::Z) == zero,
        flag_is_set(flag_byte(zero, subtract, half_carry, carry), Flag::S) == subtract,
        flag_is_set(flag_byte(zero, subtract, half_carry, carry), Flag::HC) == half_carry,
        flag_is_set(flag_byte(zero, subtract, half_carry, carry), Flag::C) == carry,
{
    lemma_bits_of_upper_nibble(flag_byte(zero, subtract, half_carry, carry));
}

/// A clean flag byte is determined by its four flags.
pub proof fn lemma_clean_byte_from_flags(state: u8)
    requires
        flags_clean(state),
    ensures
        state == flag_byte(
            flag_is_set(state, Flag::Z),
            flag_is_set(state, Flag::S),
            flag_is_set(state, Flag::HC),
            flag_is_set(state, Flag::C),
        ),
{
    lemma_clean_byte_is_sum_of_bits(state);
}

/// Writing all four flags to a clean flag byte, zero first and subtract
/// second or last, leaves exactly `flag_byte` of the values written.
pub proof fn lemma_all_flags_written(
    state: u8,
    zero: bool,
    subtract: bool,
    half_carry: bool,
    carry: bool,
)
    requires
        flags_clean(state),
    ensures
        flag_written(
            flag_written(
                flag_written(flag_written(state, Flag::Z, zero), Flag::S, subtract),
                Flag::HC,
                half_carry,
            ),
            Flag::C,
            carry,
        ) == flag_byte(zero, subtract, half_carry, carry),
        flag_written(
            flag_written(
                flag_written(flag_written(state, Flag::Z, zero), Flag::HC, half_carry),
                Flag::C,
                carry,
            ),
            Flag::S,
            subtract,
        ) == flag_byte(zero, subtract, half_carry, carry),
{
    let s1 = flag_written(state, Flag::Z, zero);
    let s2 = flag_written(s1, Flag::S, subtract);
    let s3 = flag_written(s2, Flag::HC, half_carry);
    let s4 = flag_written(s3, Flag::C, carry);
    lemma_flag_written_keeps_low_nibble(state, Flag::Z, zero);
    lemma_flag_written_keeps_low_nibble(s1, Flag::S, subtract);
    lemma_flag_written_keeps_low_nibble(s2, Flag::HC, half_carry);
    lemma_flag_written_keeps_low_nibble(s3, Flag::C, carry);
    lemma_flag_written_then_read(state, Flag::Z, zero, Flag::Z);
    lemma_flag_written_then_read(s1, Flag::S, subtract, Flag::Z);
    lemma_flag_written_then_read(s2, Flag::HC, half_carry, Flag::Z);
    lemma_flag_written_then_read(s2, Flag::HC, half_carry, Flag::S);
    lemma_flag_written_then_read(s3, Flag::C, carry, Flag::Z);
    lemma_flag_written_then_read(s3, Flag::C, carry, Flag::S);
    lemma_flag_written_then_read(s3, Flag::C, carry, Flag::HC);
    lemma_clean_byte_from_flags(s4);

    let t2 = flag_written(s1, Flag::HC, half_carry);
    let t3 = flag_written(t2, Flag::C, carry);
    let t4 = flag_written(t3, Flag::S, subtract);
    lemma_flag_written_keeps_low_nibble(s1, Flag::HC, half_carry);
    lemma_flag_written_keeps_low_nibble(t2, Flag::C, carry);
    lemma_flag_written_keeps_low_nibble(t3, Flag::S, subtract);
    lemma_flag_written_then_read(s1, Flag::HC, half_carry, Flag::Z);
    lemma_flag_written_then_read(t2, Flag::C, carry, Flag::Z);
    lemma_flag_written_then_read(t2, Flag::C, carry, Flag::HC);
    lemma_flag_written_then_read(t3, Flag::S, subtract, Flag::Z);
    lemma_flag_written_then_read(t3, Flag::S, subtract, Flag::HC);
    lemma_flag_written_then_read(t3, Flag::S, subtract, Flag::C);
    lemma_clean_byte_from_flags(t4);
}

} // verus!
