//! The processor unit: a register file, flat memory and a stack pointer, with
//! the ADD family of instructions.

use vstd::prelude::*;
use crate::alu::{
    carry16, carry8, half_carries16, half_carries8, half_carry16, half_carry8, offset16,
    offset_carry, offset_half_carry, overflowing_add16, overflowing_add8, sum16, sum8,
};
use crate::error::CpuError;
use crate::flags::{
    flag_byte, flag_is_set, lemma_all_flags_written, lemma_flag_written_keeps_low_nibble,
};
use crate::names::{Flag, Operand, Register};
use crate::register_file::{high_byte, joint, low_byte, CPU_Registers};

verus! {

/// The number of byte cells of memory.
pub const MEMORY_SIZE: usize = 0xFFFF;

/// The carry flag of a flag byte as a number: 1 when set, 0 when clear.
pub open spec fn carry_in(flags: u8) -> u8 {
    if flag_is_set(flags, Flag::C) {
        1
    } else {
        0
    }
}

/// The processor unit.
pub struct CPU {
    pub registers: CPU_Registers,
    pub memory: [u8; 0xFFFF],
    pub sp: u16,
}

impl CPU {
    /// The value of the pair HL.
    pub open spec fn hl(self) -> u16 {
        joint(self.registers@[Register::H], self.registers@[Register::L])
    }

    /// `post` is `pre` after `addend` was added to the accumulator A.
    ///
    /// A holds the wrapped sum. The flags are: zero, when the sum is 0;
    /// subtract, clear; half-carry, the carry out of bit 3 of A and
    /// `half_carry_operand`; carry, the overflow of A plus `addend`. Register
    /// F holds the flag byte. Nothing else differs.
    pub open spec fn accumulated(pre: CPU, post: CPU, addend: u8, half_carry_operand: u8) -> bool {
        let a = pre.registers@[Register::A];
        let result = sum8(a, addend);
        let flags = flag_byte(
            result == 0,
            false,
            half_carry8(a, half_carry_operand),
            carry8(a, addend),
        );
        &&& post.registers@ == pre.registers@.insert(Register::F, flags).insert(
            Register::A,
            result,
        )
        &&& post.registers.flags() == flags
        &&& post.memory == pre.memory
        &&& post.sp == pre.sp
    }

    /// `post` is `pre` after `value` was added to the pair HL.
    ///
    /// H and L hold the upper and lower byte of the wrapped sum. The flags
    /// are: zero, when the sum is 0; subtract, clear; half-carry, the carry
    /// out of bit 11; carry, the overflow of the 16-bit sum. Register F holds
    /// the flag byte. Nothing else differs.
    pub open spec fn pair_added(pre: CPU, post: CPU, value: u16) -> bool {
        let hl = pre.hl();
        let result = sum16(hl, value);
        let flags = flag_byte(result == 0, false, half_carry16(hl, value), carry16(hl, value));
        &&& post.registers@ == pre.registers@.insert(Register::F, flags).insert(
            Register::H,
            high_byte(result),
        ).insert(Register::L, low_byte(result))
        &&& post.registers.flags() == flags
        &&& post.memory == pre.memory
        &&& post.sp == pre.sp
    }

    /// `post` is `pre` after the stack pointer was moved by the signed `offset`.
    ///
    /// The flags are: zero, when the new stack pointer is 0; subtract, clear;
    /// half-carry and carry as `offset_half_carry` and `offset_carry` give
    /// them. Register F holds the flag byte. Nothing else differs.
    pub open spec fn stack_pointer_moved(pre: CPU, post: CPU, offset: i8) -> bool {
        let result = offset16(pre.sp, offset);
        let flags = flag_byte(
            result == 0,
            false,
            offset_half_carry(pre.sp, offset),
            offset_carry(pre.sp, offset),
        );
        &&& post.sp == result
        &&& post.registers@ == pre.registers@.insert(Register::F, flags)
        &&& post.registers.flags() == flags
        &&& post.memory == pre.memory
    }

    /// A processor with every register, the flag state, every memory cell and
    /// the stack pointer zero.
    pub fn new() -> (res: CPU)
        ensures
            res.registers@ == Map::total(|r: Register| 0u8),
            res.registers.flags() == 0,
            forall|i: int| 0 <= i < MEMORY_SIZE ==> res.memory[i] == 0,
            res.sp == 0,
    {
        CPU { registers: CPU_Registers::new(), memory: [0u8; 0xFFFF], sp: 0 }
    }

    /// Writes the four flags of an addition, in the order zero, subtract,
    /// half-carry, carry.
    fn put_flags(&mut self, zero: bool, half_carry: bool, carry: bool)
        ensures
            final(self).registers.flags() == flag_byte(zero, false, half_carry, carry),
            final(self).registers@ == old(self).registers@.insert(
                Register::F,
                flag_byte(zero, false, half_carry, carry),
            ),
            final(self).memory == old(self).memory,
            final(self).sp == old(self).sp,
    {
        let ghost before = self.registers.flags();
        self.registers.put_flag(Flag::Z, zero);
        self.registers.put_flag(Flag::S, false);
        self.registers.put_flag(Flag::HC, half_carry);
        self.registers.put_flag(Flag::C, carry);
        proof {
            lemma_flag_written_keeps_low_nibble(before, Flag::Z, zero);
            lemma_all_flags_written(before, zero, false, half_carry, carry);
            assert(self.registers@ =~= old(self).registers@.insert(
                Register::F,
                flag_byte(zero, false, half_carry, carry),
            ));
        }
    }

    /// Adds `addend` to A. The flags are computed from the values before
    /// the write, the half-carry from A and `half_carry_operand`.
    fn accumulate(&mut self, addend: u8, half_carry_operand: u8)
        ensures
            CPU::accumulated(*old(self), *final(self), addend, half_carry_operand),
    {
        let a: u8 = self.registers.read(Register::A);
        let (result, overflow) = overflowing_add8(a, addend);
        let half_carry: bool = half_carries8(a, half_carry_operand);
        self.put_flags(result == 0, half_carry, overflow);
        self.registers.write(Register::A, result);
    }

    /// Adds `value` to the pair HL, the flags computed from the values before
    /// the write.
    fn add_to_hl(&mut self, value: u16)
        ensures
            CPU::pair_added(*old(self), *final(self), value),
    {
        let hl: u16 = self.registers.read_pair(Register::H, Register::L);
        let (result, overflow) = overflowing_add16(hl, value);
        let half_carry: bool = half_carries16(hl, value);
        self.put_flags(result == 0, half_carry, overflow);
        self.registers.write_pair(Register::H, Register::L, result);
    }

    /// ADD A, r8: adds the register that `operand` selects to A.
    ///
    /// `InvalidOperandCode`, and nothing changed, where `operand` is above 7
    /// or is 6, which selects no plain register.
    pub fn add(&mut self, operand: u8) -> (res: Result<(), CpuError>)
        ensures
            match Operand::decode_register(operand) {
                Some(r) => {
                    &&& res is Ok
                    &&& CPU::accumulated(
                        *old(self),
                        *final(self),
                        old(self).registers@[r],
                        old(self).registers@[r],
                    )
                },
                None => res == Err::<(), CpuError>(CpuError::InvalidOperandCode) && *final(self)
                    == *old(self),
            },
    {
        match self.registers.index_to_reg(operand) {
            Ok(Operand::Register(r)) => {
                let operand_value: u8 = self.registers.read(r);
                self.accumulate(operand_value, operand_value);
                Ok(())
            },
            _ => Err(CpuError::InvalidOperandCode),
        }
    }

    /// ADC A, r8: adds the register that `operand` selects, plus the carry
    /// flag, to A.
    ///
    /// The operand and the carry are first added in eight bits, and that sum
    /// wraps: with the operand 0xFF and the carry set the addend is 0, so A
    /// keeps its value and the carry flag comes out clear. The half-carry is
    /// taken from A and the operand alone, without the carry.
    ///
    /// `InvalidOperandCode`, and nothing changed, where `operand` is above 7
    /// or is 6, which selects no plain register.
    pub fn addc(&mut self, operand: u8) -> (res: Result<(), CpuError>)
        ensures
            match Operand::decode_register(operand) {
                Some(r) => {
                    &&& res is Ok
                    &&& CPU::accumulated(
                        *old(self),
                        *final(self),
                        sum8(old(self).registers@[r], carry_in(old(self).registers.flags())),
                        old(self).registers@[r],
                    )
                },
                None => res == Err::<(), CpuError>(CpuError::InvalidOperandCode) && *final(self)
                    == *old(self),
            },
    {
        match self.registers.index_to_reg(operand) {
            Ok(Operand::Register(r)) => {
                let operand_value: u8 = self.registers.read(r);
                let carry: u8 = if self.registers.flag(Flag::C) {
                    1
                } else {
                    0
                };
                self.accumulate(operand_value.wrapping_add(carry), operand_value);
                Ok(())
            },
            _ => Err(CpuError::InvalidOperandCode),
        }
    }

    /// ADC A, [HL]: adds the memory byte at the address in HL, plus the carry
    /// flag, to A.
    ///
    /// The byte and the carry are first added in eight bits, and that sum
    /// wraps, as in `addc`; the half-carry is taken from A and the byte alone.
    /// The address must lie inside memory.
    pub fn addc_hl(&mut self)
        requires
            old(self).hl() < MEMORY_SIZE,
        ensures
            CPU::accumulated(
                *old(self),
                *final(self),
                sum8(
                    old(self).memory[old(self).hl() as int],
                    carry_in(old(self).registers.flags()),
                ),
                old(self).memory[old(self).hl() as int],
            ),
    {
        let hl_value: u16 = self.registers.read_pair(Register::H, Register::L);
        let operand_value: u8 = self.memory[hl_value as usize];
        let carry: u8 = if self.registers.flag(Flag::C) {
            1
        } else {
            0
        };
        self.accumulate(operand_value.wrapping_add(carry), operand_value);
    }

    /// ADD A, n8: adds an immediate byte to A.
    pub fn add_n8(&mut self, immediate_val: u8)
        ensures
            CPU::accumulated(*old(self), *final(self), immediate_val, immediate_val),
    {
        self.accumulate(immediate_val, immediate_val);
    }

    /// ADD HL, r16: adds a 16-bit value to the pair HL.
    #[allow(non_snake_case)]
    pub fn add_HL_r16(&mut self, operand: u16)
        ensures
            CPU::pair_added(*old(self), *final(self), operand),
    {
        self.add_to_hl(operand);
    }

    /// ADD HL, SP: adds the stack pointer to the pair HL.
    #[allow(non_snake_case)]
    pub fn add_HL_SP(&mut self)
        ensures
            CPU::pair_added(*old(self), *final(self), old(self).sp),
    {
        let sp: u16 = self.sp;
        self.add_to_hl(sp);
    }

    /// ADD SP, e8: moves the stack pointer by a signed byte.
    #[allow(non_snake_case)]
    pub fn add_SP_e8(&mut self, signed_operand: i8)
        ensures
            CPU::stack_pointer_moved(*old(self), *final(self), signed_operand),
    {
        let sp: u16 = self.sp;
        let result: u16 = sp.wrapping_add_signed(signed_operand as i16);
        let ghost before = self.registers.flags();
        if signed_operand >= 0 {
            let overflow: bool = sp as u32 + signed_operand as u32 > 0xFFFF;
            assert(sp & 0xF <= 0xF) by (bit_vector);
            assert((signed_operand as u8) & 0xF <= 0xF) by (bit_vector);
            let half_carry: bool = ((sp & 0xF) as u8 + (signed_operand as u8 & 0xF)) > 0xF;
            self.registers.put_flag(Flag::Z, result == 0);
            self.registers.put_flag(Flag::HC, half_carry);
            self.registers.put_flag(Flag::C, overflow);
            self.sp = result;
        } else {
            self.registers.put_flag(Flag::Z, result == 0);
            self.registers.put_flag(Flag::HC, (result & 0xF) <= (sp & 0xF));
            self.registers.put_flag(Flag::C, (result & 0xFF) <= (sp & 0xFF));
            self.sp = result;
        }
        self.registers.put_flag(Flag::S, false);
        proof {
            let flags = flag_byte(
                result == 0,
                false,
                offset_half_carry(sp, signed_operand),
                offset_carry(sp, signed_operand),
            );
            lemma_flag_written_keeps_low_nibble(before, Flag::Z, result == 0);
            lemma_all_flags_written(
                before,
                result == 0,
                false,
                offset_half_carry(sp, signed_operand),
                offset_carry(sp, signed_operand),
            );
            assert(self.registers@ =~= old(self).registers@.insert(Register::F, flags));
        }
    }
}

} // verus!
