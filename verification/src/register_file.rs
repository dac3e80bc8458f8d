//! The register file: eight named 8-bit registers, the 16-bit pairs read and
//! written through them, and the flag state.

use vstd::prelude::*;
use crate::error::CpuError;
use crate::flags::{flag_is_set, flag_written, flags_clean, lemma_flag_written_keeps_low_nibble};
use crate::names::{Flag, Operand, Register};

verus! {

/// The 16-bit value of a register pair: `hi` in the upper byte, `lo` in the lower.
pub open spec fn joint(hi: u8, lo: u8) -> u16 {
    ((hi as u16) << 8) | (lo as u16)
}

/// The upper byte of a 16-bit value.
pub open spec fn high_byte(value: u16) -> u8 {
    ((value >> 8) & 0xFF) as u8
}

/// The lower byte of a 16-bit value.
pub open spec fn low_byte(value: u16) -> u8 {
    (value & 0xFF) as u8
}

/// What reading the register called `name` gives.
pub open spec fn lookup(regs: Map<Register, u8>, name: Seq<char>) -> Result<u8, CpuError> {
    match Register::parse(name) {
        Some(r) => Ok(regs[r]),
        None => Err(CpuError::UnknownRegister),
    }
}

/// The registers after `value` is written to the one called `name`; unchanged
/// where the name is unknown.
pub open spec fn stored(regs: Map<Register, u8>, name: Seq<char>, value: u8) -> Map<Register, u8> {
    match Register::parse(name) {
        Some(r) => regs.insert(r, value),
        None => regs,
    }
}

/// What reading the pair called `hi`, `lo` gives.
pub open spec fn lookup_pair(regs: Map<Register, u8>, hi: Seq<char>, lo: Seq<char>) -> Result<
    u16,
    CpuError,
> {
    match (Register::parse(hi), Register::parse(lo)) {
        (Some(h), Some(l)) => Ok(joint(regs[h], regs[l])),
        _ => Err(CpuError::UnknownRegister),
    }
}

/// The registers after `value` is written to the pair called `hi`, `lo`: first
/// its upper byte to `hi`, then its lower byte to `lo`. Unchanged where either
/// name is unknown.
pub open spec fn stored_pair(
    regs: Map<Register, u8>,
    hi: Seq<char>,
    lo: Seq<char>,
    value: u16,
) -> Map<Register, u8> {
    match (Register::parse(hi), Register::parse(lo)) {
        (Some(h), Some(l)) => regs.insert(h, high_byte(value)).insert(l, low_byte(value)),
        _ => regs,
    }
}

/// A 16-bit value is the pair of its upper and lower byte.
pub proof fn lemma_joint_of_split(value: u16)
    ensures
        joint(high_byte(value), low_byte(value)) == value,
{
    assert((((((value >> 8) & 0xFF) as u8) as u16) << 8) | (((value & 0xFF) as u8) as u16)
        == value) by (bit_vector);
}

/// Reading a register after writing it gives the value written, for each of
/// the eight registers.
pub proof fn lemma_set_then_get(regs: Map<Register, u8>, name: Seq<char>, value: u8)
    requires
        Register::parse(name) is Some,
    ensures
        lookup(stored(regs, name, value), name) == Ok::<u8, CpuError>(value),
{
}

/// Reading a pair after writing it gives the value written, for every pair of
/// two different registers. (Where both names are the same register, the
/// lower byte is written last and is read back in both halves.)
pub proof fn lemma_set_pair_then_get_pair(
    regs: Map<Register, u8>,
    hi: Seq<char>,
    lo: Seq<char>,
    value: u16,
)
    requires
        Register::parse(hi) is Some,
        Register::parse(lo) is Some,
        Register::parse(hi) != Register::parse(lo),
    ensures
        lookup_pair(stored_pair(regs, hi, lo, value), hi, lo) == Ok::<u16, CpuError>(value),
{
    lemma_joint_of_split(value);
}

/// The register file. Its view maps each of the eight registers to the byte
/// stored in it; `flags()` is the flag state, whose lower nibble is always zero.
///
/// The flag state is kept beside the stored byte of register `F`: every flag
/// write copies the state into `F`, while a plain write to `F` changes the
/// stored byte only.
#[allow(non_camel_case_types)]
pub struct CPU_Registers {
    a: u8,
    b: u8,
    c: u8,
    d: u8,
    e: u8,
    f: u8,
    h: u8,
    l: u8,
    flag_register: u8,
}

impl View for CPU_Registers {
    type V = Map<Register, u8>;

    closed spec fn view(&self) -> Map<Register, u8> {
        Map::total(|r: Register| self.byte_of(r))
    }
}

impl CPU_Registers {
    #[verifier::type_invariant]
    spec fn flag_state_clean(&self) -> bool {
        flags_clean(self.flag_register)
    }

    spec fn byte_of(&self, r: Register) -> u8 {
        match r {
            Register::A => self.a,
            Register::B => self.b,
            Register::C => self.c,
            Register::D => self.d,
            Register::E => self.e,
            Register::F => self.f,
            Register::H => self.h,
            Register::L => self.l,
        }
    }

    /// The flag state: the byte whose bits 7, 6, 5, 4 are Z, S, HC, C.
    pub closed spec fn flags(&self) -> u8 {
        self.flag_register
    }

    /// A register file with every register and the flag state zero.
    pub fn new() -> (res: CPU_Registers)
        ensures
            res@ == Map::total(|r: Register| 0u8),
            res.flags() == 0,
    {
        assert(flags_clean(0u8)) by (bit_vector);
        let res = CPU_Registers {
            a: 0,
            b: 0,
            c: 0,
            d: 0,
            e: 0,
            f: 0,
            h: 0,
            l: 0,
            flag_register: 0,
        };
        assert(res@ =~= Map::total(|r: Register| 0u8));
        res
    }

    /// The byte stored in `r`.
    pub fn read(&self, r: Register) -> (value: u8)
        ensures
            value == self@[r],
    {
        match r {
            Register::A => self.a,
            Register::B => self.b,
            Register::C => self.c,
            Register::D => self.d,
            Register::E => self.e,
            Register::F => self.f,
            Register::H => self.h,
            Register::L => self.l,
        }
    }

    /// Stores `value` in `r`. The flag state is not touched, also where `r` is `F`.
    pub fn write(&mut self, r: Register, value: u8)
        ensures
            final(self)@ == old(self)@.insert(r, value),
            final(self).flags() == old(self).flags(),
    {
        proof {
            use_type_invariant(&*self);
        }
        match r {
            Register::A => { self.a = value; },
            Register::B => { self.b = value; },
            Register::C => { self.c = value; },
            Register::D => { self.d = value; },
            Register::E => { self.e = value; },
            Register::F => { self.f = value; },
            Register::H => { self.h = value; },
            Register::L => { self.l = value; },
        }
        assert(self@ =~= old(self)@.insert(r, value));
    }

    /// Reads the register called `key`; `UnknownRegister` where no register
    /// has that name.
    pub fn get_register(&self, key: &str) -> (res: Result<u8, CpuError>)
        ensures
            res == lookup(self@, key@),
    {
        match Register::from_name(key) {
            Some(r) => Ok(self.read(r)),
            None => Err(CpuError::UnknownRegister),
        }
    }

    /// Overwrites the register called `key`; `UnknownRegister`, and nothing
    /// changed, where no register has that name.
    pub fn set_register(&mut self, key: &str, value: u8) -> (res: Result<(), CpuError>)
        ensures
            res == (if Register::parse(key@) is Some {
                Ok::<(), CpuError>(())
            } else {
                Err::<(), CpuError>(CpuError::UnknownRegister)
            }),
            final(self)@ == stored(old(self)@, key@, value),
            final(self).flags() == old(self).flags(),
            res is Err ==> *final(self) == *old(self),
    {
        match Register::from_name(key) {
            Some(r) => {
                self.write(r, value);
                Ok(())
            },
            None => Err(CpuError::UnknownRegister),
        }
    }

    /// The 16-bit value of the pair `hi`, `lo`.
    pub fn read_pair(&self, hi: Register, lo: Register) -> (value: u16)
        ensures
            value == joint(self@[hi], self@[lo]),
    {
        ((self.read(hi) as u16) << 8) | (self.read(lo) as u16)
    }

    /// Splits `value` over the pair: its upper byte goes to `hi`, then its
    /// lower byte to `lo`.
    pub fn write_pair(&mut self, hi: Register, lo: Register, value: u16)
        ensures
            final(self)@ == old(self)@.insert(hi, high_byte(value)).insert(lo, low_byte(value)),
            final(self).flags() == old(self).flags(),
    {
        let hi_value: u8 = ((value >> 8) & 0xFF) as u8;
        let lo_value: u8 = (value & 0xFF) as u8;
        self.write(hi, hi_value);
        self.write(lo, lo_value);
    }

    /// Reads the pair whose upper byte is the register called `hi` and whose
    /// lower byte is the one called `lo`; `UnknownRegister` where either name
    /// is no register's.
    pub fn get_joint_register(&self, hi: &str, lo: &str) -> (res: Result<u16, CpuError>)
        ensures
            res == lookup_pair(self@, hi@, lo@),
    {
        match (Register::from_name(hi), Register::from_name(lo)) {
            (Some(h), Some(l)) => Ok(self.read_pair(h, l)),
            _ => Err(CpuError::UnknownRegister),
        }
    }

    /// Writes a 16-bit value to the pair called `hi`, `lo`; `UnknownRegister`,
    /// and nothing changed, where either name is no register's.
    pub fn set_joint_register(&mut self, hi: &str, lo: &str, value: u16) -> (res: Result<
        (),
        CpuError,
    >)
        ensures
            res == (if Register::parse(hi@) is Some && Register::parse(lo@) is Some {
                Ok::<(), CpuError>(())
            } else {
                Err::<(), CpuError>(CpuError::UnknownRegister)
            }),
            final(self)@ == stored_pair(old(self)@, hi@, lo@, value),
            final(self).flags() == old(self).flags(),
            res is Err ==> *final(self) == *old(self),
    {
        match (Register::from_name(hi), Register::from_name(lo)) {
            (Some(h), Some(l)) => {
                self.write_pair(h, l, value);
                Ok(())
            },
            _ => Err(CpuError::UnknownRegister),
        }
    }

    /// Whether `flag` is set in the flag state.
    pub fn flag(&self, flag: Flag) -> (set: bool)
        ensures
            set == flag_is_set(self.flags(), flag),
    {
        (self.flag_register >> flag.bit()) & 1 == 1
    }

    /// Sets or clears `flag` in the flag state and copies the state into
    /// register `F`. The other three flags keep their values.
    pub fn put_flag(&mut self, flag: Flag, value: bool)
        ensures
            final(self).flags() == flag_written(old(self).flags(), flag, value),
            flags_clean(final(self).flags()),
            final(self)@ == old(self)@.insert(Register::F, final(self).flags()),
            final(self)@[Register::F] == final(self).flags(),
    {
        proof {
            use_type_invariant(&*self);
            lemma_flag_written_keeps_low_nibble(self.flag_register, flag, value);
        }
        let k: u8 = flag.bit();
        let state: u8 = if value {
            self.flag_register | (1u8 << k)
        } else {
            self.flag_register & !(1u8 << k)
        };
        self.flag_register = state;
        self.f = state;
        assert(self@ =~= old(self)@.insert(Register::F, state));
    }

    /// The bit position of the flag called `state`: 7, 6, 5, 4 for `Z`, `S`,
    /// `HC`, `C`; `UnknownFlag` for any other name.
    pub fn get_flag_shift(&self, state: &str) -> (res: Result<i32, CpuError>)
        ensures
            res == (match Flag::parse(state@) {
                Some(flag) => Ok::<i32, CpuError>(flag.shift() as i32),
                None => Err::<i32, CpuError>(CpuError::UnknownFlag),
            }),
    {
        match Flag::from_name(state) {
            Some(flag) => Ok(flag.bit() as i32),
            None => Err(CpuError::UnknownFlag),
        }
    }

    /// The whole flag byte. Its lower nibble is zero.
    pub fn get_flags(&self) -> (byte: u8)
        ensures
            byte == self.flags(),
            flags_clean(byte),
    {
        proof {
            use_type_invariant(self);
        }
        self.flag_register
    }

    /// Whether the flag called `state` is set; `UnknownFlag` where no flag has
    /// that name.
    pub fn get_flag(&self, state: &str) -> (res: Result<bool, CpuError>)
        ensures
            res == (match Flag::parse(state@) {
                Some(flag) => Ok::<bool, CpuError>(flag_is_set(self.flags(), flag)),
                None => Err::<bool, CpuError>(CpuError::UnknownFlag),
            }),
    {
        match Flag::from_name(state) {
            Some(flag) => Ok(self.flag(flag)),
            None => Err(CpuError::UnknownFlag),
        }
    }

    /// Sets or clears the flag called `state`, leaving the other three as they
    /// were, and copies the flag state into register `F`; `UnknownFlag`, and
    /// nothing changed, where no flag has that name.
    pub fn set_flag(&mut self, state: &str, value: bool) -> (res: Result<(), CpuError>)
        ensures
            match Flag::parse(state@) {
                Some(flag) => {
                    &&& res is Ok
                    &&& final(self).flags() == flag_written(old(self).flags(), flag, value)
                    &&& final(self)@ == old(self)@.insert(Register::F, final(self).flags())
                    &&& final(self)@[Register::F] == final(self).flags()
                },
                None => res == Err::<(), CpuError>(CpuError::UnknownFlag) && *final(self) == *old(
                    self,
                ),
            },
            flags_clean(final(self).flags()),
    {
        match Flag::from_name(state) {
            Some(flag) => {
                self.put_flag(flag, value);
                Ok(())
            },
            None => {
                proof {
                    use_type_invariant(&*self);
                }
                Err(CpuError::UnknownFlag)
            },
        }
    }

    /// Decodes a 3-bit operand code; `InvalidOperandCode` above 7.
    pub fn index_to_reg(&self, register_index: u8) -> (res: Result<Operand, CpuError>)
        ensures
            res == (match Operand::decode(register_index) {
                Some(operand) => Ok::<Operand, CpuError>(operand),
                None => Err::<Operand, CpuError>(CpuError::InvalidOperandCode),
            }),
    {
        match register_index {
            0 => Ok(Operand::Register(Register::B)),
            1 => Ok(Operand::Register(Register::C)),
            2 => Ok(Operand::Register(Register::D)),
            3 => Ok(Operand::Register(Register::E)),
            4 => Ok(Operand::Register(Register::H)),
            5 => Ok(Operand::Register(Register::L)),
            6 => Ok(Operand::IndirectHL),
            7 => Ok(Operand::Register(Register::A)),
            _ => Err(CpuError::InvalidOperandCode),
        }
    }
}

} // verus!
