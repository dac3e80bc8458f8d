//! Identities of registers and flags, and the names they go by.

use vstd::prelude::*;
use vstd::string::StrSliceExecFns;

verus! {

proof fn lemma_register_letters()
    ensures
        "A"@ == seq!['A'],
        "B"@ == seq!['B'],
        "C"@ == seq!['C'],
        "D"@ == seq!['D'],
        "E"@ == seq!['E'],
        "F"@ == seq!['F'],
        "H"@ == seq!['H'],
        "L"@ == seq!['L'],
{
    reveal_strlit("A");
    reveal_strlit("B");
    reveal_strlit("C");
    reveal_strlit("D");
    reveal_strlit("E");
    reveal_strlit("F");
    reveal_strlit("H");
    reveal_strlit("L");
    assert("A"@ =~= seq!['A']);
    assert("B"@ =~= seq!['B']);
    assert("C"@ =~= seq!['C']);
    assert("D"@ =~= seq!['D']);
    assert("E"@ =~= seq!['E']);
    assert("F"@ =~= seq!['F']);
    assert("H"@ =~= seq!['H']);
    assert("L"@ =~= seq!['L']);
}

proof fn lemma_flag_letters()
    ensures
        "Z"@ == seq!['Z'],
        "S"@ == seq!['S'],
        "HC"@ == seq!['H', 'C'],
        "C"@ == seq!['C'],
{
    reveal_strlit("Z");
    reveal_strlit("S");
    reveal_strlit("HC");
    reveal_strlit("C");
    assert("Z"@ =~= seq!['Z']);
    assert("S"@ =~= seq!['S']);
    assert("HC"@ =~= seq!['H', 'C']);
    assert("C"@ =~= seq!['C']);
}

/// Each of the eight register names stands for its own register, and every
/// register name is one letter long.
pub proof fn lemma_register_names()
    ensures
        forall|name: Seq<char>| #[trigger] Register::parse(name) is Some ==> name.len() == 1,
        Register::parse("A"@) == Some(Register::A),
        Register::parse("B"@) == Some(Register::B),
        Register::parse("C"@) == Some(Register::C),
        Register::parse("D"@) == Some(Register::D),
        Register::parse("E"@) == Some(Register::E),
        Register::parse("F"@) == Some(Register::F),
        Register::parse("H"@) == Some(Register::H),
        Register::parse("L"@) == Some(Register::L),
{
    lemma_register_letters();
    assert(seq!['A'][0] == 'A' && seq!['B'][0] == 'B' && seq!['C'][0] == 'C' && seq!['D'][0] == 'D');
    assert(seq!['E'][0] == 'E' && seq!['F'][0] == 'F' && seq!['H'][0] == 'H' && seq!['L'][0] == 'L');
}

/// Each of the four flag names stands for its own flag, and every flag name
/// is one or two letters long.
pub proof fn lemma_flag_names()
    ensures
        forall|name: Seq<char>| #[trigger] Flag::parse(name) is Some ==> 1 <= name.len() <= 2,
        Flag::parse("Z"@) == Some(Flag::Z),
        Flag::parse("S"@) == Some(Flag::S),
        Flag::parse("HC"@) == Some(Flag::HC),
        Flag::parse("C"@) == Some(Flag::C),
{
    lemma_flag_letters();
    assert(seq!['Z'][0] == 'Z' && seq!['S'][0] == 'S' && seq!['C'][0] == 'C');
    assert(seq!['H', 'C'].len() == 2 && seq!['Z'].len() == 1 && seq!['S'].len() == 1);
}

/// One of the eight 8-bit registers.
#[derive(Clone, Copy, Debug, PartialEq, Eq, Structural)]
pub enum Register {
    A,
    B,
    C,
    D,
    E,
    F,
    H,
    L,
}

impl Register {
    /// The register that a name stands for, if any.
    pub open spec fn parse(name: Seq<char>) -> Option<Register> {
        if name == "A"@ {
            Some(Register::A)
        } else if name == "B"@ {
            Some(Register::B)
        } else if name == "C"@ {
            Some(Register::C)
        } else if name == "D"@ {
            Some(Register::D)
        } else if name == "E"@ {
            Some(Register::E)
        } else if name == "F"@ {
            Some(Register::F)
        } else if name == "H"@ {
            Some(Register::H)
        } else if name == "L"@ {
            Some(Register::L)
        } else {
            None
        }
    }

    /// Resolves a register name.
    pub fn from_name(name: &str) -> (res: Option<Register>)
        ensures
            res == Register::parse(name@),
    {
        proof {
            lemma_register_letters();
        }
        if name.unicode_len() != 1 {
            return None;
        }
        let c = name.get_char(0);
        assert(name@ =~= seq![c]);
        if c == 'A' {
            Some(Register::A)
        } else if c == 'B' {
            Some(Register::B)
        } else if c == 'C' {
            Some(Register::C)
        } else if c == 'D' {
            Some(Register::D)
        } else if c == 'E' {
            Some(Register::E)
        } else if c == 'F' {
            Some(Register::F)
        } else if c == 'H' {
            Some(Register::H)
        } else if c == 'L' {
            Some(Register::L)
        } else {
            None
        }
    }
}

/// One of the four condition flags held in the upper nibble of the flag byte.
#[derive(Clone, Copy, Debug, PartialEq, Eq, Structural)]
pub enum Flag {
    /// Zero.
    Z,
    /// Subtract / sign.
    S,
    /// Half-carry.
    HC,
    /// Carry.
    C,
}

impl Flag {
    /// The flag that a name stands for, if any.
    pub open spec fn parse(name: Seq<char>) -> Option<Flag> {
        if name == "Z"@ {
            Some(Flag::Z)
        } else if name == "S"@ {
            Some(Flag::S)
        } else if name == "HC"@ {
            Some(Flag::HC)
        } else if name == "C"@ {
            Some(Flag::C)
        } else {
            None
        }
    }

    /// The bit of the flag byte that holds this flag.
    pub open spec fn shift(self) -> u8 {
        match self {
            Flag::Z => 7,
            Flag::S => 6,
            Flag::HC => 5,
            Flag::C => 4,
        }
    }

    /// Resolves a flag name.
    pub fn from_name(name: &str) -> (res: Option<Flag>)
        ensures
            res == Flag::parse(name@),
    {
        proof {
            lemma_flag_letters();
        }
        let n: usize = name.unicode_len();
        if n == 1 {
            let c = name.get_char(0);
            assert(name@ =~= seq![c]);
            if c == 'Z' {
                Some(Flag::Z)
            } else if c == 'S' {
                Some(Flag::S)
            } else if c == 'C' {
                Some(Flag::C)
            } else {
                None
            }
        } else if n == 2 {
            let c0 = name.get_char(0);
            let c1 = name.get_char(1);
            assert(name@ =~= seq![c0, c1]);
            if c0 == 'H' && c1 == 'C' {
                Some(Flag::HC)
            } else {
                None
            }
        } else {
            None
        }
    }

    /// The bit position of this flag, for shifting.
    pub fn bit(self) -> (k: u8)
        ensures
            k == self.shift(),
            4 <= k <= 7,
    {
        match self {
            Flag::Z => 7,
            Flag::S => 6,
            Flag::HC => 5,
            Flag::C => 4,
        }
    }
}

/// What a 3-bit operand code of an instruction selects.
#[derive(Clone, Copy, Debug, PartialEq, Eq, Structural)]
pub enum Operand {
    /// The value of an 8-bit register.
    Register(Register),
    /// The byte in memory at the address held in the pair HL.
    IndirectHL,
}

impl Operand {
    /// The standard r8 encoding: 0 to 5 select B, C, D, E, H, L, 6 selects the
    /// byte at HL, 7 selects A. Codes above 7 select nothing.
    pub open spec fn decode(code: u8) -> Option<Operand> {
        if code == 0 {
            Some(Operand::Register(Register::B))
        } else if code == 1 {
            Some(Operand::Register(Register::C))
        } else if code == 2 {
            Some(Operand::Register(Register::D))
        } else if code == 3 {
            Some(Operand::Register(Register::E))
        } else if code == 4 {
            Some(Operand::Register(Register::H))
        } else if code == 5 {
            Some(Operand::Register(Register::L))
        } else if code == 6 {
            Some(Operand::IndirectHL)
        } else if code == 7 {
            Some(Operand::Register(Register::A))
        } else {
            None
        }
    }

    /// The plain register that a code selects: `decode` without code 6.
    pub open spec fn decode_register(code: u8) -> Option<Register> {
        match Operand::decode(code) {
            Some(Operand::Register(r)) => Some(r),
            _ => None,
        }
    }
}

} // verus!
