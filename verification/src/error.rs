//! Failures of the register file and of the arithmetic unit.

use vstd::prelude::*;

verus! {

/// Why an operation was refused. Each of these comes from a malformed
/// instruction decode upstream; none is recoverable inside the core.
#[derive(Clone, Copy, Debug, PartialEq, Eq, Structural)]
pub enum CpuError {
    /// The name is not one of `A`, `B`, `C`, `D`, `E`, `F`, `H`, `L`.
    UnknownRegister,
    /// The name is not one of `Z`, `S`, `HC`, `C`.
    UnknownFlag,
    /// The operand code is above 7, or it is 6 where a plain register is needed.
    InvalidOperandCode,
}

} // verus!
