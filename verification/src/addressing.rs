//! Addressing modes: the rules by which an instruction finds its operand.

use vstd::prelude::*;

verus! {

/// How an instruction's operand bytes name the memory location it works on.
#[derive(Debug, Clone, Copy, PartialEq, Eq, Structural)]
#[allow(non_camel_case_types)]
pub enum AddressingMode {
    Immediate,
    ZeroPage,
    ZeroPage_X,
    ZeroPage_Y,
    Absolute,
    Absolute_X,
    Absolute_Y,
    Indirect_X,
    Indirect_Y,
    NoneAddressing,
}

impl AddressingMode {
    /// Number of operand bytes that follow the opcode in this mode.
    pub open spec fn spec_operand_len(self) -> u16 {
        match self {
            AddressingMode::Absolute | AddressingMode::Absolute_X | AddressingMode::Absolute_Y => 2,
            AddressingMode::NoneAddressing => 0,
            _ => 1,
        }
    }

    /// Number of operand bytes that follow the opcode in this mode.
    #[verifier::when_used_as_spec(spec_operand_len)]
    pub fn operand_len(self) -> (n: u16)
        ensures
            n == self.spec_operand_len(),
    {
        match self {
            AddressingMode::Absolute | AddressingMode::Absolute_X | AddressingMode::Absolute_Y => 2,
            AddressingMode::NoneAddressing => 0,
            _ => 1,
        }
    }
}

} // verus!
