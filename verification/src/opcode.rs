//! The opcode table: which operation, in which addressing mode, each
//! instruction byte stands for.

use crate::addressing::AddressingMode;
use vstd::prelude::*;

verus! {

/// The operations of the instruction set.
#[derive(Debug, Clone, Copy, PartialEq, Eq, Structural)]
pub enum Mnemonic {
    /// Halt.
    BRK,
    /// Load the accumulator from memory.
    LDA,
    /// Copy the accumulator to index register X.
    TAX,
    /// Increment index register X.
    INX,
}

/// What an opcode byte decodes to.
#[derive(Debug, Clone, Copy, PartialEq, Eq, Structural)]
pub struct Instruction {
    pub mnemonic: Mnemonic,
    pub mode: AddressingMode,
}

/// The table itself. A byte without an entry is an unimplemented opcode.
pub open spec fn spec_decode(opcode: u8) -> Option<Instruction> {
    match opcode {
        0x00 => Some(Instruction { mnemonic: Mnemonic::BRK, mode: AddressingMode::NoneAddressing }),
        0xA9 => Some(Instruction { mnemonic: Mnemonic::LDA, mode: AddressingMode::Immediate }),
        0xA5 => Some(Instruction { mnemonic: Mnemonic::LDA, mode: AddressingMode::ZeroPage }),
        0xB5 => Some(Instruction { mnemonic: Mnemonic::LDA, mode: AddressingMode::ZeroPage_X }),
        0xAD => Some(Instruction { mnemonic: Mnemonic::LDA, mode: AddressingMode::Absolute }),
        0xBD => Some(Instruction { mnemonic: Mnemonic::LDA, mode: AddressingMode::Absolute_X }),
        0xB9 => Some(Instruction { mnemonic: Mnemonic::LDA, mode: AddressingMode::Absolute_Y }),
        0xA1 => Some(Instruction { mnemonic: Mnemonic::LDA, mode: AddressingMode::Indirect_X }),
        0xB1 => Some(Instruction { mnemonic: Mnemonic::LDA, mode: AddressingMode::Indirect_Y }),
        0xAA => Some(Instruction { mnemonic: Mnemonic::TAX, mode: AddressingMode::NoneAddressing }),
        0xE8 => Some(Instruction { mnemonic: Mnemonic::INX, mode: AddressingMode::NoneAddressing }),
        _ => None,
    }
}

/// Looks an opcode byte up in the table.
#[verifier::when_used_as_spec(spec_decode)]
pub fn decode(opcode: u8) -> (entry: Option<Instruction>)
    ensures
        entry == spec_decode(opcode),
{
    let (mnemonic, mode) = match opcode {
        0x00 => (Mnemonic::BRK, AddressingMode::NoneAddressing),
        0xA9 => (Mnemonic::LDA, AddressingMode::Immediate),
        0xA5 => (Mnemonic::LDA, AddressingMode::ZeroPage),
        0xB5 => (Mnemonic::LDA, AddressingMode::ZeroPage_X),
        0xAD => (Mnemonic::LDA, AddressingMode::Absolute),
        0xBD => (Mnemonic::LDA, AddressingMode::Absolute_X),
        0xB9 => (Mnemonic::LDA, AddressingMode::Absolute_Y),
        0xA1 => (Mnemonic::LDA, AddressingMode::Indirect_X),
        0xB1 => (Mnemonic::LDA, AddressingMode::Indirect_Y),
        0xAA => (Mnemonic::TAX, AddressingMode::NoneAddressing),
        0xE8 => (Mnemonic::INX, AddressingMode::NoneAddressing),
        _ => { return None; },
    };
    Some(Instruction { mnemonic, mode })
}

/// Every entry that loads from memory names a mode that has an operand.
pub proof fn lemma_table_modes(opcode: u8)
    ensures
        spec_decode(opcode) matches Some(entry) ==> (entry.mnemonic == Mnemonic::LDA
            <==> entry.mode != AddressingMode::NoneAddressing),
{
}

} // verus!
