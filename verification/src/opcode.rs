//! The opcode table: which byte encodes which instruction.

use vstd::prelude::*;

verus! {

/// Encoding of the halt instruction.
pub const HALT: u8 = 0x00;

/// Encoding of "load accumulator, immediate".
pub const LDA_IMMEDIATE: u8 = 0xA9;

/// Encoding of "transfer accumulator to index register".
pub const TAX: u8 = 0xAA;

/// Encoding of "increment index register".
pub const INX: u8 = 0xE8;

/// The instructions that the machine knows.
#[derive(Clone, Copy, Debug, PartialEq, Eq, Structural)]
pub enum Instruction {
    /// Stops the run.
    Halt,
    /// Loads the operand byte into the accumulator.
    Lda,
    /// Copies the accumulator into the index register.
    Tax,
    /// Adds one to the index register, modulo 256.
    Inx,
}

impl Instruction {
    /// The byte that encodes this instruction.
    pub open spec fn opcode(self) -> u8 {
        match self {
            Instruction::Halt => HALT,
            Instruction::Lda => LDA_IMMEDIATE,
            Instruction::Tax => TAX,
            Instruction::Inx => INX,
        }
    }

    /// The number of operand bytes that follow the opcode.
    pub open spec fn operand_len(self) -> nat {
        match self {
            Instruction::Lda => 1,
            _ => 0,
        }
    }
}

/// The instruction that `opcode` encodes, if any: the one whose `opcode()`
/// it is.
pub open spec fn decoded(opcode: u8) -> Option<Instruction> {
    if opcode == HALT {
        Some(Instruction::Halt)
    } else if opcode == LDA_IMMEDIATE {
        Some(Instruction::Lda)
    } else if opcode == TAX {
        Some(Instruction::Tax)
    } else if opcode == INX {
        Some(Instruction::Inx)
    } else {
        None
    }
}

/// Looks `opcode` up in the opcode table.
pub fn decode(opcode: u8) -> (instruction: Option<Instruction>)
    ensures
        instruction == decoded(opcode),
        instruction matches Some(i) ==> i.opcode() == opcode,
        instruction is None ==> forall|i: Instruction| i.opcode() != opcode,
{
    match opcode {
        HALT => Some(Instruction::Halt),
        LDA_IMMEDIATE => Some(Instruction::Lda),
        TAX => Some(Instruction::Tax),
        INX => Some(Instruction::Inx),
        _ => None,
    }
}

} // verus!
