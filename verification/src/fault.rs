//! What one instruction, or a whole run, can end in.

use vstd::prelude::*;

verus! {

/// A condition that ends a run without a halt. Nothing is executed after it.
#[derive(Clone, Copy, Debug, PartialEq, Eq, Structural)]
pub enum Fault {
    /// The byte fetched at `position` as an opcode has no entry in the
    /// opcode table.
    UnknownOpcode { opcode: u8, position: u16 },
    /// A fetch was attempted at `position`, which lies past the end of the
    /// program image.
    Truncated { position: u16 },
    /// A fetch was attempted with the program counter at its largest value,
    /// so that the counter could not advance past the fetched byte.
    CounterOverflow,
}

/// What the engine does after one instruction. The engine is running until
/// an instruction gives `Halt` or `Fault`.
#[derive(Clone, Copy, Debug, PartialEq, Eq, Structural)]
pub enum Outcome {
    /// The instruction was executed; the next one follows.
    Continue,
    /// The halt instruction was reached.
    Halt,
    /// The instruction could not be fetched or decoded.
    Fault(Fault),
}

} // verus!
