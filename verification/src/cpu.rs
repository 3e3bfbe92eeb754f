//! Processor state and the instruction engine that runs a program image
//! against it.

use vstd::prelude::*;
use crate::fault::{Fault, Outcome};
use crate::flags::{
    lemma_observed, negative_flag, observed, reserved, sign_bit, zero_flag, NEGATIVE_FLAG, ZERO_FLAG,
};
use crate::laws::lemma_run;
use crate::opcode::{decode, decoded, Instruction};

verus! {

/// The state of the processor: two 8-bit registers, the status byte and the
/// program counter, which is an index into the program image.
#[derive(Clone, Copy, Debug, PartialEq, Eq, Structural)]
pub struct CPU {
    pub register_a: u8,
    pub register_x: u8,
    pub status: u8,
    pub program_counter: u16,
}

impl CPU {
    /// The state in which every field is zero.
    pub open spec fn zeroed() -> CPU {
        CPU { register_a: 0, register_x: 0, status: 0, program_counter: 0 }
    }

    /// This state with the program counter back at the start of the image.
    pub open spec fn restarted(self) -> CPU {
        CPU { program_counter: 0, ..self }
    }

    /// Whether a byte can be fetched: the counter lies inside the image and
    /// can advance past the byte.
    pub open spec fn can_fetch(self, program: Seq<u8>) -> bool {
        self.program_counter < program.len() && self.program_counter < u16::MAX
    }

    /// The fault that a fetch ends in where `can_fetch` does not hold.
    pub open spec fn fetch_fault(self, program: Seq<u8>) -> Fault {
        if self.program_counter >= program.len() {
            Fault::Truncated { position: self.program_counter }
        } else {
            Fault::CounterOverflow
        }
    }

    /// This state with the program counter moved on by one byte.
    pub open spec fn advanced(self) -> CPU {
        CPU { program_counter: (self.program_counter + 1) as u16, ..self }
    }

    /// This state after `value` has been loaded into the accumulator.
    pub open spec fn loaded(self, value: u8) -> CPU {
        CPU { register_a: value, status: observed(self.status, value), ..self }
    }

    /// This state after the accumulator has been copied to the index register.
    pub open spec fn transferred(self) -> CPU {
        CPU {
            register_x: self.register_a,
            status: observed(self.status, self.register_a),
            ..self
        }
    }

    /// The index register plus one, modulo 256.
    pub open spec fn next_index(self) -> u8 {
        ((self.register_x + 1) % 256) as u8
    }

    /// This state after the index register has been incremented.
    pub open spec fn incremented(self) -> CPU {
        CPU {
            register_x: self.next_index(),
            status: observed(self.status, self.next_index()),
            ..self
        }
    }

    /// A fetch: the byte at the counter, with the counter moved past it.
    /// Where no byte can be fetched, the state as it was and the fault.
    pub open spec fn fetched(self, program: Seq<u8>) -> (CPU, Result<u8, Fault>) {
        if self.can_fetch(program) {
            (self.advanced(), Ok(program[self.program_counter as int]))
        } else {
            (self, Err(self.fetch_fault(program)))
        }
    }

    /// The effect of `instruction` on a state whose counter stands just past
    /// the opcode, with operands fetched from `program`.
    pub open spec fn executed(self, instruction: Instruction, program: Seq<u8>) -> (CPU, Outcome) {
        match instruction {
            Instruction::Halt => (self, Outcome::Halt),
            Instruction::Lda => match self.fetched(program) {
                (at, Ok(value)) => (at.loaded(value), Outcome::Continue),
                (at, Err(fault)) => (at, Outcome::Fault(fault)),
            },
            Instruction::Tax => (self.transferred(), Outcome::Continue),
            Instruction::Inx => (self.incremented(), Outcome::Continue),
        }
    }

    /// One turn of the engine: fetch the opcode at the counter, decode it,
    /// execute it. A failed fetch leaves the state as it was; an unknown
    /// opcode leaves the counter just past it.
    pub open spec fn stepped(self, program: Seq<u8>) -> (CPU, Outcome) {
        match self.fetched(program) {
            (at, Ok(opcode)) => match decoded(opcode) {
                Some(instruction) => at.executed(instruction, program),
                None => (
                    at,
                    Outcome::Fault(
                        Fault::UnknownOpcode { opcode, position: self.program_counter },
                    ),
                ),
            },
            (at, Err(fault)) => (at, Outcome::Fault(fault)),
        }
    }

    /// The engine run from this state on until the first halt or fault: the
    /// state it ends in, and how it ended.
    pub open spec fn ran(self, program: Seq<u8>) -> (CPU, Result<(), Fault>)
        decreases u16::MAX - self.program_counter,
    {
        let (next, outcome) = self.stepped(program);
        match outcome {
            Outcome::Continue => next.ran(program),
            Outcome::Halt => (next, Ok(())),
            Outcome::Fault(fault) => (next, Err(fault)),
        }
    }

    /// Creates a processor with every field zero.
    pub fn new() -> (cpu: Self)
        ensures
            cpu == CPU::zeroed(),
    {
        CPU { register_a: 0, register_x: 0, status: 0, program_counter: 0 }
    }

    /// Recomputes the zero and the negative flag from `result`, and leaves
    /// every other bit of the status byte, and every register, as it was.
    pub fn update_zero_and_negative_flags(&mut self, result: u8)
        ensures
            *final(self) == (CPU { status: observed(old(self).status, result), ..*old(self) }),
            zero_flag(final(self).status) <==> result == 0,
            negative_flag(final(self).status) <==> sign_bit(result),
            reserved(final(self).status) == reserved(old(self).status),
    {
        if result == 0 {
            self.status = self.status | ZERO_FLAG;
        } else {
            self.status = self.status & !ZERO_FLAG;
        }
        let ghost zero_done: u8 = self.status;
        if (result & NEGATIVE_FLAG) != 0 {
            self.status = self.status | NEGATIVE_FLAG;
        } else {
            self.status = self.status & !NEGATIVE_FLAG;
        }
        proof {
            let before: u8 = old(self).status;
            let after: u8 = self.status;
            assert(after == observed(before, result)) by (bit_vector)
                requires
                    zero_done == (if result == 0 {
                        before | ZERO_FLAG
                    } else {
                        before & !ZERO_FLAG
                    }),
                    after == (if (result & NEGATIVE_FLAG) != 0 {
                        zero_done | NEGATIVE_FLAG
                    } else {
                        zero_done & !NEGATIVE_FLAG
                    }),
            ;
            lemma_observed(before, result);
        }
    }

    /// Loads `value` into the accumulator and observes it.
    pub fn lda(&mut self, value: u8)
        ensures
            *final(self) == old(self).loaded(value),
            final(self).register_a == value,
            zero_flag(final(self).status) <==> value == 0,
            negative_flag(final(self).status) <==> sign_bit(value),
            reserved(final(self).status) == reserved(old(self).status),
    {
        self.register_a = value;
        self.update_zero_and_negative_flags(self.register_a);
    }

    /// Copies the accumulator to the index register and observes it.
    pub fn tax(&mut self)
        ensures
            *final(self) == old(self).transferred(),
            final(self).register_a == old(self).register_a,
            final(self).register_x == old(self).register_a,
            zero_flag(final(self).status) <==> final(self).register_x == 0,
            negative_flag(final(self).status) <==> sign_bit(final(self).register_x),
            reserved(final(self).status) == reserved(old(self).status),
    {
        self.register_x = self.register_a;
        self.update_zero_and_negative_flags(self.register_x);
    }

    /// Adds one to the index register, from 255 back to 0, and observes it.
    pub fn inx(&mut self)
        ensures
            *final(self) == old(self).incremented(),
            old(self).register_x == 255 ==> final(self).register_x == 0,
            old(self).register_x < 255 ==> final(self).register_x == old(self).register_x + 1,
            zero_flag(final(self).status) <==> final(self).register_x == 0,
            negative_flag(final(self).status) <==> sign_bit(final(self).register_x),
            reserved(final(self).status) == reserved(old(self).status),
    {
        self.register_x = self.register_x.wrapping_add(1);
        self.update_zero_and_negative_flags(self.register_x);
    }

    /// Reads the byte at the program counter and moves the counter past it.
    /// Where no byte can be fetched the state stays as it is.
    pub fn fetch(&mut self, program: &[u8]) -> (fetched: Result<u8, Fault>)
        ensures
            (*final(self), fetched) == old(self).fetched(program@),
    {
        let position: usize = self.program_counter as usize;
        if position >= program.len() {
            Err(Fault::Truncated { position: self.program_counter })
        } else if self.program_counter == u16::MAX {
            Err(Fault::CounterOverflow)
        } else {
            let byte: u8 = program[position];
            self.program_counter = self.program_counter + 1;
            Ok(byte)
        }
    }

    /// Executes the instruction at the program counter.
    pub fn step(&mut self, program: &[u8]) -> (outcome: Outcome)
        ensures
            (*final(self), outcome) == old(self).stepped(program@),
    {
        let position: u16 = self.program_counter;
        let opcode: u8 = match self.fetch(program) {
            Ok(byte) => byte,
            Err(fault) => {
                return Outcome::Fault(fault);
            },
        };
        match decode(opcode) {
            None => Outcome::Fault(Fault::UnknownOpcode { opcode, position }),
            Some(Instruction::Halt) => Outcome::Halt,
            Some(Instruction::Lda) => match self.fetch(program) {
                Ok(value) => {
                    self.lda(value);
                    Outcome::Continue
                },
                Err(fault) => Outcome::Fault(fault),
            },
            Some(Instruction::Tax) => {
                self.tax();
                Outcome::Continue
            },
            Some(Instruction::Inx) => {
                self.inx();
                Outcome::Continue
            },
        }
    }

    /// Runs `program` from its first byte until it halts or faults.
    pub fn interpret(&mut self, program: Vec<u8>) -> (result: Result<(), Fault>)
        ensures
            (*final(self), result) == old(self).restarted().ran(program@),
            final(self).program_counter <= program@.len(),
            reserved(final(self).status) == reserved(old(self).status),
    {
        self.program_counter = 0;
        loop
            invariant
                self.ran(program@) == old(self).restarted().ran(program@),
            decreases u16::MAX - self.program_counter,
        {
            proof {
                lemma_run(old(self).restarted(), program@);
            }
            match self.step(program.as_slice()) {
                Outcome::Continue => {},
                Outcome::Halt => {
                    return Ok(());
                },
                Outcome::Fault(fault) => {
                    return Err(fault);
                },
            }
        }
    }
}

} // verus!
