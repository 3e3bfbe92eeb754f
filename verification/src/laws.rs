//! What holds of the engine for every state and every program image.

use vstd::prelude::*;
use crate::cpu::CPU;
use crate::fault::{Fault, Outcome};
use crate::flags::{lemma_observed, negative_flag, reserved, sign_bit, zero_flag};
use crate::opcode::{decoded, Instruction, HALT, INX, LDA_IMMEDIATE, TAX};

verus! {

/// Whether the two condition flags of `status` describe `value`.
pub open spec fn flags_describe(status: u8, value: u8) -> bool {
    &&& zero_flag(status) <==> value == 0
    &&& negative_flag(status) <==> sign_bit(value)
}

/// Whether the condition flags of `cpu` describe one of its two registers.
pub open spec fn settled(cpu: CPU) -> bool {
    flags_describe(cpu.status, cpu.register_a) || flags_describe(cpu.status, cpu.register_x)
}

/// Whether `after` differs from `before` in nothing but the program counter.
pub open spec fn only_counter_moved(before: CPU, after: CPU) -> bool {
    after == (CPU { program_counter: after.program_counter, ..before })
}

/// After a load the accumulator holds the loaded value, and the flags
/// describe that value whatever the status byte held before. The index
/// register, the counter and the reserved status bits stay.
pub proof fn lemma_load(cpu: CPU, value: u8)
    ensures
        cpu.loaded(value).register_a == value,
        cpu.loaded(value).register_x == cpu.register_x,
        cpu.loaded(value).program_counter == cpu.program_counter,
        flags_describe(cpu.loaded(value).status, value),
        reserved(cpu.loaded(value).status) == reserved(cpu.status),
{
    lemma_observed(cpu.status, value);
}

/// A transfer leaves the accumulator as it is and makes the index register
/// equal to it; the flags then describe the index register.
pub proof fn lemma_transfer(cpu: CPU)
    ensures
        cpu.transferred().register_a == cpu.register_a,
        cpu.transferred().register_x == cpu.register_a,
        cpu.transferred().program_counter == cpu.program_counter,
        flags_describe(cpu.transferred().status, cpu.transferred().register_x),
        reserved(cpu.transferred().status) == reserved(cpu.status),
{
    lemma_observed(cpu.status, cpu.register_a);
}

/// An increment is modular: 255 becomes 0, with the zero flag set and the
/// negative flag clear, and any smaller value becomes its successor. The
/// flags describe the new value of the index register.
pub proof fn lemma_increment(cpu: CPU)
    ensures
        cpu.register_x == 255 ==> cpu.incremented().register_x == 0,
        cpu.register_x == 255 ==> zero_flag(cpu.incremented().status),
        cpu.register_x == 255 ==> !negative_flag(cpu.incremented().status),
        cpu.register_x < 255 ==> cpu.incremented().register_x == cpu.register_x + 1,
        cpu.incremented().register_a == cpu.register_a,
        cpu.incremented().program_counter == cpu.program_counter,
        flags_describe(cpu.incremented().status, cpu.incremented().register_x),
        reserved(cpu.incremented().status) == reserved(cpu.status),
{
    lemma_observed(cpu.status, cpu.next_index());
    assert(!sign_bit(0u8)) by (bit_vector);
}

/// What one turn of the engine does where the opcode at the counter is in
/// the table: the counter moves past the opcode and its operands, and the
/// registers and flags change as the instruction says. A load whose operand
/// cannot be fetched faults with the counter just past the opcode.
pub proof fn lemma_step_known(cpu: CPU, program: Seq<u8>, instruction: Instruction)
    requires
        cpu.can_fetch(program),
        program[cpu.program_counter as int] == instruction.opcode(),
    ensures
        instruction == Instruction::Halt
            ==> cpu.stepped(program) == (cpu.advanced(), Outcome::Halt),
        instruction == Instruction::Tax
            ==> cpu.stepped(program) == (cpu.advanced().transferred(), Outcome::Continue),
        instruction == Instruction::Inx
            ==> cpu.stepped(program) == (cpu.advanced().incremented(), Outcome::Continue),
        instruction == Instruction::Lda && cpu.advanced().can_fetch(program)
            ==> cpu.stepped(program) == (
            cpu.advanced().advanced().loaded(program[cpu.program_counter + 1]),
            Outcome::Continue,
        ),
        instruction == Instruction::Lda && !cpu.advanced().can_fetch(program)
            ==> cpu.stepped(program) == (
            cpu.advanced(),
            Outcome::Fault(cpu.advanced().fetch_fault(program)),
        ),
        !(cpu.stepped(program).1 is Fault)
            ==> cpu.stepped(program).0.program_counter
            == cpu.program_counter + 1 + instruction.operand_len(),
{
}

/// An opcode that is not in the table faults at once: the fault names the
/// opcode and where it stood, the counter stands just past it, and nothing
/// else has changed. This holds of one turn and of the whole run.
pub proof fn lemma_unknown_opcode_faults(cpu: CPU, program: Seq<u8>)
    requires
        cpu.can_fetch(program),
        decoded(program[cpu.program_counter as int]) is None,
    ensures
        cpu.stepped(program) == (
            cpu.advanced(),
            Outcome::Fault(
                Fault::UnknownOpcode {
                    opcode: program[cpu.program_counter as int],
                    position: cpu.program_counter,
                },
            ),
        ),
        cpu.ran(program) == (
            cpu.advanced(),
            Err::<(), Fault>(
                Fault::UnknownOpcode {
                    opcode: program[cpu.program_counter as int],
                    position: cpu.program_counter,
                },
            ),
        ),
{
}

/// The table is closed: a byte is decoded exactly when it is one of the four
/// encodings, and then to the instruction that it encodes.
pub proof fn lemma_decoded(opcode: u8)
    ensures
        decoded(opcode) is Some
            <==> opcode == HALT || opcode == LDA_IMMEDIATE || opcode == TAX || opcode == INX,
        forall|instruction: Instruction|
            decoded(opcode) == Some(instruction) <==> #[trigger] instruction.opcode() == opcode,
{
}

/// A fetch that cannot be made faults at once and changes nothing: past the
/// end of the image as a truncated program, else as a counter overflow.
pub proof fn lemma_failed_fetch_faults(cpu: CPU, program: Seq<u8>)
    requires
        !cpu.can_fetch(program),
    ensures
        cpu.stepped(program) == (cpu, Outcome::Fault(cpu.fetch_fault(program))),
        cpu.ran(program) == (cpu, Err::<(), Fault>(cpu.fetch_fault(program))),
        cpu.program_counter >= program.len()
            ==> cpu.fetch_fault(program) == (Fault::Truncated { position: cpu.program_counter }),
        cpu.program_counter < program.len() ==> cpu.fetch_fault(program) == Fault::CounterOverflow,
{
}

/// The halt opcode ends the run at once, whatever follows it in the image:
/// the counter stands just past it and nothing else has changed.
pub proof fn lemma_halt_stops(cpu: CPU, program: Seq<u8>)
    requires
        cpu.can_fetch(program),
        program[cpu.program_counter as int] == HALT,
    ensures
        cpu.stepped(program) == (cpu.advanced(), Outcome::Halt),
        cpu.ran(program) == (cpu.advanced(), Ok::<(), Fault>(())),
        only_counter_moved(cpu, cpu.ran(program).0),
{
}

/// One turn never moves the counter back, and moves it on whenever the
/// engine goes on. It keeps the reserved status bits. Where it goes on, the
/// flags describe a register afterwards; where it halts or faults, only the
/// counter has moved.
pub proof fn lemma_step(cpu: CPU, program: Seq<u8>)
    ensures
        cpu.program_counter <= cpu.stepped(program).0.program_counter <= cpu.program_counter + 2,
        cpu.stepped(program).0.program_counter > cpu.program_counter
            ==> cpu.stepped(program).0.program_counter <= program.len(),
        reserved(cpu.stepped(program).0.status) == reserved(cpu.status),
        cpu.stepped(program).1 == Outcome::Continue
            ==> cpu.stepped(program).0.program_counter > cpu.program_counter,
        cpu.stepped(program).1 == Outcome::Continue ==> settled(cpu.stepped(program).0),
        cpu.stepped(program).1 != Outcome::Continue
            ==> only_counter_moved(cpu, cpu.stepped(program).0),
{
    if cpu.can_fetch(program) {
        let at = cpu.advanced();
        match decoded(program[cpu.program_counter as int]) {
            Some(Instruction::Lda) => {
                if at.can_fetch(program) {
                    lemma_load(at.advanced(), program[at.program_counter as int]);
                }
            },
            Some(Instruction::Tax) => {
                lemma_transfer(at);
            },
            Some(Instruction::Inx) => {
                lemma_increment(at);
            },
            _ => {},
        }
    }
}

/// A run ends with the counter at or after where it started, and inside the
/// image if it moved at all. It keeps the reserved status bits. At its end
/// the flags describe a register, unless no instruction wrote one: then
/// only the counter has moved.
pub proof fn lemma_run(cpu: CPU, program: Seq<u8>)
    ensures
        cpu.ran(program).0.program_counter >= cpu.program_counter,
        cpu.ran(program).0.program_counter > cpu.program_counter
            ==> cpu.ran(program).0.program_counter <= program.len(),
        reserved(cpu.ran(program).0.status) == reserved(cpu.status),
        settled(cpu.ran(program).0) || only_counter_moved(cpu, cpu.ran(program).0),
    decreases u16::MAX - cpu.program_counter,
{
    lemma_step(cpu, program);
    let (next, outcome) = cpu.stepped(program);
    if outcome == Outcome::Continue {
        lemma_run(next, program);
    }
}

/// How a run ends tells what stands in the image. After a halt the byte
/// just before the counter is the halt opcode. An unknown-opcode fault names
/// the byte just before the counter, which is in no table entry. A
/// truncation is reported at the counter, which lies past the end of the
/// image. A counter overflow leaves the counter at its largest value.
pub proof fn lemma_run_end(cpu: CPU, program: Seq<u8>)
    ensures
        cpu.ran(program).1 is Ok
            ==> cpu.program_counter < cpu.ran(program).0.program_counter <= program.len()
            && program[cpu.ran(program).0.program_counter - 1] == HALT,
        (cpu.ran(program).1 matches Err(Fault::UnknownOpcode { opcode, position })
            ==> cpu.program_counter <= position < program.len()
            && cpu.ran(program).0.program_counter == position + 1
            && program[position as int] == opcode
            && decoded(opcode) is None),
        (cpu.ran(program).1 matches Err(Fault::Truncated { position })
            ==> cpu.ran(program).0.program_counter == position
            && position >= program.len()),
        cpu.ran(program).1 == Err::<(), Fault>(Fault::CounterOverflow)
            ==> cpu.ran(program).0.program_counter == u16::MAX
            && program.len() > u16::MAX,
    decreases u16::MAX - cpu.program_counter,
{
    let (next, outcome) = cpu.stepped(program);
    if outcome == Outcome::Continue {
        lemma_run_end(next, program);
    }
}

/// A run that halts has read nothing at or after its final counter: an
/// image that agrees with `program` on the bytes from the starting counter
/// up to there gives the same run.
pub proof fn lemma_halt_ignores_rest(cpu: CPU, program: Seq<u8>, other: Seq<u8>)
    requires
        cpu.ran(program).1 is Ok,
        cpu.ran(program).0.program_counter <= other.len(),
        forall|i: int|
            cpu.program_counter <= i < cpu.ran(program).0.program_counter
                ==> other[i] == program[i],
    ensures
        cpu.ran(other) == cpu.ran(program),
    decreases u16::MAX - cpu.program_counter,
{
    let (next, outcome) = cpu.stepped(program);
    lemma_step(cpu, program);
    if outcome == Outcome::Continue {
        lemma_run(next, program);
        lemma_halt_ignores_rest(next, program, other);
    }
}

} // verus!
