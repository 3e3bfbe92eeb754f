//! Programs compose: code behaves the same wherever in the image it stands,
//! and a run through two pieces of code is the run through the first
//! followed by the run through the second.

use vstd::prelude::*;
use crate::cpu::CPU;
use crate::fault::{Fault, Outcome};
use crate::laws::{lemma_failed_fetch_faults, lemma_step};
use crate::opcode::HALT;

verus! {

/// `cpu` with its counter `by` bytes further on.
pub open spec fn moved(cpu: CPU, by: nat) -> CPU {
    CPU { program_counter: (cpu.program_counter + by) as u16, ..cpu }
}

/// `fault` with the position that it reports `by` bytes further on.
pub open spec fn fault_moved(fault: Fault, by: nat) -> Fault {
    match fault {
        Fault::UnknownOpcode { opcode, position } => Fault::UnknownOpcode {
            opcode,
            position: (position + by) as u16,
        },
        Fault::Truncated { position } => Fault::Truncated { position: (position + by) as u16 },
        Fault::CounterOverflow => Fault::CounterOverflow,
    }
}

/// The run `run` as it looks in an image that holds `by` more bytes in front.
pub open spec fn run_moved(run: (CPU, Result<(), Fault>), by: nat) -> (CPU, Result<(), Fault>) {
    (
        moved(run.0, by),
        match run.1 {
            Ok(()) => Ok(()),
            Err(fault) => Err(fault_moved(fault, by)),
        },
    )
}

/// Whether `code` is made of whole instructions that run from `cpu` one
/// after the other to the end of `code`: with a halt put behind it, the run
/// from its first byte ends in that halt.
pub open spec fn runs_through(cpu: CPU, code: Seq<u8>) -> bool {
    let run = cpu.restarted().ran(code.push(HALT));
    run.1 is Ok && run.0.program_counter == code.len() + 1
}

/// The state in which `code`, run from its first byte, leaves `cpu`.
pub open spec fn after(cpu: CPU, code: Seq<u8>) -> CPU {
    cpu.restarted().ran(code.push(HALT)).0
}

/// Code does not depend on where it stands: with `prefix` put in front of
/// `program`, a run that starts `prefix.len()` bytes further on does what
/// the run in `program` alone does, with the counter and the positions of
/// faults further on by as much.
pub proof fn lemma_run_moved(cpu: CPU, prefix: Seq<u8>, program: Seq<u8>)
    requires
        prefix.len() + program.len() <= u16::MAX,
        cpu.program_counter <= program.len(),
    ensures
        moved(cpu, prefix.len()).ran(prefix + program) == run_moved(
            cpu.ran(program),
            prefix.len(),
        ),
    decreases u16::MAX - cpu.program_counter,
{
    let (next, outcome) = cpu.stepped(program);
    if outcome == Outcome::Continue {
        lemma_step(cpu, program);
        lemma_run_moved(next, prefix, program);
    }
}

/// A run through `first` that reaches its end in an image where a halt
/// follows reaches the same state in an image where `rest` follows.
proof fn lemma_run_reaches_end(cpu: CPU, first: Seq<u8>, rest: Seq<u8>)
    requires
        first.len() + rest.len() <= u16::MAX,
        cpu.program_counter <= first.len(),
        cpu.ran(first.push(HALT)).1 is Ok,
        cpu.ran(first.push(HALT)).0.program_counter == first.len() + 1,
    ensures
        cpu.ran(first + rest) == moved(
            cpu.ran(first.push(HALT)).0.restarted(),
            first.len(),
        ).ran(first + rest),
    decreases u16::MAX - cpu.program_counter,
{
    let halted = first.push(HALT);
    if cpu.program_counter < first.len() {
        let next = cpu.stepped(halted).0;
        if !next.can_fetch(halted) {
            // A load that took the halt for its operand would end the run in a fault.
            lemma_failed_fetch_faults(next, halted);
        }
        lemma_run_reaches_end(next, first, rest);
    }
}

/// Sequential composition. Where `first` runs through from `cpu`, the run
/// through `first` followed by `rest` is the run through `rest` from the
/// state in which `first` leaves `cpu`, with the counter and the positions
/// of faults further on by the length of `first`.
pub proof fn lemma_run_composes(cpu: CPU, first: Seq<u8>, rest: Seq<u8>)
    requires
        first.len() + rest.len() <= u16::MAX,
        runs_through(cpu, first),
    ensures
        cpu.restarted().ran(first + rest) == run_moved(
            after(cpu, first).restarted().ran(rest),
            first.len(),
        ),
{
    lemma_run_reaches_end(cpu.restarted(), first, rest);
    lemma_run_moved(after(cpu, first).restarted(), first, rest);
}

} // verus!
