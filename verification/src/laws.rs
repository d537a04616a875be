//! What holds of every state and every instruction.

use vstd::prelude::*;
use crate::fault::Fault;
use crate::instruction::{complement15, low_byte, product15, sum15, Instruction};
use crate::memory::word_of;
use crate::operand::{Operand, NUM_REGISTERS};
use crate::state::{Outcome, State, Status};

verus! {

/// A word of an image is little-endian: its low eight bits are the first byte
/// of the pair, the bits above them the second.
pub proof fn law_word_is_little_endian(low: u8, high: u8)
    ensures
        word_of(low, high) % 256 == low,
        word_of(low, high) / 256 == high,
{
}

/// `Eq` and `Gt` with a register as destination always run, and what they
/// store there is 0 or 1.
pub proof fn law_comparison_stores_flag(dest: u8, b: Operand, c: Operand, s: State)
    requires
        s.wf(),
        dest < NUM_REGISTERS,
    ensures
        Instruction::Eq(Operand::Register(dest), b, c).apply(s) matches Outcome::Next(after)
            && (after.reg[dest as int] == 0 || after.reg[dest as int] == 1),
        Instruction::Gt(Operand::Register(dest), b, c).apply(s) matches Outcome::Next(after)
            && (after.reg[dest as int] == 0 || after.reg[dest as int] == 1),
{
}

/// `Add`, `Mult` and `Not` with a register as destination always run, and
/// what they store there fits in 15 bits, whatever the operands hold.
pub proof fn law_arithmetic_stores_15_bits(dest: u8, b: Operand, c: Operand, s: State)
    requires
        s.wf(),
        dest < NUM_REGISTERS,
    ensures
        Instruction::Add(Operand::Register(dest), b, c).apply(s) matches Outcome::Next(after)
            && after.reg[dest as int] <= 32767,
        Instruction::Mult(Operand::Register(dest), b, c).apply(s) matches Outcome::Next(after)
            && after.reg[dest as int] <= 32767,
        Instruction::Not(Operand::Register(dest), b).apply(s) matches Outcome::Next(after)
            && after.reg[dest as int] <= 32767,
{
    let x = b.value(s.reg);
    let y = c.value(s.reg);
    assert(sum15(x, y) <= 32767);
    assert(product15(x, y) <= 32767);
    assert(complement15(x) <= 32767) by (bit_vector)
        requires
            complement15(x) == !x & 0x7fff,
    ;
}

/// The complement mirrors a word's low 15 bits within `0..=0x7fff`, so on
/// 15-bit values taking it twice gives the value back.
pub proof fn law_complement_mirrors(x: u16)
    ensures
        complement15(x) == 0x7fff - x % 0x8000,
        x <= 0x7fff ==> complement15(complement15(x)) == x,
{
    assert(!x & 0x7fff == 0x7fff - x % 0x8000) by (bit_vector);
    assert(x <= 0x7fff ==> !(!x & 0x7fff) & 0x7fff == x) by (bit_vector);
}

/// The byte that `Out` emits is the word's remainder modulo 256.
pub proof fn law_low_byte_is_remainder(x: u16)
    ensures
        low_byte(x) == x % 256,
{
    assert(x & 0xff == x % 256) by (bit_vector);
}

/// A `Call` and the `Ret` that meets the stack as the `Call` left it: the
/// `Ret` continues at the address right behind the `Call` and its operand,
/// with the stack as it was before the `Call`.
pub proof fn law_call_then_ret(s: State, later: State)
    requires
        !s.halted,
        !later.halted,
        s.fetch() matches Ok((Instruction::Call(_), _)),
        later.fetch() matches Ok((Instruction::Ret, _)),
        later.stack == s.step().0.stack,
    ensures
        s.step().1 == Ok::<Status, Fault>(Status::Running),
        later.step().1 == Ok::<Status, Fault>(Status::Running),
        later.step().0.ip == s.ip + 2,
        later.step().0.stack == s.stack,
{
    Instruction::lemma_parse(s.mem, s.ip as usize);
    assert(s.stack.push((s.ip + 2) as u16).drop_last() =~= s.stack);
}

/// On an empty stack `Ret` halts the machine and is no fault, while `Pop`
/// is the fault `StackUnderflow`.
pub proof fn law_empty_stack(dest: Operand, s: State)
    requires
        s.stack.len() == 0,
    ensures
        Instruction::Ret.apply(s) == Outcome::Next(State { halted: true, ..s }),
        Instruction::Pop(dest).apply(s) == Outcome::Fault(Fault::StackUnderflow),
{
}

/// No instruction clears the halted flag.
pub proof fn law_halted_stays_set(instruction: Instruction, s: State)
    requires
        s.halted,
    ensures
        instruction.apply(s) matches Outcome::Next(after) ==> after.halted,
{
}

/// A halted machine stays as it is, however often it is stepped or run.
pub proof fn law_halted_is_terminal(s: State, budget: nat)
    requires
        s.halted,
    ensures
        s.step() == (s, Ok::<Status, Fault>(Status::Halted)),
        s.run(budget) == (s, Ok::<Status, Fault>(Status::Halted)),
{
}

/// A step that faults or waits for input leaves the state as it was, so
/// the same step gives the same result again: nothing is skipped.
pub proof fn law_step_without_progress(s: State)
    requires
        s.step().1 is Err || s.step().1 == Ok::<Status, Fault>(Status::AwaitingInput),
    ensures
        s.step().0 == s,
        s.step().0.step() == s.step(),
{
}

/// A run that ends in a fault ends in the state that the faulting step met,
/// and stepping that state gives the fault again.
pub proof fn law_fault_ends_a_run(s: State, budget: nat)
    requires
        s.run(budget).1 is Err,
    ensures
        s.run(budget).0.step() == s.run(budget),
    decreases budget,
{
    if !s.halted && budget > 0 {
        let (after, r) = s.step();
        if r == Ok::<Status, Fault>(Status::Running) || r == Ok::<Status, Fault>(Status::Halted) {
            law_fault_ends_a_run(after, (budget - 1) as nat);
        }
    }
}

/// A run that the budget cut short goes on where it stopped: `m` steps and
/// then `n` more are a run of `m + n`.
pub proof fn law_run_resumes(s: State, m: nat, n: nat)
    requires
        s.run(m).1 == Ok::<Status, Fault>(Status::Running),
    ensures
        s.run(m).0.run(n) == s.run(m + n),
    decreases m,
{
    if !s.halted && m > 0 {
        let (after, r) = s.step();
        if r == Ok::<Status, Fault>(Status::Running) || r == Ok::<Status, Fault>(Status::Halted) {
            law_run_resumes(after, (m - 1) as nat, n);
            assert(s.run(m + n) == after.run((m + n - 1) as nat));
        }
    }
}

/// Only `Halt`, and `Ret` on an empty stack, halt a running machine.
pub proof fn law_what_halts(s: State)
    requires
        !s.halted,
        s.step().0.halted,
    ensures
        s.fetch() matches Ok((instruction, _)) && (instruction == Instruction::Halt || (instruction
            == Instruction::Ret && s.stack.len() == 0)),
{
}

/// A step keeps memory and register file at their sizes.
pub proof fn law_step_preserves_wf(s: State)
    requires
        s.wf(),
    ensures
        s.step().0.wf(),
{
    Instruction::lemma_parse(s.mem, s.ip as usize);
}

/// So does a run.
pub proof fn law_run_preserves_wf(s: State, budget: nat)
    requires
        s.wf(),
    ensures
        s.run(budget).0.wf(),
    decreases budget,
{
    if !s.halted && budget > 0 {
        law_step_preserves_wf(s);
        law_run_preserves_wf(s.step().0, (budget - 1) as nat);
    }
}

} // verus!
