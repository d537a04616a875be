//! The 22 instructions and what each does to a machine state.

use vstd::prelude::*;
use crate::fault::Fault;
use crate::memory::{read_word, write_word};
use crate::operand::Operand;
use crate::state::{Outcome, Source, State};

verus! {

/// A decoded instruction with the operands its opcode calls for.
#[derive(Debug, Clone, Copy, PartialEq, Eq, Structural)]
pub enum Instruction {
    Halt,
    SetReg(Operand, Operand),
    Push(Operand),
    Pop(Operand),
    Eq(Operand, Operand, Operand),
    Gt(Operand, Operand, Operand),
    Jmp(Operand),
    Jt(Operand, Operand),
    Jf(Operand, Operand),
    Add(Operand, Operand, Operand),
    Mult(Operand, Operand, Operand),
    Mod(Operand, Operand, Operand),
    And(Operand, Operand, Operand),
    Or(Operand, Operand, Operand),
    Not(Operand, Operand),
    RMem(Operand, Operand),
    WMem(Operand, Operand),
    Call(Operand),
    Ret,
    Out(Operand),
    In(Operand),
    Noop,
}

/// `1` for true and `0` for false, as `Eq` and `Gt` store it.
pub open spec fn flag(b: bool) -> u16 {
    if b {
        1
    } else {
        0
    }
}

/// The sum of two words, modulo 2^15.
pub open spec fn sum15(x: u16, y: u16) -> u16 {
    ((x as int + y as int) % 32768) as u16
}

/// The product of two words, modulo 2^15.
pub open spec fn product15(x: u16, y: u16) -> u16 {
    ((x as int * y as int) % 32768) as u16
}

/// The bitwise complement of a word, cut to its low 15 bits.
pub open spec fn complement15(x: u16) -> u16 {
    !x & 0x7fff
}

/// The low 8 bits of a word: the byte that `Out` emits for it.
pub open spec fn low_byte(x: u16) -> u8 {
    (x & 0xff) as u8
}

/// Computes `flag`.
pub fn flag_of(b: bool) -> (r: u16)
    ensures
        r == flag(b),
        r == 0 || r == 1,
{
    if b {
        1
    } else {
        0
    }
}

/// Computes `sum15`; the sum is formed in 32 bits, where it cannot overflow.
pub fn add15(x: u16, y: u16) -> (r: u16)
    ensures
        r == sum15(x, y),
        r <= 32767,
{
    let sum: u32 = x as u32 + y as u32;
    (sum % 0x8000) as u16
}

/// Computes `product15`; the product is formed in 32 bits, where it cannot
/// overflow.
pub fn mul15(x: u16, y: u16) -> (r: u16)
    ensures
        r == product15(x, y),
        r <= 32767,
{
    let wide_x: u32 = x as u32;
    let wide_y: u32 = y as u32;
    assert(wide_x * wide_y <= 0xffff * 0xffff) by (nonlinear_arith)
        requires
            wide_x <= 0xffff,
            wide_y <= 0xffff,
    ;
    let product: u32 = wide_x * wide_y;
    (product % 0x8000) as u16
}

/// Computes `complement15`.
pub fn not15(x: u16) -> (r: u16)
    ensures
        r == complement15(x),
        r <= 32767,
{
    let r: u16 = !x & 0x7fff;
    assert(r <= 32767) by (bit_vector)
        requires
            r == !x & 0x7fff,
    ;
    r
}

/// Computes `low_byte`.
pub fn byte_of(x: u16) -> (r: u8)
    ensures
        r == low_byte(x),
{
    let low: u16 = x & 0xff;
    assert(low < 256) by (bit_vector)
        requires
            low == x & 0xff,
    ;
    low as u8
}

impl Instruction {
    /// Every operand is well formed.
    pub open spec fn wf(self) -> bool {
        match self {
            Instruction::Halt | Instruction::Ret | Instruction::Noop => true,
            Instruction::Push(a)
            | Instruction::Pop(a)
            | Instruction::Jmp(a)
            | Instruction::Call(a)
            | Instruction::Out(a)
            | Instruction::In(a) => a.wf(),
            Instruction::SetReg(a, b)
            | Instruction::Jt(a, b)
            | Instruction::Jf(a, b)
            | Instruction::Not(a, b)
            | Instruction::RMem(a, b)
            | Instruction::WMem(a, b) => a.wf() && b.wf(),
            Instruction::Eq(a, b, c)
            | Instruction::Gt(a, b, c)
            | Instruction::Add(a, b, c)
            | Instruction::Mult(a, b, c)
            | Instruction::Mod(a, b, c)
            | Instruction::And(a, b, c)
            | Instruction::Or(a, b, c) => a.wf() && b.wf() && c.wf(),
        }
    }

    /// What executing the instruction makes of `s`, whose `ip` already
    /// stands behind the instruction and its operands.
    pub open spec fn apply(self, s: State) -> Outcome {
        match self {
            Instruction::Halt => Outcome::Next(State { halted: true, ..s }),
            Instruction::SetReg(a, b) => s.assign(a, b.value(s.reg)),
            Instruction::Push(a) => Outcome::Next(
                State { stack: s.stack.push(a.value(s.reg)), ..s },
            ),
            Instruction::Pop(a) => if s.stack.len() == 0 {
                Outcome::Fault(Fault::StackUnderflow)
            } else {
                (State { stack: s.stack.drop_last(), ..s }).assign(a, s.stack.last())
            },
            Instruction::Eq(a, b, c) => s.assign(a, flag(b.value(s.reg) == c.value(s.reg))),
            Instruction::Gt(a, b, c) => s.assign(a, flag(b.value(s.reg) > c.value(s.reg))),
            Instruction::Jmp(a) => s.jump(a.value(s.reg)),
            Instruction::Jt(a, b) => if a.value(s.reg) != 0 {
                s.jump(b.value(s.reg))
            } else {
                Outcome::Next(s)
            },
            Instruction::Jf(a, b) => if a.value(s.reg) == 0 {
                s.jump(b.value(s.reg))
            } else {
                Outcome::Next(s)
            },
            Instruction::Add(a, b, c) => s.assign(a, sum15(b.value(s.reg), c.value(s.reg))),
            Instruction::Mult(a, b, c) => s.assign(a, product15(b.value(s.reg), c.value(s.reg))),
            Instruction::Mod(a, b, c) => if c.value(s.reg) == 0 {
                Outcome::Fault(Fault::DivisionByZero)
            } else {
                s.assign(a, (b.value(s.reg) % c.value(s.reg)) as u16)
            },
            Instruction::And(a, b, c) => s.assign(a, b.value(s.reg) & c.value(s.reg)),
            Instruction::Or(a, b, c) => s.assign(a, b.value(s.reg) | c.value(s.reg)),
            Instruction::Not(a, b) => s.assign(a, complement15(b.value(s.reg))),
            Instruction::RMem(a, b) => match read_word(s.mem, b.value(s.reg) as usize) {
                Ok(word) => s.assign(a, word),
                Err(fault) => Outcome::Fault(fault),
            },
            Instruction::WMem(a, b) => match write_word(
                s.mem,
                a.value(s.reg) as usize,
                b.value(s.reg),
            ) {
                Ok(mem) => Outcome::Next(State { mem, ..s }),
                Err(fault) => Outcome::Fault(fault),
            },
            Instruction::Call(a) => Outcome::Next(
                State { stack: s.stack.push(s.ip), ip: a.value(s.reg), ..s },
            ),
            Instruction::Ret => if s.stack.len() == 0 {
                Outcome::Next(State { halted: true, ..s })
            } else {
                Outcome::Next(State { stack: s.stack.drop_last(), ip: s.stack.last(), ..s })
            },
            Instruction::Out(a) => Outcome::Next(
                State { output: s.output.push(low_byte(a.value(s.reg))), ..s },
            ),
            Instruction::In(a) => if s.input.len() > 0 {
                (State { input: s.input.drop_first(), ..s }).assign(a, s.input[0] as u16)
            } else {
                match s.source {
                    Source::Open => Outcome::Blocked,
                    Source::Closed => Outcome::Fault(Fault::InputChannelClosed),
                    Source::Failed => Outcome::Fault(Fault::InputError),
                }
            },
            Instruction::Noop => Outcome::Next(s),
        }
    }
}

} // verus!
