//! Instruction arguments: a literal value or one of the eight registers.

use vstd::prelude::*;
use crate::fault::Fault;

verus! {

/// Number of registers.
pub const NUM_REGISTERS: usize = 8;

/// The first raw word that names a register; smaller words are literals.
pub const REGISTER_BASE: u16 = 32768;

/// A decoded argument.
#[derive(Debug, Clone, Copy, PartialEq, Eq, Structural)]
pub enum Operand {
    /// A value in `0..=32767`.
    Literal(u16),
    /// The index of a register, in `0..=7`.
    Register(u8),
}

impl Operand {
    /// A literal holds a 15-bit value; a register index names one of the
    /// eight registers.
    pub open spec fn wf(self) -> bool {
        match self {
            Operand::Literal(value) => value < REGISTER_BASE,
            Operand::Register(index) => index < NUM_REGISTERS,
        }
    }

    /// The operand that a raw word encodes, if it encodes one.
    pub open spec fn classified(raw: u16) -> Result<Operand, Fault> {
        if raw < REGISTER_BASE {
            Ok(Operand::Literal(raw))
        } else if raw - REGISTER_BASE < NUM_REGISTERS {
            Ok(Operand::Register((raw - REGISTER_BASE) as u8))
        } else {
            Err(Fault::InvalidOperand(raw))
        }
    }

    /// What the operand stands for, given the registers' contents.
    pub open spec fn value(self, reg: Seq<u16>) -> u16 {
        match self {
            Operand::Literal(value) => value,
            Operand::Register(index) => reg[index as int],
        }
    }

    /// Decodes a raw word: words up to 32767 are literals, the next eight
    /// are the registers, and every other word is invalid.
    pub fn classify(raw: u16) -> (r: Result<Operand, Fault>)
        ensures
            r == Self::classified(raw),
            raw <= 32767 ==> r == Ok::<Operand, Fault>(Operand::Literal(raw)),
            32768 <= raw <= 32775 ==> r == Ok::<Operand, Fault>(
                Operand::Register((raw - 32768) as u8),
            ),
            raw >= 32776 ==> r == Err::<Operand, Fault>(Fault::InvalidOperand(raw)),
            r matches Ok(operand) ==> operand.wf(),
    {
        if raw < REGISTER_BASE {
            Ok(Operand::Literal(raw))
        } else if ((raw - REGISTER_BASE) as usize) < NUM_REGISTERS {
            Ok(Operand::Register((raw - REGISTER_BASE) as u8))
        } else {
            Err(Fault::InvalidOperand(raw))
        }
    }
}

} // verus!
