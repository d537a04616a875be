//! Decoding operands and instructions from memory.

use vstd::prelude::*;
use crate::fault::Fault;
use crate::instruction::Instruction;
use crate::memory::{read_word, Pointer, MEMORY_SIZE};
use crate::operand::Operand;

verus! {

/// A value that is decoded from consecutive words of memory.
pub trait FromPointer: Sized {
    /// What decoding at `addr` gives: the value and the address behind its
    /// last word.
    spec fn parse(cells: Seq<u16>, addr: usize) -> Result<(Self, usize), Fault>;

    /// Decodes a value at the cursor and moves the cursor behind it. On a
    /// fault the cursor is where it was.
    fn from_pointer(ptr: &mut Pointer) -> (r: Result<Self, Fault>)
        ensures
            final(ptr)@.cells == old(ptr)@.cells,
            match Self::parse(old(ptr)@.cells, old(ptr)@.addr) {
                Ok((value, next)) => r == Ok::<Self, Fault>(value) && final(ptr)@.addr == next,
                Err(fault) => r == Err::<Self, Fault>(fault) && final(ptr)@.addr == old(ptr)@.addr,
            },
    ;
}

impl FromPointer for Operand {
    /// One word, classified.
    open spec fn parse(cells: Seq<u16>, addr: usize) -> Result<(Operand, usize), Fault> {
        match read_word(cells, addr) {
            Ok(raw) => match Operand::classified(raw) {
                Ok(operand) => Ok((operand, (addr + 1) as usize)),
                Err(fault) => Err(fault),
            },
            Err(fault) => Err(fault),
        }
    }

    fn from_pointer(ptr: &mut Pointer) -> (r: Result<Operand, Fault>) {
        let raw: u16 = match ptr.peek() {
            Ok(raw) => raw,
            Err(fault) => {
                return Err(fault);
            },
        };
        match Operand::classify(raw) {
            Ok(operand) => {
                ptr.add_assign(1);
                Ok(operand)
            },
            Err(fault) => Err(fault),
        }
    }
}

impl FromPointer for (Operand, Operand) {
    /// Two operands, one behind the other.
    open spec fn parse(cells: Seq<u16>, addr: usize) -> Result<((Operand, Operand), usize), Fault> {
        match Operand::parse(cells, addr) {
            Ok((a, next)) => match Operand::parse(cells, next) {
                Ok((b, next)) => Ok(((a, b), next)),
                Err(fault) => Err(fault),
            },
            Err(fault) => Err(fault),
        }
    }

    fn from_pointer(ptr: &mut Pointer) -> (r: Result<(Operand, Operand), Fault>) {
        let start: usize = ptr.addr();
        let a = match Operand::from_pointer(ptr) {
            Ok(a) => a,
            Err(fault) => {
                return Err(fault);
            },
        };
        match Operand::from_pointer(ptr) {
            Ok(b) => Ok((a, b)),
            Err(fault) => {
                ptr.jump(start);
                Err(fault)
            },
        }
    }
}

impl FromPointer for (Operand, Operand, Operand) {
    /// Three operands, one behind the other.
    open spec fn parse(cells: Seq<u16>, addr: usize) -> Result<
        ((Operand, Operand, Operand), usize),
        Fault,
    > {
        match Operand::parse(cells, addr) {
            Ok((a, next)) => match <(Operand, Operand)>::parse(cells, next) {
                Ok(((b, c), next)) => Ok(((a, b, c), next)),
                Err(fault) => Err(fault),
            },
            Err(fault) => Err(fault),
        }
    }

    fn from_pointer(ptr: &mut Pointer) -> (r: Result<(Operand, Operand, Operand), Fault>) {
        let start: usize = ptr.addr();
        let a = match Operand::from_pointer(ptr) {
            Ok(a) => a,
            Err(fault) => {
                return Err(fault);
            },
        };
        match <(Operand, Operand)>::from_pointer(ptr) {
            Ok((b, c)) => Ok((a, b, c)),
            Err(fault) => {
                ptr.jump(start);
                Err(fault)
            },
        }
    }
}

/// An instruction with one operand, which is decoded at `at`.
pub open spec fn unary(cells: Seq<u16>, at: usize, make: spec_fn(Operand) -> Instruction) -> Result<
    (Instruction, usize),
    Fault,
> {
    match Operand::parse(cells, at) {
        Ok((a, next)) => Ok((make(a), next)),
        Err(fault) => Err(fault),
    }
}

/// An instruction with two operands, which are decoded from `at` on.
pub open spec fn binary(
    cells: Seq<u16>,
    at: usize,
    make: spec_fn(Operand, Operand) -> Instruction,
) -> Result<(Instruction, usize), Fault> {
    match <(Operand, Operand)>::parse(cells, at) {
        Ok(((a, b), next)) => Ok((make(a, b), next)),
        Err(fault) => Err(fault),
    }
}

/// An instruction with three operands, which are decoded from `at` on.
pub open spec fn ternary(
    cells: Seq<u16>,
    at: usize,
    make: spec_fn(Operand, Operand, Operand) -> Instruction,
) -> Result<(Instruction, usize), Fault> {
    match <(Operand, Operand, Operand)>::parse(cells, at) {
        Ok(((a, b, c), next)) => Ok((make(a, b, c), next)),
        Err(fault) => Err(fault),
    }
}

/// The instruction whose opcode is `opcode`, with operands decoded from `at`
/// on: the opcode table.
pub open spec fn with_opcode(cells: Seq<u16>, opcode: u16, at: usize) -> Result<
    (Instruction, usize),
    Fault,
> {
    match opcode {
        0 => Ok((Instruction::Halt, at)),
        1 => binary(cells, at, |a: Operand, b: Operand| Instruction::SetReg(a, b)),
        2 => unary(cells, at, |a: Operand| Instruction::Push(a)),
        3 => unary(cells, at, |a: Operand| Instruction::Pop(a)),
        4 => ternary(cells, at, |a: Operand, b: Operand, c: Operand| Instruction::Eq(a, b, c)),
        5 => ternary(cells, at, |a: Operand, b: Operand, c: Operand| Instruction::Gt(a, b, c)),
        6 => unary(cells, at, |a: Operand| Instruction::Jmp(a)),
        7 => binary(cells, at, |a: Operand, b: Operand| Instruction::Jt(a, b)),
        8 => binary(cells, at, |a: Operand, b: Operand| Instruction::Jf(a, b)),
        9 => ternary(cells, at, |a: Operand, b: Operand, c: Operand| Instruction::Add(a, b, c)),
        10 => ternary(cells, at, |a: Operand, b: Operand, c: Operand| Instruction::Mult(a, b, c)),
        11 => ternary(cells, at, |a: Operand, b: Operand, c: Operand| Instruction::Mod(a, b, c)),
        12 => ternary(cells, at, |a: Operand, b: Operand, c: Operand| Instruction::And(a, b, c)),
        13 => ternary(cells, at, |a: Operand, b: Operand, c: Operand| Instruction::Or(a, b, c)),
        14 => binary(cells, at, |a: Operand, b: Operand| Instruction::Not(a, b)),
        15 => binary(cells, at, |a: Operand, b: Operand| Instruction::RMem(a, b)),
        16 => binary(cells, at, |a: Operand, b: Operand| Instruction::WMem(a, b)),
        17 => unary(cells, at, |a: Operand| Instruction::Call(a)),
        18 => Ok((Instruction::Ret, at)),
        19 => unary(cells, at, |a: Operand| Instruction::Out(a)),
        20 => unary(cells, at, |a: Operand| Instruction::In(a)),
        21 => Ok((Instruction::Noop, at)),
        _ => Err(Fault::InvalidOpcode(opcode)),
    }
}

impl FromPointer for Instruction {
    /// The opcode word, then as many operands as the opcode calls for. An
    /// unknown opcode faults before any operand is looked at.
    open spec fn parse(cells: Seq<u16>, addr: usize) -> Result<(Instruction, usize), Fault> {
        match read_word(cells, addr) {
            Ok(opcode) => with_opcode(cells, opcode, (addr + 1) as usize),
            Err(fault) => Err(fault),
        }
    }

    fn from_pointer(ptr: &mut Pointer) -> (r: Result<Instruction, Fault>) {
        let start: usize = ptr.addr();
        let opcode: u16 = match ptr.advance() {
            Ok(opcode) => opcode,
            Err(fault) => {
                return Err(fault);
            },
        };
        let r = match opcode {
            0 => Ok(Instruction::Halt),
            1 => match <(Operand, Operand)>::from_pointer(ptr) {
                Ok((a, b)) => Ok(Instruction::SetReg(a, b)),
                Err(fault) => Err(fault),
            },
            2 => match Operand::from_pointer(ptr) {
                Ok(a) => Ok(Instruction::Push(a)),
                Err(fault) => Err(fault),
            },
            3 => match Operand::from_pointer(ptr) {
                Ok(a) => Ok(Instruction::Pop(a)),
                Err(fault) => Err(fault),
            },
            4 => match <(Operand, Operand, Operand)>::from_pointer(ptr) {
                Ok((a, b, c)) => Ok(Instruction::Eq(a, b, c)),
                Err(fault) => Err(fault),
            },
            5 => match <(Operand, Operand, Operand)>::from_pointer(ptr) {
                Ok((a, b, c)) => Ok(Instruction::Gt(a, b, c)),
                Err(fault) => Err(fault),
            },
            6 => match Operand::from_pointer(ptr) {
                Ok(a) => Ok(Instruction::Jmp(a)),
                Err(fault) => Err(fault),
            },
            7 => match <(Operand, Operand)>::from_pointer(ptr) {
                Ok((a, b)) => Ok(Instruction::Jt(a, b)),
                Err(fault) => Err(fault),
            },
            8 => match <(Operand, Operand)>::from_pointer(ptr) {
                Ok((a, b)) => Ok(Instruction::Jf(a, b)),
                Err(fault) => Err(fault),
            },
            9 => match <(Operand, Operand, Operand)>::from_pointer(ptr) {
                Ok((a, b, c)) => Ok(Instruction::Add(a, b, c)),
                Err(fault) => Err(fault),
            },
            10 => match <(Operand, Operand, Operand)>::from_pointer(ptr) {
                Ok((a, b, c)) => Ok(Instruction::Mult(a, b, c)),
                Err(fault) => Err(fault),
            },
            11 => match <(Operand, Operand, Operand)>::from_pointer(ptr) {
                Ok((a, b, c)) => Ok(Instruction::Mod(a, b, c)),
                Err(fault) => Err(fault),
            },
            12 => match <(Operand, Operand, Operand)>::from_pointer(ptr) {
                Ok((a, b, c)) => Ok(Instruction::And(a, b, c)),
                Err(fault) => Err(fault),
            },
            13 => match <(Operand, Operand, Operand)>::from_pointer(ptr) {
                Ok((a, b, c)) => Ok(Instruction::Or(a, b, c)),
                Err(fault) => Err(fault),
            },
            14 => match <(Operand, Operand)>::from_pointer(ptr) {
                Ok((a, b)) => Ok(Instruction::Not(a, b)),
                Err(fault) => Err(fault),
            },
            15 => match <(Operand, Operand)>::from_pointer(ptr) {
                Ok((a, b)) => Ok(Instruction::RMem(a, b)),
                Err(fault) => Err(fault),
            },
            16 => match <(Operand, Operand)>::from_pointer(ptr) {
                Ok((a, b)) => Ok(Instruction::WMem(a, b)),
                Err(fault) => Err(fault),
            },
            17 => match Operand::from_pointer(ptr) {
                Ok(a) => Ok(Instruction::Call(a)),
                Err(fault) => Err(fault),
            },
            18 => Ok(Instruction::Ret),
            19 => match Operand::from_pointer(ptr) {
                Ok(a) => Ok(Instruction::Out(a)),
                Err(fault) => Err(fault),
            },
            20 => match Operand::from_pointer(ptr) {
                Ok(a) => Ok(Instruction::In(a)),
                Err(fault) => Err(fault),
            },
            21 => Ok(Instruction::Noop),
            _ => Err(Fault::InvalidOpcode(opcode)),
        };
        if r.is_err() {
            ptr.jump(start);
        }
        r
    }
}

impl Instruction {
    /// A decoded instruction is well formed, and it ends at most four words
    /// behind its start, inside memory or right behind its last cell.
    pub proof fn lemma_parse(cells: Seq<u16>, addr: usize)
        ensures
            Instruction::parse(cells, addr) matches Ok((instruction, next)) ==> {
                &&& instruction.wf()
                &&& addr < next <= addr + 4
                &&& next <= MEMORY_SIZE
            },
    {
    }
}

} // verus!
