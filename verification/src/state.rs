//! The machine as a mathematical value, and what one step makes of it.

use vstd::prelude::*;
use crate::decode::FromPointer;
use crate::fault::Fault;
use crate::instruction::Instruction;
use crate::memory::MEMORY_SIZE;
use crate::operand::{Operand, NUM_REGISTERS};

verus! {

/// The condition of the input channel once no byte is pending.
#[derive(Debug, Clone, Copy, PartialEq, Eq, Structural)]
pub enum Source {
    /// More bytes may come: the machine waits.
    Open,
    /// No byte will come.
    Closed,
    /// Reading failed.
    Failed,
}

/// What the machine is doing after an operation that did not fault.
#[derive(Debug, Clone, Copy, PartialEq, Eq, Structural)]
pub enum Status {
    /// It can take another step.
    Running,
    /// It has halted and never resumes.
    Halted,
    /// Its next instruction reads input and no byte is pending on the open
    /// channel. The state is as it was before that instruction.
    AwaitingInput,
}

/// The whole of a machine's state.
pub struct State {
    /// The `MEMORY_SIZE` cells.
    pub mem: Seq<u16>,
    /// The `NUM_REGISTERS` registers.
    pub reg: Seq<u16>,
    /// The stack, its top last.
    pub stack: Seq<u16>,
    /// Address of the next word to decode.
    pub ip: u16,
    /// Set once, by `Halt` or by `Ret` on an empty stack.
    pub halted: bool,
    /// Bytes that `In` has yet to read, the next one first.
    pub input: Seq<u8>,
    /// What `In` meets when `input` is empty.
    pub source: Source,
    /// Bytes that `Out` has emitted, the latest last.
    pub output: Seq<u8>,
}

/// What executing one instruction leads to.
pub enum Outcome {
    /// The instruction ran; this is the state after it.
    Next(State),
    /// The instruction waits for input; nothing has changed.
    Blocked,
    /// The instruction cannot run; nothing has changed.
    Fault(Fault),
}

impl Outcome {
    /// What an instruction with this outcome leaves of a machine that was in
    /// `before`: the state, and what the machine reports.
    pub open spec fn leaves(self, before: State) -> (State, Result<Status, Fault>) {
        match self {
            Outcome::Next(after) => (after, Ok(after.status())),
            Outcome::Blocked => (before, Ok(Status::AwaitingInput)),
            Outcome::Fault(fault) => (before, Err(fault)),
        }
    }
}

impl State {
    /// Memory and register file have their fixed sizes.
    pub open spec fn wf(self) -> bool {
        &&& self.mem.len() == MEMORY_SIZE
        &&& self.reg.len() == NUM_REGISTERS
    }

    /// The state of a machine that was just made around `mem`.
    pub open spec fn initial(mem: Seq<u16>) -> State {
        State {
            mem,
            reg: Seq::new(NUM_REGISTERS as nat, |i: int| 0u16),
            stack: Seq::empty(),
            ip: 0,
            halted: false,
            input: Seq::empty(),
            source: Source::Open,
            output: Seq::empty(),
        }
    }

    /// `Halted` once the flag is set, `Running` before.
    pub open spec fn status(self) -> Status {
        if self.halted {
            Status::Halted
        } else {
            Status::Running
        }
    }

    /// Stores `value` in the register that `dest` names. A literal cannot be
    /// stored to.
    pub open spec fn assign(self, dest: Operand, value: u16) -> Outcome {
        match dest {
            Operand::Register(index) => Outcome::Next(
                State { reg: self.reg.update(index as int, value), ..self },
            ),
            Operand::Literal(_) => Outcome::Fault(Fault::InvalidWrite),
        }
    }

    /// Continues at `target`.
    pub open spec fn jump(self, target: u16) -> Outcome {
        Outcome::Next(State { ip: target, ..self })
    }

    /// Fetch and decode: the instruction at `ip`, and the state with `ip`
    /// moved behind it. This happens before the instruction executes, so a
    /// jump overwrites `ip` as its last effect.
    pub open spec fn fetch(self) -> Result<(Instruction, State), Fault> {
        match Instruction::parse(self.mem, self.ip as usize) {
            Ok((instruction, next)) => Ok((instruction, State { ip: next as u16, ..self })),
            Err(fault) => Err(fault),
        }
    }

    /// One step: nothing if the machine has halted, else fetch, decode and
    /// execute one instruction. A step that faults or waits for input leaves
    /// the state as it was, `ip` included.
    pub open spec fn step(self) -> (State, Result<Status, Fault>) {
        if self.halted {
            (self, Ok(Status::Halted))
        } else {
            match self.fetch() {
                Ok((instruction, fetched)) => instruction.apply(fetched).leaves(self),
                Err(fault) => (self, Err(fault)),
            }
        }
    }

    /// Steps until the machine halts, faults or waits for input, but no more
    /// than `budget` times. `Running` in the result says that the budget ran
    /// out first.
    pub open spec fn run(self, budget: nat) -> (State, Result<Status, Fault>)
        decreases budget,
    {
        if self.halted {
            (self, Ok(Status::Halted))
        } else if budget == 0 {
            (self, Ok(Status::Running))
        } else {
            let (after, r) = self.step();
            match r {
                Ok(Status::Running) | Ok(Status::Halted) => after.run((budget - 1) as nat),
                _ => (after, r),
            }
        }
    }
}

} // verus!
