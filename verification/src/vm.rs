//! The machine itself: memory, registers, stack, instruction pointer and
//! the two byte channels, driven one instruction at a time.

use std::collections::VecDeque;
use vstd::prelude::*;
use crate::decode::FromPointer;
use crate::fault::Fault;
use crate::instruction::{add15, byte_of, flag_of, mul15, not15, Instruction};
use crate::memory::{read_word, write_word, Memory};
use crate::operand::{Operand, NUM_REGISTERS};
use crate::state::{Outcome, Source, State, Status};

verus! {

/// A machine. Its view is its `State`.
///
/// The machine does no I/O of its own. `Out` appends to an output buffer that
/// the owner drains; `In` takes from an input queue that the owner fills, and
/// reports `AwaitingInput` while the queue is empty and the channel open.
pub struct VM {
    mem: Memory,
    reg: [u16; NUM_REGISTERS],
    stack: Vec<u16>,
    ip: u16,
    halted: bool,
    input: VecDeque<u8>,
    source: Source,
    output: Vec<u8>,
}

impl View for VM {
    type V = State;

    closed spec fn view(&self) -> State {
        State {
            mem: self.mem@,
            reg: self.reg@,
            stack: self.stack@,
            ip: self.ip,
            halted: self.halted,
            input: self.input@,
            source: self.source,
            output: self.output@,
        }
    }
}

impl Operand {
    /// The operand's value: a literal's own, a register's content.
    pub fn get(&self, vm: &VM) -> (value: u16)
        requires
            self.wf(),
        ensures
            value == self.value(vm@.reg),
    {
        match *self {
            Operand::Literal(value) => value,
            Operand::Register(index) => vm.reg[index as usize],
        }
    }

    /// Stores `value` in the register that the operand names. A literal
    /// cannot be stored to: that faults and changes nothing.
    pub fn set(&self, vm: &mut VM, value: u16) -> (r: Result<(), Fault>)
        requires
            self.wf(),
        ensures
            match *self {
                Operand::Register(index) => r == Ok::<(), Fault>(()) && final(vm)@ == (State {
                    reg: old(vm)@.reg.update(index as int, value),
                    ..old(vm)@
                }),
                Operand::Literal(_) => r == Err::<(), Fault>(Fault::InvalidWrite) && final(vm)@
                    == old(vm)@,
            },
    {
        match *self {
            Operand::Register(index) => {
                vm.reg[index as usize] = value;
                Ok(())
            },
            Operand::Literal(_) => Err(Fault::InvalidWrite),
        }
    }
}

impl Instruction {
    /// Executes the instruction on `vm`, whose `ip` already stands behind
    /// it. A fault or a wait for input changes nothing.
    pub fn execute(&self, vm: &mut VM) -> (r: Result<Status, Fault>)
        requires
            self.wf(),
        ensures
            (final(vm)@, r) == self.apply(old(vm)@).leaves(old(vm)@),
    {
        match *self {
            Instruction::Halt => vm.halt(),
            Instruction::SetReg(a, b) => {
                let value: u16 = b.get(vm);
                vm.store(a, value)
            },
            Instruction::Push(a) => {
                let value: u16 = a.get(vm);
                vm.push(value)
            },
            Instruction::Pop(a) => vm.pop(a),
            Instruction::Eq(a, b, c) => {
                let value: u16 = flag_of(b.get(vm) == c.get(vm));
                vm.store(a, value)
            },
            Instruction::Gt(a, b, c) => {
                let value: u16 = flag_of(b.get(vm) > c.get(vm));
                vm.store(a, value)
            },
            Instruction::Jmp(a) => {
                let target: u16 = a.get(vm);
                vm.jump(target)
            },
            Instruction::Jt(a, b) => {
                if a.get(vm) != 0 {
                    let target: u16 = b.get(vm);
                    vm.jump(target)
                } else {
                    Ok(vm.status())
                }
            },
            Instruction::Jf(a, b) => {
                if a.get(vm) == 0 {
                    let target: u16 = b.get(vm);
                    vm.jump(target)
                } else {
                    Ok(vm.status())
                }
            },
            Instruction::Add(a, b, c) => {
                let value: u16 = add15(b.get(vm), c.get(vm));
                vm.store(a, value)
            },
            Instruction::Mult(a, b, c) => {
                let value: u16 = mul15(b.get(vm), c.get(vm));
                vm.store(a, value)
            },
            Instruction::Mod(a, b, c) => {
                let divisor: u16 = c.get(vm);
                if divisor == 0 {
                    Err(Fault::DivisionByZero)
                } else {
                    let value: u16 = b.get(vm) % divisor;
                    vm.store(a, value)
                }
            },
            Instruction::And(a, b, c) => {
                let value: u16 = b.get(vm) & c.get(vm);
                vm.store(a, value)
            },
            Instruction::Or(a, b, c) => {
                let value: u16 = b.get(vm) | c.get(vm);
                vm.store(a, value)
            },
            Instruction::Not(a, b) => {
                let value: u16 = not15(b.get(vm));
                vm.store(a, value)
            },
            Instruction::RMem(a, b) => {
                let addr: usize = b.get(vm) as usize;
                vm.read_memory(a, addr)
            },
            Instruction::WMem(a, b) => {
                let addr: usize = a.get(vm) as usize;
                let value: u16 = b.get(vm);
                vm.write_memory(addr, value)
            },
            Instruction::Call(a) => {
                let target: u16 = a.get(vm);
                vm.call(target)
            },
            Instruction::Ret => vm.ret(),
            Instruction::Out(a) => {
                let byte: u8 = byte_of(a.get(vm));
                vm.emit(byte)
            },
            Instruction::In(a) => vm.read_input(a),
            Instruction::Noop => Ok(vm.status()),
        }
    }
}

impl VM {
    /// The view of every machine is well formed.
    pub proof fn lemma_wf(&self)
        ensures
            self@.wf(),
    {
        self.mem.lemma_len();
    }

    /// A machine around `mem`: registers zero, stack empty, `ip` at 0, not
    /// halted, no input pending on an open channel, nothing emitted.
    pub fn new(mem: Memory) -> (vm: VM)
        ensures
            vm@ == State::initial(mem@),
            vm@.wf(),
    {
        let vm = VM {
            mem,
            reg: [0u16; NUM_REGISTERS],
            stack: Vec::new(),
            ip: 0,
            halted: false,
            input: VecDeque::new(),
            source: Source::Open,
            output: Vec::new(),
        };
        assert(vm@.reg =~= State::initial(mem@).reg);
        assert(vm@.stack =~= State::initial(mem@).stack);
        assert(vm@.input =~= State::initial(mem@).input);
        assert(vm@.output =~= State::initial(mem@).output);
        proof {
            vm.lemma_wf();
        }
        vm
    }

    /// `Halted` once the machine has halted, `Running` before.
    pub fn status(&self) -> (status: Status)
        ensures
            status == self@.status(),
    {
        if self.halted {
            Status::Halted
        } else {
            Status::Running
        }
    }

    /// Fetch and decode: the instruction at `ip`, which then stands behind
    /// it. On a fault nothing changes.
    pub fn next(&mut self) -> (r: Result<Instruction, Fault>)
        ensures
            match old(self)@.fetch() {
                Ok((instruction, fetched)) => r == Ok::<Instruction, Fault>(instruction)
                    && instruction.wf() && final(self)@ == fetched,
                Err(fault) => r == Err::<Instruction, Fault>(fault) && final(self)@ == old(self)@,
            },
    {
        let mut ptr = self.mem.pointer(self.ip as usize);
        let r = Instruction::from_pointer(&mut ptr);
        let next: usize = ptr.addr();
        proof {
            Instruction::lemma_parse(self.mem@, self.ip as usize);
        }
        self.ip = next as u16;
        r
    }

    /// One step: nothing if the machine has halted, else fetch, decode and
    /// execute one instruction. A step that faults or waits for input leaves
    /// the machine as it was.
    pub fn step(&mut self) -> (r: Result<Status, Fault>)
        ensures
            (final(self)@, r) == old(self)@.step(),
            final(self)@.wf(),
    {
        proof {
            self.lemma_wf();
            crate::laws::law_step_preserves_wf(self@);
        }
        if self.halted {
            return Ok(Status::Halted);
        }
        let addr: u16 = self.ip;
        let instruction = match self.next() {
            Ok(instruction) => instruction,
            Err(fault) => {
                return Err(fault);
            },
        };
        match instruction.execute(self) {
            Ok(Status::AwaitingInput) => {
                self.ip = addr;
                Ok(Status::AwaitingInput)
            },
            Ok(status) => Ok(status),
            Err(fault) => {
                self.ip = addr;
                Err(fault)
            },
        }
    }

    /// Steps until the machine halts, faults or waits for input, but no more
    /// than `budget` times. `Running` in the result says that the budget ran
    /// out first.
    pub fn run(&mut self, budget: u64) -> (r: Result<Status, Fault>)
        ensures
            (final(self)@, r) == old(self)@.run(budget as nat),
            final(self)@.wf(),
    {
        proof {
            self.lemma_wf();
            crate::laws::law_run_preserves_wf(self@, budget as nat);
        }
        let mut left: u64 = budget;
        while !self.halted && left > 0
            invariant
                self@.run(left as nat) == old(self)@.run(budget as nat),
            decreases left,
        {
            match self.step() {
                Ok(Status::AwaitingInput) => {
                    return Ok(Status::AwaitingInput);
                },
                Ok(_) => {},
                Err(fault) => {
                    return Err(fault);
                },
            }
            left = left - 1;
        }
        Ok(self.status())
    }

    /// Appends `byte` to the pending input.
    pub fn feed(&mut self, byte: u8)
        ensures
            final(self)@ == (State { input: old(self)@.input.push(byte), ..old(self)@ }),
    {
        self.input.push_back(byte);
    }

    /// Appends `bytes` to the pending input, in order.
    pub fn feed_all(&mut self, bytes: &[u8])
        ensures
            final(self)@ == (State { input: old(self)@.input + bytes@, ..old(self)@ }),
    {
        let mut i: usize = 0;
        while i < bytes.len()
            invariant
                i <= bytes@.len(),
                self@ == (State { input: old(self)@.input + bytes@.take(i as int), ..old(self)@ }),
            decreases bytes@.len() - i,
        {
            assert(bytes@.take(i as int).push(bytes@[i as int]) =~= bytes@.take(i + 1));
            assert((old(self)@.input + bytes@.take(i as int)).push(bytes@[i as int]) =~= old(
                self)@.input + bytes@.take(i + 1));
            self.feed(bytes[i]);
            i = i + 1;
        }
        assert(bytes@.take(bytes@.len() as int) =~= bytes@);
    }

    /// Marks the input channel as closed: once the pending bytes are used
    /// up, `In` is the fault `InputChannelClosed`.
    pub fn close_input(&mut self)
        ensures
            final(self)@ == (State { source: Source::Closed, ..old(self)@ }),
    {
        self.source = Source::Closed;
    }

    /// Marks the input channel as failed: once the pending bytes are used
    /// up, `In` is the fault `InputError`.
    pub fn fail_input(&mut self)
        ensures
            final(self)@ == (State { source: Source::Failed, ..old(self)@ }),
    {
        self.source = Source::Failed;
    }

    /// Hands out what `Out` has emitted since the last call, the earliest
    /// byte first, and starts the output afresh.
    pub fn take_output(&mut self) -> (bytes: Vec<u8>)
        ensures
            bytes@ == old(self)@.output,
            final(self)@ == (State { output: Seq::empty(), ..old(self)@ }),
    {
        let mut bytes: Vec<u8> = Vec::new();
        std::mem::swap(&mut bytes, &mut self.output);
        bytes
    }

    /// What `Out` has emitted and nobody has taken yet.
    pub fn output(&self) -> (bytes: &Vec<u8>)
        ensures
            bytes@ == self@.output,
    {
        &self.output
    }

    /// The memory.
    pub fn memory(&self) -> (mem: &Memory)
        ensures
            mem@ == self@.mem,
    {
        &self.mem
    }

    /// The eight registers.
    pub fn registers(&self) -> (reg: [u16; NUM_REGISTERS])
        ensures
            reg@ == self@.reg,
    {
        self.reg
    }

    /// The stack, its top last.
    pub fn stack(&self) -> (stack: &Vec<u16>)
        ensures
            stack@ == self@.stack,
    {
        &self.stack
    }

    /// Address of the next word to decode.
    pub fn ip(&self) -> (ip: u16)
        ensures
            ip == self@.ip,
    {
        self.ip
    }

    /// Whether the machine has halted.
    pub fn halted(&self) -> (halted: bool)
        ensures
            halted == self@.halted,
    {
        self.halted
    }

    /// Number of input bytes that `In` has yet to read.
    pub fn pending_input(&self) -> (n: usize)
        ensures
            n == self@.input.len(),
    {
        self.input.len()
    }

    /// The condition of the input channel.
    pub fn source(&self) -> (source: Source)
        ensures
            source == self@.source,
    {
        self.source
    }

    /// Stores `value` through `dest` and reports the machine's status.
    fn store(&mut self, dest: Operand, value: u16) -> (r: Result<Status, Fault>)
        requires
            dest.wf(),
        ensures
            (final(self)@, r) == old(self)@.assign(dest, value).leaves(old(self)@),
    {
        match dest.set(self, value) {
            Ok(()) => Ok(self.status()),
            Err(fault) => Err(fault),
        }
    }

    /// `Halt`.
    fn halt(&mut self) -> (r: Result<Status, Fault>)
        ensures
            r == Ok::<Status, Fault>(Status::Halted),
            final(self)@ == (State { halted: true, ..old(self)@ }),
    {
        self.halted = true;
        Ok(Status::Halted)
    }

    /// `Push`, with the operand resolved.
    fn push(&mut self, value: u16) -> (r: Result<Status, Fault>)
        ensures
            r == Ok::<Status, Fault>(old(self)@.status()),
            final(self)@ == (State { stack: old(self)@.stack.push(value), ..old(self)@ }),
    {
        self.stack.push(value);
        Ok(self.status())
    }

    /// `Pop`.
    fn pop(&mut self, dest: Operand) -> (r: Result<Status, Fault>)
        requires
            dest.wf(),
        ensures
            (final(self)@, r) == Instruction::Pop(dest).apply(old(self)@).leaves(old(self)@),
    {
        let depth: usize = self.stack.len();
        if depth == 0 {
            Err(Fault::StackUnderflow)
        } else {
            let top: u16 = self.stack[depth - 1];
            match dest.set(self, top) {
                Ok(()) => {
                    self.stack.pop();
                    Ok(self.status())
                },
                Err(fault) => Err(fault),
            }
        }
    }

    /// `Jmp`, and the taken branch of `Jt` and `Jf`.
    fn jump(&mut self, target: u16) -> (r: Result<Status, Fault>)
        ensures
            r == Ok::<Status, Fault>(old(self)@.status()),
            final(self)@ == (State { ip: target, ..old(self)@ }),
    {
        self.ip = target;
        Ok(self.status())
    }

    /// `RMem`, with the address resolved.
    fn read_memory(&mut self, dest: Operand, addr: usize) -> (r: Result<Status, Fault>)
        requires
            dest.wf(),
        ensures
            (final(self)@, r) == (match read_word(old(self)@.mem, addr) {
                Ok(word) => old(self)@.assign(dest, word),
                Err(fault) => Outcome::Fault(fault),
            }).leaves(old(self)@),
    {
        match self.mem.read(addr) {
            Ok(word) => self.store(dest, word),
            Err(fault) => Err(fault),
        }
    }

    /// `WMem`, with both operands resolved.
    fn write_memory(&mut self, addr: usize, value: u16) -> (r: Result<Status, Fault>)
        ensures
            match write_word(old(self)@.mem, addr, value) {
                Ok(mem) => r == Ok::<Status, Fault>(old(self)@.status()) && final(self)@ == (State {
                    mem,
                    ..old(self)@
                }),
                Err(fault) => r == Err::<Status, Fault>(fault) && final(self)@ == old(self)@,
            },
    {
        match self.mem.write(addr, value) {
            Ok(()) => Ok(self.status()),
            Err(fault) => Err(fault),
        }
    }

    /// `Call`, with the target resolved.
    fn call(&mut self, target: u16) -> (r: Result<Status, Fault>)
        ensures
            r == Ok::<Status, Fault>(old(self)@.status()),
            final(self)@ == (State {
                stack: old(self)@.stack.push(old(self)@.ip),
                ip: target,
                ..old(self)@
            }),
    {
        self.stack.push(self.ip);
        self.ip = target;
        Ok(self.status())
    }

    /// `Ret`.
    fn ret(&mut self) -> (r: Result<Status, Fault>)
        ensures
            (final(self)@, r) == Instruction::Ret.apply(old(self)@).leaves(old(self)@),
    {
        match self.stack.pop() {
            Some(addr) => {
                self.ip = addr;
            },
            None => {
                self.halted = true;
            },
        }
        Ok(self.status())
    }

    /// `Out`, with the byte resolved.
    fn emit(&mut self, byte: u8) -> (r: Result<Status, Fault>)
        ensures
            r == Ok::<Status, Fault>(old(self)@.status()),
            final(self)@ == (State { output: old(self)@.output.push(byte), ..old(self)@ }),
    {
        self.output.push(byte);
        Ok(self.status())
    }

    /// `In`.
    fn read_input(&mut self, dest: Operand) -> (r: Result<Status, Fault>)
        requires
            dest.wf(),
        ensures
            (final(self)@, r) == Instruction::In(dest).apply(old(self)@).leaves(old(self)@),
    {
        if self.input.len() > 0 {
            let byte: u8 = self.input[0];
            match dest.set(self, byte as u16) {
                Ok(()) => {
                    self.input.pop_front();
                    Ok(self.status())
                },
                Err(fault) => Err(fault),
            }
        } else {
            match self.source {
                Source::Open => Ok(Status::AwaitingInput),
                Source::Closed => Err(Fault::InputChannelClosed),
                Source::Failed => Err(Fault::InputError),
            }
        }
    }
}

} // verus!
