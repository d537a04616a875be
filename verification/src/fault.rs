//! The conditions that stop the machine for good.

use vstd::prelude::*;

verus! {

/// The direction of a memory access.
#[derive(Debug, Clone, Copy, PartialEq, Eq, Structural)]
pub enum Access {
    Read,
    Write,
}

/// A fatal condition. None is recoverable: the operation that reports one
/// leaves the state it was given untouched, so repeating it reports the same
/// fault again.
#[derive(Debug, Clone, Copy, PartialEq, Eq, Structural)]
pub enum Fault {
    /// A read or write at `addr`, beyond `limit`, the last valid address.
    MemoryOutOfBounds { access: Access, addr: usize, limit: usize },
    /// A raw word that is neither a literal nor one of the eight registers.
    InvalidOperand(u16),
    /// A leading word that selects none of the 22 instructions.
    InvalidOpcode(u16),
    /// `Pop` with nothing on the stack.
    StackUnderflow,
    /// An instruction whose destination is a literal.
    InvalidWrite,
    /// `Mod` with a divisor of zero.
    DivisionByZero,
    /// `In` with no byte pending after the input channel was closed.
    InputChannelClosed,
    /// `In` with no byte pending after the input channel failed.
    InputError,
}

} // verus!
