//! The conditions that stop a running program.

use vstd::prelude::*;

verus! {

/// A fatal condition raised while decoding or executing an instruction.
///
/// An unrecognized opcode is deliberately absent: it executes as a one-byte no-op.
#[derive(Clone, Copy, PartialEq, Eq, Debug, Structural)]
pub enum Fault {
    /// An operand names a register outside 0..=7.
    InvalidRegisterIndex,
    /// A call names a function id that no `FNC` has registered.
    UnresolvedFunctionReference,
    /// `RET` was executed with no call outstanding.
    EmptyCallStack,
    /// A drive operand reaches past the end of the drive.
    DriveAddressOutOfBounds,
    /// `DIV` was executed with a zero divisor.
    DivideByZero,
    /// A fetch, operand, stack slot, jump target or copy reaches outside memory.
    MemoryAddressOutOfBounds,
}

/// A fault together with the address of the instruction that raised it.
#[derive(Clone, Copy, PartialEq, Eq, Debug, Structural)]
pub struct Trap {
    pub fault: Fault,
    pub address: usize,
}

} // verus!
