//! The processor state: eight 8-bit registers, the carry flag, the program
//! counter and the stack pointer.

use vstd::prelude::*;
use crate::fault::Fault;
use crate::memory::{CODE_BASE, MEMORY_SIZE};

verus! {

/// The number of general-purpose registers.
pub const REGISTER_COUNT: u8 = 8;

/// The processor state.
#[derive(Debug, Clone, Copy)]
pub struct Cpu {
    /// The general-purpose registers.
    pub r: [u8; 8],
    /// The carry flag. Once set it stays set until the program clears it.
    pub carry_flag: bool,
    /// The program counter: the address of the next opcode.
    pub mem_ptr: usize,
    /// The stack pointer: the address of the value on top of the stack.
    pub stack_ptr: usize,
}

impl Cpu {
    /// The state at power-on: registers zero, carry clear, the program counter
    /// at the code base and the stack pointer at the top of memory.
    pub fn new() -> (cpu: Cpu)
        ensures
            forall|i: int| 0 <= i < 8 ==> cpu.r@[i] == 0,
            !cpu.carry_flag,
            cpu.mem_ptr == CODE_BASE,
            cpu.stack_ptr == MEMORY_SIZE,
    {
        Cpu { r: [0; 8], carry_flag: false, mem_ptr: CODE_BASE, stack_ptr: MEMORY_SIZE }
    }

    /// The value of register `index`, or `InvalidRegisterIndex` for an index
    /// outside 0..=7.
    pub fn register(&self, index: u8) -> (r: Result<u8, Fault>)
        ensures
            index < REGISTER_COUNT ==> r == Ok::<u8, Fault>(self.r@[index as int]),
            index >= REGISTER_COUNT ==> r == Err::<u8, Fault>(Fault::InvalidRegisterIndex),
    {
        if index < REGISTER_COUNT {
            Ok(self.r[index as usize])
        } else {
            Err(Fault::InvalidRegisterIndex)
        }
    }

    /// Stores `value` in register `index`, or reports `InvalidRegisterIndex`
    /// for an index outside 0..=7 and changes nothing.
    pub fn set_register(&mut self, index: u8, value: u8) -> (r: Result<(), Fault>)
        ensures
            final(self).carry_flag == old(self).carry_flag,
            final(self).mem_ptr == old(self).mem_ptr,
            final(self).stack_ptr == old(self).stack_ptr,
            index < REGISTER_COUNT ==> r == Ok::<(), Fault>(())
                && final(self).r@ == old(self).r@.update(index as int, value),
            index >= REGISTER_COUNT ==> r == Err::<(), Fault>(Fault::InvalidRegisterIndex)
                && final(self).r@ == old(self).r@,
    {
        if index < REGISTER_COUNT {
            self.r[index as usize] = value;
            Ok(())
        } else {
            Err(Fault::InvalidRegisterIndex)
        }
    }
}

} // verus!
