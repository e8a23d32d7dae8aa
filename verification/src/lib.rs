//! An 8-bit fantasy console as a library: a virtual machine with its own
//! instruction set, a flat memory with memory-mapped input registers, a
//! persistent drive, and the character table that its programs draw and read
//! text with. Every function carries a machine-checked contract.
//!
//! - [`machine`] is the mathematical model: the state of the machine and the
//!   meaning of each instruction.
//! - [`engine`] runs a program one cycle at a time and is proved to follow
//!   the model; [`laws`] states what follows for every program.
//! - [`instruction`] is the binary encoding and its decoder.
//! - [`cpu`], [`memory`], [`drive`] and [`calls`] are the parts that the
//!   engine owns; [`alu`] is its arithmetic.
//! - [`codec`] and [`keyboard`] turn glyph ids into text and key presses into
//!   glyph ids.
//! - [`persist`] schedules the periodic checkpoint of the drive.
//! - [`fault`] names the conditions that stop a program.

pub mod alu;
pub mod calls;
pub mod codec;
pub mod cpu;
pub mod drive;
pub mod engine;
pub mod fault;
pub mod instruction;
pub mod keyboard;
pub mod laws;
pub mod machine;
pub mod memory;
pub mod persist;
