//! The mathematical model of the machine and the meaning of each instruction.
//!
//! A `Machine` is the whole state of a running program as plain values. The
//! functions here say what one cycle does to it: which state follows, what is
//! handed to the display, and which fault stops the program instead. A fault
//! leaves no trace: the state that a faulting instruction started from is the
//! state the program stopped in.

use vstd::prelude::*;
use crate::alu::{
    difference_byte, difference_carries, product_high, product_low, quotient, sum_byte,
    sum_carries, word_of,
};
use crate::codec::{glyph, glyphs_text};
use crate::fault::Fault;
use crate::instruction::{
    decode_spec, operand_count, ArithOp, ControlOp, DrawOp, DriveOp, Instruction, MoveOp, Rgba,
    WideOp, OP_CLNZ, OP_CLZ, OP_RET,
};
use crate::memory::{with_block, with_input, word_at, InputSample, CODE_BASE, MEMORY_SIZE};

verus! {

/// The state of the machine.
pub struct Machine {
    /// The eight registers.
    pub regs: Seq<u8>,
    /// The carry flag.
    pub carry: bool,
    /// The program counter.
    pub pc: int,
    /// The stack pointer.
    pub sp: int,
    /// Memory, `MEMORY_SIZE` bytes.
    pub memory: Seq<u8>,
    /// The drive.
    pub drive: Seq<u8>,
    /// The entry address of each registered function id.
    pub functions: Map<u16, usize>,
    /// The addresses of the calls in progress, the latest last.
    pub calls: Seq<usize>,
}

/// What one cycle hands to the display or to persistence.
pub enum Output {
    /// Nothing.
    Nothing,
    /// Draw a text.
    Text { text: Seq<char>, size: u8, x: u32, y: u32, color: Rgba },
    /// Draw a filled rectangle.
    Rectangle { x: u32, y: u32, width: u16, height: u16, color: Rgba },
    /// Draw a filled circle.
    Circle { x: u32, y: u32, radius: u8, color: Rgba },
    /// Draw a line.
    Line { x1: u32, y1: u32, x2: u32, y2: u32, thickness: u8, color: Rgba },
    /// Present the frame, wait for the next one and clear the screen.
    Present,
    /// Write the whole drive to stable storage.
    Checkpoint,
}

/// A displacement byte read as a two's-complement number.
pub open spec fn signed(disp: u8) -> int {
    if disp >= 128 {
        disp - 256
    } else {
        disp as int
    }
}

/// The address that a taken jump continues at, given the address of the
/// jump's last operand byte. A backward displacement counts from one byte
/// before that operand, a forward one from the operand itself.
pub open spec fn jump_target(last_operand: int, disp: u8) -> int {
    if signed(disp) < 0 {
        last_operand + signed(disp) - 1
    } else {
        last_operand + signed(disp)
    }
}

/// Whether `at` is the first address after `pc` that holds the `RET` opcode.
pub open spec fn is_first_ret(memory: Seq<u8>, pc: int, at: int) -> bool {
    &&& pc < at < memory.len()
    &&& memory[at] == OP_RET
    &&& forall|k: int| pc < k < at ==> memory[k] != OP_RET
}

/// The number of operand bytes of the call instruction with the given opcode.
pub open spec fn call_operands(opcode: u8) -> int {
    if opcode == OP_CLZ || opcode == OP_CLNZ {
        3
    } else {
        2
    }
}

/// A position: a literal plus the 16-bit value stored at `ptr`.
pub open spec fn relative(memory: Seq<u8>, literal: u16, ptr: u16) -> u32 {
    (literal + word_at(memory, ptr as int)) as u32
}

impl Machine {
    /// The invariant of every reachable state.
    pub open spec fn wf(self) -> bool {
        &&& self.regs.len() == 8
        &&& self.memory.len() == MEMORY_SIZE
        &&& 0 <= self.pc <= usize::MAX
        &&& 0 <= self.sp <= MEMORY_SIZE
        &&& forall|i: int| 0 <= i < self.calls.len() ==> self.calls[i] < MEMORY_SIZE
    }

    /// The value of a register.
    pub open spec fn reg(self, index: u8) -> u8 {
        self.regs[index as int]
    }

    /// This state with one register replaced.
    pub open spec fn set_reg(self, index: u8, value: u8) -> Machine {
        Machine { regs: self.regs.update(index as int, value), ..self }
    }

    /// This state with one byte of memory replaced.
    pub open spec fn poke(self, addr: int, value: u8) -> Machine {
        Machine { memory: self.memory.update(addr, value), ..self }
    }

    /// This state with the carry flag raised if `carries` holds. The flag is
    /// never lowered here.
    pub open spec fn raise_carry(self, carries: bool) -> Machine {
        Machine { carry: self.carry || carries, ..self }
    }

    /// This state with the program counter at `pc`.
    pub open spec fn at(self, pc: int) -> Machine {
        Machine { pc, ..self }
    }

    /// This state with the program counter past `instr`: past its opcode byte
    /// and all of its operand bytes.
    pub open spec fn past(self, instr: Instruction) -> Machine {
        self.at(self.pc + 1 + operand_count(instr))
    }

    /// This state with the input registers refreshed from a sample.
    pub open spec fn sampled(self, input: InputSample) -> Machine {
        Machine { memory: with_input(self.memory, input), ..self }
    }

    /// The state after a data-movement instruction, the program counter left alone.
    pub open spec fn moved(self, op: MoveOp) -> Result<Machine, Fault> {
        match op {
            MoveOp::Ldv { reg, value } => Ok(self.set_reg(reg, value)),
            MoveOp::Ldm { reg, addr } => Ok(self.set_reg(reg, self.memory[addr as int])),
            MoveOp::Stm { reg, addr } => Ok(self.poke(addr as int, self.reg(reg))),
            MoveOp::Mov { src, dst } => Ok(self.set_reg(dst, self.reg(src))),
            MoveOp::Ldvz { reg, value, guard } => if self.reg(guard) == 0 {
                Ok(self.set_reg(reg, value))
            } else {
                Ok(self)
            },
            MoveOp::Lvnz { reg, value, guard } => if self.reg(guard) != 0 {
                Ok(self.set_reg(reg, value))
            } else {
                Ok(self)
            },
            MoveOp::Push { reg } => self.pushed(self.reg(reg)),
            MoveOp::Pshv { value } => self.pushed(value),
            MoveOp::Pop { reg } => if self.sp >= MEMORY_SIZE {
                Err(Fault::MemoryAddressOutOfBounds)
            } else {
                Ok(Machine { sp: self.sp + 1, ..self.set_reg(reg, self.memory[self.sp]) })
            },
            MoveOp::Ppm { addr } => if self.sp >= MEMORY_SIZE {
                Err(Fault::MemoryAddressOutOfBounds)
            } else {
                Ok(Machine { sp: self.sp + 1, ..self.poke(addr as int, self.memory[self.sp]) })
            },
            MoveOp::Ostm { reg, addr, offset } => Ok(
                self.poke(addr + self.reg(offset), self.reg(reg)),
            ),
            MoveOp::Oldm { reg, addr, offset } => Ok(
                self.set_reg(reg, self.memory[addr + self.reg(offset)]),
            ),
            MoveOp::Stvm { value, addr } => Ok(self.poke(addr as int, value)),
        }
    }

    /// The state after pushing a byte: the stack pointer moves down by one,
    /// then the byte is stored where it points.
    pub open spec fn pushed(self, value: u8) -> Result<Machine, Fault> {
        if self.sp == 0 {
            Err(Fault::MemoryAddressOutOfBounds)
        } else {
            Ok(Machine { sp: self.sp - 1, ..self.poke(self.sp - 1, value) })
        }
    }

    /// The state after `dst = a + b`.
    pub open spec fn summed(self, dst: u8, a: u8, b: u8) -> Machine {
        self.set_reg(dst, sum_byte(a, b)).raise_carry(sum_carries(a, b))
    }

    /// The state after `dst = a - b`.
    pub open spec fn subtracted(self, dst: u8, a: u8, b: u8) -> Machine {
        self.set_reg(dst, difference_byte(a, b)).raise_carry(difference_carries(a, b))
    }

    /// The state after an arithmetic instruction, the program counter left alone.
    pub open spec fn computed(self, op: ArithOp) -> Machine {
        match op {
            ArithOp::Add { a, b } => self.summed(a, self.reg(a), self.reg(b)),
            ArithOp::Adt { a, b, dst } => self.summed(dst, self.reg(a), self.reg(b)),
            ArithOp::Sub { a, b } => self.subtracted(a, self.reg(a), self.reg(b)),
            ArithOp::Sbt { a, b, dst } => self.subtracted(dst, self.reg(a), self.reg(b)),
            ArithOp::Adv { a, value } => self.summed(a, self.reg(a), value),
            ArithOp::Advt { a, value, dst } => self.summed(dst, self.reg(a), value),
            ArithOp::Sbv { a, value } => self.subtracted(a, self.reg(a), value),
            ArithOp::Sbvt { a, value, dst } => self.subtracted(dst, self.reg(a), value),
            ArithOp::Inc { reg } => self.summed(reg, self.reg(reg), 1),
            ArithOp::Dec { reg } => self.subtracted(reg, self.reg(reg), 1),
            ArithOp::Adc { reg } => if self.carry {
                self.set_reg(reg, sum_byte(self.reg(reg), 1))
            } else {
                self
            },
            ArithOp::Ccf => Machine { carry: false, ..self },
            ArithOp::Scf => Machine { carry: true, ..self },
            ArithOp::Sbc { reg } => if self.carry {
                self.set_reg(reg, difference_byte(self.reg(reg), 1))
            } else {
                self
            },
        }
    }

    /// The state after a taken jump whose last operand byte is at `last_operand`.
    pub open spec fn jumped(self, last_operand: int, disp: u8) -> Result<Machine, Fault> {
        if jump_target(last_operand, disp) < 0 {
            Err(Fault::MemoryAddressOutOfBounds)
        } else {
            Ok(self.at(jump_target(last_operand, disp)))
        }
    }

    /// The state after a call of `id` by the instruction at the program
    /// counter: that address is pushed and execution continues at the
    /// function's entry.
    pub open spec fn called(self, id: u16) -> Result<Machine, Fault> {
        if !self.functions.dom().contains(id) {
            Err(Fault::UnresolvedFunctionReference)
        } else {
            Ok(
                Machine {
                    pc: self.functions[id] as int,
                    calls: self.calls.push(self.pc as usize),
                    ..self
                },
            )
        }
    }

    /// The state after `FNC id`: the address after the instruction becomes the
    /// entry of `id`, and execution continues after the first `RET` opcode
    /// that follows the instruction's own opcode byte.
    pub open spec fn defined(self, id: u16) -> Result<Machine, Fault> {
        if exists|at: int| #[trigger] is_first_ret(self.memory, self.pc, at) {
            let at = choose|at: int| #[trigger] is_first_ret(self.memory, self.pc, at);
            Ok(
                Machine {
                    pc: at + 1,
                    functions: self.functions.insert(id, (self.pc + 3) as usize),
                    ..self
                },
            )
        } else {
            Err(Fault::MemoryAddressOutOfBounds)
        }
    }

    /// The state after `RET`: the latest call is removed and execution
    /// continues after that call instruction.
    pub open spec fn returned(self) -> Result<Machine, Fault> {
        if self.calls.len() == 0 {
            Err(Fault::EmptyCallStack)
        } else {
            let call = self.calls.last() as int;
            Ok(
                Machine {
                    pc: call + 1 + call_operands(self.memory[call]),
                    calls: self.calls.drop_last(),
                    ..self
                },
            )
        }
    }

    /// The state after a control-flow instruction.
    pub open spec fn branched(self, op: ControlOp) -> Result<Machine, Fault> {
        match op {
            ControlOp::Jmp { disp } => self.jumped(self.pc + 1, disp),
            ControlOp::Jpz { disp, guard } => if self.reg(guard) == 0 {
                self.jumped(self.pc + 2, disp)
            } else {
                Ok(self.at(self.pc + 3))
            },
            ControlOp::Jpnz { disp, guard } => if self.reg(guard) != 0 {
                self.jumped(self.pc + 2, disp)
            } else {
                Ok(self.at(self.pc + 3))
            },
            ControlOp::Fnc { id } => self.defined(id),
            ControlOp::Ret => self.returned(),
            ControlOp::Cal { id } => self.called(id),
            ControlOp::Clz { id, guard } => if self.reg(guard) == 0 {
                self.called(id)
            } else {
                Ok(self.at(self.pc + 4))
            },
            ControlOp::Clnz { id, guard } => if self.reg(guard) != 0 {
                self.called(id)
            } else {
                Ok(self.at(self.pc + 4))
            },
        }
    }

    /// The state after a wide-arithmetic instruction, the program counter left
    /// alone. The high byte is stored first, so where both results name one
    /// register the low byte stays.
    pub open spec fn widened(self, op: WideOp) -> Result<Machine, Fault> {
        match op {
            WideOp::Mlt { a, b, high, low } => Ok(
                self.set_reg(high, product_high(self.reg(a), self.reg(b))).set_reg(
                    low,
                    product_low(self.reg(a), self.reg(b)),
                ),
            ),
            WideOp::Div { n_high, n_low, d_high, d_low, high, low } => if word_of(
                self.reg(d_high),
                self.reg(d_low),
            ) == 0 {
                Err(Fault::DivideByZero)
            } else {
                let q = quotient(
                    self.reg(n_high),
                    self.reg(n_low),
                    self.reg(d_high),
                    self.reg(d_low),
                );
                Ok(self.set_reg(high, (q / 256) as u8).set_reg(low, (q % 256) as u8))
            },
        }
    }

    /// The state after a drive instruction, the program counter left alone.
    /// A block of length zero copies nothing and faults on no address.
    pub open spec fn transferred(self, op: DriveOp) -> Result<Machine, Fault> {
        match op {
            DriveOp::Std { addr, reg } => self.stored(addr, self.reg(reg)),
            DriveOp::Svd { addr, value } => self.stored(addr, value),
            DriveOp::Ldtm { drive_addr, mem_addr } => if drive_addr >= self.drive.len() {
                Err(Fault::DriveAddressOutOfBounds)
            } else if mem_addr >= MEMORY_SIZE {
                Err(Fault::MemoryAddressOutOfBounds)
            } else {
                Ok(self.poke(mem_addr as int, self.drive[drive_addr as int]))
            },
            DriveOp::Ldml { drive_addr, mem_addr, len } => if len == 0 {
                Ok(self)
            } else if drive_addr + len > self.drive.len() {
                Err(Fault::DriveAddressOutOfBounds)
            } else if mem_addr + len > MEMORY_SIZE {
                Err(Fault::MemoryAddressOutOfBounds)
            } else {
                Ok(
                    Machine {
                        memory: with_block(
                            self.memory,
                            mem_addr as int,
                            self.drive.subrange(drive_addr as int, drive_addr + len),
                        ),
                        ..self
                    },
                )
            },
            DriveOp::Smdl { drive_addr, mem_addr, len } => if len == 0 {
                Ok(self)
            } else if mem_addr + len > MEMORY_SIZE {
                Err(Fault::MemoryAddressOutOfBounds)
            } else if drive_addr + len > self.drive.len() {
                Err(Fault::DriveAddressOutOfBounds)
            } else {
                Ok(
                    Machine {
                        drive: with_block(
                            self.drive,
                            drive_addr as int,
                            self.memory.subrange(mem_addr as int, mem_addr + len),
                        ),
                        ..self
                    },
                )
            },
        }
    }

    /// The state after storing one byte on the drive.
    pub open spec fn stored(self, addr: u32, value: u8) -> Result<Machine, Fault> {
        if addr >= self.drive.len() {
            Err(Fault::DriveAddressOutOfBounds)
        } else {
            Ok(Machine { drive: self.drive.update(addr as int, value), ..self })
        }
    }

    /// The glyph ids of the text literal of the instruction at the program counter.
    pub open spec fn literal(self, count: u8) -> Seq<u8> {
        self.memory.subrange(self.pc + 2, self.pc + 2 + count)
    }

    /// What a drawing instruction at the program counter hands to the display.
    pub open spec fn drawn(self, op: DrawOp) -> Output {
        match op {
            DrawOp::Wrt { reg, size, x, y, color } => Output::Text {
                text: glyph(self.reg(reg)),
                size,
                x: x as u32,
                y: y as u32,
                color,
            },
            DrawOp::Wrtl { count, size, x, y, color } => Output::Text {
                text: glyphs_text(self.literal(count)),
                size,
                x: x as u32,
                y: y as u32,
                color,
            },
            DrawOp::Drwr { width, height, x, y, color } => Output::Rectangle {
                x: x as u32,
                y: y as u32,
                width: width as u16,
                height: height as u16,
                color,
            },
            DrawOp::Drwc { radius, x, y, color } => Output::Circle {
                x: x as u32,
                y: y as u32,
                radius,
                color,
            },
            DrawOp::Cls => Output::Present,
            DrawOp::Mwrt { reg, size, x, x_ptr, y, y_ptr, color } => Output::Text {
                text: glyph(self.reg(reg)),
                size,
                x: relative(self.memory, x, x_ptr),
                y: relative(self.memory, y, y_ptr),
                color,
            },
            DrawOp::Mwrtl { count, size, x, x_ptr, y, y_ptr, color } => Output::Text {
                text: glyphs_text(self.literal(count)),
                size,
                x: relative(self.memory, x, x_ptr),
                y: relative(self.memory, y, y_ptr),
                color,
            },
            DrawOp::Mdrwr { width_ptr, height_ptr, x, x_ptr, y, y_ptr, color } => {
                Output::Rectangle {
                    x: relative(self.memory, x, x_ptr),
                    y: relative(self.memory, y, y_ptr),
                    width: word_at(self.memory, width_ptr as int),
                    height: word_at(self.memory, height_ptr as int),
                    color,
                }
            },
            DrawOp::Mdrwc { radius, x, x_ptr, y, y_ptr, color } => Output::Circle {
                x: relative(self.memory, x, x_ptr),
                y: relative(self.memory, y, y_ptr),
                radius,
                color,
            },
            DrawOp::Drwl { x1, y1, x2, y2, thickness, color } => Output::Line {
                x1: x1 as u32,
                y1: y1 as u32,
                x2: x2 as u32,
                y2: y2 as u32,
                thickness,
                color,
            },
            DrawOp::Mdrwl { x1, x1_ptr, y1, y1_ptr, x2, x2_ptr, y2, y2_ptr, thickness, color } => {
                Output::Line {
                    x1: relative(self.memory, x1, x1_ptr),
                    y1: relative(self.memory, y1, y1_ptr),
                    x2: relative(self.memory, x2, x2_ptr),
                    y2: relative(self.memory, y2, y2_ptr),
                    thickness,
                    color,
                }
            },
        }
    }

    /// What executing `instr` at the program counter leads to: the next state
    /// and the output, or the fault that stops the program.
    pub open spec fn executed(self, instr: Instruction) -> Result<(Machine, Output), Fault> {
        match instr {
            Instruction::Move(op) => match self.moved(op) {
                Ok(next) => Ok((next.past(instr), Output::Nothing)),
                Err(fault) => Err(fault),
            },
            Instruction::Arith(op) => Ok((self.computed(op).past(instr), Output::Nothing)),
            Instruction::Control(op) => match self.branched(op) {
                Ok(next) => Ok((next, Output::Nothing)),
                Err(fault) => Err(fault),
            },
            Instruction::Wide(op) => match self.widened(op) {
                Ok(next) => Ok((next.past(instr), Output::Nothing)),
                Err(fault) => Err(fault),
            },
            Instruction::Drive(op) => match self.transferred(op) {
                Ok(next) => Ok((next.past(instr), Output::Nothing)),
                Err(fault) => Err(fault),
            },
            Instruction::Draw(op) => Ok((self.past(instr), self.drawn(op))),
            Instruction::Ext { code } => Ok(
                (self.set_reg(7, code).at(CODE_BASE as int), Output::Nothing),
            ),
            Instruction::Hlt => Ok((self.past(instr), Output::Checkpoint)),
            Instruction::Nop { .. } => Ok((self.past(instr), Output::Nothing)),
        }
    }

    /// The instruction that a cycle decodes: the one at the program counter,
    /// read after the input registers were refreshed.
    pub open spec fn fetched(self, input: InputSample) -> Result<Instruction, Fault> {
        decode_spec(self.sampled(input).memory, self.pc)
    }

    /// One cycle: the input registers are refreshed, then the instruction at
    /// the program counter is decoded and executed.
    pub open spec fn stepped(self, input: InputSample) -> Result<(Machine, Output), Fault> {
        match self.fetched(input) {
            Ok(instr) => self.sampled(input).executed(instr),
            Err(fault) => Err(fault),
        }
    }
}

} // verus!
