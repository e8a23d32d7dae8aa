//! The execution engine: one value that owns the processor, memory, the
//! drive, the function table and the call stack, and runs a program one
//! cycle at a time.
//!
//! `Engine::step` is the whole fetch-decode-execute cycle. It never draws and
//! never touches storage: what the display or persistence has to do comes
//! back as an `Effect`, and the caller's loop carries it out.

use vstd::prelude::*;
use vstd::string::StringExecFns;
use crate::alu::{add8, div16, mul8, sub8};
use crate::calls::{CallStack, FunctionTable};
use crate::codec::{glyph_str, glyphs_text, id_to_str, lemma_glyphs_text_push};
use crate::cpu::Cpu;
use crate::drive::Drive;
use crate::fault::{Fault, Trap};
use crate::instruction::{
    decode, operand_count, registers_valid, ArithOp, ControlOp, DrawOp, DriveOp, Instruction,
    MoveOp, Rgba, WideOp, OP_CLNZ, OP_CLZ, OP_RET,
};
use crate::machine::{call_operands, is_first_ret, jump_target, relative, Machine, Output};
use crate::memory::{InputSample, Memory, CODE_BASE, MEMORY_SIZE};

verus! {

/// What one cycle asks its caller to do.
#[derive(Debug, PartialEq, Eq)]
pub enum Effect {
    /// Nothing.
    Nothing,
    /// Draw a text.
    Text { text: String, size: u8, x: u32, y: u32, color: Rgba },
    /// Draw a filled rectangle.
    Rectangle { x: u32, y: u32, width: u16, height: u16, color: Rgba },
    /// Draw a filled circle.
    Circle { x: u32, y: u32, radius: u8, color: Rgba },
    /// Draw a line.
    Line { x1: u32, y1: u32, x2: u32, y2: u32, thickness: u8, color: Rgba },
    /// Present the frame, wait for the next one and clear the screen.
    Present,
    /// Write the whole drive to stable storage.
    Checkpoint,
}

impl View for Effect {
    type V = Output;

    open spec fn view(&self) -> Output {
        match *self {
            Effect::Nothing => Output::Nothing,
            Effect::Text { text, size, x, y, color } => Output::Text {
                text: text@,
                size,
                x,
                y,
                color,
            },
            Effect::Rectangle { x, y, width, height, color } => Output::Rectangle {
                x,
                y,
                width,
                height,
                color,
            },
            Effect::Circle { x, y, radius, color } => Output::Circle { x, y, radius, color },
            Effect::Line { x1, y1, x2, y2, thickness, color } => Output::Line {
                x1,
                y1,
                x2,
                y2,
                thickness,
                color,
            },
            Effect::Present => Output::Present,
            Effect::Checkpoint => Output::Checkpoint,
        }
    }
}

/// A running program.
pub struct Engine {
    cpu: Cpu,
    memory: Memory,
    drive: Drive,
    functions: FunctionTable,
    calls: CallStack,
}

impl View for Engine {
    type V = Machine;

    closed spec fn view(&self) -> Machine {
        Machine {
            regs: self.cpu.r@,
            carry: self.cpu.carry_flag,
            pc: self.cpu.mem_ptr as int,
            sp: self.cpu.stack_ptr as int,
            memory: self.memory@,
            drive: self.drive@,
            functions: self.functions@,
            calls: self.calls@,
        }
    }
}

impl Engine {
    /// The invariant that every engine keeps.
    pub open spec fn wf(&self) -> bool {
        self@.wf()
    }

    /// An engine at power-on: the processor reset, memory zero, the given
    /// drive image, no function registered and no call in progress.
    pub fn new(drive_image: Vec<u8>) -> (engine: Engine)
        ensures
            engine.wf(),
            forall|i: int| 0 <= i < 8 ==> engine@.regs[i] == 0,
            !engine@.carry,
            engine@.pc == CODE_BASE,
            engine@.sp == MEMORY_SIZE,
            forall|i: int| 0 <= i < MEMORY_SIZE ==> engine@.memory[i] == 0,
            engine@.drive == drive_image@,
            engine@.functions == Map::<u16, usize>::empty(),
            engine@.calls == Seq::<usize>::empty(),
    {
        Engine {
            cpu: Cpu::new(),
            memory: Memory::new(),
            drive: Drive::from_bytes(drive_image),
            functions: FunctionTable::new(),
            calls: CallStack::new(),
        }
    }

    /// Copies a code image into memory from `CODE_BASE` on. An image that
    /// does not fit is rejected and nothing changes.
    pub fn load_code(&mut self, code: &[u8]) -> (r: Result<(), Fault>)
        requires
            old(self).wf(),
        ensures
            final(self).wf(),
            CODE_BASE + code@.len() <= MEMORY_SIZE ==> r == Ok::<(), Fault>(()) && final(self)@
                == (Machine {
                memory: crate::memory::with_block(old(self)@.memory, CODE_BASE as int, code@),
                ..old(self)@
            }),
            CODE_BASE + code@.len() > MEMORY_SIZE ==> r == Err::<(), Fault>(
                Fault::MemoryAddressOutOfBounds,
            ) && final(self)@ == old(self)@,
    {
        self.memory.load(CODE_BASE, code)
    }

    /// The processor state.
    pub fn cpu(&self) -> (cpu: Cpu)
        ensures
            cpu.r@ == self@.regs,
            cpu.carry_flag == self@.carry,
            cpu.mem_ptr == self@.pc,
            cpu.stack_ptr == self@.sp,
    {
        self.cpu
    }

    /// Memory.
    pub fn memory(&self) -> (memory: &Memory)
        ensures
            memory@ == self@.memory,
    {
        &self.memory
    }

    /// The drive.
    pub fn drive(&self) -> (drive: &Drive)
        ensures
            drive@ == self@.drive,
    {
        &self.drive
    }

    /// The function table.
    pub fn functions(&self) -> (functions: &FunctionTable)
        ensures
            functions@ == self@.functions,
    {
        &self.functions
    }

    /// The call stack.
    pub fn calls(&self) -> (calls: &CallStack)
        ensures
            calls@ == self@.calls,
    {
        &self.calls
    }

    /// A copy of the whole drive, to be written out at a checkpoint.
    pub fn checkpoint(&self) -> (image: Vec<u8>)
        ensures
            image@ == self@.drive,
    {
        self.drive.snapshot()
    }

    /// Pushes a byte onto the stack.
    fn push(&mut self, value: u8) -> (r: Result<(), Fault>)
        requires
            old(self).wf(),
        ensures
            final(self).wf(),
            match r {
                Ok(()) => old(self)@.pushed(value) == Ok::<Machine, Fault>(final(self)@),
                Err(fault) => old(self)@.pushed(value) == Err::<Machine, Fault>(fault)
                    && final(self)@ == old(self)@,
            },
    {
        if self.cpu.stack_ptr == 0 {
            return Err(Fault::MemoryAddressOutOfBounds);
        }
        self.cpu.stack_ptr = self.cpu.stack_ptr - 1;
        self.memory.set_byte(self.cpu.stack_ptr, value);
        Ok(())
    }

    /// Executes a data-movement instruction, the program counter left alone.
    fn run_move(&mut self, op: MoveOp) -> (r: Result<(), Fault>)
        requires
            old(self).wf(),
            registers_valid(Instruction::Move(op)),
        ensures
            final(self).wf(),
            match r {
                Ok(()) => old(self)@.moved(op) == Ok::<Machine, Fault>(final(self)@),
                Err(fault) => old(self)@.moved(op) == Err::<Machine, Fault>(fault)
                    && final(self)@ == old(self)@,
            },
    {
        match op {
            MoveOp::Ldv { reg, value } => {
                self.cpu.r[reg as usize] = value;
            },
            MoveOp::Ldm { reg, addr } => {
                self.cpu.r[reg as usize] = self.memory.byte(addr as usize);
            },
            MoveOp::Stm { reg, addr } => {
                self.memory.set_byte(addr as usize, self.cpu.r[reg as usize]);
            },
            MoveOp::Mov { src, dst } => {
                self.cpu.r[dst as usize] = self.cpu.r[src as usize];
            },
            MoveOp::Ldvz { reg, value, guard } => {
                if self.cpu.r[guard as usize] == 0 {
                    self.cpu.r[reg as usize] = value;
                }
            },
            MoveOp::Lvnz { reg, value, guard } => {
                if self.cpu.r[guard as usize] != 0 {
                    self.cpu.r[reg as usize] = value;
                }
            },
            MoveOp::Push { reg } => {
                let value: u8 = self.cpu.r[reg as usize];
                return self.push(value);
            },
            MoveOp::Pshv { value } => {
                return self.push(value);
            },
            MoveOp::Pop { reg } => {
                if self.cpu.stack_ptr >= MEMORY_SIZE {
                    return Err(Fault::MemoryAddressOutOfBounds);
                }
                self.cpu.r[reg as usize] = self.memory.byte(self.cpu.stack_ptr);
                self.cpu.stack_ptr = self.cpu.stack_ptr + 1;
            },
            MoveOp::Ppm { addr } => {
                if self.cpu.stack_ptr >= MEMORY_SIZE {
                    return Err(Fault::MemoryAddressOutOfBounds);
                }
                let value: u8 = self.memory.byte(self.cpu.stack_ptr);
                self.memory.set_byte(addr as usize, value);
                self.cpu.stack_ptr = self.cpu.stack_ptr + 1;
            },
            MoveOp::Ostm { reg, addr, offset } => {
                let at: usize = addr as usize + self.cpu.r[offset as usize] as usize;
                self.memory.set_byte(at, self.cpu.r[reg as usize]);
            },
            MoveOp::Oldm { reg, addr, offset } => {
                let at: usize = addr as usize + self.cpu.r[offset as usize] as usize;
                self.cpu.r[reg as usize] = self.memory.byte(at);
            },
            MoveOp::Stvm { value, addr } => {
                self.memory.set_byte(addr as usize, value);
            },
        }
        assert(old(self)@.moved(op) matches Ok(next) && next =~= self@);
        Ok(())
    }

    /// Stores `a + b` in register `dst` and raises the carry flag on overflow.
    fn sum_into(&mut self, dst: u8, a: u8, b: u8)
        requires
            old(self).wf(),
            dst < 8,
        ensures
            final(self).wf(),
            final(self)@ == old(self)@.summed(dst, a, b),
    {
        let (value, carries) = add8(a, b);
        self.cpu.r[dst as usize] = value;
        if carries {
            self.cpu.carry_flag = true;
        }
        assert(self@ =~= old(self)@.summed(dst, a, b));
    }

    /// Stores `a - b` in register `dst` and raises the carry flag on borrow.
    fn difference_into(&mut self, dst: u8, a: u8, b: u8)
        requires
            old(self).wf(),
            dst < 8,
        ensures
            final(self).wf(),
            final(self)@ == old(self)@.subtracted(dst, a, b),
    {
        let (value, carries) = sub8(a, b);
        self.cpu.r[dst as usize] = value;
        if carries {
            self.cpu.carry_flag = true;
        }
        assert(self@ =~= old(self)@.subtracted(dst, a, b));
    }

    /// Executes an arithmetic instruction, the program counter left alone.
    fn run_arith(&mut self, op: ArithOp)
        requires
            old(self).wf(),
            registers_valid(Instruction::Arith(op)),
        ensures
            final(self).wf(),
            final(self)@ == old(self)@.computed(op),
    {
        match op {
            ArithOp::Add { a, b } => {
                self.sum_into(a, self.cpu.r[a as usize], self.cpu.r[b as usize]);
            },
            ArithOp::Adt { a, b, dst } => {
                self.sum_into(dst, self.cpu.r[a as usize], self.cpu.r[b as usize]);
            },
            ArithOp::Sub { a, b } => {
                self.difference_into(a, self.cpu.r[a as usize], self.cpu.r[b as usize]);
            },
            ArithOp::Sbt { a, b, dst } => {
                self.difference_into(dst, self.cpu.r[a as usize], self.cpu.r[b as usize]);
            },
            ArithOp::Adv { a, value } => {
                self.sum_into(a, self.cpu.r[a as usize], value);
            },
            ArithOp::Advt { a, value, dst } => {
                self.sum_into(dst, self.cpu.r[a as usize], value);
            },
            ArithOp::Sbv { a, value } => {
                self.difference_into(a, self.cpu.r[a as usize], value);
            },
            ArithOp::Sbvt { a, value, dst } => {
                self.difference_into(dst, self.cpu.r[a as usize], value);
            },
            ArithOp::Inc { reg } => {
                self.sum_into(reg, self.cpu.r[reg as usize], 1);
            },
            ArithOp::Dec { reg } => {
                self.difference_into(reg, self.cpu.r[reg as usize], 1);
            },
            ArithOp::Adc { reg } => {
                if self.cpu.carry_flag {
                    let (value, _) = add8(self.cpu.r[reg as usize], 1);
                    self.cpu.r[reg as usize] = value;
                }
            },
            ArithOp::Ccf => {
                self.cpu.carry_flag = false;
            },
            ArithOp::Scf => {
                self.cpu.carry_flag = true;
            },
            ArithOp::Sbc { reg } => {
                if self.cpu.carry_flag {
                    let (value, _) = sub8(self.cpu.r[reg as usize], 1);
                    self.cpu.r[reg as usize] = value;
                }
            },
        }
        assert(self@ =~= old(self)@.computed(op));
    }

    /// Takes a jump whose last operand byte is at `last_operand`.
    fn jump(&mut self, last_operand: usize, disp: u8) -> (r: Result<(), Fault>)
        requires
            old(self).wf(),
            last_operand < MEMORY_SIZE,
        ensures
            final(self).wf(),
            match r {
                Ok(()) => old(self)@.jumped(last_operand as int, disp) == Ok::<Machine, Fault>(
                    final(self)@,
                ),
                Err(fault) => old(self)@.jumped(last_operand as int, disp) == Err::<
                    Machine,
                    Fault,
                >(fault) && final(self)@ == old(self)@,
            },
    {
        if disp >= 128 {
            let back: usize = 256 - disp as usize + 1;
            if back > last_operand {
                return Err(Fault::MemoryAddressOutOfBounds);
            }
            self.cpu.mem_ptr = last_operand - back;
        } else {
            self.cpu.mem_ptr = last_operand + disp as usize;
        }
        Ok(())
    }

    /// Calls the function registered for `id`.
    fn call(&mut self, id: u16) -> (r: Result<(), Fault>)
        requires
            old(self).wf(),
            old(self)@.pc < MEMORY_SIZE,
        ensures
            final(self).wf(),
            match r {
                Ok(()) => old(self)@.called(id) == Ok::<Machine, Fault>(final(self)@),
                Err(fault) => old(self)@.called(id) == Err::<Machine, Fault>(fault)
                    && final(self)@ == old(self)@,
            },
    {
        match self.functions.lookup(id) {
            Ok(entry) => {
                self.calls.push(self.cpu.mem_ptr);
                self.cpu.mem_ptr = entry;
                assert(old(self)@.called(id) matches Ok(next) && next =~= self@);
                Ok(())
            },
            Err(fault) => Err(fault),
        }
    }

    /// Registers the function that follows the `FNC` at the program counter
    /// and skips its body.
    fn define(&mut self, id: u16) -> (r: Result<(), Fault>)
        requires
            old(self).wf(),
            old(self)@.pc + 2 < MEMORY_SIZE,
        ensures
            final(self).wf(),
            match r {
                Ok(()) => old(self)@.defined(id) == Ok::<Machine, Fault>(final(self)@),
                Err(fault) => old(self)@.defined(id) == Err::<Machine, Fault>(fault)
                    && final(self)@ == old(self)@,
            },
    {
        let pc: usize = self.cpu.mem_ptr;
        let mut at: usize = pc + 1;
        let mut found: bool = false;
        while !found && at < MEMORY_SIZE
            invariant
                self.memory.wf(),
                pc < at <= MEMORY_SIZE,
                forall|k: int| pc < k < at ==> self.memory@[k] != OP_RET,
                found ==> at < MEMORY_SIZE && self.memory@[at as int] == OP_RET,
            decreases MEMORY_SIZE - at + (if found { 0int } else { 1int }),
        {
            if self.memory.byte(at) == OP_RET {
                found = true;
            } else {
                at = at + 1;
            }
        }
        if !found {
            assert(forall|k: int| !is_first_ret(self.memory@, pc as int, k));
            return Err(Fault::MemoryAddressOutOfBounds);
        }
        assert(is_first_ret(self.memory@, pc as int, at as int));
        let ghost chosen = choose|k: int| #[trigger] is_first_ret(self.memory@, pc as int, k);
        assert(chosen == at);
        self.functions.register(id, pc + 3);
        self.cpu.mem_ptr = at + 1;
        assert(old(self)@.defined(id) matches Ok(next) && next =~= self@);
        Ok(())
    }

    /// Returns from the latest call.
    fn ret(&mut self) -> (r: Result<(), Fault>)
        requires
            old(self).wf(),
        ensures
            final(self).wf(),
            match r {
                Ok(()) => old(self)@.returned() == Ok::<Machine, Fault>(final(self)@),
                Err(fault) => old(self)@.returned() == Err::<Machine, Fault>(fault)
                    && final(self)@ == old(self)@,
            },
    {
        match self.calls.pop() {
            Ok(call) => {
                let opcode: u8 = self.memory.byte(call);
                if opcode == OP_CLZ || opcode == OP_CLNZ {
                    self.cpu.mem_ptr = call + 4;
                } else {
                    self.cpu.mem_ptr = call + 3;
                }
                assert(old(self)@.returned() matches Ok(next) && next =~= self@);
                Ok(())
            },
            Err(fault) => Err(fault),
        }
    }

    /// Executes a control-flow instruction.
    fn run_control(&mut self, op: ControlOp) -> (r: Result<(), Fault>)
        requires
            old(self).wf(),
            registers_valid(Instruction::Control(op)),
            old(self)@.pc + operand_count(Instruction::Control(op)) < MEMORY_SIZE,
        ensures
            final(self).wf(),
            match r {
                Ok(()) => old(self)@.branched(op) == Ok::<Machine, Fault>(final(self)@),
                Err(fault) => old(self)@.branched(op) == Err::<Machine, Fault>(fault)
                    && final(self)@ == old(self)@,
            },
    {
        let pc: usize = self.cpu.mem_ptr;
        match op {
            ControlOp::Jmp { disp } => self.jump(pc + 1, disp),
            ControlOp::Jpz { disp, guard } => {
                if self.cpu.r[guard as usize] == 0 {
                    self.jump(pc + 2, disp)
                } else {
                    self.cpu.mem_ptr = pc + 3;
                    Ok(())
                }
            },
            ControlOp::Jpnz { disp, guard } => {
                if self.cpu.r[guard as usize] != 0 {
                    self.jump(pc + 2, disp)
                } else {
                    self.cpu.mem_ptr = pc + 3;
                    Ok(())
                }
            },
            ControlOp::Fnc { id } => self.define(id),
            ControlOp::Ret => self.ret(),
            ControlOp::Cal { id } => self.call(id),
            ControlOp::Clz { id, guard } => {
                if self.cpu.r[guard as usize] == 0 {
                    self.call(id)
                } else {
                    self.cpu.mem_ptr = pc + 4;
                    Ok(())
                }
            },
            ControlOp::Clnz { id, guard } => {
                if self.cpu.r[guard as usize] != 0 {
                    self.call(id)
                } else {
                    self.cpu.mem_ptr = pc + 4;
                    Ok(())
                }
            },
        }
    }

    /// Executes a wide-arithmetic instruction, the program counter left alone.
    fn run_wide(&mut self, op: WideOp) -> (r: Result<(), Fault>)
        requires
            old(self).wf(),
            registers_valid(Instruction::Wide(op)),
        ensures
            final(self).wf(),
            match r {
                Ok(()) => old(self)@.widened(op) == Ok::<Machine, Fault>(final(self)@),
                Err(fault) => old(self)@.widened(op) == Err::<Machine, Fault>(fault)
                    && final(self)@ == old(self)@,
            },
    {
        match op {
            WideOp::Mlt { a, b, high, low } => {
                let (h, l) = mul8(self.cpu.r[a as usize], self.cpu.r[b as usize]);
                self.cpu.r[high as usize] = h;
                self.cpu.r[low as usize] = l;
            },
            WideOp::Div { n_high, n_low, d_high, d_low, high, low } => {
                match div16(
                    self.cpu.r[n_high as usize],
                    self.cpu.r[n_low as usize],
                    self.cpu.r[d_high as usize],
                    self.cpu.r[d_low as usize],
                ) {
                    Ok((h, l)) => {
                        self.cpu.r[high as usize] = h;
                        self.cpu.r[low as usize] = l;
                    },
                    Err(fault) => {
                        return Err(fault);
                    },
                }
            },
        }
        assert(old(self)@.widened(op) matches Ok(next) && next =~= self@);
        Ok(())
    }

    /// Executes a drive instruction, the program counter left alone.
    fn run_drive(&mut self, op: DriveOp) -> (r: Result<(), Fault>)
        requires
            old(self).wf(),
            registers_valid(Instruction::Drive(op)),
        ensures
            final(self).wf(),
            match r {
                Ok(()) => old(self)@.transferred(op) == Ok::<Machine, Fault>(final(self)@),
                Err(fault) => old(self)@.transferred(op) == Err::<Machine, Fault>(fault)
                    && final(self)@ == old(self)@,
            },
    {
        match op {
            DriveOp::Std { addr, reg } => {
                match self.drive.write(addr, self.cpu.r[reg as usize]) {
                    Ok(()) => {},
                    Err(fault) => {
                        return Err(fault);
                    },
                }
            },
            DriveOp::Svd { addr, value } => {
                match self.drive.write(addr, value) {
                    Ok(()) => {},
                    Err(fault) => {
                        return Err(fault);
                    },
                }
            },
            DriveOp::Ldtm { drive_addr, mem_addr } => {
                match self.drive.read(drive_addr) {
                    Ok(value) => {
                        if mem_addr as usize >= MEMORY_SIZE {
                            return Err(Fault::MemoryAddressOutOfBounds);
                        }
                        self.memory.set_byte(mem_addr as usize, value);
                    },
                    Err(fault) => {
                        return Err(fault);
                    },
                }
            },
            DriveOp::Ldml { drive_addr, mem_addr, len } => {
                if len > 0 {
                    if !self.drive.holds(drive_addr, len) {
                        return Err(Fault::DriveAddressOutOfBounds);
                    }
                    if mem_addr as usize > MEMORY_SIZE || len as usize > MEMORY_SIZE
                        - mem_addr as usize {
                        return Err(Fault::MemoryAddressOutOfBounds);
                    }
                    let block = self.drive.slice(drive_addr as usize, len as usize);
                    let loaded = self.memory.load(mem_addr as usize, block);
                    assert(loaded is Ok);
                }
            },
            DriveOp::Smdl { drive_addr, mem_addr, len } => {
                if len > 0 {
                    if mem_addr as usize > MEMORY_SIZE || len as usize > MEMORY_SIZE
                        - mem_addr as usize {
                        return Err(Fault::MemoryAddressOutOfBounds);
                    }
                    if !self.drive.holds(drive_addr, len) {
                        return Err(Fault::DriveAddressOutOfBounds);
                    }
                    let block = self.memory.slice(mem_addr as usize, len as usize);
                    let stored = self.drive.load(drive_addr as usize, block);
                    assert(stored is Ok);
                }
            },
        }
        assert(old(self)@.transferred(op) matches Ok(next) && next =~= self@);
        Ok(())
    }

    /// A position: a literal plus the 16-bit value stored at `ptr`.
    fn relative_to(&self, literal: u16, ptr: u16) -> (p: u32)
        requires
            self.wf(),
        ensures
            p == relative(self@.memory, literal, ptr),
    {
        literal as u32 + self.memory.word(ptr as usize) as u32
    }

    /// The text of the literal of the text instruction at the program counter.
    fn literal_text(&self, count: u8) -> (text: String)
        requires
            self.wf(),
            self@.pc + 1 + count < MEMORY_SIZE,
        ensures
            text@ == glyphs_text(self@.literal(count)),
    {
        let first: usize = self.cpu.mem_ptr + 2;
        let mut text = String::new();
        let mut i: usize = 0;
        while i < count as usize
            invariant
                self.wf(),
                first == self@.pc + 2,
                first + count <= MEMORY_SIZE,
                i <= count,
                text@ == glyphs_text(self@.memory.subrange(first as int, first + i)),
            decreases count - i,
        {
            let id: u8 = self.memory.byte(first + i);
            proof {
                let done = self@.memory.subrange(first as int, first + i);
                assert(self@.memory.subrange(first as int, first + i + 1) =~= done.push(id));
                lemma_glyphs_text_push(done, id);
            }
            text.append(glyph_str(id));
            i = i + 1;
        }
        text
    }

    /// What a drawing instruction at the program counter hands to the display.
    fn draw(&self, op: DrawOp) -> (effect: Effect)
        requires
            self.wf(),
            registers_valid(Instruction::Draw(op)),
            self@.pc + operand_count(Instruction::Draw(op)) < MEMORY_SIZE,
        ensures
            effect@ == self@.drawn(op),
    {
        match op {
            DrawOp::Wrt { reg, size, x, y, color } => Effect::Text {
                text: id_to_str(self.cpu.r[reg as usize]),
                size,
                x: x as u32,
                y: y as u32,
                color,
            },
            DrawOp::Wrtl { count, size, x, y, color } => Effect::Text {
                text: self.literal_text(count),
                size,
                x: x as u32,
                y: y as u32,
                color,
            },
            DrawOp::Drwr { width, height, x, y, color } => Effect::Rectangle {
                x: x as u32,
                y: y as u32,
                width: width as u16,
                height: height as u16,
                color,
            },
            DrawOp::Drwc { radius, x, y, color } => Effect::Circle {
                x: x as u32,
                y: y as u32,
                radius,
                color,
            },
            DrawOp::Cls => Effect::Present,
            DrawOp::Mwrt { reg, size, x, x_ptr, y, y_ptr, color } => Effect::Text {
                text: id_to_str(self.cpu.r[reg as usize]),
                size,
                x: self.relative_to(x, x_ptr),
                y: self.relative_to(y, y_ptr),
                color,
            },
            DrawOp::Mwrtl { count, size, x, x_ptr, y, y_ptr, color } => Effect::Text {
                text: self.literal_text(count),
                size,
                x: self.relative_to(x, x_ptr),
                y: self.relative_to(y, y_ptr),
                color,
            },
            DrawOp::Mdrwr { width_ptr, height_ptr, x, x_ptr, y, y_ptr, color } => {
                Effect::Rectangle {
                    x: self.relative_to(x, x_ptr),
                    y: self.relative_to(y, y_ptr),
                    width: self.memory.word(width_ptr as usize),
                    height: self.memory.word(height_ptr as usize),
                    color,
                }
            },
            DrawOp::Mdrwc { radius, x, x_ptr, y, y_ptr, color } => Effect::Circle {
                x: self.relative_to(x, x_ptr),
                y: self.relative_to(y, y_ptr),
                radius,
                color,
            },
            DrawOp::Drwl { x1, y1, x2, y2, thickness, color } => Effect::Line {
                x1: x1 as u32,
                y1: y1 as u32,
                x2: x2 as u32,
                y2: y2 as u32,
                thickness,
                color,
            },
            DrawOp::Mdrwl { x1, x1_ptr, y1, y1_ptr, x2, x2_ptr, y2, y2_ptr, thickness, color } => {
                Effect::Line {
                    x1: self.relative_to(x1, x1_ptr),
                    y1: self.relative_to(y1, y1_ptr),
                    x2: self.relative_to(x2, x2_ptr),
                    y2: self.relative_to(y2, y2_ptr),
                    thickness,
                    color,
                }
            },
        }
    }

    /// Executes an instruction that was decoded at the program counter.
    fn execute(&mut self, instr: Instruction) -> (r: Result<Effect, Fault>)
        requires
            old(self).wf(),
            registers_valid(instr),
            old(self)@.pc + operand_count(instr) < MEMORY_SIZE,
        ensures
            final(self).wf(),
            match r {
                Ok(effect) => old(self)@.executed(instr) == Ok::<(Machine, Output), Fault>(
                    (final(self)@, effect@),
                ),
                Err(fault) => old(self)@.executed(instr) == Err::<(Machine, Output), Fault>(fault)
                    && final(self)@ == old(self)@,
            },
    {
        let next: usize = self.cpu.mem_ptr + 1 + instr.width();
        let mut effect = Effect::Nothing;
        match instr {
            Instruction::Move(op) => {
                match self.run_move(op) {
                    Ok(()) => {
                        self.cpu.mem_ptr = next;
                    },
                    Err(fault) => {
                        return Err(fault);
                    },
                }
            },
            Instruction::Arith(op) => {
                self.run_arith(op);
                self.cpu.mem_ptr = next;
            },
            Instruction::Control(op) => {
                match self.run_control(op) {
                    Ok(()) => {},
                    Err(fault) => {
                        return Err(fault);
                    },
                }
            },
            Instruction::Wide(op) => {
                match self.run_wide(op) {
                    Ok(()) => {
                        self.cpu.mem_ptr = next;
                    },
                    Err(fault) => {
                        return Err(fault);
                    },
                }
            },
            Instruction::Drive(op) => {
                match self.run_drive(op) {
                    Ok(()) => {
                        self.cpu.mem_ptr = next;
                    },
                    Err(fault) => {
                        return Err(fault);
                    },
                }
            },
            Instruction::Draw(op) => {
                effect = self.draw(op);
                self.cpu.mem_ptr = next;
            },
            Instruction::Ext { code } => {
                self.cpu.r[7] = code;
                self.cpu.mem_ptr = CODE_BASE;
            },
            Instruction::Hlt => {
                effect = Effect::Checkpoint;
                self.cpu.mem_ptr = next;
            },
            Instruction::Nop { .. } => {
                self.cpu.mem_ptr = next;
            },
        }
        assert(old(self)@.executed(instr) matches Ok(pair) && pair.0 =~= self@ && pair.1
            == effect@);
        Ok(effect)
    }

    /// Runs one cycle: refreshes the input registers from `input`, then
    /// decodes and executes the instruction at the program counter.
    ///
    /// On success the engine is in the next state and the effect says what
    /// the caller has to do. On a fault nothing but the input registers has
    /// changed, and the trap names the fault and the address of the
    /// instruction that raised it.
    pub fn step(&mut self, input: InputSample) -> (r: Result<Effect, Trap>)
        requires
            old(self).wf(),
        ensures
            final(self).wf(),
            match r {
                Ok(effect) => old(self)@.stepped(input) == Ok::<(Machine, Output), Fault>(
                    (final(self)@, effect@),
                ),
                Err(trap) => old(self)@.stepped(input) == Err::<(Machine, Output), Fault>(
                    trap.fault,
                ) && trap.address == old(self)@.pc && final(self)@ == old(self)@.sampled(input),
            },
    {
        self.memory.sample(input);
        let pc: usize = self.cpu.mem_ptr;
        assert(self@ =~= old(self)@.sampled(input));
        match decode(&self.memory, pc) {
            Ok(instr) => match self.execute(instr) {
                Ok(effect) => Ok(effect),
                Err(fault) => Err(Trap { fault, address: pc }),
            },
            Err(fault) => Err(Trap { fault, address: pc }),
        }
    }
}

} // verus!
