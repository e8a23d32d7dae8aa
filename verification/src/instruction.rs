//! The instruction set and its binary encoding.
//!
//! An instruction is one opcode byte followed by a fixed number of operand
//! bytes. Only the two text-literal instructions vary in length: their first
//! operand counts the glyph bytes that follow it. 16-bit operands are stored
//! high byte first, as are the 24-bit memory addresses and the 32-bit drive
//! addresses of the drive group. An opcode that names no instruction decodes
//! to `Nop`.

use vstd::prelude::*;
use crate::cpu::REGISTER_COUNT;
use crate::fault::Fault;
use crate::memory::{quad_at, triple_at, word_at, Memory, MEMORY_SIZE};

verus! {

/// Opcode of `LDV`: load an immediate into a register.
pub const OP_LDV: u8 = 0x00;

/// Opcode of `LDM`: load a register from an absolute address.
pub const OP_LDM: u8 = 0x01;

/// Opcode of `STM`: store a register at an absolute address.
pub const OP_STM: u8 = 0x02;

/// Opcode of `MOV`: copy register `src` into register `dst`.
pub const OP_MOV: u8 = 0x03;

/// Opcode of `LDVZ`: load an immediate if the guard register is zero.
pub const OP_LDVZ: u8 = 0x04;

/// Opcode of `LVNZ`: load an immediate if the guard register is not zero.
pub const OP_LVNZ: u8 = 0x05;

/// Opcode of `PUSH`: push a register onto the stack.
pub const OP_PUSH: u8 = 0x06;

/// Opcode of `PSHV`: push an immediate onto the stack.
pub const OP_PSHV: u8 = 0x07;

/// Opcode of `POP`: pop the top of the stack into a register.
pub const OP_POP: u8 = 0x08;

/// Opcode of `PPM`: pop the top of the stack into an absolute address.
pub const OP_PPM: u8 = 0x09;

/// Opcode of `OSTM`: store a register at a base address plus an offset register.
pub const OP_OSTM: u8 = 0x0A;

/// Opcode of `OLDM`: load a register from a base address plus an offset register.
pub const OP_OLDM: u8 = 0x0B;

/// Opcode of `STVM`: store an immediate at an absolute address.
pub const OP_STVM: u8 = 0x0C;

/// Opcode of `ADD`: `a += b`.
pub const OP_ADD: u8 = 0x10;

/// Opcode of `ADT`: `dst = a + b`.
pub const OP_ADT: u8 = 0x11;

/// Opcode of `SUB`: `a -= b`.
pub const OP_SUB: u8 = 0x12;

/// Opcode of `SBT`: `dst = a - b`.
pub const OP_SBT: u8 = 0x13;

/// Opcode of `ADV`: `a += value`.
pub const OP_ADV: u8 = 0x14;

/// Opcode of `ADVT`: `dst = a + value`.
pub const OP_ADVT: u8 = 0x15;

/// Opcode of `SBV`: `a -= value`.
pub const OP_SBV: u8 = 0x16;

/// Opcode of `SBVT`: `dst = a - value`.
pub const OP_SBVT: u8 = 0x17;

/// Opcode of `INC`: add one.
pub const OP_INC: u8 = 0x18;

/// Opcode of `DEC`: subtract one.
pub const OP_DEC: u8 = 0x19;

/// Opcode of `ADC`: add one if the carry flag is set.
pub const OP_ADC: u8 = 0x1A;

/// Opcode of `CCF`: clear the carry flag.
pub const OP_CCF: u8 = 0x1B;

/// Opcode of `SCF`: set the carry flag.
pub const OP_SCF: u8 = 0x1C;

/// Opcode of `SBC`: subtract one if the carry flag is set.
pub const OP_SBC: u8 = 0x1D;

/// Opcode of `JMP`: jump by a signed displacement.
pub const OP_JMP: u8 = 0x30;

/// Opcode of `JPZ`: jump if the guard register is zero.
pub const OP_JPZ: u8 = 0x31;

/// Opcode of `JPNZ`: jump if the guard register is not zero.
pub const OP_JPNZ: u8 = 0x32;

/// Opcode of `FNC`: register the function that follows and skip its body.
pub const OP_FNC: u8 = 0x33;

/// Opcode of `RET`: return from the latest call.
pub const OP_RET: u8 = 0x34;

/// Opcode of `CAL`: call a function.
pub const OP_CAL: u8 = 0x35;

/// Opcode of `CLZ`: call a function if the guard register is zero.
pub const OP_CLZ: u8 = 0x36;

/// Opcode of `CLNZ`: call a function if the guard register is not zero.
pub const OP_CLNZ: u8 = 0x37;

/// Opcode of `MLT`: `high:low = a * b`.
pub const OP_MLT: u8 = 0x40;

/// Opcode of `DIV`: `high:low = n_high:n_low / d_high:d_low`.
pub const OP_DIV: u8 = 0x41;

/// Opcode of `STD`: store a register on the drive.
pub const OP_STD: u8 = 0x60;

/// Opcode of `SVD`: store an immediate on the drive.
pub const OP_SVD: u8 = 0x61;

/// Opcode of `LDTM`: copy one byte from the drive into memory.
pub const OP_LDTM: u8 = 0x62;

/// Opcode of `LDML`: copy `len` bytes from the drive into memory.
pub const OP_LDML: u8 = 0x63;

/// Opcode of `SMDL`: copy `len` bytes from memory onto the drive.
pub const OP_SMDL: u8 = 0x64;

/// Opcode of `WRT`: draw the glyph whose id is in a register.
pub const OP_WRT: u8 = 0x80;

/// Opcode of `WRTL`: draw the `count` glyphs that follow the count byte.
pub const OP_WRTL: u8 = 0x81;

/// Opcode of `DRWR`: draw a rectangle.
pub const OP_DRWR: u8 = 0x82;

/// Opcode of `DRWC`: draw a circle.
pub const OP_DRWC: u8 = 0x83;

/// Opcode of `CLS`: present the frame and clear the screen.
pub const OP_CLS: u8 = 0x84;

/// Opcode of `MWRT`: `Wrt` at a position relative to two values in memory.
pub const OP_MWRT: u8 = 0x85;

/// Opcode of `MWRTL`: `Wrtl` at a position relative to two values in memory.
pub const OP_MWRTL: u8 = 0x86;

/// Opcode of `MDRWR`: draw a rectangle whose size and relative position are in memory.
pub const OP_MDRWR: u8 = 0x87;

/// Opcode of `MDRWC`: `Drwc` at a position relative to two values in memory.
pub const OP_MDRWC: u8 = 0x88;

/// Opcode of `DRWL`: draw a line; its first two operand bytes are not used.
pub const OP_DRWL: u8 = 0x89;

/// Opcode of `MDRWL`: `Drwl` with both ends relative to values in memory.
pub const OP_MDRWL: u8 = 0x8A;

/// Opcode of `EXT`: hand control back to the start of the code with an exit code in register 7.
pub const OP_EXT: u8 = 0xFE;

/// Opcode of `HLT`: checkpoint the drive.
pub const OP_HLT: u8 = 0xFF;

/// A color as its four channels, each 0..=255.
#[derive(Clone, Copy, PartialEq, Eq, Debug, Structural)]
pub struct Rgba {
    pub r: u8,
    pub g: u8,
    pub b: u8,
    pub a: u8,
}

/// Data movement between registers, memory and the stack.
#[derive(Clone, Copy, PartialEq, Eq, Debug, Structural)]
pub enum MoveOp {
    Ldv { reg: u8, value: u8 },
    Ldm { reg: u8, addr: u16 },
    Stm { reg: u8, addr: u16 },
    Mov { src: u8, dst: u8 },
    Ldvz { reg: u8, value: u8, guard: u8 },
    Lvnz { reg: u8, value: u8, guard: u8 },
    Push { reg: u8 },
    Pshv { value: u8 },
    Pop { reg: u8 },
    Ppm { addr: u16 },
    Ostm { reg: u8, addr: u16, offset: u8 },
    Oldm { reg: u8, addr: u16, offset: u8 },
    Stvm { value: u8, addr: u16 },
}

/// 8-bit arithmetic and the carry flag.
#[derive(Clone, Copy, PartialEq, Eq, Debug, Structural)]
pub enum ArithOp {
    Add { a: u8, b: u8 },
    Adt { a: u8, b: u8, dst: u8 },
    Sub { a: u8, b: u8 },
    Sbt { a: u8, b: u8, dst: u8 },
    Adv { a: u8, value: u8 },
    Advt { a: u8, value: u8, dst: u8 },
    Sbv { a: u8, value: u8 },
    Sbvt { a: u8, value: u8, dst: u8 },
    Inc { reg: u8 },
    Dec { reg: u8 },
    Adc { reg: u8 },
    Ccf,
    Scf,
    Sbc { reg: u8 },
}

/// Jumps, function definition, calls and return.
#[derive(Clone, Copy, PartialEq, Eq, Debug, Structural)]
pub enum ControlOp {
    Jmp { disp: u8 },
    Jpz { disp: u8, guard: u8 },
    Jpnz { disp: u8, guard: u8 },
    Fnc { id: u16 },
    Ret,
    Cal { id: u16 },
    Clz { id: u16, guard: u8 },
    Clnz { id: u16, guard: u8 },
}

/// 16-bit multiply and divide over register pairs.
#[derive(Clone, Copy, PartialEq, Eq, Debug, Structural)]
pub enum WideOp {
    Mlt { a: u8, b: u8, high: u8, low: u8 },
    Div { n_high: u8, n_low: u8, d_high: u8, d_low: u8, high: u8, low: u8 },
}

/// Transfers to and from the drive.
#[derive(Clone, Copy, PartialEq, Eq, Debug, Structural)]
pub enum DriveOp {
    Std { addr: u32, reg: u8 },
    Svd { addr: u32, value: u8 },
    Ldtm { drive_addr: u32, mem_addr: u32 },
    Ldml { drive_addr: u32, mem_addr: u32, len: u16 },
    Smdl { drive_addr: u32, mem_addr: u32, len: u16 },
}

/// Drawing and frame presentation.
#[derive(Clone, Copy, PartialEq, Eq, Debug, Structural)]
pub enum DrawOp {
    Wrt { reg: u8, size: u8, x: u16, y: u16, color: Rgba },
    Wrtl { count: u8, size: u8, x: u16, y: u16, color: Rgba },
    Drwr { width: u8, height: u8, x: u16, y: u16, color: Rgba },
    Drwc { radius: u8, x: u16, y: u16, color: Rgba },
    Cls,
    Mwrt { reg: u8, size: u8, x: u16, x_ptr: u16, y: u16, y_ptr: u16, color: Rgba },
    Mwrtl { count: u8, size: u8, x: u16, x_ptr: u16, y: u16, y_ptr: u16, color: Rgba },
    Mdrwr { width_ptr: u16, height_ptr: u16, x: u16, x_ptr: u16, y: u16, y_ptr: u16, color: Rgba },
    Mdrwc { radius: u8, x: u16, x_ptr: u16, y: u16, y_ptr: u16, color: Rgba },
    Drwl { x1: u16, y1: u16, x2: u16, y2: u16, thickness: u8, color: Rgba },
    Mdrwl {
        x1: u16,
        x1_ptr: u16,
        y1: u16,
        y1_ptr: u16,
        x2: u16,
        x2_ptr: u16,
        y2: u16,
        y2_ptr: u16,
        thickness: u8,
        color: Rgba,
    },
}

/// One decoded instruction.
#[derive(Clone, Copy, PartialEq, Eq, Debug, Structural)]
pub enum Instruction {
    Move(MoveOp),
    Arith(ArithOp),
    Control(ControlOp),
    Wide(WideOp),
    Drive(DriveOp),
    Draw(DrawOp),
    /// Exit with a code.
    Ext { code: u8 },
    /// Checkpoint the drive.
    Hlt,
    /// An opcode that names no instruction.
    Nop { opcode: u8 },
}

/// The color stored in the four bytes from `at` on.
pub open spec fn rgba_at(bytes: Seq<u8>, at: int) -> Rgba {
    Rgba { r: bytes[at], g: bytes[at + 1], b: bytes[at + 2], a: bytes[at + 3] }
}

/// The number of operand bytes that follow the opcode byte.
pub open spec fn operand_count(instr: Instruction) -> int {
    match instr {
        Instruction::Move(MoveOp::Ldv { .. }) => 2,
        Instruction::Move(MoveOp::Ldm { .. }) => 3,
        Instruction::Move(MoveOp::Stm { .. }) => 3,
        Instruction::Move(MoveOp::Mov { .. }) => 2,
        Instruction::Move(MoveOp::Ldvz { .. }) => 3,
        Instruction::Move(MoveOp::Lvnz { .. }) => 3,
        Instruction::Move(MoveOp::Push { .. }) => 1,
        Instruction::Move(MoveOp::Pshv { .. }) => 1,
        Instruction::Move(MoveOp::Pop { .. }) => 1,
        Instruction::Move(MoveOp::Ppm { .. }) => 2,
        Instruction::Move(MoveOp::Ostm { .. }) => 4,
        Instruction::Move(MoveOp::Oldm { .. }) => 4,
        Instruction::Move(MoveOp::Stvm { .. }) => 3,
        Instruction::Arith(ArithOp::Add { .. }) => 2,
        Instruction::Arith(ArithOp::Adt { .. }) => 3,
        Instruction::Arith(ArithOp::Sub { .. }) => 2,
        Instruction::Arith(ArithOp::Sbt { .. }) => 3,
        Instruction::Arith(ArithOp::Adv { .. }) => 2,
        Instruction::Arith(ArithOp::Advt { .. }) => 3,
        Instruction::Arith(ArithOp::Sbv { .. }) => 2,
        Instruction::Arith(ArithOp::Sbvt { .. }) => 3,
        Instruction::Arith(ArithOp::Inc { .. }) => 1,
        Instruction::Arith(ArithOp::Dec { .. }) => 1,
        Instruction::Arith(ArithOp::Adc { .. }) => 1,
        Instruction::Arith(ArithOp::Ccf) => 0,
        Instruction::Arith(ArithOp::Scf) => 0,
        Instruction::Arith(ArithOp::Sbc { .. }) => 1,
        Instruction::Control(ControlOp::Jmp { .. }) => 1,
        Instruction::Control(ControlOp::Jpz { .. }) => 2,
        Instruction::Control(ControlOp::Jpnz { .. }) => 2,
        Instruction::Control(ControlOp::Fnc { .. }) => 2,
        Instruction::Control(ControlOp::Ret) => 0,
        Instruction::Control(ControlOp::Cal { .. }) => 2,
        Instruction::Control(ControlOp::Clz { .. }) => 3,
        Instruction::Control(ControlOp::Clnz { .. }) => 3,
        Instruction::Wide(WideOp::Mlt { .. }) => 4,
        Instruction::Wide(WideOp::Div { .. }) => 6,
        Instruction::Drive(DriveOp::Std { .. }) => 5,
        Instruction::Drive(DriveOp::Svd { .. }) => 5,
        Instruction::Drive(DriveOp::Ldtm { .. }) => 7,
        Instruction::Drive(DriveOp::Ldml { .. }) => 9,
        Instruction::Drive(DriveOp::Smdl { .. }) => 9,
        Instruction::Draw(DrawOp::Wrt { .. }) => 10,
        Instruction::Draw(DrawOp::Wrtl { count, .. }) => 10 + count,
        Instruction::Draw(DrawOp::Drwr { .. }) => 10,
        Instruction::Draw(DrawOp::Drwc { .. }) => 9,
        Instruction::Draw(DrawOp::Cls) => 0,
        Instruction::Draw(DrawOp::Mwrt { .. }) => 14,
        Instruction::Draw(DrawOp::Mwrtl { count, .. }) => 14 + count,
        Instruction::Draw(DrawOp::Mdrwr { .. }) => 16,
        Instruction::Draw(DrawOp::Mdrwc { .. }) => 13,
        Instruction::Draw(DrawOp::Drwl { .. }) => 15,
        Instruction::Draw(DrawOp::Mdrwl { .. }) => 21,
        Instruction::Ext { .. } => 1,
        Instruction::Hlt => 0,
        Instruction::Nop { .. } => 0,
    }
}

/// Whether every operand that names a register names one of the eight.
pub open spec fn registers_valid(instr: Instruction) -> bool {
    match instr {
        Instruction::Move(MoveOp::Ldv { reg, .. }) => reg < REGISTER_COUNT,
        Instruction::Move(MoveOp::Ldm { reg, .. }) => reg < REGISTER_COUNT,
        Instruction::Move(MoveOp::Stm { reg, .. }) => reg < REGISTER_COUNT,
        Instruction::Move(MoveOp::Mov { src, dst }) => src < REGISTER_COUNT && dst < REGISTER_COUNT,
        Instruction::Move(MoveOp::Ldvz { reg, guard, .. }) => {
            reg < REGISTER_COUNT
                && guard < REGISTER_COUNT
        },
        Instruction::Move(MoveOp::Lvnz { reg, guard, .. }) => {
            reg < REGISTER_COUNT
                && guard < REGISTER_COUNT
        },
        Instruction::Move(MoveOp::Push { reg }) => reg < REGISTER_COUNT,
        Instruction::Move(MoveOp::Pop { reg }) => reg < REGISTER_COUNT,
        Instruction::Move(MoveOp::Ostm { reg, offset, .. }) => {
            reg < REGISTER_COUNT
                && offset < REGISTER_COUNT
        },
        Instruction::Move(MoveOp::Oldm { reg, offset, .. }) => {
            reg < REGISTER_COUNT
                && offset < REGISTER_COUNT
        },
        Instruction::Arith(ArithOp::Add { a, b }) => a < REGISTER_COUNT && b < REGISTER_COUNT,
        Instruction::Arith(ArithOp::Adt { a, b, dst }) => {
            a < REGISTER_COUNT
                && b < REGISTER_COUNT
                && dst < REGISTER_COUNT
        },
        Instruction::Arith(ArithOp::Sub { a, b }) => a < REGISTER_COUNT && b < REGISTER_COUNT,
        Instruction::Arith(ArithOp::Sbt { a, b, dst }) => {
            a < REGISTER_COUNT
                && b < REGISTER_COUNT
                && dst < REGISTER_COUNT
        },
        Instruction::Arith(ArithOp::Adv { a, .. }) => a < REGISTER_COUNT,
        Instruction::Arith(ArithOp::Advt { a, dst, .. }) => {
            a < REGISTER_COUNT
                && dst < REGISTER_COUNT
        },
        Instruction::Arith(ArithOp::Sbv { a, .. }) => a < REGISTER_COUNT,
        Instruction::Arith(ArithOp::Sbvt { a, dst, .. }) => {
            a < REGISTER_COUNT
                && dst < REGISTER_COUNT
        },
        Instruction::Arith(ArithOp::Inc { reg }) => reg < REGISTER_COUNT,
        Instruction::Arith(ArithOp::Dec { reg }) => reg < REGISTER_COUNT,
        Instruction::Arith(ArithOp::Adc { reg }) => reg < REGISTER_COUNT,
        Instruction::Arith(ArithOp::Sbc { reg }) => reg < REGISTER_COUNT,
        Instruction::Control(ControlOp::Jpz { guard, .. }) => guard < REGISTER_COUNT,
        Instruction::Control(ControlOp::Jpnz { guard, .. }) => guard < REGISTER_COUNT,
        Instruction::Control(ControlOp::Clz { guard, .. }) => guard < REGISTER_COUNT,
        Instruction::Control(ControlOp::Clnz { guard, .. }) => guard < REGISTER_COUNT,
        Instruction::Wide(WideOp::Mlt { a, b, high, low }) => {
            a < REGISTER_COUNT
                && b < REGISTER_COUNT
                && high < REGISTER_COUNT
                && low < REGISTER_COUNT
        },
        Instruction::Wide(WideOp::Div { n_high, n_low, d_high, d_low, high, low }) => {
            n_high < REGISTER_COUNT
                && n_low < REGISTER_COUNT
                && d_high < REGISTER_COUNT
                && d_low < REGISTER_COUNT
                && high < REGISTER_COUNT
                && low < REGISTER_COUNT
        },
        Instruction::Drive(DriveOp::Std { reg, .. }) => reg < REGISTER_COUNT,
        Instruction::Draw(DrawOp::Wrt { reg, .. }) => reg < REGISTER_COUNT,
        Instruction::Draw(DrawOp::Mwrt { reg, .. }) => reg < REGISTER_COUNT,
        _ => true,
    }
}

/// The instruction that the bytes from `pc` on spell out, read without regard
/// to where memory ends or to whether its register operands are valid.
pub open spec fn layout(bytes: Seq<u8>, pc: int) -> Instruction {
    match bytes[pc] {
        OP_LDV => Instruction::Move(MoveOp::Ldv { reg: bytes[pc + 1], value: bytes[pc + 2] }),
        OP_LDM => Instruction::Move(MoveOp::Ldm {
            reg: bytes[pc + 1],
            addr: word_at(bytes, pc + 2),
        }),
        OP_STM => Instruction::Move(MoveOp::Stm {
            reg: bytes[pc + 1],
            addr: word_at(bytes, pc + 2),
        }),
        OP_MOV => Instruction::Move(MoveOp::Mov { src: bytes[pc + 1], dst: bytes[pc + 2] }),
        OP_LDVZ => Instruction::Move(MoveOp::Ldvz {
            reg: bytes[pc + 1],
            value: bytes[pc + 2],
            guard: bytes[pc + 3],
        }),
        OP_LVNZ => Instruction::Move(MoveOp::Lvnz {
            reg: bytes[pc + 1],
            value: bytes[pc + 2],
            guard: bytes[pc + 3],
        }),
        OP_PUSH => Instruction::Move(MoveOp::Push { reg: bytes[pc + 1] }),
        OP_PSHV => Instruction::Move(MoveOp::Pshv { value: bytes[pc + 1] }),
        OP_POP => Instruction::Move(MoveOp::Pop { reg: bytes[pc + 1] }),
        OP_PPM => Instruction::Move(MoveOp::Ppm { addr: word_at(bytes, pc + 1) }),
        OP_OSTM => Instruction::Move(MoveOp::Ostm {
            reg: bytes[pc + 1],
            addr: word_at(bytes, pc + 2),
            offset: bytes[pc + 4],
        }),
        OP_OLDM => Instruction::Move(MoveOp::Oldm {
            reg: bytes[pc + 1],
            addr: word_at(bytes, pc + 2),
            offset: bytes[pc + 4],
        }),
        OP_STVM => Instruction::Move(MoveOp::Stvm {
            value: bytes[pc + 1],
            addr: word_at(bytes, pc + 2),
        }),
        OP_ADD => Instruction::Arith(ArithOp::Add { a: bytes[pc + 1], b: bytes[pc + 2] }),
        OP_ADT => Instruction::Arith(ArithOp::Adt {
            a: bytes[pc + 1],
            b: bytes[pc + 2],
            dst: bytes[pc + 3],
        }),
        OP_SUB => Instruction::Arith(ArithOp::Sub { a: bytes[pc + 1], b: bytes[pc + 2] }),
        OP_SBT => Instruction::Arith(ArithOp::Sbt {
            a: bytes[pc + 1],
            b: bytes[pc + 2],
            dst: bytes[pc + 3],
        }),
        OP_ADV => Instruction::Arith(ArithOp::Adv { a: bytes[pc + 1], value: bytes[pc + 2] }),
        OP_ADVT => Instruction::Arith(ArithOp::Advt {
            a: bytes[pc + 1],
            value: bytes[pc + 2],
            dst: bytes[pc + 3],
        }),
        OP_SBV => Instruction::Arith(ArithOp::Sbv { a: bytes[pc + 1], value: bytes[pc + 2] }),
        OP_SBVT => Instruction::Arith(ArithOp::Sbvt {
            a: bytes[pc + 1],
            value: bytes[pc + 2],
            dst: bytes[pc + 3],
        }),
        OP_INC => Instruction::Arith(ArithOp::Inc { reg: bytes[pc + 1] }),
        OP_DEC => Instruction::Arith(ArithOp::Dec { reg: bytes[pc + 1] }),
        OP_ADC => Instruction::Arith(ArithOp::Adc { reg: bytes[pc + 1] }),
        OP_CCF => Instruction::Arith(ArithOp::Ccf),
        OP_SCF => Instruction::Arith(ArithOp::Scf),
        OP_SBC => Instruction::Arith(ArithOp::Sbc { reg: bytes[pc + 1] }),
        OP_JMP => Instruction::Control(ControlOp::Jmp { disp: bytes[pc + 1] }),
        OP_JPZ => Instruction::Control(ControlOp::Jpz {
            disp: bytes[pc + 1],
            guard: bytes[pc + 2],
        }),
        OP_JPNZ => Instruction::Control(ControlOp::Jpnz {
            disp: bytes[pc + 1],
            guard: bytes[pc + 2],
        }),
        OP_FNC => Instruction::Control(ControlOp::Fnc { id: word_at(bytes, pc + 1) }),
        OP_RET => Instruction::Control(ControlOp::Ret),
        OP_CAL => Instruction::Control(ControlOp::Cal { id: word_at(bytes, pc + 1) }),
        OP_CLZ => Instruction::Control(ControlOp::Clz {
            id: word_at(bytes, pc + 1),
            guard: bytes[pc + 3],
        }),
        OP_CLNZ => Instruction::Control(ControlOp::Clnz {
            id: word_at(bytes, pc + 1),
            guard: bytes[pc + 3],
        }),
        OP_MLT => Instruction::Wide(WideOp::Mlt {
            a: bytes[pc + 1],
            b: bytes[pc + 2],
            high: bytes[pc + 3],
            low: bytes[pc + 4],
        }),
        OP_DIV => Instruction::Wide(WideOp::Div {
            n_high: bytes[pc + 1],
            n_low: bytes[pc + 2],
            d_high: bytes[pc + 3],
            d_low: bytes[pc + 4],
            high: bytes[pc + 5],
            low: bytes[pc + 6],
        }),
        OP_STD => Instruction::Drive(DriveOp::Std {
            addr: quad_at(bytes, pc + 1),
            reg: bytes[pc + 5],
        }),
        OP_SVD => Instruction::Drive(DriveOp::Svd {
            addr: quad_at(bytes, pc + 1),
            value: bytes[pc + 5],
        }),
        OP_LDTM => Instruction::Drive(DriveOp::Ldtm {
            drive_addr: quad_at(bytes, pc + 1),
            mem_addr: triple_at(bytes, pc + 5),
        }),
        OP_LDML => Instruction::Drive(DriveOp::Ldml {
            drive_addr: quad_at(bytes, pc + 1),
            mem_addr: triple_at(bytes, pc + 5),
            len: word_at(bytes, pc + 8),
        }),
        OP_SMDL => Instruction::Drive(DriveOp::Smdl {
            drive_addr: quad_at(bytes, pc + 1),
            mem_addr: triple_at(bytes, pc + 5),
            len: word_at(bytes, pc + 8),
        }),
        OP_WRT => Instruction::Draw(DrawOp::Wrt {
            reg: bytes[pc + 1],
            size: bytes[pc + 2],
            x: word_at(bytes, pc + 3),
            y: word_at(bytes, pc + 5),
            color: rgba_at(bytes, pc + 7),
        }),
        OP_WRTL => Instruction::Draw(DrawOp::Wrtl {
            count: bytes[pc + 1],
            size: bytes[pc + 2 + bytes[pc + 1]],
            x: word_at(bytes, pc + 3 + bytes[pc + 1]),
            y: word_at(bytes, pc + 5 + bytes[pc + 1]),
            color: rgba_at(bytes, pc + 7 + bytes[pc + 1]),
        }),
        OP_DRWR => Instruction::Draw(DrawOp::Drwr {
            width: bytes[pc + 1],
            height: bytes[pc + 2],
            x: word_at(bytes, pc + 3),
            y: word_at(bytes, pc + 5),
            color: rgba_at(bytes, pc + 7),
        }),
        OP_DRWC => Instruction::Draw(DrawOp::Drwc {
            radius: bytes[pc + 1],
            x: word_at(bytes, pc + 2),
            y: word_at(bytes, pc + 4),
            color: rgba_at(bytes, pc + 6),
        }),
        OP_CLS => Instruction::Draw(DrawOp::Cls),
        OP_MWRT => Instruction::Draw(DrawOp::Mwrt {
            reg: bytes[pc + 1],
            size: bytes[pc + 2],
            x: word_at(bytes, pc + 3),
            x_ptr: word_at(bytes, pc + 5),
            y: word_at(bytes, pc + 7),
            y_ptr: word_at(bytes, pc + 9),
            color: rgba_at(bytes, pc + 11),
        }),
        OP_MWRTL => Instruction::Draw(DrawOp::Mwrtl {
            count: bytes[pc + 1],
            size: bytes[pc + 2 + bytes[pc + 1]],
            x: word_at(bytes, pc + 3 + bytes[pc + 1]),
            x_ptr: word_at(bytes, pc + 5 + bytes[pc + 1]),
            y: word_at(bytes, pc + 7 + bytes[pc + 1]),
            y_ptr: word_at(bytes, pc + 9 + bytes[pc + 1]),
            color: rgba_at(bytes, pc + 11 + bytes[pc + 1]),
        }),
        OP_MDRWR => Instruction::Draw(DrawOp::Mdrwr {
            width_ptr: word_at(bytes, pc + 1),
            height_ptr: word_at(bytes, pc + 3),
            x: word_at(bytes, pc + 5),
            x_ptr: word_at(bytes, pc + 7),
            y: word_at(bytes, pc + 9),
            y_ptr: word_at(bytes, pc + 11),
            color: rgba_at(bytes, pc + 13),
        }),
        OP_MDRWC => Instruction::Draw(DrawOp::Mdrwc {
            radius: bytes[pc + 1],
            x: word_at(bytes, pc + 2),
            x_ptr: word_at(bytes, pc + 4),
            y: word_at(bytes, pc + 6),
            y_ptr: word_at(bytes, pc + 8),
            color: rgba_at(bytes, pc + 10),
        }),
        OP_DRWL => Instruction::Draw(DrawOp::Drwl {
            x1: word_at(bytes, pc + 3),
            y1: word_at(bytes, pc + 5),
            x2: word_at(bytes, pc + 7),
            y2: word_at(bytes, pc + 9),
            thickness: bytes[pc + 11],
            color: rgba_at(bytes, pc + 12),
        }),
        OP_MDRWL => Instruction::Draw(DrawOp::Mdrwl {
            x1: word_at(bytes, pc + 1),
            x1_ptr: word_at(bytes, pc + 3),
            y1: word_at(bytes, pc + 5),
            y1_ptr: word_at(bytes, pc + 7),
            x2: word_at(bytes, pc + 9),
            x2_ptr: word_at(bytes, pc + 11),
            y2: word_at(bytes, pc + 13),
            y2_ptr: word_at(bytes, pc + 15),
            thickness: bytes[pc + 17],
            color: rgba_at(bytes, pc + 18),
        }),
        OP_EXT => Instruction::Ext { code: bytes[pc + 1] },
        OP_HLT => Instruction::Hlt,
        opcode => Instruction::Nop { opcode },
    }
}

/// The instruction at `pc`: `MemoryAddressOutOfBounds` if the opcode or one of
/// its operand bytes lies outside memory, `InvalidRegisterIndex` if an operand
/// names a register outside 0..=7, else the instruction laid out there.
pub open spec fn decode_spec(bytes: Seq<u8>, pc: int) -> Result<Instruction, Fault> {
    if pc < 0 || pc >= bytes.len() {
        Err(Fault::MemoryAddressOutOfBounds)
    } else if pc + operand_count(layout(bytes, pc)) >= bytes.len() {
        Err(Fault::MemoryAddressOutOfBounds)
    } else if !registers_valid(layout(bytes, pc)) {
        Err(Fault::InvalidRegisterIndex)
    } else {
        Ok(layout(bytes, pc))
    }
}

impl Instruction {
    /// The number of operand bytes that follow the opcode byte.
    pub fn width(&self) -> (n: usize)
        ensures
            n == operand_count(*self),
    {
        match self {
            Instruction::Move(MoveOp::Ldv { .. }) => 2,
            Instruction::Move(MoveOp::Ldm { .. }) => 3,
            Instruction::Move(MoveOp::Stm { .. }) => 3,
            Instruction::Move(MoveOp::Mov { .. }) => 2,
            Instruction::Move(MoveOp::Ldvz { .. }) => 3,
            Instruction::Move(MoveOp::Lvnz { .. }) => 3,
            Instruction::Move(MoveOp::Push { .. }) => 1,
            Instruction::Move(MoveOp::Pshv { .. }) => 1,
            Instruction::Move(MoveOp::Pop { .. }) => 1,
            Instruction::Move(MoveOp::Ppm { .. }) => 2,
            Instruction::Move(MoveOp::Ostm { .. }) => 4,
            Instruction::Move(MoveOp::Oldm { .. }) => 4,
            Instruction::Move(MoveOp::Stvm { .. }) => 3,
            Instruction::Arith(ArithOp::Add { .. }) => 2,
            Instruction::Arith(ArithOp::Adt { .. }) => 3,
            Instruction::Arith(ArithOp::Sub { .. }) => 2,
            Instruction::Arith(ArithOp::Sbt { .. }) => 3,
            Instruction::Arith(ArithOp::Adv { .. }) => 2,
            Instruction::Arith(ArithOp::Advt { .. }) => 3,
            Instruction::Arith(ArithOp::Sbv { .. }) => 2,
            Instruction::Arith(ArithOp::Sbvt { .. }) => 3,
            Instruction::Arith(ArithOp::Inc { .. }) => 1,
            Instruction::Arith(ArithOp::Dec { .. }) => 1,
            Instruction::Arith(ArithOp::Adc { .. }) => 1,
            Instruction::Arith(ArithOp::Ccf) => 0,
            Instruction::Arith(ArithOp::Scf) => 0,
            Instruction::Arith(ArithOp::Sbc { .. }) => 1,
            Instruction::Control(ControlOp::Jmp { .. }) => 1,
            Instruction::Control(ControlOp::Jpz { .. }) => 2,
            Instruction::Control(ControlOp::Jpnz { .. }) => 2,
            Instruction::Control(ControlOp::Fnc { .. }) => 2,
            Instruction::Control(ControlOp::Ret) => 0,
            Instruction::Control(ControlOp::Cal { .. }) => 2,
            Instruction::Control(ControlOp::Clz { .. }) => 3,
            Instruction::Control(ControlOp::Clnz { .. }) => 3,
            Instruction::Wide(WideOp::Mlt { .. }) => 4,
            Instruction::Wide(WideOp::Div { .. }) => 6,
            Instruction::Drive(DriveOp::Std { .. }) => 5,
            Instruction::Drive(DriveOp::Svd { .. }) => 5,
            Instruction::Drive(DriveOp::Ldtm { .. }) => 7,
            Instruction::Drive(DriveOp::Ldml { .. }) => 9,
            Instruction::Drive(DriveOp::Smdl { .. }) => 9,
            Instruction::Draw(DrawOp::Wrt { .. }) => 10,
            Instruction::Draw(DrawOp::Wrtl { count, .. }) => 10 + *count as usize,
            Instruction::Draw(DrawOp::Drwr { .. }) => 10,
            Instruction::Draw(DrawOp::Drwc { .. }) => 9,
            Instruction::Draw(DrawOp::Cls) => 0,
            Instruction::Draw(DrawOp::Mwrt { .. }) => 14,
            Instruction::Draw(DrawOp::Mwrtl { count, .. }) => 14 + *count as usize,
            Instruction::Draw(DrawOp::Mdrwr { .. }) => 16,
            Instruction::Draw(DrawOp::Mdrwc { .. }) => 13,
            Instruction::Draw(DrawOp::Drwl { .. }) => 15,
            Instruction::Draw(DrawOp::Mdrwl { .. }) => 21,
            Instruction::Ext { .. } => 1,
            Instruction::Hlt => 0,
            Instruction::Nop { .. } => 0,
        }
    }

    /// Whether every operand that names a register names one of the eight.
    pub fn has_valid_registers(&self) -> (b: bool)
        ensures
            b == registers_valid(*self),
    {
        match self {
            Instruction::Move(MoveOp::Ldv { reg, .. }) => *reg < REGISTER_COUNT,
            Instruction::Move(MoveOp::Ldm { reg, .. }) => *reg < REGISTER_COUNT,
            Instruction::Move(MoveOp::Stm { reg, .. }) => *reg < REGISTER_COUNT,
            Instruction::Move(MoveOp::Mov { src, dst }) => {
                *src < REGISTER_COUNT
                    && *dst < REGISTER_COUNT
            },
            Instruction::Move(MoveOp::Ldvz { reg, guard, .. }) => {
                *reg < REGISTER_COUNT
                    && *guard < REGISTER_COUNT
            },
            Instruction::Move(MoveOp::Lvnz { reg, guard, .. }) => {
                *reg < REGISTER_COUNT
                    && *guard < REGISTER_COUNT
            },
            Instruction::Move(MoveOp::Push { reg }) => *reg < REGISTER_COUNT,
            Instruction::Move(MoveOp::Pop { reg }) => *reg < REGISTER_COUNT,
            Instruction::Move(MoveOp::Ostm { reg, offset, .. }) => {
                *reg < REGISTER_COUNT
                    && *offset < REGISTER_COUNT
            },
            Instruction::Move(MoveOp::Oldm { reg, offset, .. }) => {
                *reg < REGISTER_COUNT
                    && *offset < REGISTER_COUNT
            },
            Instruction::Arith(ArithOp::Add { a, b }) => *a < REGISTER_COUNT && *b < REGISTER_COUNT,
            Instruction::Arith(ArithOp::Adt { a, b, dst }) => {
                *a < REGISTER_COUNT
                    && *b < REGISTER_COUNT
                    && *dst < REGISTER_COUNT
            },
            Instruction::Arith(ArithOp::Sub { a, b }) => *a < REGISTER_COUNT && *b < REGISTER_COUNT,
            Instruction::Arith(ArithOp::Sbt { a, b, dst }) => {
                *a < REGISTER_COUNT
                    && *b < REGISTER_COUNT
                    && *dst < REGISTER_COUNT
            },
            Instruction::Arith(ArithOp::Adv { a, .. }) => *a < REGISTER_COUNT,
            Instruction::Arith(ArithOp::Advt { a, dst, .. }) => {
                *a < REGISTER_COUNT
                    && *dst < REGISTER_COUNT
            },
            Instruction::Arith(ArithOp::Sbv { a, .. }) => *a < REGISTER_COUNT,
            Instruction::Arith(ArithOp::Sbvt { a, dst, .. }) => {
                *a < REGISTER_COUNT
                    && *dst < REGISTER_COUNT
            },
            Instruction::Arith(ArithOp::Inc { reg }) => *reg < REGISTER_COUNT,
            Instruction::Arith(ArithOp::Dec { reg }) => *reg < REGISTER_COUNT,
            Instruction::Arith(ArithOp::Adc { reg }) => *reg < REGISTER_COUNT,
            Instruction::Arith(ArithOp::Sbc { reg }) => *reg < REGISTER_COUNT,
            Instruction::Control(ControlOp::Jpz { guard, .. }) => *guard < REGISTER_COUNT,
            Instruction::Control(ControlOp::Jpnz { guard, .. }) => *guard < REGISTER_COUNT,
            Instruction::Control(ControlOp::Clz { guard, .. }) => *guard < REGISTER_COUNT,
            Instruction::Control(ControlOp::Clnz { guard, .. }) => *guard < REGISTER_COUNT,
            Instruction::Wide(WideOp::Mlt { a, b, high, low }) => {
                *a < REGISTER_COUNT
                    && *b < REGISTER_COUNT
                    && *high < REGISTER_COUNT
                    && *low < REGISTER_COUNT
            },
            Instruction::Wide(WideOp::Div { n_high, n_low, d_high, d_low, high, low }) => {
                *n_high < REGISTER_COUNT
                    && *n_low < REGISTER_COUNT
                    && *d_high < REGISTER_COUNT
                    && *d_low < REGISTER_COUNT
                    && *high < REGISTER_COUNT
                    && *low < REGISTER_COUNT
            },
            Instruction::Drive(DriveOp::Std { reg, .. }) => *reg < REGISTER_COUNT,
            Instruction::Draw(DrawOp::Wrt { reg, .. }) => *reg < REGISTER_COUNT,
            Instruction::Draw(DrawOp::Mwrt { reg, .. }) => *reg < REGISTER_COUNT,
            _ => true,
        }
    }
}

/// Reads the color stored in the four bytes from `at` on.
fn color(memory: &Memory, at: usize) -> (c: Rgba)
    requires
        memory.wf(),
        at + 3 < MEMORY_SIZE,
    ensures
        c == rgba_at(memory@, at as int),
{
    Rgba {
        r: memory.byte(at),
        g: memory.byte(at + 1),
        b: memory.byte(at + 2),
        a: memory.byte(at + 3),
    }
}

/// The number of operand bytes of the instruction at `pc`, or `None` if the
/// count byte of a text literal lies outside memory.
fn operand_bytes(memory: &Memory, pc: usize) -> (n: Option<usize>)
    requires
        memory.wf(),
        pc < MEMORY_SIZE,
    ensures
        n matches Some(k) ==> k == operand_count(layout(memory@, pc as int)),
        n is None ==> pc + operand_count(layout(memory@, pc as int)) >= MEMORY_SIZE,
{
    match memory.byte(pc) {
        OP_LDV => Some(2),
        OP_LDM => Some(3),
        OP_STM => Some(3),
        OP_MOV => Some(2),
        OP_LDVZ => Some(3),
        OP_LVNZ => Some(3),
        OP_PUSH => Some(1),
        OP_PSHV => Some(1),
        OP_POP => Some(1),
        OP_PPM => Some(2),
        OP_OSTM => Some(4),
        OP_OLDM => Some(4),
        OP_STVM => Some(3),
        OP_ADD => Some(2),
        OP_ADT => Some(3),
        OP_SUB => Some(2),
        OP_SBT => Some(3),
        OP_ADV => Some(2),
        OP_ADVT => Some(3),
        OP_SBV => Some(2),
        OP_SBVT => Some(3),
        OP_INC => Some(1),
        OP_DEC => Some(1),
        OP_ADC => Some(1),
        OP_CCF => Some(0),
        OP_SCF => Some(0),
        OP_SBC => Some(1),
        OP_JMP => Some(1),
        OP_JPZ => Some(2),
        OP_JPNZ => Some(2),
        OP_FNC => Some(2),
        OP_RET => Some(0),
        OP_CAL => Some(2),
        OP_CLZ => Some(3),
        OP_CLNZ => Some(3),
        OP_MLT => Some(4),
        OP_DIV => Some(6),
        OP_STD => Some(5),
        OP_SVD => Some(5),
        OP_LDTM => Some(7),
        OP_LDML => Some(9),
        OP_SMDL => Some(9),
        OP_WRT => Some(10),
        OP_WRTL => {
            if pc + 1 < MEMORY_SIZE {
                Some(10 + memory.byte(pc + 1) as usize)
            } else {
                None
            }
        },
        OP_DRWR => Some(10),
        OP_DRWC => Some(9),
        OP_CLS => Some(0),
        OP_MWRT => Some(14),
        OP_MWRTL => {
            if pc + 1 < MEMORY_SIZE {
                Some(14 + memory.byte(pc + 1) as usize)
            } else {
                None
            }
        },
        OP_MDRWR => Some(16),
        OP_MDRWC => Some(13),
        OP_DRWL => Some(15),
        OP_MDRWL => Some(21),
        OP_EXT => Some(1),
        OP_HLT => Some(0),
        _ => Some(0),
    }
}

/// Reads the fields of the instruction at `pc`, all of whose bytes lie in memory.
fn read_layout(memory: &Memory, pc: usize) -> (instr: Instruction)
    requires
        memory.wf(),
        pc + operand_count(layout(memory@, pc as int)) < MEMORY_SIZE,
    ensures
        instr == layout(memory@, pc as int),
{
    match memory.byte(pc) {
        OP_LDV => Instruction::Move(MoveOp::Ldv {
            reg: memory.byte(pc + 1),
            value: memory.byte(pc + 2),
        }),
        OP_LDM => Instruction::Move(MoveOp::Ldm {
            reg: memory.byte(pc + 1),
            addr: memory.word(pc + 2),
        }),
        OP_STM => Instruction::Move(MoveOp::Stm {
            reg: memory.byte(pc + 1),
            addr: memory.word(pc + 2),
        }),
        OP_MOV => Instruction::Move(MoveOp::Mov {
            src: memory.byte(pc + 1),
            dst: memory.byte(pc + 2),
        }),
        OP_LDVZ => Instruction::Move(MoveOp::Ldvz {
            reg: memory.byte(pc + 1),
            value: memory.byte(pc + 2),
            guard: memory.byte(pc + 3),
        }),
        OP_LVNZ => Instruction::Move(MoveOp::Lvnz {
            reg: memory.byte(pc + 1),
            value: memory.byte(pc + 2),
            guard: memory.byte(pc + 3),
        }),
        OP_PUSH => Instruction::Move(MoveOp::Push { reg: memory.byte(pc + 1) }),
        OP_PSHV => Instruction::Move(MoveOp::Pshv { value: memory.byte(pc + 1) }),
        OP_POP => Instruction::Move(MoveOp::Pop { reg: memory.byte(pc + 1) }),
        OP_PPM => Instruction::Move(MoveOp::Ppm { addr: memory.word(pc + 1) }),
        OP_OSTM => Instruction::Move(MoveOp::Ostm {
            reg: memory.byte(pc + 1),
            addr: memory.word(pc + 2),
            offset: memory.byte(pc + 4),
        }),
        OP_OLDM => Instruction::Move(MoveOp::Oldm {
            reg: memory.byte(pc + 1),
            addr: memory.word(pc + 2),
            offset: memory.byte(pc + 4),
        }),
        OP_STVM => Instruction::Move(MoveOp::Stvm {
            value: memory.byte(pc + 1),
            addr: memory.word(pc + 2),
        }),
        OP_ADD => Instruction::Arith(ArithOp::Add {
            a: memory.byte(pc + 1),
            b: memory.byte(pc + 2),
        }),
        OP_ADT => Instruction::Arith(ArithOp::Adt {
            a: memory.byte(pc + 1),
            b: memory.byte(pc + 2),
            dst: memory.byte(pc + 3),
        }),
        OP_SUB => Instruction::Arith(ArithOp::Sub {
            a: memory.byte(pc + 1),
            b: memory.byte(pc + 2),
        }),
        OP_SBT => Instruction::Arith(ArithOp::Sbt {
            a: memory.byte(pc + 1),
            b: memory.byte(pc + 2),
            dst: memory.byte(pc + 3),
        }),
        OP_ADV => Instruction::Arith(ArithOp::Adv {
            a: memory.byte(pc + 1),
            value: memory.byte(pc + 2),
        }),
        OP_ADVT => Instruction::Arith(ArithOp::Advt {
            a: memory.byte(pc + 1),
            value: memory.byte(pc + 2),
            dst: memory.byte(pc + 3),
        }),
        OP_SBV => Instruction::Arith(ArithOp::Sbv {
            a: memory.byte(pc + 1),
            value: memory.byte(pc + 2),
        }),
        OP_SBVT => Instruction::Arith(ArithOp::Sbvt {
            a: memory.byte(pc + 1),
            value: memory.byte(pc + 2),
            dst: memory.byte(pc + 3),
        }),
        OP_INC => Instruction::Arith(ArithOp::Inc { reg: memory.byte(pc + 1) }),
        OP_DEC => Instruction::Arith(ArithOp::Dec { reg: memory.byte(pc + 1) }),
        OP_ADC => Instruction::Arith(ArithOp::Adc { reg: memory.byte(pc + 1) }),
        OP_CCF => Instruction::Arith(ArithOp::Ccf),
        OP_SCF => Instruction::Arith(ArithOp::Scf),
        OP_SBC => Instruction::Arith(ArithOp::Sbc { reg: memory.byte(pc + 1) }),
        OP_JMP => Instruction::Control(ControlOp::Jmp { disp: memory.byte(pc + 1) }),
        OP_JPZ => Instruction::Control(ControlOp::Jpz {
            disp: memory.byte(pc + 1),
            guard: memory.byte(pc + 2),
        }),
        OP_JPNZ => Instruction::Control(ControlOp::Jpnz {
            disp: memory.byte(pc + 1),
            guard: memory.byte(pc + 2),
        }),
        OP_FNC => Instruction::Control(ControlOp::Fnc { id: memory.word(pc + 1) }),
        OP_RET => Instruction::Control(ControlOp::Ret),
        OP_CAL => Instruction::Control(ControlOp::Cal { id: memory.word(pc + 1) }),
        OP_CLZ => Instruction::Control(ControlOp::Clz {
            id: memory.word(pc + 1),
            guard: memory.byte(pc + 3),
        }),
        OP_CLNZ => Instruction::Control(ControlOp::Clnz {
            id: memory.word(pc + 1),
            guard: memory.byte(pc + 3),
        }),
        OP_MLT => Instruction::Wide(WideOp::Mlt {
            a: memory.byte(pc + 1),
            b: memory.byte(pc + 2),
            high: memory.byte(pc + 3),
            low: memory.byte(pc + 4),
        }),
        OP_DIV => Instruction::Wide(WideOp::Div {
            n_high: memory.byte(pc + 1),
            n_low: memory.byte(pc + 2),
            d_high: memory.byte(pc + 3),
            d_low: memory.byte(pc + 4),
            high: memory.byte(pc + 5),
            low: memory.byte(pc + 6),
        }),
        OP_STD => Instruction::Drive(DriveOp::Std {
            addr: memory.quad(pc + 1),
            reg: memory.byte(pc + 5),
        }),
        OP_SVD => Instruction::Drive(DriveOp::Svd {
            addr: memory.quad(pc + 1),
            value: memory.byte(pc + 5),
        }),
        OP_LDTM => Instruction::Drive(DriveOp::Ldtm {
            drive_addr: memory.quad(pc + 1),
            mem_addr: memory.triple(pc + 5),
        }),
        OP_LDML => Instruction::Drive(DriveOp::Ldml {
            drive_addr: memory.quad(pc + 1),
            mem_addr: memory.triple(pc + 5),
            len: memory.word(pc + 8),
        }),
        OP_SMDL => Instruction::Drive(DriveOp::Smdl {
            drive_addr: memory.quad(pc + 1),
            mem_addr: memory.triple(pc + 5),
            len: memory.word(pc + 8),
        }),
        OP_WRT => Instruction::Draw(DrawOp::Wrt {
            reg: memory.byte(pc + 1),
            size: memory.byte(pc + 2),
            x: memory.word(pc + 3),
            y: memory.word(pc + 5),
            color: color(memory, pc + 7),
        }),
        OP_WRTL => {
            let count: u8 = memory.byte(pc + 1);
            Instruction::Draw(DrawOp::Wrtl {
                count,
                size: memory.byte(pc + 2 + count as usize),
                x: memory.word(pc + 3 + count as usize),
                y: memory.word(pc + 5 + count as usize),
                color: color(memory, pc + 7 + count as usize),
            })
        },
        OP_DRWR => Instruction::Draw(DrawOp::Drwr {
            width: memory.byte(pc + 1),
            height: memory.byte(pc + 2),
            x: memory.word(pc + 3),
            y: memory.word(pc + 5),
            color: color(memory, pc + 7),
        }),
        OP_DRWC => Instruction::Draw(DrawOp::Drwc {
            radius: memory.byte(pc + 1),
            x: memory.word(pc + 2),
            y: memory.word(pc + 4),
            color: color(memory, pc + 6),
        }),
        OP_CLS => Instruction::Draw(DrawOp::Cls),
        OP_MWRT => Instruction::Draw(DrawOp::Mwrt {
            reg: memory.byte(pc + 1),
            size: memory.byte(pc + 2),
            x: memory.word(pc + 3),
            x_ptr: memory.word(pc + 5),
            y: memory.word(pc + 7),
            y_ptr: memory.word(pc + 9),
            color: color(memory, pc + 11),
        }),
        OP_MWRTL => {
            let count: u8 = memory.byte(pc + 1);
            Instruction::Draw(DrawOp::Mwrtl {
                count,
                size: memory.byte(pc + 2 + count as usize),
                x: memory.word(pc + 3 + count as usize),
                x_ptr: memory.word(pc + 5 + count as usize),
                y: memory.word(pc + 7 + count as usize),
                y_ptr: memory.word(pc + 9 + count as usize),
                color: color(memory, pc + 11 + count as usize),
            })
        },
        OP_MDRWR => Instruction::Draw(DrawOp::Mdrwr {
            width_ptr: memory.word(pc + 1),
            height_ptr: memory.word(pc + 3),
            x: memory.word(pc + 5),
            x_ptr: memory.word(pc + 7),
            y: memory.word(pc + 9),
            y_ptr: memory.word(pc + 11),
            color: color(memory, pc + 13),
        }),
        OP_MDRWC => Instruction::Draw(DrawOp::Mdrwc {
            radius: memory.byte(pc + 1),
            x: memory.word(pc + 2),
            x_ptr: memory.word(pc + 4),
            y: memory.word(pc + 6),
            y_ptr: memory.word(pc + 8),
            color: color(memory, pc + 10),
        }),
        OP_DRWL => Instruction::Draw(DrawOp::Drwl {
            x1: memory.word(pc + 3),
            y1: memory.word(pc + 5),
            x2: memory.word(pc + 7),
            y2: memory.word(pc + 9),
            thickness: memory.byte(pc + 11),
            color: color(memory, pc + 12),
        }),
        OP_MDRWL => Instruction::Draw(DrawOp::Mdrwl {
            x1: memory.word(pc + 1),
            x1_ptr: memory.word(pc + 3),
            y1: memory.word(pc + 5),
            y1_ptr: memory.word(pc + 7),
            x2: memory.word(pc + 9),
            x2_ptr: memory.word(pc + 11),
            y2: memory.word(pc + 13),
            y2_ptr: memory.word(pc + 15),
            thickness: memory.byte(pc + 17),
            color: color(memory, pc + 18),
        }),
        OP_EXT => Instruction::Ext { code: memory.byte(pc + 1) },
        OP_HLT => Instruction::Hlt,
        opcode => Instruction::Nop { opcode },
    }
}

/// Decodes the instruction at `pc`.
///
/// Fails with `MemoryAddressOutOfBounds` if the opcode or one of its operand
/// bytes lies outside memory, and with `InvalidRegisterIndex` if an operand
/// names a register outside 0..=7.
pub fn decode(memory: &Memory, pc: usize) -> (r: Result<Instruction, Fault>)
    requires
        memory.wf(),
    ensures
        r == decode_spec(memory@, pc as int),
        r matches Ok(instr) ==> pc + operand_count(instr) < MEMORY_SIZE && registers_valid(
            instr,
        ),
{
    if pc >= MEMORY_SIZE {
        return Err(Fault::MemoryAddressOutOfBounds);
    }
    match operand_bytes(memory, pc) {
        None => Err(Fault::MemoryAddressOutOfBounds),
        Some(n) => {
            if n >= MEMORY_SIZE - pc {
                return Err(Fault::MemoryAddressOutOfBounds);
            }
            let instr = read_layout(memory, pc);
            if instr.has_valid_registers() {
                Ok(instr)
            } else {
                Err(Fault::InvalidRegisterIndex)
            }
        },
    }
}

} // verus!
