//! Laws of the machine: what holds of every state and every program.

use vstd::prelude::*;
use crate::fault::Fault;
use crate::instruction::{
    operand_count, registers_valid, ArithOp, ControlOp, DriveOp, Instruction, OP_CAL, OP_CLNZ,
    OP_CLZ, OP_LDV,
};
use crate::machine::{is_first_ret, Machine, Output};
use crate::memory::{InputSample, MEMORY_SIZE};

verus! {

/// Executing an instruction that lies within memory and names valid
/// registers leads from a valid state to a valid state.
pub proof fn lemma_execution_keeps_invariant(m: Machine, instr: Instruction)
    requires
        m.wf(),
        registers_valid(instr),
        m.pc + operand_count(instr) < MEMORY_SIZE,
        m.executed(instr) is Ok,
    ensures
        m.executed(instr)->Ok_0.0.wf(),
{
    match instr {
        Instruction::Move(op) => {
            assert(m.moved(op)->Ok_0.wf());
        },
        Instruction::Arith(op) => {
            assert(m.computed(op).wf());
        },
        Instruction::Control(op) => {
            match op {
                ControlOp::Fnc { id } => {
                    let at = choose|at: int| #[trigger] is_first_ret(m.memory, m.pc, at);
                    assert(is_first_ret(m.memory, m.pc, at));
                },
                ControlOp::Ret => {
                    assert(m.calls.last() < MEMORY_SIZE);
                },
                _ => {},
            }
            assert(m.branched(op)->Ok_0.wf());
        },
        Instruction::Wide(op) => {
            assert(m.widened(op)->Ok_0.wf());
        },
        Instruction::Drive(op) => {
            assert(m.transferred(op)->Ok_0.wf());
        },
        _ => {},
    }
}

/// A cycle that does not fault leads from a valid state to a valid state.
pub proof fn lemma_step_keeps_invariant(m: Machine, input: InputSample)
    requires
        m.wf(),
        m.stepped(input) is Ok,
    ensures
        m.stepped(input)->Ok_0.0.wf(),
{
    lemma_execution_keeps_invariant(m.sampled(input), m.fetched(input)->Ok_0);
}

/// Every instruction that is no jump, call, return, function definition or
/// exit continues at the byte after its last operand: the program counter
/// moves by one for the opcode plus the number of operand bytes.
pub proof fn lemma_straight_line_advance(m: Machine, input: InputSample, instr: Instruction)
    requires
        m.wf(),
        m.fetched(input) == Ok::<Instruction, Fault>(instr),
        !(instr is Control),
        !(instr is Ext),
        m.stepped(input) is Ok,
    ensures
        m.stepped(input)->Ok_0.0.pc == m.pc + 1 + operand_count(instr),
{
}

/// The three bytes `00 reg value` load `value` into register `reg` and move
/// the program counter by three; nothing else changes.
pub proof fn lemma_load_immediate_cycle(m: Machine, input: InputSample, reg: u8, value: u8)
    requires
        m.wf(),
        m.pc + 2 < MEMORY_SIZE,
        reg < 8,
        m.sampled(input).memory[m.pc] == OP_LDV,
        m.sampled(input).memory[m.pc + 1] == reg,
        m.sampled(input).memory[m.pc + 2] == value,
    ensures
        m.stepped(input) == Ok::<(Machine, Output), Fault>(
            (m.sampled(input).set_reg(reg, value).at(m.pc + 3), Output::Nothing),
        ),
{
}

/// `ADD a b` leaves `(a + b) mod 256` in register `a`, and the carry flag is
/// set afterwards exactly if it was set before or the sum exceeds 255.
pub proof fn lemma_add_wraps_and_carries(m: Machine, input: InputSample, a: u8, b: u8)
    requires
        m.wf(),
        m.fetched(input) == Ok::<Instruction, Fault>(Instruction::Arith(ArithOp::Add { a, b })),
    ensures
        m.stepped(input) matches Ok(pair) && pair.0.reg(a) == (m.reg(a) + m.reg(b)) % 256 && (
        pair.0.carry <==> m.carry || m.reg(a) + m.reg(b) > 255) && pair.0.pc == m.pc + 3,
{
}

/// `SUB a b` leaves `(a - b) mod 256` in register `a`, and the carry flag is
/// set afterwards exactly if it was set before or the difference is negative.
pub proof fn lemma_sub_wraps_and_carries(m: Machine, input: InputSample, a: u8, b: u8)
    requires
        m.wf(),
        m.fetched(input) == Ok::<Instruction, Fault>(Instruction::Arith(ArithOp::Sub { a, b })),
    ensures
        m.stepped(input) matches Ok(pair) && pair.0.reg(a) == (m.reg(a) - m.reg(b)) % 256 && (
        pair.0.carry <==> m.carry || m.reg(a) - m.reg(b) < 0) && pair.0.pc == m.pc + 3,
{
}

/// `FNC` never runs the body that it defines: the cycle registers the entry
/// and leaves the program counter just behind the first `RET` opcode that
/// follows, with registers, flag, stack, memory, drive and call stack as they
/// were. The body runs only when a call enters it.
pub proof fn lemma_definition_skips_body(m: Machine, input: InputSample, id: u16, ret: int)
    requires
        m.wf(),
        m.fetched(input) == Ok::<Instruction, Fault>(
            Instruction::Control(ControlOp::Fnc { id }),
        ),
        is_first_ret(m.sampled(input).memory, m.pc, ret),
    ensures
        m.stepped(input) == Ok::<(Machine, Output), Fault>(
            (
                Machine {
                    pc: ret + 1,
                    functions: m.functions.insert(id, (m.pc + 3) as usize),
                    ..m.sampled(input)
                },
                Output::Nothing,
            ),
        ),
{
    let s = m.sampled(input);
    let at = choose|at: int| #[trigger] is_first_ret(s.memory, s.pc, at);
    assert(is_first_ret(s.memory, s.pc, at));
    assert(at == ret);
}

/// A function is entered, by any later call of its id, at the instruction
/// right behind the `FNC` that defined it.
pub proof fn lemma_call_enters_body(
    m: Machine,
    input: InputSample,
    id: u16,
    ret: int,
    caller: Machine,
    caller_input: InputSample,
)
    requires
        m.wf(),
        caller.wf(),
        m.fetched(input) == Ok::<Instruction, Fault>(
            Instruction::Control(ControlOp::Fnc { id }),
        ),
        is_first_ret(m.sampled(input).memory, m.pc, ret),
        caller.fetched(caller_input) == Ok::<Instruction, Fault>(
            Instruction::Control(ControlOp::Cal { id }),
        ),
        caller.functions == m.stepped(input)->Ok_0.0.functions,
    ensures
        caller.stepped(caller_input) matches Ok(pair) && pair.0.pc == m.pc + 3,
{
    lemma_definition_skips_body(m, input, id, ret);
}

/// `CAL` then `RET`: the call pushes its own address and enters the function;
/// once everything that the function called in turn has returned, so that the
/// call's frame is on top of the call stack again, `RET` removes the frame and
/// resumes at the instruction that follows the call's operands. This holds at
/// every call depth.
pub proof fn lemma_call_then_return(
    m: Machine,
    input: InputSample,
    id: u16,
    later: Machine,
    later_input: InputSample,
)
    requires
        m.wf(),
        later.wf(),
        m.fetched(input) == Ok::<Instruction, Fault>(
            Instruction::Control(ControlOp::Cal { id }),
        ),
        m.functions.dom().contains(id),
        later.calls == m.calls.push(m.pc as usize),
        later.fetched(later_input) == Ok::<Instruction, Fault>(
            Instruction::Control(ControlOp::Ret),
        ),
        later.sampled(later_input).memory[m.pc] == OP_CAL,
    ensures
        m.stepped(input) == Ok::<(Machine, Output), Fault>(
            (
                Machine {
                    pc: m.functions[id] as int,
                    calls: m.calls.push(m.pc as usize),
                    ..m.sampled(input)
                },
                Output::Nothing,
            ),
        ),
        later.stepped(later_input) == Ok::<(Machine, Output), Fault>(
            (
                Machine { pc: m.pc + 3, calls: m.calls, ..later.sampled(later_input) },
                Output::Nothing,
            ),
        ),
{
    assert(m.calls.push(m.pc as usize).drop_last() =~= m.calls);
}

/// A conditional call that is taken returns behind its own four bytes.
pub proof fn lemma_conditional_call_then_return(
    m: Machine,
    later: Machine,
    later_input: InputSample,
)
    requires
        m.wf(),
        later.wf(),
        0 <= m.pc < MEMORY_SIZE,
        later.calls == m.calls.push(m.pc as usize),
        later.fetched(later_input) == Ok::<Instruction, Fault>(
            Instruction::Control(ControlOp::Ret),
        ),
        later.sampled(later_input).memory[m.pc] == OP_CLZ
            || later.sampled(later_input).memory[m.pc] == OP_CLNZ,
    ensures
        later.stepped(later_input) == Ok::<(Machine, Output), Fault>(
            (
                Machine { pc: m.pc + 4, calls: m.calls, ..later.sampled(later_input) },
                Output::Nothing,
            ),
        ),
{
    assert(m.calls.push(m.pc as usize).drop_last() =~= m.calls);
}

/// `STD` stores the register's value at the drive address and changes no
/// other byte of the drive.
pub proof fn lemma_store_changes_one_byte(m: Machine, input: InputSample, addr: u32, reg: u8)
    requires
        m.wf(),
        m.fetched(input) == Ok::<Instruction, Fault>(
            Instruction::Drive(DriveOp::Std { addr, reg }),
        ),
        addr < m.drive.len(),
    ensures
        m.stepped(input) matches Ok(pair) && pair.0.drive.len() == m.drive.len()
            && pair.0.drive[addr as int] == m.reg(reg) && forall|other: int|
            0 <= other < m.drive.len() && other != addr ==> pair.0.drive[other] == m.drive[other],
{
}

/// A byte stored on the drive by `STD` is the byte that a following `LDTM`
/// from the same drive address brings into memory.
pub proof fn lemma_store_then_load(
    m: Machine,
    input: InputSample,
    addr: u32,
    reg: u8,
    next_input: InputSample,
    mem_addr: u32,
)
    requires
        m.wf(),
        m.fetched(input) == Ok::<Instruction, Fault>(
            Instruction::Drive(DriveOp::Std { addr, reg }),
        ),
        addr < m.drive.len(),
        mem_addr < MEMORY_SIZE,
        m.stepped(input)->Ok_0.0.fetched(next_input) == Ok::<Instruction, Fault>(
            Instruction::Drive(DriveOp::Ldtm { drive_addr: addr, mem_addr }),
        ),
    ensures
        m.stepped(input) matches Ok(first) && first.0.stepped(next_input) matches Ok(second)
            && second.0.memory[mem_addr as int] == m.reg(reg),
{
}

/// An opcode that names no instruction is no fault: the cycle moves the
/// program counter past that one byte and changes nothing else.
pub proof fn lemma_unrecognized_opcode_is_no_fault(m: Machine, input: InputSample, opcode: u8)
    requires
        m.wf(),
        m.fetched(input) == Ok::<Instruction, Fault>(Instruction::Nop { opcode }),
    ensures
        m.stepped(input) == Ok::<(Machine, Output), Fault>(
            (m.sampled(input).at(m.pc + 1), Output::Nothing),
        ),
{
}

} // verus!
