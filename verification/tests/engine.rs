use fantasy_vm::engine::{Effect, Engine};
use fantasy_vm::fault::{Fault, Trap};
use fantasy_vm::instruction::Rgba;
use fantasy_vm::memory::{InputSample, CODE_BASE, MEMORY_SIZE};

const BASE: usize = 65_536;

fn quiet() -> InputSample {
    InputSample { key: 0xF0, mouse_x: 0, mouse_y: 0, screen_width: 0, screen_height: 0 }
}

fn boot(code: &[u8]) -> Engine {
    boot_with_drive(code, Vec::new())
}

fn boot_with_drive(code: &[u8], drive: Vec<u8>) -> Engine {
    let mut engine = Engine::new(drive);
    engine.load_code(code).unwrap();
    engine
}

fn run(engine: &mut Engine, cycles: usize) {
    for _ in 0..cycles {
        assert_eq!(engine.step(quiet()), Ok(Effect::Nothing));
    }
}

fn regs(engine: &Engine) -> [u8; 8] {
    engine.cpu().r
}

fn pc(engine: &Engine) -> usize {
    engine.cpu().mem_ptr
}

fn peek(engine: &Engine, addr: usize) -> u8 {
    engine.memory().read(addr).unwrap()
}

#[test]
fn power_on_state() {
    let engine = Engine::new(vec![1, 2, 3]);
    assert_eq!(regs(&engine), [0; 8]);
    assert!(!engine.cpu().carry_flag);
    assert_eq!(pc(&engine), CODE_BASE);
    assert_eq!(engine.cpu().stack_ptr, MEMORY_SIZE);
    assert_eq!(engine.drive().snapshot(), vec![1, 2, 3]);
    assert_eq!(engine.calls().depth(), 0);
    assert_eq!(engine.functions().len(), 0);
    assert_eq!(peek(&engine, CODE_BASE), 0);
}

#[test]
fn load_code_starts_at_the_code_base() {
    let engine = boot(&[0xAA, 0xBB]);
    assert_eq!(peek(&engine, BASE - 1), 0);
    assert_eq!(peek(&engine, BASE), 0xAA);
    assert_eq!(peek(&engine, BASE + 1), 0xBB);
    assert_eq!(peek(&engine, BASE + 2), 0);
}

#[test]
fn load_code_rejects_an_image_that_does_not_fit() {
    let mut engine = Engine::new(Vec::new());
    let too_large = vec![1u8; MEMORY_SIZE - CODE_BASE + 1];
    assert_eq!(engine.load_code(&too_large), Err(Fault::MemoryAddressOutOfBounds));
    assert_eq!(peek(&engine, BASE), 0);
    let full = vec![1u8; MEMORY_SIZE - CODE_BASE];
    assert_eq!(engine.load_code(&full), Ok(()));
    assert_eq!(peek(&engine, MEMORY_SIZE - 1), 1);
}

#[test]
fn ldv_sets_register_and_advances_three_bytes() {
    // LDV 0 65
    let mut engine = boot(&[0x00, 0, 65]);
    assert_eq!(engine.step(quiet()), Ok(Effect::Nothing));
    assert_eq!(regs(&engine), [65, 0, 0, 0, 0, 0, 0, 0]);
    assert_eq!(pc(&engine), BASE + 3);
}

#[test]
fn step_refreshes_the_input_registers() {
    let mut engine = boot(&[0x1B]);
    let input = InputSample {
        key: 0x07,
        mouse_x: 0x1234,
        mouse_y: 0x0042,
        screen_width: 1024,
        screen_height: 768,
    };
    assert_eq!(engine.step(input), Ok(Effect::Nothing));
    let expected = [0x07, 0x12, 0x34, 0x00, 0x42, 0x04, 0x00, 0x03, 0x00];
    for (i, b) in expected.iter().enumerate() {
        assert_eq!(peek(&engine, 65_527 + i), *b);
    }
    assert_eq!(peek(&engine, 65_526), 0);
}

#[test]
fn the_program_reads_the_sampled_key() {
    // LDM 3 0xFFF7
    let mut engine = boot(&[0x01, 3, 0xFF, 0xF7]);
    let input = InputSample { key: 0x21, ..quiet() };
    engine.step(input).unwrap();
    assert_eq!(regs(&engine)[3], 0x21);
    assert_eq!(pc(&engine), BASE + 4);
}

#[test]
fn load_and_store_absolute() {
    // LDV 1 9; STM 1 0x0100; LDM 2 0x0100; STVM 7 0x0101; MOV 2 5
    let mut engine = boot(&[
        0x00, 1, 9, 0x02, 1, 0x01, 0x00, 0x01, 2, 0x01, 0x00, 0x0C, 7, 0x01, 0x01, 0x03, 2, 5,
    ]);
    run(&mut engine, 5);
    assert_eq!(peek(&engine, 0x0100), 9);
    assert_eq!(peek(&engine, 0x0101), 7);
    assert_eq!(regs(&engine), [0, 9, 9, 0, 0, 9, 0, 0]);
    assert_eq!(pc(&engine), BASE + 18);
}

#[test]
fn conditional_loads_look_at_the_guard() {
    // LDV 1 1; LDVZ 2 10 0; LDVZ 3 11 1; LVNZ 4 12 0; LVNZ 5 13 1
    let mut engine = boot(&[
        0x00, 1, 1, 0x04, 2, 10, 0, 0x04, 3, 11, 1, 0x05, 4, 12, 0, 0x05, 5, 13, 1,
    ]);
    run(&mut engine, 5);
    assert_eq!(regs(&engine), [0, 1, 10, 0, 0, 13, 0, 0]);
    assert_eq!(pc(&engine), BASE + 19);
}

#[test]
fn push_and_pop_use_the_top_of_memory() {
    // LDV 0 42; PUSH 0; PSHV 43; POP 1; PPM 0x0200
    let mut engine = boot(&[0x00, 0, 42, 0x06, 0, 0x07, 43, 0x08, 1, 0x09, 0x02, 0x00]);
    run(&mut engine, 3);
    assert_eq!(engine.cpu().stack_ptr, MEMORY_SIZE - 2);
    assert_eq!(peek(&engine, MEMORY_SIZE - 1), 42);
    assert_eq!(peek(&engine, MEMORY_SIZE - 2), 43);
    run(&mut engine, 1);
    assert_eq!(regs(&engine)[1], 43);
    assert_eq!(engine.cpu().stack_ptr, MEMORY_SIZE - 1);
    run(&mut engine, 1);
    assert_eq!(peek(&engine, 0x0200), 42);
    assert_eq!(engine.cpu().stack_ptr, MEMORY_SIZE);
    assert_eq!(pc(&engine), BASE + 12);
}

#[test]
fn pop_from_an_empty_stack_is_a_fault() {
    let mut engine = boot(&[0x08, 0]);
    assert_eq!(
        engine.step(quiet()),
        Err(Trap { fault: Fault::MemoryAddressOutOfBounds, address: BASE })
    );
    assert_eq!(pc(&engine), BASE);
    assert_eq!(engine.cpu().stack_ptr, MEMORY_SIZE);
    let mut engine = boot(&[0x09, 0, 0]);
    assert_eq!(
        engine.step(quiet()),
        Err(Trap { fault: Fault::MemoryAddressOutOfBounds, address: BASE })
    );
}

#[test]
fn offset_load_and_store() {
    // LDV 0 77; LDV 1 255; OSTM 0 0xFFFF 1; OLDM 2 0xFFFF 1
    let mut engine =
        boot(&[0x00, 0, 77, 0x00, 1, 255, 0x0A, 0, 0xFF, 0xFF, 1, 0x0B, 2, 0xFF, 0xFF, 1]);
    run(&mut engine, 4);
    assert_eq!(peek(&engine, 0xFFFF + 255), 77);
    assert_eq!(regs(&engine)[2], 77);
    assert_eq!(pc(&engine), BASE + 16);
}

#[test]
fn add_and_sub_wrap_and_set_the_carry_flag() {
    // LDV 0 200; LDV 1 100; ADD 0 1
    let mut engine = boot(&[0x00, 0, 200, 0x00, 1, 100, 0x10, 0, 1]);
    run(&mut engine, 3);
    assert_eq!(regs(&engine)[0], 44);
    assert!(engine.cpu().carry_flag);
    // LDV 0 3; LDV 1 5; SUB 0 1
    let mut engine = boot(&[0x00, 0, 3, 0x00, 1, 5, 0x12, 0, 1]);
    run(&mut engine, 3);
    assert_eq!(regs(&engine)[0], 254);
    assert!(engine.cpu().carry_flag);
    // LDV 0 3; LDV 1 5; ADD 0 1
    let mut engine = boot(&[0x00, 0, 3, 0x00, 1, 5, 0x10, 0, 1]);
    run(&mut engine, 3);
    assert_eq!(regs(&engine)[0], 8);
    assert!(!engine.cpu().carry_flag);
    assert_eq!(pc(&engine), BASE + 9);
}

#[test]
fn three_operand_arithmetic_stores_into_the_third_register() {
    // LDV 0 250; LDV 1 10; ADT 0 1 2; SBT 1 0 3; ADVT 0 6 4; SBVT 1 11 5
    let mut engine = boot(&[
        0x00, 0, 250, 0x00, 1, 10, 0x11, 0, 1, 2, 0x13, 1, 0, 3, 0x15, 0, 6, 4, 0x17, 1, 11, 5,
    ]);
    run(&mut engine, 6);
    assert_eq!(regs(&engine), [250, 10, 4, 16, 0, 255, 0, 0]);
    assert!(engine.cpu().carry_flag);
    assert_eq!(pc(&engine), BASE + 22);
}

#[test]
fn immediate_arithmetic() {
    // ADV 0 5; SBV 0 2; INC 0; DEC 1
    let mut engine = boot(&[0x14, 0, 5, 0x16, 0, 2, 0x18, 0, 0x19, 1]);
    run(&mut engine, 3);
    assert_eq!(regs(&engine)[0], 4);
    assert!(!engine.cpu().carry_flag);
    run(&mut engine, 1);
    assert_eq!(regs(&engine)[1], 255);
    assert!(engine.cpu().carry_flag);
    assert_eq!(pc(&engine), BASE + 10);
}

#[test]
fn increment_past_255_wraps_and_carries() {
    // LDV 0 255; INC 0
    let mut engine = boot(&[0x00, 0, 255, 0x18, 0]);
    run(&mut engine, 2);
    assert_eq!(regs(&engine)[0], 0);
    assert!(engine.cpu().carry_flag);
}

#[test]
fn the_carry_flag_is_sticky() {
    // SCF; ADV 0 1; CCF; ADV 0 1
    let mut engine = boot(&[0x1C, 0x14, 0, 1, 0x1B, 0x14, 0, 1]);
    run(&mut engine, 1);
    assert!(engine.cpu().carry_flag);
    assert_eq!(pc(&engine), BASE + 1);
    run(&mut engine, 1);
    assert!(engine.cpu().carry_flag);
    run(&mut engine, 1);
    assert!(!engine.cpu().carry_flag);
    run(&mut engine, 1);
    assert!(!engine.cpu().carry_flag);
    assert_eq!(regs(&engine)[0], 2);
}

#[test]
fn adc_and_sbc_apply_the_carry_flag() {
    // ADC 0; SBC 1; SCF; ADC 0; SBC 1
    let mut engine = boot(&[0x1A, 0, 0x1D, 1, 0x1C, 0x1A, 0, 0x1D, 1]);
    run(&mut engine, 2);
    assert_eq!(regs(&engine), [0; 8]);
    run(&mut engine, 3);
    assert_eq!(regs(&engine), [1, 255, 0, 0, 0, 0, 0, 0]);
    assert!(engine.cpu().carry_flag);
    assert_eq!(pc(&engine), BASE + 9);
}

#[test]
fn adc_wraps_a_full_register() {
    // LDV 0 255; SCF; ADC 0
    let mut engine = boot(&[0x00, 0, 255, 0x1C, 0x1A, 0]);
    run(&mut engine, 3);
    assert_eq!(regs(&engine)[0], 0);
    assert!(engine.cpu().carry_flag);
}

#[test]
fn jump_forward_and_backward() {
    // JMP +1 lands on the next instruction
    let mut engine = boot(&[0x30, 1, 0x1C]);
    run(&mut engine, 1);
    assert_eq!(pc(&engine), BASE + 2);
    // JMP +4 skips three bytes
    let mut engine = boot(&[0x30, 4]);
    run(&mut engine, 1);
    assert_eq!(pc(&engine), BASE + 5);
    // JMP 0 lands on its own operand
    let mut engine = boot(&[0x30, 0]);
    run(&mut engine, 1);
    assert_eq!(pc(&engine), BASE + 1);
    // SCF; SCF; JMP -2 lands two bytes before the jump
    let mut engine = boot(&[0x1C, 0x1C, 0x30, 0xFE]);
    run(&mut engine, 3);
    assert_eq!(pc(&engine), BASE);
    // JMP -128
    let mut engine = boot(&[0x30, 0x80]);
    run(&mut engine, 1);
    assert_eq!(pc(&engine), BASE - 128);
    // JMP +127
    let mut engine = boot(&[0x30, 0x7F]);
    run(&mut engine, 1);
    assert_eq!(pc(&engine), BASE + 128);
}

#[test]
fn conditional_jumps() {
    // JPZ +3 0, taken: register 0 is zero
    let mut engine = boot(&[0x31, 3, 0]);
    run(&mut engine, 1);
    assert_eq!(pc(&engine), BASE + 5);
    // JPNZ +3 0, not taken
    let mut engine = boot(&[0x32, 3, 0]);
    run(&mut engine, 1);
    assert_eq!(pc(&engine), BASE + 3);
    // LDV 0 1; JPNZ -3 0, taken: back to the LDV
    let mut engine = boot(&[0x00, 0, 1, 0x32, 0xFD, 0]);
    run(&mut engine, 2);
    assert_eq!(pc(&engine), BASE + 3 + 1 - 3);
    // LDV 0 1; JPZ -3 0, not taken
    let mut engine = boot(&[0x00, 0, 1, 0x31, 0xFD, 0]);
    run(&mut engine, 2);
    assert_eq!(pc(&engine), BASE + 6);
}

#[test]
fn a_counting_loop_runs_to_completion() {
    // LDV 0 3; loop: DEC 0; INC 1; JPNZ -5 0; SCF
    // the DEC is at offset 3, the JPNZ at offset 7: its target is 7 + 1 - 5 = 3
    let mut engine = boot(&[0x00, 0, 3, 0x19, 0, 0x18, 1, 0x32, 0xFB, 0, 0x1C]);
    run(&mut engine, 1 + 3 * 3);
    assert_eq!(regs(&engine)[0], 0);
    assert_eq!(regs(&engine)[1], 3);
    assert_eq!(pc(&engine), BASE + 10);
}

#[test]
fn fnc_skips_its_body_at_definition_time() {
    // FNC 1 { LDV 0 9; RET }; LDV 1 7
    let mut engine = boot(&[0x33, 0x00, 0x01, 0x00, 0, 9, 0x34, 0x00, 1, 7]);
    run(&mut engine, 1);
    assert_eq!(pc(&engine), BASE + 7);
    assert_eq!(regs(&engine), [0; 8]);
    assert_eq!(engine.functions().lookup(1), Ok(BASE + 3));
    assert_eq!(engine.calls().depth(), 0);
    run(&mut engine, 1);
    assert_eq!(regs(&engine), [0, 7, 0, 0, 0, 0, 0, 0]);
    assert_eq!(pc(&engine), BASE + 10);
}

#[test]
fn fnc_registered_last_wins() {
    // FNC 1 { RET }; FNC 1 { RET }
    let mut engine = boot(&[0x33, 0, 1, 0x34, 0x33, 0, 1, 0x34]);
    run(&mut engine, 1);
    assert_eq!(engine.functions().lookup(1), Ok(BASE + 3));
    run(&mut engine, 1);
    assert_eq!(engine.functions().lookup(1), Ok(BASE + 7));
    assert_eq!(engine.functions().len(), 1);
    assert_eq!(pc(&engine), BASE + 8);
}

#[test]
fn fnc_scan_stops_at_a_ret_byte_among_operands() {
    // FNC 0x3400: the id's high byte equals the RET opcode, so the scan ends there
    let mut engine = boot(&[0x33, 0x34, 0x00, 0x18, 0, 0x34]);
    run(&mut engine, 1);
    assert_eq!(pc(&engine), BASE + 2);
    assert_eq!(engine.functions().lookup(0x3400), Ok(BASE + 3));
    // FNC 1 { LDV 0 0x34; RET }: the immediate equals the RET opcode
    let mut engine = boot(&[0x33, 0, 1, 0x00, 0, 0x34, 0x34, 0x1C]);
    run(&mut engine, 1);
    assert_eq!(pc(&engine), BASE + 6);
}

#[test]
fn fnc_without_a_ret_is_a_fault() {
    let mut engine = boot(&[0x33, 0, 1, 0x18, 0]);
    assert_eq!(
        engine.step(quiet()),
        Err(Trap { fault: Fault::MemoryAddressOutOfBounds, address: BASE })
    );
    assert_eq!(pc(&engine), BASE);
    assert_eq!(engine.functions().lookup(1), Err(Fault::UnresolvedFunctionReference));
}

#[test]
fn call_then_ret_resumes_after_the_call() {
    // FNC 1 { INC 0; RET }; CAL 1; LDV 2 5
    let mut engine = boot(&[0x33, 0, 1, 0x18, 0, 0x34, 0x35, 0, 1, 0x00, 2, 5]);
    run(&mut engine, 1);
    assert_eq!(pc(&engine), BASE + 6);
    run(&mut engine, 1);
    assert_eq!(pc(&engine), BASE + 3);
    assert_eq!(engine.calls().depth(), 1);
    assert_eq!(engine.calls().top(), Ok(BASE + 6));
    run(&mut engine, 1);
    assert_eq!(regs(&engine)[0], 1);
    run(&mut engine, 1);
    assert_eq!(pc(&engine), BASE + 9);
    assert_eq!(engine.calls().depth(), 0);
    run(&mut engine, 1);
    assert_eq!(regs(&engine), [1, 0, 5, 0, 0, 0, 0, 0]);
}

#[test]
fn nested_calls_return_in_reverse_order() {
    // FNC 2 { INC 1; RET }; FNC 1 { CAL 2; INC 0; RET }; CAL 1; LDV 3 1
    let mut engine = boot(&[
        0x33, 0, 2, 0x18, 1, 0x34, // 0..=5
        0x33, 0, 1, 0x35, 0, 2, 0x18, 0, 0x34, // 6..=14
        0x35, 0, 1, // 15..=17
        0x00, 3, 1, // 18..=20
    ]);
    run(&mut engine, 2);
    assert_eq!(pc(&engine), BASE + 15);
    run(&mut engine, 1);
    assert_eq!(pc(&engine), BASE + 9);
    run(&mut engine, 1);
    assert_eq!(pc(&engine), BASE + 3);
    assert_eq!(engine.calls().depth(), 2);
    assert_eq!(engine.calls().top(), Ok(BASE + 9));
    run(&mut engine, 2);
    // back in the remainder of function 1
    assert_eq!(pc(&engine), BASE + 12);
    assert_eq!(engine.calls().depth(), 1);
    assert_eq!(engine.calls().top(), Ok(BASE + 15));
    assert_eq!(regs(&engine), [0, 1, 0, 0, 0, 0, 0, 0]);
    run(&mut engine, 2);
    // back behind the first call
    assert_eq!(pc(&engine), BASE + 18);
    assert_eq!(engine.calls().depth(), 0);
    run(&mut engine, 1);
    assert_eq!(regs(&engine), [1, 1, 0, 1, 0, 0, 0, 0]);
}

#[test]
fn conditional_calls() {
    // FNC 1 { INC 0; RET }; CLZ 1 1; CLNZ 1 1; CLNZ 1 0; CLZ 1 0; SCF
    let mut engine = boot(&[
        0x33, 0, 1, 0x18, 0, 0x34, // 0..=5
        0x36, 0, 1, 1, // 6..=9: taken, register 1 is zero
        0x37, 0, 1, 1, // 10..=13: not taken
        0x37, 0, 1, 0, // 14..=17: taken, register 0 is one by now
        0x36, 0, 1, 0, // 18..=21: not taken
        0x1C,
    ]);
    run(&mut engine, 2);
    assert_eq!(pc(&engine), BASE + 3);
    assert_eq!(engine.calls().top(), Ok(BASE + 6));
    run(&mut engine, 2);
    assert_eq!(pc(&engine), BASE + 10);
    assert_eq!(regs(&engine)[0], 1);
    run(&mut engine, 1);
    assert_eq!(pc(&engine), BASE + 14);
    assert_eq!(engine.calls().depth(), 0);
    run(&mut engine, 1);
    assert_eq!(pc(&engine), BASE + 3);
    run(&mut engine, 2);
    assert_eq!(pc(&engine), BASE + 18);
    assert_eq!(regs(&engine)[0], 2);
    run(&mut engine, 1);
    assert_eq!(pc(&engine), BASE + 22);
    assert_eq!(regs(&engine)[0], 2);
}

#[test]
fn call_of_an_unregistered_function_is_a_fault() {
    let mut engine = boot(&[0x35, 0, 9]);
    assert_eq!(
        engine.step(quiet()),
        Err(Trap { fault: Fault::UnresolvedFunctionReference, address: BASE })
    );
    assert_eq!(pc(&engine), BASE);
    assert_eq!(engine.calls().depth(), 0);
    // a conditional call that is taken faults, one that is not taken does not
    let mut engine = boot(&[0x37, 0, 9, 0, 0x36, 0, 9, 0]);
    run(&mut engine, 1);
    assert_eq!(
        engine.step(quiet()),
        Err(Trap { fault: Fault::UnresolvedFunctionReference, address: BASE + 4 })
    );
}

#[test]
fn ret_without_a_call_is_a_fault() {
    let mut engine = boot(&[0x34]);
    assert_eq!(engine.step(quiet()), Err(Trap { fault: Fault::EmptyCallStack, address: BASE }));
    assert_eq!(pc(&engine), BASE);
}

#[test]
fn invalid_register_operand_is_a_fault() {
    // LDV 1 5; LDV 8 1
    let mut engine = boot(&[0x00, 1, 5, 0x00, 8, 1]);
    run(&mut engine, 1);
    assert_eq!(
        engine.step(quiet()),
        Err(Trap { fault: Fault::InvalidRegisterIndex, address: BASE + 3 })
    );
    assert_eq!(regs(&engine), [0, 5, 0, 0, 0, 0, 0, 0]);
    assert_eq!(pc(&engine), BASE + 3);
}

#[test]
fn multiply_200_by_3_gives_2_and_88() {
    // LDV 0 200; LDV 1 3; MLT 0 1 2 3
    let mut engine = boot(&[0x00, 0, 200, 0x00, 1, 3, 0x40, 0, 1, 2, 3]);
    run(&mut engine, 3);
    assert_eq!(regs(&engine), [200, 3, 2, 88, 0, 0, 0, 0]);
    assert_eq!(pc(&engine), BASE + 11);
    assert!(!engine.cpu().carry_flag);
}

#[test]
fn multiply_into_one_register_keeps_the_low_byte() {
    // LDV 0 200; LDV 1 3; MLT 0 1 2 2
    let mut engine = boot(&[0x00, 0, 200, 0x00, 1, 3, 0x40, 0, 1, 2, 2]);
    run(&mut engine, 3);
    assert_eq!(regs(&engine)[2], 88);
}

#[test]
fn divide_register_pairs() {
    // LDV 0 0x12; LDV 1 0x34; LDV 3 0x10; DIV 0 1 2 3 4 5
    let mut engine = boot(&[0x00, 0, 0x12, 0x00, 1, 0x34, 0x00, 3, 0x10, 0x41, 0, 1, 2, 3, 4, 5]);
    run(&mut engine, 4);
    assert_eq!(regs(&engine), [0x12, 0x34, 0, 0x10, 0x01, 0x23, 0, 0]);
    assert_eq!(pc(&engine), BASE + 16);
}

#[test]
fn divide_by_zero_is_a_fault_and_changes_nothing() {
    // LDV 0 9; DIV 0 0 1 1 2 3
    let mut engine = boot(&[0x00, 0, 9, 0x41, 0, 0, 1, 1, 2, 3]);
    run(&mut engine, 1);
    assert_eq!(
        engine.step(quiet()),
        Err(Trap { fault: Fault::DivideByZero, address: BASE + 3 })
    );
    assert_eq!(regs(&engine), [9, 0, 0, 0, 0, 0, 0, 0]);
    assert_eq!(pc(&engine), BASE + 3);
}

#[test]
fn std_then_read_back_and_reload() {
    // LDV 0 42; STD 0x00000005 0; LDTM 0x00000005 0x000300; SVD 0x00000006 43
    let mut engine = boot_with_drive(
        &[
            0x00, 0, 42, 0x60, 0, 0, 0, 5, 0, 0x62, 0, 0, 0, 5, 0x00, 0x03, 0x00, 0x61, 0, 0, 0,
            6, 43,
        ],
        vec![0; 8],
    );
    run(&mut engine, 2);
    assert_eq!(engine.drive().read(5), Ok(42));
    assert_eq!(engine.drive().read(4), Ok(0));
    run(&mut engine, 1);
    assert_eq!(peek(&engine, 0x0300), 42);
    run(&mut engine, 1);
    assert_eq!(engine.drive().read(6), Ok(43));
    assert_eq!(pc(&engine), BASE + 23);
    // checkpoint, then start again from what was written
    let image = engine.checkpoint();
    assert_eq!(image, vec![0, 0, 0, 0, 0, 42, 43, 0]);
    let reloaded = Engine::new(image);
    assert_eq!(reloaded.drive().read(5), Ok(42));
    assert_eq!(reloaded.drive().read(6), Ok(43));
}

#[test]
fn drive_address_past_the_end_is_a_fault() {
    // STD 0x00000008 0 on a drive of eight bytes
    let mut engine = boot_with_drive(&[0x60, 0, 0, 0, 8, 0], vec![0; 8]);
    assert_eq!(
        engine.step(quiet()),
        Err(Trap { fault: Fault::DriveAddressOutOfBounds, address: BASE })
    );
    assert_eq!(engine.drive().snapshot(), vec![0; 8]);
    let mut engine = boot_with_drive(&[0x61, 0xFF, 0xFF, 0xFF, 0xFF, 1], vec![0; 8]);
    assert_eq!(
        engine.step(quiet()),
        Err(Trap { fault: Fault::DriveAddressOutOfBounds, address: BASE })
    );
    let mut engine = boot_with_drive(&[0x62, 0, 0, 0, 8, 0, 0, 0], vec![0; 8]);
    assert_eq!(
        engine.step(quiet()),
        Err(Trap { fault: Fault::DriveAddressOutOfBounds, address: BASE })
    );
}

#[test]
fn ldtm_reaches_memory_above_64k_and_faults_beyond_it() {
    // LDTM 0x00000001 0x07FFFF
    let mut engine = boot_with_drive(&[0x62, 0, 0, 0, 1, 0x07, 0xFF, 0xFF], vec![5, 6, 7]);
    run(&mut engine, 1);
    assert_eq!(peek(&engine, MEMORY_SIZE - 1), 6);
    assert_eq!(pc(&engine), BASE + 8);
    // LDTM 0x00000001 0x080000
    let mut engine = boot_with_drive(&[0x62, 0, 0, 0, 1, 0x08, 0x00, 0x00], vec![5, 6, 7]);
    assert_eq!(
        engine.step(quiet()),
        Err(Trap { fault: Fault::MemoryAddressOutOfBounds, address: BASE })
    );
}

#[test]
fn block_copies_between_drive_and_memory() {
    // LDML 0x00000002 0x000400 3; SMDL 0x00000005 0x000401 2
    let mut engine = boot_with_drive(
        &[
            0x63, 0, 0, 0, 2, 0x00, 0x04, 0x00, 0, 3, 0x64, 0, 0, 0, 5, 0x00, 0x04, 0x01, 0, 2,
        ],
        vec![10, 11, 12, 13, 14, 15, 16, 17],
    );
    run(&mut engine, 1);
    assert_eq!(peek(&engine, 0x03FF), 0);
    assert_eq!(peek(&engine, 0x0400), 12);
    assert_eq!(peek(&engine, 0x0401), 13);
    assert_eq!(peek(&engine, 0x0402), 14);
    assert_eq!(peek(&engine, 0x0403), 0);
    assert_eq!(pc(&engine), BASE + 10);
    run(&mut engine, 1);
    assert_eq!(engine.drive().snapshot(), vec![10, 11, 12, 13, 14, 13, 14, 17]);
    assert_eq!(pc(&engine), BASE + 20);
}

#[test]
fn block_copy_faults_before_it_copies_anything() {
    // LDML 0x00000006 0x000400 3 on a drive of eight bytes
    let mut engine =
        boot_with_drive(&[0x63, 0, 0, 0, 6, 0x00, 0x04, 0x00, 0, 3], vec![1; 8]);
    assert_eq!(
        engine.step(quiet()),
        Err(Trap { fault: Fault::DriveAddressOutOfBounds, address: BASE })
    );
    assert_eq!(peek(&engine, 0x0400), 0);
    // LDML 0x00000000 0x07FFFE 3
    let mut engine =
        boot_with_drive(&[0x63, 0, 0, 0, 0, 0x07, 0xFF, 0xFE, 0, 3], vec![1; 8]);
    assert_eq!(
        engine.step(quiet()),
        Err(Trap { fault: Fault::MemoryAddressOutOfBounds, address: BASE })
    );
    assert_eq!(peek(&engine, MEMORY_SIZE - 2), 0);
    // SMDL 0x00000006 0x000400 3
    let mut engine =
        boot_with_drive(&[0x64, 0, 0, 0, 6, 0x00, 0x04, 0x00, 0, 3], vec![1; 8]);
    assert_eq!(
        engine.step(quiet()),
        Err(Trap { fault: Fault::DriveAddressOutOfBounds, address: BASE })
    );
    assert_eq!(engine.drive().snapshot(), vec![1; 8]);
}

#[test]
fn block_copy_of_length_zero_touches_nothing() {
    // LDML 0xFFFFFFFF 0xFFFFFF 0; SMDL 0xFFFFFFFF 0xFFFFFF 0
    let mut engine = boot_with_drive(
        &[
            0x63, 0xFF, 0xFF, 0xFF, 0xFF, 0xFF, 0xFF, 0xFF, 0, 0, 0x64, 0xFF, 0xFF, 0xFF, 0xFF,
            0xFF, 0xFF, 0xFF, 0, 0,
        ],
        vec![1; 8],
    );
    run(&mut engine, 2);
    assert_eq!(pc(&engine), BASE + 20);
    assert_eq!(engine.drive().snapshot(), vec![1; 8]);
}

#[test]
fn draw_text_from_a_register() {
    // LDV 2 7; WRT 2 16 (256, 32) red
    let mut engine = boot(&[0x00, 2, 7, 0x80, 2, 16, 0x01, 0x00, 0x00, 0x20, 255, 0, 0, 255]);
    run(&mut engine, 1);
    assert_eq!(
        engine.step(quiet()),
        Ok(Effect::Text {
            text: String::from("H"),
            size: 16,
            x: 256,
            y: 32,
            color: Rgba { r: 255, g: 0, b: 0, a: 255 }
        })
    );
    assert_eq!(pc(&engine), BASE + 14);
}

#[test]
fn draw_a_text_literal() {
    // WRTL "Hi!" plus an unassigned id and a blank, size 20 at (10, 20)
    let mut engine = boot(&[
        0x81, 5, 0x07, 0x28, 0x3B, 0xC0, 0x5C, 20, 0, 10, 0, 20, 1, 2, 3, 4, 0x1C,
    ]);
    assert_eq!(
        engine.step(quiet()),
        Ok(Effect::Text {
            text: String::from("Hi!\u{25AF}"),
            size: 20,
            x: 10,
            y: 20,
            color: Rgba { r: 1, g: 2, b: 3, a: 4 }
        })
    );
    assert_eq!(pc(&engine), BASE + 16);
    run(&mut engine, 1);
    assert!(engine.cpu().carry_flag);
}

#[test]
fn draw_an_empty_text_literal() {
    let mut engine = boot(&[0x81, 0, 20, 0, 10, 0, 20, 1, 2, 3, 4]);
    assert_eq!(
        engine.step(quiet()),
        Ok(Effect::Text {
            text: String::new(),
            size: 20,
            x: 10,
            y: 20,
            color: Rgba { r: 1, g: 2, b: 3, a: 4 }
        })
    );
    assert_eq!(pc(&engine), BASE + 11);
}

#[test]
fn draw_shapes() {
    let color = Rgba { r: 9, g: 8, b: 7, a: 6 };
    // DRWR 30x40 at (0x0102, 0x0304)
    let mut engine = boot(&[0x82, 30, 40, 1, 2, 3, 4, 9, 8, 7, 6]);
    assert_eq!(
        engine.step(quiet()),
        Ok(Effect::Rectangle { x: 0x0102, y: 0x0304, width: 30, height: 40, color })
    );
    assert_eq!(pc(&engine), BASE + 11);
    // DRWC radius 5 at (100, 200)
    let mut engine = boot(&[0x83, 5, 0, 100, 0, 200, 9, 8, 7, 6]);
    assert_eq!(engine.step(quiet()), Ok(Effect::Circle { x: 100, y: 200, radius: 5, color }));
    assert_eq!(pc(&engine), BASE + 10);
    // DRWL (1, 2) to (3, 4), thickness 5; the first two operand bytes are not used
    let mut engine = boot(&[0x89, 99, 98, 0, 1, 0, 2, 0, 3, 0, 4, 5, 9, 8, 7, 6]);
    assert_eq!(
        engine.step(quiet()),
        Ok(Effect::Line { x1: 1, y1: 2, x2: 3, y2: 4, thickness: 5, color })
    );
    assert_eq!(pc(&engine), BASE + 16);
}

#[test]
fn cls_asks_for_a_frame() {
    let mut engine = boot(&[0x84, 0x1C]);
    assert_eq!(engine.step(quiet()), Ok(Effect::Present));
    assert_eq!(pc(&engine), BASE + 1);
    run(&mut engine, 1);
    assert!(engine.cpu().carry_flag);
}

#[test]
fn indirect_drawing_adds_values_from_memory() {
    let color = Rgba { r: 9, g: 8, b: 7, a: 6 };
    // STVM 0xFF 0x1000; STVM 0xFF 0x1001; STVM 2 0x1003; STVM 3 0x1005
    let setup: [u8; 16] = [
        0x0C, 0xFF, 0x10, 0x00, 0x0C, 0xFF, 0x10, 0x01, 0x0C, 2, 0x10, 0x03, 0x0C, 3, 0x10, 0x05,
    ];
    // MDRWC radius 4 at (0xFFFF + [0x1000], 10 + [0x1002])
    let mut code = setup.to_vec();
    code.extend_from_slice(&[0x88, 4, 0xFF, 0xFF, 0x10, 0x00, 0, 10, 0x10, 0x02, 9, 8, 7, 6]);
    let mut engine = boot(&code);
    run(&mut engine, 4);
    assert_eq!(
        engine.step(quiet()),
        Ok(Effect::Circle { x: 0xFFFF + 0xFFFF, y: 10 + 2, radius: 4, color })
    );
    assert_eq!(pc(&engine), BASE + 30);
    // MDRWR size ([0x1002], [0x1004]) at (1 + [0x1002], 1 + [0x1004])
    let mut code = setup.to_vec();
    code.extend_from_slice(&[
        0x87, 0x10, 0x02, 0x10, 0x04, 0, 1, 0x10, 0x02, 0, 1, 0x10, 0x04, 9, 8, 7, 6,
    ]);
    let mut engine = boot(&code);
    run(&mut engine, 4);
    assert_eq!(
        engine.step(quiet()),
        Ok(Effect::Rectangle { x: 3, y: 4, width: 2, height: 3, color })
    );
    assert_eq!(pc(&engine), BASE + 33);
    // MWRT register 0 size 8 at (5 + [0x1002], 6 + [0x1004])
    let mut code = setup.to_vec();
    code.extend_from_slice(&[0x85, 0, 8, 0, 5, 0x10, 0x02, 0, 6, 0x10, 0x04, 9, 8, 7, 6]);
    let mut engine = boot(&code);
    run(&mut engine, 4);
    assert_eq!(
        engine.step(quiet()),
        Ok(Effect::Text { text: String::from("A"), size: 8, x: 7, y: 9, color })
    );
    assert_eq!(pc(&engine), BASE + 31);
    // MWRTL "AB" size 8 at (5 + [0x1002], 6 + [0x1004])
    let mut code = setup.to_vec();
    code.extend_from_slice(&[
        0x86, 2, 0, 1, 8, 0, 5, 0x10, 0x02, 0, 6, 0x10, 0x04, 9, 8, 7, 6,
    ]);
    let mut engine = boot(&code);
    run(&mut engine, 4);
    assert_eq!(
        engine.step(quiet()),
        Ok(Effect::Text { text: String::from("AB"), size: 8, x: 7, y: 9, color })
    );
    assert_eq!(pc(&engine), BASE + 33);
    // MDRWL (1 + [0x1002], 2 + [0x1004]) to (3 + [0x1002], 4 + [0x1004]), thickness 5
    let mut code = setup.to_vec();
    code.extend_from_slice(&[
        0x8A, 0, 1, 0x10, 0x02, 0, 2, 0x10, 0x04, 0, 3, 0x10, 0x02, 0, 4, 0x10, 0x04, 5, 9, 8,
        7, 6,
    ]);
    let mut engine = boot(&code);
    run(&mut engine, 4);
    assert_eq!(
        engine.step(quiet()),
        Ok(Effect::Line { x1: 3, y1: 5, x2: 5, y2: 7, thickness: 5, color })
    );
    assert_eq!(pc(&engine), BASE + 38);
}

#[test]
fn ext_hands_back_to_the_code_base() {
    // SCF; EXT 3
    let mut engine = boot(&[0x1C, 0xFE, 3]);
    run(&mut engine, 2);
    assert_eq!(regs(&engine), [0, 0, 0, 0, 0, 0, 0, 3]);
    assert_eq!(pc(&engine), BASE);
    run(&mut engine, 1);
    assert_eq!(pc(&engine), BASE + 1);
}

#[test]
fn hlt_checkpoints_and_goes_on() {
    // HLT; SCF
    let mut engine = boot_with_drive(&[0xFF, 0x1C], vec![4, 5]);
    assert_eq!(engine.step(quiet()), Ok(Effect::Checkpoint));
    assert_eq!(pc(&engine), BASE + 1);
    assert_eq!(engine.checkpoint(), vec![4, 5]);
    run(&mut engine, 1);
    assert!(engine.cpu().carry_flag);
}

#[test]
fn unrecognized_opcode_is_a_one_byte_no_op() {
    let mut engine = boot(&[0x0D, 0x2F, 0xC0, 0x1C]);
    run(&mut engine, 3);
    assert_eq!(pc(&engine), BASE + 3);
    assert_eq!(regs(&engine), [0; 8]);
    assert!(!engine.cpu().carry_flag);
    run(&mut engine, 1);
    assert!(engine.cpu().carry_flag);
}

#[test]
fn running_off_the_end_of_memory_is_a_fault() {
    // FNC 1 whose RET is the second last byte of memory: execution goes on at
    // the last byte, an LDV whose operands lie outside
    let mut code = vec![0u8; MEMORY_SIZE - CODE_BASE];
    code[0] = 0x33;
    code[2] = 1;
    let last = code.len() - 1;
    code[last - 1] = 0x34;
    let mut engine = boot(&code);
    run(&mut engine, 1);
    assert_eq!(pc(&engine), MEMORY_SIZE - 1);
    assert_eq!(
        engine.step(quiet()),
        Err(Trap { fault: Fault::MemoryAddressOutOfBounds, address: MEMORY_SIZE - 1 })
    );
    // the same with the RET as the last byte: the next fetch is outside
    let mut code = vec![0u8; MEMORY_SIZE - CODE_BASE];
    code[0] = 0x33;
    code[2] = 1;
    code[last] = 0x34;
    let mut engine = boot(&code);
    run(&mut engine, 1);
    assert_eq!(pc(&engine), MEMORY_SIZE);
    assert_eq!(
        engine.step(quiet()),
        Err(Trap { fault: Fault::MemoryAddressOutOfBounds, address: MEMORY_SIZE })
    );
    assert_eq!(pc(&engine), MEMORY_SIZE);
}

#[test]
fn a_fault_still_refreshes_the_input_registers() {
    let mut engine = boot(&[0x34]);
    let input = InputSample { key: 0x11, ..quiet() };
    assert!(engine.step(input).is_err());
    assert_eq!(peek(&engine, 65_527), 0x11);
}
