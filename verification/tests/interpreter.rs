//! Behavioural tests for the interpreter engine: decoding, the program
//! counter discipline, call/return, stack bounds, the carry flag, the skip
//! instructions, faults, and an end-to-end accumulator program.

use chip8::cpu::{Fault, RunOutcome, StepResult, CPU};
use chip8::instruction::{decode, Instruction};

fn zeroed_memory() -> Vec<u8> {
    vec![0u8; 4096]
}

fn machine_with(program: &[(usize, u8)], entry: usize) -> CPU {
    let mut mem = zeroed_memory();
    for &(addr, byte) in program {
        mem[addr] = byte;
    }
    CPU::new(mem, entry)
}

#[test]
fn decode_fixed_words_and_families() {
    assert_eq!(decode(0x0000), Instruction::Halt);
    assert_eq!(decode(0x00E0), Instruction::Clear);
    assert_eq!(decode(0x00EE), Instruction::Return);
    assert_eq!(decode(0x1234), Instruction::Jump(0x234));
    assert_eq!(decode(0x2100), Instruction::Call(0x100));
    assert_eq!(decode(0x3A7F), Instruction::SkipEqImm(0xA, 0x7F));
    assert_eq!(decode(0x4B01), Instruction::SkipNeqImm(0xB, 0x01));
    assert_eq!(decode(0x5120), Instruction::SkipEqReg(1, 2));
    assert_eq!(decode(0x6C55), Instruction::LoadImm(0xC, 0x55));
    assert_eq!(decode(0x70FF), Instruction::AddImm(0, 0xFF));
    assert_eq!(decode(0x8120), Instruction::LoadReg(1, 2));
    assert_eq!(decode(0x8121), Instruction::Or(1, 2));
    assert_eq!(decode(0x8122), Instruction::And(1, 2));
    assert_eq!(decode(0x8123), Instruction::Xor(1, 2));
    assert_eq!(decode(0x8014), Instruction::AddReg(0, 1));
}

#[test]
fn decode_rejects_words_outside_the_table() {
    assert_eq!(decode(0x0001), Instruction::Unknown(0x0001));
    assert_eq!(decode(0x00EF), Instruction::Unknown(0x00EF));
    assert_eq!(decode(0x8125), Instruction::Unknown(0x8125));
    assert_eq!(decode(0x812F), Instruction::Unknown(0x812F));
    assert_eq!(decode(0x9000), Instruction::Unknown(0x9000));
    assert_eq!(decode(0xA111), Instruction::Unknown(0xA111));
    assert_eq!(decode(0xF065), Instruction::Unknown(0xF065));
}

#[test]
fn fetch_composes_big_endian() {
    let cpu = machine_with(&[(0x10, 0xAB), (0x11, 0xCD)], 0x10);
    assert_eq!(cpu.read_opcode(), 0xABCD);
}

#[test]
fn fetch_from_zeroed_memory_is_halt_word() {
    let cpu = machine_with(&[], 0);
    assert_eq!(cpu.read_opcode(), 0x0000);
}

#[test]
fn pc_advances_by_two_on_non_control_flow() {
    // LOAD-IMM of 0x2A into register 0.
    let mut cpu = machine_with(&[(0, 0x60), (1, 0x2A)], 0);
    assert_eq!(cpu.step(), StepResult::Continue);
    assert_eq!(cpu.program_counter(), 2);
    assert_eq!(cpu.register(0), 0x2A);
}

#[test]
fn jump_sets_pc_to_target_only() {
    let mut cpu = machine_with(&[(0, 0x12), (1, 0x34)], 0);
    assert_eq!(cpu.step(), StepResult::Continue);
    assert_eq!(cpu.program_counter(), 0x234);
}

#[test]
fn call_then_return_round_trip() {
    // CALL 0x100 at 0x000; RETURN at 0x100.
    let mut cpu = machine_with(&[(0x000, 0x21), (0x001, 0x00), (0x100, 0x00), (0x101, 0xEE)], 0);
    assert_eq!(cpu.stack_depth(), 0);
    assert_eq!(cpu.step(), StepResult::Continue);
    assert_eq!(cpu.program_counter(), 0x100);
    assert_eq!(cpu.stack_depth(), 1);
    assert_eq!(cpu.step(), StepResult::Continue);
    assert_eq!(cpu.program_counter(), 0x002);
    assert_eq!(cpu.stack_depth(), 0);
}

#[test]
fn sixteen_nested_calls_succeed_and_seventeenth_overflows() {
    // A chain of CALLs, each target holding the next: CALL 0x010 at 0x000,
    // CALL 0x020 at 0x010, and so on.
    let mut program: Vec<(usize, u8)> = Vec::new();
    for i in 0..17usize {
        let addr = i * 0x10;
        let target = (i + 1) * 0x10;
        program.push((addr, 0x20 | ((target >> 8) as u8)));
        program.push((addr + 1, (target & 0xFF) as u8));
    }
    let mut cpu = machine_with(&program, 0);
    for i in 0..16usize {
        assert_eq!(cpu.step(), StepResult::Continue);
        assert_eq!(cpu.stack_depth(), i + 1);
    }
    assert_eq!(cpu.stack_depth(), 16);
    assert_eq!(cpu.step(), StepResult::Fault(Fault::StackOverflow));
    assert_eq!(cpu.stack_depth(), 16);
}

#[test]
fn return_with_empty_stack_underflows() {
    let mut cpu = machine_with(&[(0, 0x00), (1, 0xEE)], 0);
    assert_eq!(cpu.step(), StepResult::Fault(Fault::StackUnderflow));
    assert_eq!(cpu.stack_depth(), 0);
}

#[test]
fn add_reg_sets_carry_on_overflow() {
    let mut cpu = machine_with(&[(0, 0x80), (1, 0x14)], 0);
    cpu.set_register(0, 250);
    cpu.set_register(1, 10);
    assert_eq!(cpu.step(), StepResult::Continue);
    assert_eq!(cpu.register(0), 4);
    assert_eq!(cpu.register(0xF), 1);
}

#[test]
fn add_reg_clears_carry_without_overflow() {
    let mut cpu = machine_with(&[(0, 0x80), (1, 0x14)], 0);
    cpu.set_register(0, 10);
    cpu.set_register(1, 5);
    cpu.set_register(0xF, 1);
    assert_eq!(cpu.step(), StepResult::Continue);
    assert_eq!(cpu.register(0), 15);
    assert_eq!(cpu.register(0xF), 0);
}

#[test]
fn add_imm_wraps_and_leaves_carry_flag_alone() {
    // ADD-IMM of 10 into register 0 holding 250: wraps to 4, flag untouched.
    let mut cpu = machine_with(&[(0, 0x70), (1, 0x0A)], 0);
    cpu.set_register(0, 250);
    cpu.set_register(0xF, 7);
    assert_eq!(cpu.step(), StepResult::Continue);
    assert_eq!(cpu.register(0), 4);
    assert_eq!(cpu.register(0xF), 7);
}

#[test]
fn skip_eq_imm_taken_only_on_equality() {
    let mut taken = machine_with(&[(0, 0x30), (1, 0x2A)], 0);
    taken.set_register(0, 0x2A);
    assert_eq!(taken.step(), StepResult::Continue);
    assert_eq!(taken.program_counter(), 4);

    let mut not_taken = machine_with(&[(0, 0x30), (1, 0x2A)], 0);
    not_taken.set_register(0, 0x2B);
    assert_eq!(not_taken.step(), StepResult::Continue);
    assert_eq!(not_taken.program_counter(), 2);
}

#[test]
fn skip_neq_imm_is_the_complement() {
    let mut equal = machine_with(&[(0, 0x40), (1, 0x2A)], 0);
    equal.set_register(0, 0x2A);
    assert_eq!(equal.step(), StepResult::Continue);
    assert_eq!(equal.program_counter(), 2);

    let mut unequal = machine_with(&[(0, 0x40), (1, 0x2A)], 0);
    unequal.set_register(0, 0x2B);
    assert_eq!(unequal.step(), StepResult::Continue);
    assert_eq!(unequal.program_counter(), 4);
}

#[test]
fn skip_eq_reg_compares_registers() {
    let mut equal = machine_with(&[(0, 0x51), (1, 0x20)], 0);
    equal.set_register(1, 9);
    equal.set_register(2, 9);
    assert_eq!(equal.step(), StepResult::Continue);
    assert_eq!(equal.program_counter(), 4);

    let mut unequal = machine_with(&[(0, 0x51), (1, 0x20)], 0);
    unequal.set_register(1, 9);
    unequal.set_register(2, 8);
    assert_eq!(unequal.step(), StepResult::Continue);
    assert_eq!(unequal.program_counter(), 2);
}

#[test]
fn load_reg_copies_source_register() {
    let mut cpu = machine_with(&[(0, 0x81), (1, 0x20)], 0);
    cpu.set_register(2, 0x77);
    assert_eq!(cpu.step(), StepResult::Continue);
    assert_eq!(cpu.register(1), 0x77);
    assert_eq!(cpu.register(2), 0x77);
}

#[test]
fn bitwise_or_and_xor() {
    let mut or = machine_with(&[(0, 0x81), (1, 0x21)], 0);
    or.set_register(1, 0b1010);
    or.set_register(2, 0b0101);
    assert_eq!(or.step(), StepResult::Continue);
    assert_eq!(or.register(1), 0b1111);

    let mut and = machine_with(&[(0, 0x81), (1, 0x22)], 0);
    and.set_register(1, 0b1100);
    and.set_register(2, 0b1010);
    assert_eq!(and.step(), StepResult::Continue);
    assert_eq!(and.register(1), 0b1000);

    let mut xor = machine_with(&[(0, 0x81), (1, 0x23)], 0);
    xor.set_register(1, 0b1100);
    xor.set_register(2, 0b1010);
    assert_eq!(xor.step(), StepResult::Continue);
    assert_eq!(xor.register(1), 0b0110);
}

#[test]
fn clear_is_accepted_as_noop() {
    let mut cpu = machine_with(&[(0, 0x00), (1, 0xE0)], 0);
    cpu.set_register(3, 9);
    assert_eq!(cpu.step(), StepResult::Continue);
    assert_eq!(cpu.program_counter(), 2);
    assert_eq!(cpu.register(3), 9);
}

#[test]
fn unimplemented_word_faults_with_word_and_pc() {
    let mut cpu = machine_with(&[(0x20, 0xF0), (0x21, 0x65)], 0x20);
    assert_eq!(
        cpu.step(),
        StepResult::Fault(Fault::UnimplementedInstruction { word: 0xF065, pc: 0x20 })
    );
}

#[test]
fn run_reports_pc_out_of_range() {
    let mut cpu = machine_with(&[], 4095);
    assert_eq!(cpu.run(10), RunOutcome::Faulted(Fault::ProgramCounterOutOfRange));
}

#[test]
fn run_halts_on_zero_word() {
    let mut cpu = machine_with(&[], 0);
    assert_eq!(cpu.run(10), RunOutcome::Halted);
    assert_eq!(cpu.program_counter(), 2);
}

#[test]
fn run_spends_its_budget_on_an_infinite_jump_loop() {
    // JUMP 0x000 at 0x000: loops forever by design; the budget runs out.
    let mut cpu = machine_with(&[(0, 0x10), (1, 0x00)], 0);
    assert_eq!(cpu.run(5), RunOutcome::Running);
    assert_eq!(cpu.program_counter(), 0);
    assert_eq!(cpu.run(6), RunOutcome::Running);
}

#[test]
fn loader_can_write_memory_after_construction() {
    let mut cpu = CPU::new(zeroed_memory(), 0);
    cpu.write_memory(0, 0x60);
    cpu.write_memory(1, 0x07);
    assert_eq!(cpu.step(), StepResult::Continue);
    assert_eq!(cpu.register(0), 7);
}

#[test]
fn two_calls_to_adding_subroutine_accumulate_forty_five() {
    // Two CALLs to 0x100, then HALT at 0x004; at 0x100 two ADD-REG of
    // register 1 into register 0, then RETURN.
    let program = [
        (0x000, 0x21),
        (0x001, 0x00),
        (0x002, 0x21),
        (0x003, 0x00),
        (0x004, 0x00),
        (0x005, 0x00),
        (0x100, 0x80),
        (0x101, 0x14),
        (0x102, 0x80),
        (0x103, 0x14),
        (0x104, 0x00),
        (0x105, 0xEE),
    ];
    let mut cpu = machine_with(&program, 0);
    cpu.set_register(0, 5);
    cpu.set_register(1, 10);
    assert_eq!(cpu.run(1000), RunOutcome::Halted);
    assert_eq!(cpu.register(0), 45);
    assert_eq!(cpu.register(1), 10);
    assert_eq!(cpu.stack_depth(), 0);
}

#[test]
fn dangling_pointer_demonstration_runs() {
    chip8::dangling_pointer::dangling_pointer();
}
