use breadboard::memory::{FLASH_SIZE, STACK_TOP};
use breadboard::{ATmemory, ExecutionError};

#[test]
/// Load 255 to r17
fn tst_ldi() {
    let mut cpu = ATmemory::init();
    let program: Vec<u8> = vec![0x1F, 0xEF];
    cpu.load_flash_from_vec(program).ok();
    cpu.step().ok();
    assert_eq!(cpu.registers()[17], 0xFF)
}

#[test]
/// Adds 16 + 3
fn tst_add() {
    let mut cpu = ATmemory::init();
    let program: Vec<u8> = vec![0x00, 0xE1, 0x13, 0xE0, 0x01, 0x0F];
    cpu.load_flash_from_vec(program.clone()).ok();
    for _ in 0..(program.len() / 2) {
        cpu.step().ok();
    }
    assert_eq!(cpu.registers()[16], 19)
}

#[test]
/// Subtract 5 out of 129
fn tst_sub() {
    let mut cpu = ATmemory::init();
    let program: Vec<u8> = vec![0x01, 0xE8, 0x15, 0xE0, 0x01, 0x1B];
    cpu.load_flash_from_vec(program.clone()).ok();
    for _ in 0..(program.len() / 2) {
        cpu.step().ok();
    }
    assert_eq!(cpu.registers()[16], 124)
}

#[test]
/// Call a subroutine. The program counter is a byte address, and so is the
/// return address on the stack: the call at byte 8 returns to byte 10.
fn tst_rcall() {
    let mut cpu = ATmemory::init();
    // Reset:
    //     ldi r16, 0x12
    // rjmp Main
    //
    // increment_reg
    //     inc r16
    // ret
    //
    // Main:
    //     rcall increment_reg
    // rjmp Main
    let program: Vec<u8> = vec![0x02, 0xE1, 0x02, 0xC0, 0x03, 0x95, 0x08, 0x95, 0xFD, 0xDF];
    cpu.load_flash_from_vec(program.clone()).ok();
    for _ in 0..(program.len() / 2) {
        cpu.step().ok();
    }
    assert_eq!(
        (cpu.registers()[16], cpu.sram()[0x3FE], cpu.pc()),
        (19, 0x0A, 0x000A)
    )
}

#[test]
/// PUSH is not in the instruction set: the step on it fails and nothing moves
fn tst_push() {
    let mut cpu = ATmemory::init();
    // ldi r16, 24
    // push r16
    // ldi r16, 00
    let program: Vec<u8> = vec![0x08, 0xE1, 0x0F, 0x93, 0x00, 0xE0];
    cpu.load_flash_from_vec(program.clone()).ok();
    for _ in 0..(program.len() / 2) {
        cpu.step().ok();
    }
    assert_eq!((cpu.registers()[16], cpu.pc(), cpu.sp()), (24, 2, 0x3FF));
    assert!(cpu.sram().iter().all(|&b| b == 0));
    assert_eq!(cpu.step(), Err(ExecutionError::UnknownOpcode))
}

#[test]
/// PUSH and POP are not in the instruction set: execution stops at the PUSH
fn tst_pop() {
    let mut cpu = ATmemory::init();
    // ldi r16, 24
    // push r16
    // ldi r16, 00
    // pop r16
    let program: Vec<u8> = vec![0x08, 0xE1, 0x0F, 0x93, 0x00, 0xE0, 0x0F, 0x91];
    cpu.load_flash_from_vec(program.clone()).ok();
    for _ in 0..(program.len() / 2) {
        cpu.step().ok();
    }
    assert_eq!(
        (cpu.registers()[16], cpu.sram()[0x3FE], cpu.sp()),
        (24, 0, 0x3FF)
    );
    assert_eq!(cpu.pc(), 2)
}

fn loaded(program: &[u8]) -> ATmemory {
    let mut cpu = ATmemory::init();
    cpu.load_flash_from_vec(program.to_vec()).unwrap();
    cpu
}

#[test]
fn init_is_zeroed_with_stack_at_top() {
    let cpu = ATmemory::init();
    assert_eq!(cpu.pc(), 0);
    assert_eq!(cpu.sreg(), 0);
    assert_eq!(cpu.sp(), STACK_TOP);
    assert_eq!(cpu.flash().len(), FLASH_SIZE);
    assert_eq!(STACK_TOP, 0x3FF);
    assert_eq!(cpu.memory().len(), 1024);
    assert_eq!(cpu.registers().to_vec(), vec![0u8; 32]);
    assert_eq!(cpu.sram().to_vec(), vec![0u8; 1024]);
}

#[test]
fn ldi_sets_register_and_advances_pc() {
    let mut cpu = loaded(&[0x1F, 0xEF]);
    assert_eq!(cpu.step(), Ok(()));
    assert_eq!(cpu.registers()[17], 0xFF);
    assert_eq!(cpu.pc(), 2);
}

#[test]
fn zero_opcode_only_advances_pc() {
    let mut cpu = loaded(&[0x00, 0x00, 0x00, 0x00]);
    let before_mem = cpu.memory().to_vec();
    assert_eq!(cpu.get_instruction(), "NOP");
    assert_eq!(cpu.step(), Ok(()));
    assert_eq!(cpu.pc(), 2);
    assert_eq!(cpu.sreg(), 0);
    assert_eq!(cpu.sp(), STACK_TOP);
    assert_eq!(cpu.memory().to_vec(), before_mem);
}

#[test]
fn pc_wraps_at_end_of_flash() {
    let mut cpu = ATmemory::init();
    for _ in 0..(FLASH_SIZE / 2) {
        cpu.step().unwrap();
    }
    assert_eq!(cpu.pc(), 0);
}

#[test]
fn add_with_carry_out() {
    // ldi r16, 200; ldi r17, 100; add r16, r17
    let mut cpu = loaded(&[0x08, 0xEC, 0x14, 0xE6, 0x01, 0x0F]);
    for _ in 0..3 {
        cpu.step().unwrap();
    }
    assert_eq!(cpu.registers()[16], 44);
    assert_eq!(cpu.sreg() & 0x01, 0x01);
    assert_eq!(cpu.sreg() & 0x02, 0);
}

#[test]
fn add_without_carry_clears_carry() {
    // sec; ldi r16, 16; ldi r17, 3; add r16, r17
    let mut cpu = loaded(&[0x08, 0x4A, 0x00, 0xE1, 0x13, 0xE0, 0x01, 0x0F]);
    cpu.step().unwrap();
    assert_eq!(cpu.sreg() & 0x01, 0x01);
    for _ in 0..3 {
        cpu.step().unwrap();
    }
    assert_eq!(cpu.registers()[16], 19);
    assert_eq!(cpu.sreg() & 0x01, 0);
}

#[test]
fn add_sets_all_arithmetic_flags() {
    // ldi r16, 0x88; ldi r17, 0x88; add r16, r17 -> 0x10 with H, V, C and S set
    let mut cpu = loaded(&[0x08, 0xE8, 0x18, 0xE8, 0x01, 0x0F]);
    for _ in 0..3 {
        cpu.step().unwrap();
    }
    assert_eq!(cpu.registers()[16], 0x10);
    assert_eq!(cpu.sreg(), 0b0011_1001);
}

#[test]
fn sub_to_zero_sets_zero_flag() {
    // ldi r16, 5; ldi r17, 5; sub r16, r17
    let mut cpu = loaded(&[0x05, 0xE0, 0x15, 0xE0, 0x01, 0x1B]);
    for _ in 0..3 {
        cpu.step().unwrap();
    }
    assert_eq!(cpu.registers()[16], 0);
    assert_eq!(cpu.sreg(), 0b0000_0010);
}

#[test]
fn sub_with_borrow() {
    // ldi r16, 3; ldi r17, 5; sub r16, r17 -> 254, negative, signed, carry, half-carry
    let mut cpu = loaded(&[0x03, 0xE0, 0x15, 0xE0, 0x01, 0x1B]);
    for _ in 0..3 {
        cpu.step().unwrap();
    }
    assert_eq!(cpu.registers()[16], 254);
    assert_eq!(cpu.sreg(), 0b0011_0101);
}

#[test]
fn inc_overflows_at_0x7f() {
    // ldi r16, 0x7F; inc r16
    let mut cpu = loaded(&[0x0F, 0xE7, 0x03, 0x95]);
    cpu.step().unwrap();
    cpu.step().unwrap();
    assert_eq!(cpu.registers()[16], 0x80);
    // V and N set, S = N ^ V clear, Z clear
    assert_eq!(cpu.sreg(), 0b0000_1100);
}

#[test]
fn inc_wraps_to_zero() {
    // ldi r16, 0xFF; inc r16
    let mut cpu = loaded(&[0x0F, 0xEF, 0x03, 0x95]);
    cpu.step().unwrap();
    cpu.step().unwrap();
    assert_eq!(cpu.registers()[16], 0);
    assert_eq!(cpu.sreg(), 0b0000_0010);
}

#[test]
fn dec_overflows_at_0x80() {
    // ldi r16, 0x80; dec r16
    let mut cpu = loaded(&[0x00, 0xE8, 0x0A, 0x95]);
    cpu.step().unwrap();
    cpu.step().unwrap();
    assert_eq!(cpu.registers()[16], 0x7F);
    // V set, N clear, so S set
    assert_eq!(cpu.sreg(), 0b0001_1000);
}

#[test]
fn dec_wraps_from_zero() {
    // dec r0
    let mut cpu = loaded(&[0x0A, 0x94]);
    cpu.step().unwrap();
    assert_eq!(cpu.registers()[0], 0xFF);
    assert_eq!(cpu.sreg(), 0b0001_0100);
}

#[test]
fn sec_then_clc() {
    let mut cpu = loaded(&[0x08, 0x4A, 0x88, 0x94]);
    cpu.step().unwrap();
    assert_eq!(cpu.sreg(), 0x01);
    cpu.step().unwrap();
    assert_eq!(cpu.sreg(), 0x00);
    assert_eq!(cpu.pc(), 4);
}

#[test]
fn rjmp_backwards_and_forwards() {
    // rjmp +1 (skips one word), nop, rjmp -3 (back to 0)
    let mut cpu = loaded(&[0x01, 0xC0, 0x00, 0x00, 0xFD, 0xCF]);
    cpu.step().unwrap();
    assert_eq!(cpu.pc(), 4);
    cpu.step().unwrap();
    assert_eq!(cpu.pc(), 0);
}

#[test]
fn call_then_return_restores_pc_and_sp() {
    // rcall +1 ; nop ; ret
    let mut cpu = loaded(&[0x01, 0xD0, 0x00, 0x00, 0x08, 0x95]);
    let sp = cpu.sp();
    cpu.step().unwrap();
    assert_eq!(cpu.pc(), 4);
    assert_eq!(cpu.sp(), sp - 2);
    assert_eq!(cpu.memory()[(sp - 1) as usize], 2);
    assert_eq!(cpu.memory()[(sp - 2) as usize], 0);
    cpu.step().unwrap();
    assert_eq!(cpu.pc(), 2);
    assert_eq!(cpu.sp(), sp);
}

#[test]
fn call_return_sequence_comes_back_after_call() {
    // ldi r16, 0x12 ; rcall +1 ; rjmp -2 ; inc r16 ; ret
    let mut cpu = loaded(&[0x02, 0xE1, 0x01, 0xD0, 0xFE, 0xCF, 0x03, 0x95, 0x08, 0x95]);
    cpu.step().unwrap();
    let sp = cpu.sp();
    cpu.step().unwrap();
    assert_eq!(cpu.pc(), 6);
    cpu.step().unwrap();
    assert_eq!(cpu.registers()[16], 0x13);
    cpu.step().unwrap();
    assert_eq!(cpu.pc(), 4);
    assert_eq!(cpu.sp(), sp);
}

#[test]
fn subroutine_program_returns_after_call_with_stack_restored() {
    // ldi r16, 0x12 ; rjmp +2 ; inc r16 ; ret ; rcall -3
    let mut cpu = loaded(&[0x02, 0xE1, 0x02, 0xC0, 0x03, 0x95, 0x08, 0x95, 0xFD, 0xDF]);
    cpu.step().unwrap();
    cpu.step().unwrap();
    assert_eq!(cpu.pc(), 8);
    let sp = cpu.sp();
    cpu.step().unwrap();
    assert_eq!(cpu.pc(), 4);
    assert_eq!(cpu.sp(), sp - 2);
    cpu.step().unwrap();
    cpu.step().unwrap();
    assert_eq!(cpu.pc(), 10);
    assert_eq!(cpu.sp(), sp);
    assert_eq!(cpu.registers()[16], 0x13);
}

#[test]
fn reti_sets_interrupt_flag() {
    // rcall +0 ; reti
    let mut cpu = loaded(&[0x00, 0xD0, 0x18, 0x95]);
    cpu.step().unwrap();
    assert_eq!(cpu.pc(), 2);
    cpu.step().unwrap();
    assert_eq!(cpu.pc(), 2);
    assert_eq!(cpu.sreg(), 0x80);
    assert_eq!(cpu.sp(), STACK_TOP);
}

#[test]
fn return_past_top_wraps_stack_pointer_to_zero() {
    // ret with the stack pointer at the top: it pops the top byte, wraps to
    // 0, pops the byte there and ends at 1
    let mut cpu = loaded(&[0x08, 0x95]);
    cpu.step().unwrap();
    assert_eq!(cpu.sp(), 1);
    assert_eq!(cpu.pc(), 0);
}

#[test]
fn registers_between_call_and_return_do_not_touch_the_stack() {
    // rcall +1 ; nop ; ldi r16, 0x12 ; ldi r17, 0x34 ; ret
    let mut cpu = loaded(&[0x01, 0xD0, 0x00, 0x00, 0x02, 0xE1, 0x14, 0xE3, 0x08, 0x95]);
    for _ in 0..4 {
        cpu.step().unwrap();
    }
    assert_eq!(cpu.pc(), 2);
    assert_eq!(cpu.sp(), STACK_TOP);
    assert_eq!((cpu.registers()[16], cpu.registers()[17]), (0x12, 0x34));
}

#[test]
fn push_and_pop_opcodes_are_unknown() {
    let mut cpu = loaded(&[0x0F, 0x93]);
    assert_eq!(cpu.step(), Err(ExecutionError::UnknownOpcode));
    let mut cpu = loaded(&[0x0F, 0x91]);
    assert_eq!(cpu.step(), Err(ExecutionError::UnknownOpcode));
    assert_eq!((cpu.pc(), cpu.sp()), (0, STACK_TOP));
}

#[test]
fn unknown_opcode_fails_and_changes_nothing() {
    let mut cpu = loaded(&[0xFF, 0xFF]);
    assert_eq!(cpu.step(), Err(ExecutionError::UnknownOpcode));
    assert_eq!(cpu.pc(), 0);
    assert_eq!(cpu.get_instruction(), "NOP");
}

#[test]
fn mnemonics_show_operands() {
    let cpu = loaded(&[0x1F, 0xEF]);
    assert_eq!(cpu.get_instruction(), "LDI { dest: 17, value: 255 }");
    let cpu = loaded(&[0xFD, 0xDF]);
    assert_eq!(cpu.get_instruction(), "RCALL { offset: -3 }");
    let cpu = loaded(&[0x01, 0x0F]);
    assert_eq!(cpu.get_instruction(), "ADD { dest: 16, src: 17 }");
}

#[test]
fn erase_clears_flash_and_pc_only() {
    let mut cpu = loaded(&[0x1F, 0xEF, 0x08, 0x4A]);
    cpu.step().unwrap();
    cpu.step().unwrap();
    cpu.erase_flash();
    assert_eq!(cpu.pc(), 0);
    assert!(cpu.flash().iter().all(|&b| b == 0));
    assert_eq!(cpu.registers()[17], 0xFF);
    assert_eq!(cpu.sreg(), 0x01);
    assert_eq!(cpu.sp(), STACK_TOP);
}
