use lib_gbc::cpu::GbcCpu;
use lib_gbc::mbc::{Mbc, MbcKind};
use lib_gbc::mmu::GbcMmu;
use lib_gbc::jump_instructions::{branch_cycles, call, call_cc, ret, ret_cc, rst, reti, jump, jump_cc, jump_hl, jump_r, jump_r_cc};

fn bus() -> GbcMmu {
    GbcMmu::new(Mbc::new(MbcKind::NoMbc, vec![0; 0x8000], vec![]))
}

#[test]
fn rst_10_pushes_return_address() {
    let mut mmu = bus();
    let mut cpu = GbcCpu::default();
    // 0xD7 at 0x0100 has been fetched: PC points past it
    cpu.program_counter = 0x0101;
    cpu.stack_pointer = 0xFFFE;
    rst(&mut cpu, &mut mmu, 0xD7);
    assert_eq!(cpu.program_counter, 0x0010);
    assert_eq!(cpu.stack_pointer, 0xFFFC);
    assert_eq!(mmu.read(0xFFFC), 0x01);
    assert_eq!(mmu.read(0xFFFD), 0x01);
}

#[test]
fn rst_targets() {
    let mut mmu = bus();
    for (opcode, target) in [(0xC7u8, 0x00u16), (0xCF, 0x08), (0xEF, 0x28), (0xFF, 0x38)] {
        let mut cpu = GbcCpu::default();
        cpu.stack_pointer = 0xFFFE;
        rst(&mut cpu, &mut mmu, opcode);
        assert_eq!(cpu.program_counter, target);
    }
}

#[test]
fn jr_nz_back_two() {
    let mut cpu = GbcCpu::default();
    // 0x20 0xFE at 0x0200, fetched
    cpu.program_counter = 0x0202;
    cpu.zero = false;
    jump_r_cc(&mut cpu, 0x20FE);
    assert_eq!(cpu.program_counter, 0x0200);
    assert_eq!(branch_cycles(0x20, !cpu.zero), Some(12));
    let mut cpu = GbcCpu::default();
    cpu.program_counter = 0x0202;
    cpu.zero = true;
    jump_r_cc(&mut cpu, 0x20FE);
    assert_eq!(cpu.program_counter, 0x0202);
    assert_eq!(branch_cycles(0x20, !cpu.zero), Some(8));
}

#[test]
fn jr_forward_and_wrap() {
    let mut cpu = GbcCpu::default();
    cpu.program_counter = 0xFFFF;
    jump_r(&mut cpu, 0x0002);
    assert_eq!(cpu.program_counter, 0x0001);
}

#[test]
fn call_then_ret_round_trip() {
    let mut mmu = bus();
    let mut cpu = GbcCpu::default();
    cpu.program_counter = 0x1234;
    cpu.stack_pointer = 0xD000;
    call(&mut cpu, &mut mmu, 0xCD3412);
    assert_eq!(cpu.program_counter, 0x1234);
    cpu.program_counter = 0x1234;
    call(&mut cpu, &mut mmu, 0xCD0040);
    assert_eq!(cpu.program_counter, 0x4000);
    assert_eq!(cpu.stack_pointer, 0xCFFC);
    ret(&mut cpu, &mut mmu);
    assert_eq!(cpu.program_counter, 0x1234);
    assert_eq!(cpu.stack_pointer, 0xCFFE);
    reti(&mut cpu, &mut mmu);
    assert!(cpu.mie);
    assert_eq!(cpu.stack_pointer, 0xD000);
}

#[test]
fn conditional_calls_and_returns() {
    let mut mmu = bus();
    let mut cpu = GbcCpu::default();
    cpu.stack_pointer = 0xFFFE;
    cpu.program_counter = 0x0150;
    cpu.carry = false;
    // CALL C,nn not taken
    call_cc(&mut cpu, &mut mmu, 0xDC0040);
    assert_eq!(cpu.program_counter, 0x0150);
    assert_eq!(cpu.stack_pointer, 0xFFFE);
    // CALL NC,nn taken
    call_cc(&mut cpu, &mut mmu, 0xD40040);
    assert_eq!(cpu.program_counter, 0x4000);
    // RET Z not taken, RET NZ taken
    cpu.zero = false;
    ret_cc(&mut cpu, &mut mmu, 0xC8);
    assert_eq!(cpu.program_counter, 0x4000);
    ret_cc(&mut cpu, &mut mmu, 0xC0);
    assert_eq!(cpu.program_counter, 0x0150);
}

#[test]
fn absolute_jumps() {
    let mut cpu = GbcCpu::default();
    jump(&mut cpu, 0xC35001);
    assert_eq!(cpu.program_counter, 0x0150);
    cpu.zero = true;
    jump_cc(&mut cpu, 0xC20002);
    assert_eq!(cpu.program_counter, 0x0150);
    jump_cc(&mut cpu, 0xCA0002);
    assert_eq!(cpu.program_counter, 0x0200);
    cpu.h = 0xAB;
    cpu.l = 0xCD;
    jump_hl(&mut cpu);
    assert_eq!(cpu.program_counter, 0xABCD);
}

#[test]
fn branch_cycle_table() {
    assert_eq!(branch_cycles(0xCD, true), Some(24));
    assert_eq!(branch_cycles(0xC4, false), Some(12));
    assert_eq!(branch_cycles(0xD8, true), Some(20));
    assert_eq!(branch_cycles(0xD7, true), Some(16));
    assert_eq!(branch_cycles(0xE9, true), Some(4));
    assert_eq!(branch_cycles(0x00, true), None);
    assert_eq!(branch_cycles(0xC6, true), None);
}
