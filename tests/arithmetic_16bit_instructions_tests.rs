use lib_gbc::cpu::{GbcCpu, Flag};
use lib_gbc::arithmetic_16bit_instructions;

#[test]
fn test_add_sp_dd_positive_dd() {
    let mut cpu = GbcCpu::default();
    let opcode: u16 = 88;
    arithmetic_16bit_instructions::add_sp_dd(&mut cpu, opcode);
    assert_eq!(cpu.stack_pointer, 88);
    assert_eq!(cpu.get_flag(Flag::Carry), false);
    assert_eq!(cpu.get_flag(Flag::HalfCarry), false);
    assert_eq!(cpu.get_flag(Flag::Subtraction), false);
    assert_eq!(cpu.get_flag(Flag::Zero), false);
}

#[test]
fn test_add_sp_dd() {
    let mut cpu = GbcCpu::default();
    cpu.stack_pointer = 0xFFF8;
    let opcode: u16 = 2;
    arithmetic_16bit_instructions::add_sp_dd(&mut cpu, opcode);
    assert_eq!(cpu.stack_pointer, 0xFFFA);
    assert_eq!(cpu.get_flag(Flag::Carry), false);
    assert_eq!(cpu.get_flag(Flag::HalfCarry), false);
    assert_eq!(cpu.get_flag(Flag::Subtraction), false);
    assert_eq!(cpu.get_flag(Flag::Zero), false);
}

#[test]
fn add_sp_negative_offset_sets_carries() {
    let mut cpu = GbcCpu::default();
    cpu.stack_pointer = 0x00FF;
    arithmetic_16bit_instructions::add_sp_dd(&mut cpu, 0xFF);
    assert_eq!(cpu.stack_pointer, 0x00FE);
    assert!(cpu.get_flag(Flag::Carry));
    assert!(cpu.get_flag(Flag::HalfCarry));
    assert!(!cpu.get_flag(Flag::Zero));
}

#[test]
fn add_hl_carries_from_bits_11_and_15() {
    let mut cpu = GbcCpu::default();
    cpu.h = 0x8F;
    cpu.l = 0xFF;
    cpu.zero = true;
    arithmetic_16bit_instructions::add_hl_rr(&mut cpu, 0x8001);
    assert_eq!(cpu.hl(), 0x1000);
    assert!(cpu.carry);
    assert!(cpu.half_carry);
    assert!(!cpu.subtraction);
    assert!(cpu.zero);
}
