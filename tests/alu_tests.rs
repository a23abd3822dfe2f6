use lib_gbc::cpu::GbcCpu;
use lib_gbc::arithmetic_8bit_instructions::{add_a_nn, sub_a_nn, daa, inc, dec};

#[test]
fn add_flags_exact() {
    let mut cpu = GbcCpu::default();
    cpu.a = 0x3A;
    add_a_nn(&mut cpu, 0xC6);
    assert_eq!(cpu.a, 0x00);
    assert!(cpu.zero && !cpu.subtraction && cpu.half_carry && cpu.carry);
    assert_eq!(cpu.get_f(), 0xB0);
}

#[test]
fn sub_flags_exact() {
    let mut cpu = GbcCpu::default();
    cpu.a = 0x3E;
    sub_a_nn(&mut cpu, 0x0F);
    assert_eq!(cpu.a, 0x2F);
    assert!(!cpu.zero && cpu.subtraction && cpu.half_carry && !cpu.carry);
    sub_a_nn(&mut cpu, 0x40);
    assert_eq!(cpu.a, 0xEF);
    assert!(cpu.carry && !cpu.half_carry);
}

#[test]
fn sub_then_add_restores_every_a() {
    for a in 0..=255u8 {
        for b in 0..=255u8 {
            let mut cpu = GbcCpu::default();
            cpu.a = a;
            sub_a_nn(&mut cpu, b);
            add_a_nn(&mut cpu, b);
            assert_eq!(cpu.a, a);
            assert_eq!(cpu.get_f() & 0x0F, 0);
        }
    }
}

#[test]
fn daa_after_bcd_add() {
    let mut cpu = GbcCpu::default();
    cpu.a = 0x15;
    add_a_nn(&mut cpu, 0x27);
    daa(&mut cpu);
    assert_eq!(cpu.a, 0x42);
    assert!(!cpu.carry && !cpu.half_carry);
    cpu.a = 0x99;
    add_a_nn(&mut cpu, 0x01);
    daa(&mut cpu);
    assert_eq!(cpu.a, 0x00);
    assert!(cpu.carry && cpu.zero);
}

#[test]
fn daa_after_bcd_sub() {
    let mut cpu = GbcCpu::default();
    cpu.a = 0x42;
    sub_a_nn(&mut cpu, 0x15);
    daa(&mut cpu);
    assert_eq!(cpu.a, 0x27);
    assert!(cpu.subtraction);
}

#[test]
fn inc_dec_keep_carry() {
    let mut cpu = GbcCpu::default();
    cpu.carry = true;
    let r = inc(&mut cpu, 0xFF);
    assert_eq!(r, 0);
    assert!(cpu.zero && cpu.half_carry && cpu.carry && !cpu.subtraction);
    let r = dec(&mut cpu, 0x10);
    assert_eq!(r, 0x0F);
    assert!(!cpu.zero && cpu.half_carry && cpu.carry && cpu.subtraction);
}
