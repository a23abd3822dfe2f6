use vstd::prelude::*;
use crate::cpu::{GbcCpu, wrap8};

verus! {

/// A after ADD A,n.
pub open spec fn add_result(a: u8, n: u8) -> u8 {
    wrap8(a + n)
}

/// A after SUB A,n.
pub open spec fn sub_result(a: u8, n: u8) -> u8 {
    wrap8(a - n)
}

/// The CPU after ADD A,n: Z on a zero result, N clear, H the carry out of
/// bit 3, C the carry out of bit 7.
pub open spec fn after_add(cpu: GbcCpu, n: u8) -> GbcCpu {
    GbcCpu {
        a: add_result(cpu.a, n),
        zero: add_result(cpu.a, n) == 0,
        subtraction: false,
        half_carry: cpu.a % 16 + n % 16 > 15,
        carry: cpu.a + n > 255,
        ..cpu
    }
}

/// The CPU after SUB A,n: Z on a zero result, N set, H the borrow from bit 4,
/// C the borrow from bit 8.
pub open spec fn after_sub(cpu: GbcCpu, n: u8) -> GbcCpu {
    GbcCpu {
        a: sub_result(cpu.a, n),
        zero: sub_result(cpu.a, n) == 0,
        subtraction: true,
        half_carry: cpu.a % 16 < n % 16,
        carry: cpu.a < n,
        ..cpu
    }
}

/// The correction DAA adds (or, after a subtraction, takes away).
pub open spec fn daa_adjust(cpu: GbcCpu) -> int {
    if !cpu.subtraction {
        (if cpu.carry || cpu.a > 0x99 { 0x60int } else { 0 }) + (if cpu.half_carry || cpu.a % 16
            > 9 { 0x06int } else { 0 })
    } else {
        -((if cpu.carry { 0x60int } else { 0 }) + (if cpu.half_carry { 0x06int } else { 0 }))
    }
}

/// The CPU after DAA: A corrected to packed BCD, Z on a zero result, H clear,
/// C set when a correction of 0x60 was added or C was already set.
pub open spec fn after_daa(cpu: GbcCpu) -> GbcCpu {
    let r = wrap8(cpu.a + daa_adjust(cpu));
    GbcCpu {
        a: r,
        zero: r == 0,
        half_carry: false,
        carry: if !cpu.subtraction { cpu.carry || cpu.a > 0x99 } else { cpu.carry },
        ..cpu
    }
}

/// `value` after INC: Z on zero, N clear, H the carry out of bit 3; C kept.
pub open spec fn after_inc(cpu: GbcCpu, value: u8) -> GbcCpu {
    GbcCpu {
        zero: wrap8(value + 1) == 0,
        subtraction: false,
        half_carry: value % 16 == 15,
        ..cpu
    }
}

/// `value` after DEC: Z on zero, N set, H the borrow from bit 4; C kept.
pub open spec fn after_dec(cpu: GbcCpu, value: u8) -> GbcCpu {
    GbcCpu {
        zero: wrap8(value - 1) == 0,
        subtraction: true,
        half_carry: value % 16 == 0,
        ..cpu
    }
}

/// ADD A,n.
pub fn add_a_nn(cpu: &mut GbcCpu, n: u8)
    ensures
        *final(cpu) == after_add(*old(cpu), n),
{
    let a = cpu.a;
    let r = a.wrapping_add(n);
    cpu.a = r;
    cpu.zero = r == 0;
    cpu.subtraction = false;
    cpu.half_carry = a % 16 + n % 16 > 15;
    cpu.carry = a as u16 + n as u16 > 255;
}

/// SUB A,n.
pub fn sub_a_nn(cpu: &mut GbcCpu, n: u8)
    ensures
        *final(cpu) == after_sub(*old(cpu), n),
{
    let a = cpu.a;
    let r = a.wrapping_sub(n);
    cpu.a = r;
    cpu.zero = r == 0;
    cpu.subtraction = true;
    cpu.half_carry = a % 16 < n % 16;
    cpu.carry = a < n;
}

/// DAA: decimal adjustment of A after a BCD addition or subtraction.
pub fn daa(cpu: &mut GbcCpu)
    ensures
        *final(cpu) == after_daa(*old(cpu)),
{
    let a = cpu.a;
    let mut r = a;
    if !cpu.subtraction {
        if cpu.carry || a > 0x99 {
            r = r.wrapping_add(0x60);
            cpu.carry = true;
        }
        if cpu.half_carry || a % 16 > 9 {
            r = r.wrapping_add(0x06);
        }
    } else {
        if cpu.carry {
            r = r.wrapping_sub(0x60);
        }
        if cpu.half_carry {
            r = r.wrapping_sub(0x06);
        }
    }
    cpu.a = r;
    cpu.zero = r == 0;
    cpu.half_carry = false;
}

/// INC r on the register value `value`; returns the new value.
pub fn inc(cpu: &mut GbcCpu, value: u8) -> (r: u8)
    ensures
        r == wrap8(value + 1),
        *final(cpu) == after_inc(*old(cpu), value),
{
    let r = value.wrapping_add(1);
    cpu.zero = r == 0;
    cpu.subtraction = false;
    cpu.half_carry = value % 16 == 15;
    r
}

/// DEC r on the register value `value`; returns the new value.
pub fn dec(cpu: &mut GbcCpu, value: u8) -> (r: u8)
    ensures
        r == wrap8(value - 1),
        *final(cpu) == after_dec(*old(cpu), value),
{
    let r = value.wrapping_sub(1);
    cpu.zero = r == 0;
    cpu.subtraction = true;
    cpu.half_carry = value % 16 == 0;
    r
}

/// SUB A,n followed by ADD A,n gives A back, and ADD then SUB does too.
pub proof fn lemma_sub_then_add_restores_a(cpu: GbcCpu, n: u8)
    ensures
        after_add(after_sub(cpu, n), n).a == cpu.a,
        after_sub(after_add(cpu, n), n).a == cpu.a,
{
}

} // verus!
