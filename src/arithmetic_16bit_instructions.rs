use vstd::prelude::*;
use crate::cpu::{GbcCpu, wrap16, signed8, pair};

verus! {

/// The CPU after ADD HL,rr: N clear, H the carry out of bit 11, C the carry
/// out of bit 15, Z kept.
pub open spec fn after_add_hl(cpu: GbcCpu, value: u16) -> GbcCpu {
    let r = wrap16(cpu.hl_spec() + value);
    GbcCpu {
        h: (r / 256) as u8,
        l: (r % 256) as u8,
        subtraction: false,
        half_carry: cpu.hl_spec() % 4096 + value % 4096 > 4095,
        carry: cpu.hl_spec() + value > 65535,
        ..cpu
    }
}

/// The CPU after ADD SP,e with `e` the signed low byte of `opcode`: Z and N
/// clear, H and C the carries out of bits 3 and 7 of the unsigned low-byte sum.
pub open spec fn after_add_sp(cpu: GbcCpu, opcode: u16) -> GbcCpu {
    let e = (opcode % 256) as u8;
    GbcCpu {
        stack_pointer: wrap16(cpu.stack_pointer + signed8(e)),
        zero: false,
        subtraction: false,
        half_carry: cpu.stack_pointer % 16 + e % 16 > 15,
        carry: cpu.stack_pointer % 256 + e > 255,
        ..cpu
    }
}

/// ADD HL,rr.
pub fn add_hl_rr(cpu: &mut GbcCpu, value: u16)
    ensures
        *final(cpu) == after_add_hl(*old(cpu), value),
{
    let hl = cpu.hl();
    let r = hl.wrapping_add(value);
    assert(r == wrap16(old(cpu).hl_spec() + value));
    cpu.h = (r / 256) as u8;
    cpu.l = (r % 256) as u8;
    cpu.subtraction = false;
    cpu.half_carry = hl % 4096 + value % 4096 > 4095;
    cpu.carry = hl as u32 + value as u32 > 65535;
}

/// ADD SP,dd.
pub fn add_sp_dd(cpu: &mut GbcCpu, opcode: u16)
    ensures
        *final(cpu) == after_add_sp(*old(cpu), opcode),
{
    let e: u16 = opcode % 256;
    let sp = cpu.stack_pointer;
    cpu.half_carry = sp % 16 + e % 16 > 15;
    cpu.carry = sp % 256 + e > 255;
    cpu.zero = false;
    cpu.subtraction = false;
    if e < 128 {
        cpu.stack_pointer = sp.wrapping_add(e);
    } else {
        cpu.stack_pointer = sp.wrapping_sub(256 - e);
    }
}

} // verus!
