use vstd::prelude::*;
use crate::cpu::{GbcCpu, Flag, wrap16, signed8};
use crate::mmu::GbcMmu;
use crate::opcodes_utils::{pop, push, pushed, top_of_stack};

verus! {

/// The 16-bit operand of a three-byte instruction held as `op lo hi` in the
/// low 24 bits of `opcode`.
pub open spec fn immediate16(opcode: u32) -> u16 {
    ((opcode % 256) * 256 + (opcode / 256) % 256) as u16
}

/// The condition field (bits 4-3) of the opcode byte at bits 23-16.
pub open spec fn condition_of_u32(opcode: u32) -> int {
    (((opcode / 65536) / 8) % 4) as int
}

/// The condition field (bits 4-3) of an opcode byte.
pub open spec fn condition_of_u8(opcode: u8) -> int {
    ((opcode / 8) % 4) as int
}

/// The condition field of the opcode byte held in the high byte of `opcode`.
pub open spec fn condition_of_u16(opcode: u16) -> int {
    (((opcode / 256) / 8) % 4) as int
}

/// The target of RST: `opcode & 0b0011_1000`.
pub open spec fn rst_target(opcode: u8) -> u16 {
    (((opcode / 8) % 8) * 8) as u16
}

fn condition(cpu: &GbcCpu, cc: u8) -> (r: bool)
    requires
        cc < 4,
    ensures
        r == cpu.condition_spec(cc as int),
{
    let zero: bool = cpu.get_flag(Flag::Zero);
    let carry: bool = cpu.get_flag(Flag::Carry);
    if cc == 0 {
        !zero
    } else if cc == 1 {
        zero
    } else if cc == 2 {
        !carry
    } else {
        carry
    }
}

fn push_pc(cpu: &mut GbcCpu, memory: &mut GbcMmu)
    requires
        old(memory)@.wf(),
    ensures
        final(memory)@ == pushed(old(memory)@, old(cpu).stack_pointer, old(cpu).program_counter),
        final(memory)@.wf(),
        *final(cpu) == (GbcCpu { stack_pointer: wrap16(old(cpu).stack_pointer - 2), ..*old(cpu) }),
{
    let pc = cpu.program_counter;
    push(cpu, memory, pc);
}

/// CALL nn: pushes PC and jumps to the immediate address.
pub fn call(cpu: &mut GbcCpu, memory: &mut GbcMmu, opcode: u32)
    requires
        old(memory)@.wf(),
    ensures
        final(memory)@ == pushed(old(memory)@, old(cpu).stack_pointer, old(cpu).program_counter),
        final(memory)@.wf(),
        *final(cpu) == (GbcCpu {
            stack_pointer: wrap16(old(cpu).stack_pointer - 2),
            program_counter: immediate16(opcode),
            ..*old(cpu)
        }),
{
    let address_to_jump: u16 = ((opcode % 256) as u16) * 256 + ((opcode / 256) % 256) as u16;
    push_pc(cpu, memory);
    cpu.program_counter = address_to_jump;
}

fn call_if_true(cpu: &mut GbcCpu, memory: &mut GbcMmu, opcode: u32, flag: bool)
    requires
        old(memory)@.wf(),
    ensures
        final(memory)@.wf(),
        flag ==> final(memory)@ == pushed(
            old(memory)@,
            old(cpu).stack_pointer,
            old(cpu).program_counter,
        ),
        flag ==> *final(cpu) == (GbcCpu {
            stack_pointer: wrap16(old(cpu).stack_pointer - 2),
            program_counter: immediate16(opcode),
            ..*old(cpu)
        }),
        !flag ==> final(memory)@ == old(memory)@ && *final(cpu) == *old(cpu),
{
    if flag {
        call(cpu, memory, opcode);
    }
}

/// CALL cc,nn: a call taken when the condition in the opcode byte holds.
pub fn call_cc(cpu: &mut GbcCpu, memory: &mut GbcMmu, opcode: u32)
    requires
        old(memory)@.wf(),
    ensures
        final(memory)@.wf(),
        old(cpu).condition_spec(condition_of_u32(opcode)) ==> final(memory)@ == pushed(
            old(memory)@,
            old(cpu).stack_pointer,
            old(cpu).program_counter,
        ),
        old(cpu).condition_spec(condition_of_u32(opcode)) ==> *final(cpu) == (GbcCpu {
            stack_pointer: wrap16(old(cpu).stack_pointer - 2),
            program_counter: immediate16(opcode),
            ..*old(cpu)
        }),
        !old(cpu).condition_spec(condition_of_u32(opcode)) ==> final(memory)@ == old(memory)@
            && *final(cpu) == *old(cpu),
{
    let flag: u8 = ((opcode / 65536 / 8) % 4) as u8;
    let taken = condition(cpu, flag);
    call_if_true(cpu, memory, opcode, taken);
}

/// RET: pops PC.
pub fn ret(cpu: &mut GbcCpu, memory: &mut GbcMmu)
    requires
        old(memory)@.wf(),
    ensures
        final(memory)@ == old(memory)@,
        *final(cpu) == (GbcCpu {
            stack_pointer: wrap16(old(cpu).stack_pointer + 2),
            program_counter: top_of_stack(old(memory)@, old(cpu).stack_pointer),
            ..*old(cpu)
        }),
{
    cpu.program_counter = pop(cpu, memory);
}

fn ret_if_true(cpu: &mut GbcCpu, memory: &mut GbcMmu, flag: bool)
    requires
        old(memory)@.wf(),
    ensures
        final(memory)@ == old(memory)@,
        flag ==> *final(cpu) == (GbcCpu {
            stack_pointer: wrap16(old(cpu).stack_pointer + 2),
            program_counter: top_of_stack(old(memory)@, old(cpu).stack_pointer),
            ..*old(cpu)
        }),
        !flag ==> *final(cpu) == *old(cpu),
{
    if flag {
        ret(cpu, memory);
    }
}

/// RET cc: a return taken when the condition in bits 4-3 of `opcode` holds.
pub fn ret_cc(cpu: &mut GbcCpu, memory: &mut GbcMmu, opcode: u8)
    requires
        old(memory)@.wf(),
    ensures
        final(memory)@ == old(memory)@,
        old(cpu).condition_spec(condition_of_u8(opcode)) ==> *final(cpu) == (GbcCpu {
            stack_pointer: wrap16(old(cpu).stack_pointer + 2),
            program_counter: top_of_stack(old(memory)@, old(cpu).stack_pointer),
            ..*old(cpu)
        }),
        !old(cpu).condition_spec(condition_of_u8(opcode)) ==> *final(cpu) == *old(cpu),
{
    let flag: u8 = (opcode / 8) % 4;
    let taken = condition(cpu, flag);
    ret_if_true(cpu, memory, taken);
}

/// RST: pushes PC and jumps to `opcode & 0b0011_1000`.
pub fn rst(cpu: &mut GbcCpu, memory: &mut GbcMmu, opcode: u8)
    requires
        old(memory)@.wf(),
    ensures
        final(memory)@ == pushed(old(memory)@, old(cpu).stack_pointer, old(cpu).program_counter),
        final(memory)@.wf(),
        *final(cpu) == (GbcCpu {
            stack_pointer: wrap16(old(cpu).stack_pointer - 2),
            program_counter: rst_target(opcode),
            ..*old(cpu)
        }),
{
    let t: u8 = (opcode / 8) % 8;
    let mut value: u8 = 0;
    if t % 2 == 1 {
        value = value + 0x8;
    }
    if (t / 2) % 2 == 1 {
        value = value + 0x10;
    }
    if t / 4 == 1 {
        value = value + 0x20;
    }
    push_pc(cpu, memory);
    cpu.program_counter = value as u16;
}

/// RETI: returns and sets IME.
pub fn reti(cpu: &mut GbcCpu, memory: &mut GbcMmu)
    requires
        old(memory)@.wf(),
    ensures
        final(memory)@ == old(memory)@,
        *final(cpu) == (GbcCpu {
            stack_pointer: wrap16(old(cpu).stack_pointer + 2),
            program_counter: top_of_stack(old(memory)@, old(cpu).stack_pointer),
            mie: true,
            ..*old(cpu)
        }),
{
    ret(cpu, memory);
    cpu.mie = true;
}

fn jump_if_true(cpu: &mut GbcCpu, opcode: u32, flag: bool)
    ensures
        flag ==> *final(cpu) == (GbcCpu { program_counter: immediate16(opcode), ..*old(cpu) }),
        !flag ==> *final(cpu) == *old(cpu),
{
    if flag {
        jump(cpu, opcode);
    }
}

/// JP nn.
pub fn jump(cpu: &mut GbcCpu, opcode: u32)
    ensures
        *final(cpu) == (GbcCpu { program_counter: immediate16(opcode), ..*old(cpu) }),
{
    let address: u16 = ((opcode % 256) as u16) * 256 + ((opcode / 256) % 256) as u16;
    cpu.program_counter = address;
}

/// JP cc,nn.
pub fn jump_cc(cpu: &mut GbcCpu, opcode: u32)
    ensures
        old(cpu).condition_spec(condition_of_u32(opcode)) ==> *final(cpu) == (GbcCpu {
            program_counter: immediate16(opcode),
            ..*old(cpu)
        }),
        !old(cpu).condition_spec(condition_of_u32(opcode)) ==> *final(cpu) == *old(cpu),
{
    let flag: u8 = ((opcode / 65536 / 8) % 4) as u8;
    let taken = condition(cpu, flag);
    jump_if_true(cpu, opcode, taken);
}

/// JP (HL).
pub fn jump_hl(cpu: &mut GbcCpu)
    ensures
        *final(cpu) == (GbcCpu { program_counter: old(cpu).hl_spec(), ..*old(cpu) }),
{
    cpu.program_counter = cpu.hl();
}

fn jump_r_if_true(cpu: &mut GbcCpu, opcode: u16, flag: bool)
    ensures
        flag ==> *final(cpu) == (GbcCpu {
            program_counter: wrap16(old(cpu).program_counter + signed8((opcode % 256) as u8)),
            ..*old(cpu)
        }),
        !flag ==> *final(cpu) == *old(cpu),
{
    if flag {
        jump_r(cpu, opcode);
    }
}

/// JR e: adds the signed low byte of `opcode` to PC, which already points
/// past the instruction.
pub fn jump_r(cpu: &mut GbcCpu, opcode: u16)
    ensures
        *final(cpu) == (GbcCpu {
            program_counter: wrap16(old(cpu).program_counter + signed8((opcode % 256) as u8)),
            ..*old(cpu)
        }),
{
    let offset: u16 = opcode % 256;
    if offset < 128 {
        cpu.program_counter = cpu.program_counter.wrapping_add(offset);
    } else {
        cpu.program_counter = cpu.program_counter.wrapping_sub(256 - offset);
    }
}

/// JR cc,e: the condition is in bits 4-3 of the high byte of `opcode`.
pub fn jump_r_cc(cpu: &mut GbcCpu, opcode: u16)
    ensures
        old(cpu).condition_spec(condition_of_u16(opcode)) ==> *final(cpu) == (GbcCpu {
            program_counter: wrap16(old(cpu).program_counter + signed8((opcode % 256) as u8)),
            ..*old(cpu)
        }),
        !old(cpu).condition_spec(condition_of_u16(opcode)) ==> *final(cpu) == *old(cpu),
{
    let flag: u8 = ((opcode / 256 / 8) % 4) as u8;
    let taken = condition(cpu, flag);
    jump_r_if_true(cpu, opcode, taken);
}

/// The T-cycles of control-flow opcode `opcode`, a conditional one costing
/// more when `taken`; `None` for an opcode outside the JP, JR, CALL, RET, RETI
/// and RST groups.
pub open spec fn branch_cycles_spec(opcode: u8, taken: bool) -> Option<u8> {
    if opcode == 0x18 {
        Some(12)
    } else if opcode == 0x20 || opcode == 0x28 || opcode == 0x30 || opcode == 0x38 {
        Some(if taken { 12u8 } else { 8u8 })
    } else if opcode == 0xC3 {
        Some(16)
    } else if opcode == 0xC2 || opcode == 0xCA || opcode == 0xD2 || opcode == 0xDA {
        Some(if taken { 16u8 } else { 12u8 })
    } else if opcode == 0xE9 {
        Some(4)
    } else if opcode == 0xCD {
        Some(24)
    } else if opcode == 0xC4 || opcode == 0xCC || opcode == 0xD4 || opcode == 0xDC {
        Some(if taken { 24u8 } else { 12u8 })
    } else if opcode == 0xC9 || opcode == 0xD9 {
        Some(16)
    } else if opcode == 0xC0 || opcode == 0xC8 || opcode == 0xD0 || opcode == 0xD8 {
        Some(if taken { 20u8 } else { 8u8 })
    } else if opcode >= 0xC7 && opcode % 8 == 7 {
        Some(16)
    } else {
        None
    }
}

pub fn branch_cycles(opcode: u8, taken: bool) -> (r: Option<u8>)
    ensures
        r == branch_cycles_spec(opcode, taken),
{
    if opcode == 0x18 {
        Some(12)
    } else if opcode == 0x20 || opcode == 0x28 || opcode == 0x30 || opcode == 0x38 {
        Some(if taken { 12 } else { 8 })
    } else if opcode == 0xC3 {
        Some(16)
    } else if opcode == 0xC2 || opcode == 0xCA || opcode == 0xD2 || opcode == 0xDA {
        Some(if taken { 16 } else { 12 })
    } else if opcode == 0xE9 {
        Some(4)
    } else if opcode == 0xCD {
        Some(24)
    } else if opcode == 0xC4 || opcode == 0xCC || opcode == 0xD4 || opcode == 0xDC {
        Some(if taken { 24 } else { 12 })
    } else if opcode == 0xC9 || opcode == 0xD9 {
        Some(16)
    } else if opcode == 0xC0 || opcode == 0xC8 || opcode == 0xD0 || opcode == 0xD8 {
        Some(if taken { 20 } else { 8 })
    } else if opcode >= 0xC7 && opcode % 8 == 7 {
        Some(16)
    } else {
        None
    }
}

} // verus!
