use vstd::prelude::*;
use crate::cpu::{GbcCpu, wrap16};
use crate::mmu::{GbcMmu, MmuState, lemma_write_wf};

verus! {

/// The bus after `value` is pushed on a stack whose pointer is `sp`: the high
/// byte at `sp - 1`, the low byte at `sp - 2`.
pub open spec fn pushed(m: MmuState, sp: u16, value: u16) -> MmuState {
    m.write(wrap16(sp - 1), (value / 256) as u8).write(wrap16(sp - 2), (value % 256) as u8)
}

/// The word on top of a stack whose pointer is `sp`, low byte first.
pub open spec fn top_of_stack(m: MmuState, sp: u16) -> u16 {
    (m.read(wrap16(sp + 1)) as int * 256 + m.read(sp) as int) as u16
}

/// Pushes `value` on the stack.
pub fn push(cpu: &mut GbcCpu, memory: &mut GbcMmu, value: u16)
    requires
        old(memory)@.wf(),
    ensures
        final(memory)@ == pushed(old(memory)@, old(cpu).stack_pointer, value),
        final(memory)@.wf(),
        *final(cpu) == (GbcCpu { stack_pointer: wrap16(old(cpu).stack_pointer - 2), ..*old(cpu) }),
{
    let high = (value / 256) as u8;
    let low = (value % 256) as u8;
    cpu.stack_pointer = cpu.stack_pointer.wrapping_sub(1);
    proof {
        lemma_write_wf(memory@, cpu.stack_pointer, high);
    }
    memory.write(cpu.stack_pointer, high);
    cpu.stack_pointer = cpu.stack_pointer.wrapping_sub(1);
    memory.write(cpu.stack_pointer, low);
}

/// Pops the word on top of the stack.
pub fn pop(cpu: &mut GbcCpu, memory: &GbcMmu) -> (r: u16)
    requires
        memory@.wf(),
    ensures
        r == top_of_stack(memory@, old(cpu).stack_pointer),
        *final(cpu) == (GbcCpu { stack_pointer: wrap16(old(cpu).stack_pointer + 2), ..*old(cpu) }),
{
    let low = memory.read(cpu.stack_pointer);
    cpu.stack_pointer = cpu.stack_pointer.wrapping_add(1);
    let high = memory.read(cpu.stack_pointer);
    cpu.stack_pointer = cpu.stack_pointer.wrapping_add(1);
    (high as u16) * 256 + low as u16
}

} // verus!
