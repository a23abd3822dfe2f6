use vstd::prelude::*;
use crate::cpu::{GbcCpu, wrap16};
use crate::mmu::{GbcMmu, MmuState};
use crate::opcodes_utils::{push, pushed};
use crate::memory_registers::{IF_REGISTER_ADDRESS, IE_REGISTER_ADDRESS};

verus! {

/// Interrupt sources, by the bit they hold in IE and IF; a lower bit has
/// higher priority.
pub const VBLANK_INTERRUPT_BIT: u8 = 0;
pub const LCD_STAT_INTERRUPT_BIT: u8 = 1;
pub const TIMER_INTERRUPT_BIT: u8 = 2;
pub const SERIAL_INTERRUPT_BIT: u8 = 3;
pub const JOYPAD_INTERRUPT_BIT: u8 = 4;
/// T-cycles taken by the dispatch of an interrupt.
pub const INTERRUPT_DISPATCH_CYCLES: u8 = 20;

pub open spec fn bit_set(x: u8, i: int) -> bool {
    (x >> (i as u8)) % 2 == 1
}

/// The first source at or after `i` whose bit is set in `mask`; 5 if none.
pub open spec fn first_pending_from(mask: u8, i: int) -> int
    decreases 5 - i,
{
    if i >= 5 {
        5
    } else if bit_set(mask, i) {
        i
    } else {
        first_pending_from(mask, i + 1)
    }
}

/// The source to service when IE is `ie` and IF is `iflag`; 5 if none is
/// both requested and enabled.
pub open spec fn highest_priority(ie: u8, iflag: u8) -> int {
    first_pending_from(ie & iflag, 0)
}

/// The vector of source `i`: 0x40, 0x48, 0x50, 0x58, 0x60.
pub open spec fn interrupt_vector(i: int) -> u16 {
    (0x40 + 8 * i) as u16
}

pub open spec fn clear_bit(x: u8, i: u8) -> u8 {
    x & !(1u8 << i)
}

proof fn lemma_first_pending_from(mask: u8, i: int)
    requires
        0 <= i <= 5,
    ensures
        i <= first_pending_from(mask, i) <= 5,
        first_pending_from(mask, i) < 5 ==> bit_set(mask, first_pending_from(mask, i)),
        forall|j: int| i <= j < first_pending_from(mask, i) ==> !bit_set(mask, j),
    decreases 5 - i,
{
    if i < 5 && !bit_set(mask, i) {
        lemma_first_pending_from(mask, i + 1);
    }
}

/// Of the sources both requested and enabled, the one serviced has the
/// lowest bit: V-blank, then LCD STAT, Timer, Serial, Joypad. None is
/// serviced exactly when no source is both requested and enabled.
pub proof fn lemma_interrupt_precedence(ie: u8, iflag: u8)
    ensures
        ({
            let k = highest_priority(ie, iflag);
            &&& 0 <= k <= 5
            &&& k < 5 ==> bit_set(ie & iflag, k)
            &&& forall|j: int| 0 <= j < k ==> !bit_set(ie & iflag, j)
        }),
{
    lemma_first_pending_from(ie & iflag, 0);
}

/// The source to service, if any.
pub fn get_pending_interrupt(ie: u8, iflag: u8) -> (r: Option<u8>)
    ensures
        r == if highest_priority(ie, iflag) < 5 {
            Some(highest_priority(ie, iflag) as u8)
        } else {
            None
        },
{
    let mask = ie & iflag;
    let mut i: u8 = 0;
    while i < 5
        invariant
            i <= 5,
            mask == ie & iflag,
            first_pending_from(mask, i as int) == highest_priority(ie, iflag),
        decreases 5 - i,
    {
        if (mask >> i) % 2 == 1 {
            return Some(i);
        }
        i = i + 1;
    }
    None
}

/// Services the pending interrupt of highest priority, when IME is set: IME
/// is cleared, the source's IF bit cleared, PC pushed and the vector jumped
/// to, in 20 T-cycles. A pending interrupt ends HALT even with IME clear.
/// Returns the T-cycles taken.
pub fn handle_interrupts(cpu: &mut GbcCpu, memory: &mut GbcMmu) -> (cycles: u8)
    requires
        old(memory)@.wf(),
    ensures
        final(memory)@.wf(),
        ({
            let ie = old(memory)@.read_unprotected(IE_REGISTER_ADDRESS);
            let iflag = old(memory)@.read_unprotected(IF_REGISTER_ADDRESS);
            let k = highest_priority(ie, iflag);
            &&& k == 5 ==> cycles == 0 && *final(cpu) == *old(cpu) && final(memory)@ == old(
                memory,
            )@
            &&& k < 5 && !old(cpu).mie ==> cycles == 0 && *final(cpu) == (GbcCpu {
                halt: false,
                ..*old(cpu)
            }) && final(memory)@ == old(memory)@
            &&& k < 5 && old(cpu).mie ==> cycles == INTERRUPT_DISPATCH_CYCLES && *final(cpu) == (
            GbcCpu {
                mie: false,
                halt: false,
                stack_pointer: wrap16(old(cpu).stack_pointer - 2),
                program_counter: interrupt_vector(k),
                ..*old(cpu)
            }) && final(memory)@ == pushed(
                old(memory)@.write_unprotected(IF_REGISTER_ADDRESS, clear_bit(iflag, k as u8)),
                old(cpu).stack_pointer,
                old(cpu).program_counter,
            )
        }),
{
    let ie = memory.read_unprotected(IE_REGISTER_ADDRESS);
    let iflag = memory.read_unprotected(IF_REGISTER_ADDRESS);
    proof {
        lemma_interrupt_precedence(ie, iflag);
    }
    match get_pending_interrupt(ie, iflag) {
        None => 0,
        Some(i) => {
            if cpu.mie {
                cpu.mie = false;
                cpu.halt = false;
                memory.write_unprotected(IF_REGISTER_ADDRESS, iflag & !(1u8 << i));
                let pc = cpu.program_counter;
                push(cpu, memory, pc);
                cpu.program_counter = 0x40 + 8 * i as u16;
                INTERRUPT_DISPATCH_CYCLES
            } else {
                cpu.halt = false;
                0
            }
        },
    }
}

} // verus!
