use vstd::prelude::*;
use crate::cpu::GbcCpu;
use crate::mbc::Mbc;
use crate::mmu::{GbcMmu, BOOT_ROM_SIZE};
use crate::ppu::{GbcPpu, ly_of, SCREEN_HEIGHT, registers_loaded, screen_updated};
use crate::ppu_state::PpuState;
use crate::timer::{Timer, timer_run, lemma_timer_frequency, lemma_timer_run_counts};
use crate::mmu::MmuState;
use crate::mmu_register_updater::{apply_register_effects, updated_registers};
use crate::memory_registers::{
    DIV_REGISTER_ADDRESS,
    TIMA_REGISTER_ADDRESS,
    TMA_REGISTER_ADDRESS,
    TAC_REGISTER_ADDRESS,
    IF_REGISTER_ADDRESS,
    LY_REGISTER_ADDRESS,
    LYC_REGISTER_ADDRESS,
    STAT_REGISTER_ADDRESS,
};

verus! {

/// T-cycles of one frame: 154 lines of 456.
pub const FRAME_CYCLES: u32 = 70224;

/// The machine: CPU registers, the bus, the PPU, the timer, and the position
/// in the frame.
pub struct GameBoy {
    pub cpu: GbcCpu,
    pub mmu: GbcMmu,
    pub ppu: GbcPpu,
    pub timer: Timer,
    pub frame_cycle: u32,
    /// The level of the STAT interrupt line after the last tick.
    pub stat_line: bool,
}

/// The bus once the side effects of its I/O registers are applied and the
/// DMA trigger is taken.
pub open spec fn registers_phase(m: MmuState) -> MmuState {
    MmuState { dma_trasfer_trigger: false, ..updated_registers(m, m.dma_trasfer_trigger) }
}

/// The timer that runs next: TIMA, TMA and TAC from the bus, and the counter
/// restarted where DIV was written.
pub open spec fn timer_input(m: MmuState, t: Timer) -> Timer {
    Timer {
        divider: if m.div_reset { 0 } else { t.divider },
        tima_register: m.read_unprotected(TIMA_REGISTER_ADDRESS),
        tma_register: m.read_unprotected(TMA_REGISTER_ADDRESS),
        tac_register: m.read_unprotected(TAC_REGISTER_ADDRESS),
        reload_delay: t.reload_delay,
    }
}

/// The bus and the timer after the timer runs `n` T-cycles: DIV and TIMA
/// written back, and IF bit 2 set where the timer requested its interrupt.
pub open spec fn timer_phase(m: MmuState, t: Timer, n: nat) -> (MmuState, Timer) {
    let (t1, irq) = timer_run(timer_input(m, t), n);
    let a = MmuState { div_reset: false, ..m }.write_unprotected(
        DIV_REGISTER_ADDRESS,
        (t1.divider / 256) as u8,
    ).write_unprotected(TIMA_REGISTER_ADDRESS, t1.tima_register);
    let b = if irq {
        a.write_unprotected(IF_REGISTER_ADDRESS, a.read_unprotected(IF_REGISTER_ADDRESS) | 4)
    } else {
        a
    };
    (b, t1)
}

/// With TAC = 0x05 on the bus and no reload pending, the timer phase of a
/// tick of `16 * n` T-cycles adds exactly `n` to the TIMA that the bus reads,
/// and leaves IF as it was.
pub proof fn lemma_bus_timer_frequency(m: MmuState, t: Timer, n: nat)
    requires
        m.wf(),
        t.reload_delay == 0,
        m.read_unprotected(TAC_REGISTER_ADDRESS) == 0x05,
        m.read_unprotected(TIMA_REGISTER_ADDRESS) + n <= 255,
    ensures
        timer_phase(m, t, 16 * n).0.read_unprotected(TIMA_REGISTER_ADDRESS) == m.read_unprotected(
            TIMA_REGISTER_ADDRESS,
        ) + n,
        timer_phase(m, t, 16 * n).0.read_unprotected(IF_REGISTER_ADDRESS) == m.read_unprotected(
            IF_REGISTER_ADDRESS,
        ),
{
    let ti = timer_input(m, t);
    lemma_timer_frequency(ti.divider, n);
    lemma_timer_run_counts(ti, 16 * n);
}

/// LY has just moved onto the first V-blank line.
pub open spec fn entered_vblank(last_ly: Option<u8>, ly: u8) -> bool {
    last_ly != Some(SCREEN_HEIGHT as u8) && ly == SCREEN_HEIGHT
}

/// The bus after the PPU reached line `ly` in mode `state`: LY written; STAT
/// bits 2-0 the LY == LYC flag and the mode; IF bit 0 set on entering
/// V-blank, bit 1 on a rising edge of the STAT line; the mode reflected.
pub open spec fn bus_after_ppu(
    m: MmuState,
    last_ly: Option<u8>,
    ly: u8,
    state: PpuState,
    last_line: bool,
) -> MmuState {
    let stat = m.read_unprotected(STAT_REGISTER_ADDRESS);
    let lyc = m.read_unprotected(LYC_REGISTER_ADDRESS);
    let mode = ppu_state_code(state);
    let a = m.write_unprotected(LY_REGISTER_ADDRESS, ly);
    let b = a.write_unprotected(
        STAT_REGISTER_ADDRESS,
        (stat - stat % 8 + (if ly == lyc { 4int } else { 0 }) + mode) as u8,
    );
    let c = if entered_vblank(last_ly, ly) {
        b.write_unprotected(IF_REGISTER_ADDRESS, b.read_unprotected(IF_REGISTER_ADDRESS) | 1)
    } else {
        b
    };
    let d = if stat_line_spec(stat, ly, lyc, mode) && !last_line {
        c.write_unprotected(IF_REGISTER_ADDRESS, c.read_unprotected(IF_REGISTER_ADDRESS) | 2)
    } else {
        c
    };
    MmuState { ppu_state: state, ..d }
}

/// The STAT interrupt line: the OR of the sources that STAT bits 6-3 select,
/// LY == LYC, mode 2, mode 1 and mode 0.
pub open spec fn stat_line_spec(stat: u8, ly: u8, lyc: u8, mode: u8) -> bool {
    ||| ((stat >> 6u8) % 2 == 1 && ly == lyc)
    ||| ((stat >> 5u8) % 2 == 1 && mode == 2)
    ||| ((stat >> 4u8) % 2 == 1 && mode == 1)
    ||| ((stat >> 3u8) % 2 == 1 && mode == 0)
}

pub fn stat_line(stat: u8, ly: u8, lyc: u8, mode: u8) -> (r: bool)
    ensures
        r == stat_line_spec(stat, ly, lyc, mode),
{
    ((stat >> 6u8) % 2 == 1 && ly == lyc) || ((stat >> 5u8) % 2 == 1 && mode == 2) || ((stat
        >> 4u8) % 2 == 1 && mode == 1) || ((stat >> 3u8) % 2 == 1 && mode == 0)
}

/// The number of a PPU mode in STAT bits 1-0.
pub open spec fn ppu_state_code(state: PpuState) -> u8 {
    match state {
        PpuState::Hblank => 0,
        PpuState::Vblank => 1,
        PpuState::OamSearch => 2,
        PpuState::PixelTransfer => 3,
    }
}

fn ppu_state_number(state: PpuState) -> (r: u8)
    ensures
        r == ppu_state_code(state),
        r < 4,
{
    match state {
        PpuState::Hblank => 0,
        PpuState::Vblank => 1,
        PpuState::OamSearch => 2,
        PpuState::PixelTransfer => 3,
    }
}

impl GameBoy {
    pub open spec fn wf(&self) -> bool {
        &&& self.mmu@.wf()
        &&& self.ppu.wf()
        &&& self.frame_cycle < FRAME_CYCLES
    }

    /// A machine that starts where the DMG boot ROM leaves it.
    pub fn new(mbc: Mbc) -> (r: GameBoy)
        ensures
            r.wf(),
            r.mmu@.finished_boot,
            r.cpu.a == 0x01 && r.cpu.zero && !r.cpu.subtraction && r.cpu.half_carry
                && r.cpu.carry,
            r.cpu.b == 0x00 && r.cpu.c == 0x13 && r.cpu.d == 0x00 && r.cpu.e == 0xD8,
            r.cpu.h == 0x01 && r.cpu.l == 0x4D,
            r.cpu.stack_pointer == 0xFFFE && r.cpu.program_counter == 0x0100,
            r.frame_cycle == 0,
    {
        let mut cpu = GbcCpu::default();
        cpu.a = 0x01;
        cpu.zero = true;
        cpu.half_carry = true;
        cpu.carry = true;
        cpu.c = 0x13;
        cpu.e = 0xD8;
        cpu.h = 0x01;
        cpu.l = 0x4D;
        cpu.stack_pointer = 0xFFFE;
        cpu.program_counter = 0x0100;
        GameBoy {
            cpu,
            mmu: GbcMmu::new(mbc),
            ppu: GbcPpu::default(),
            timer: Timer::new(),
            frame_cycle: 0,
            stat_line: false,
        }
    }

    /// A machine that runs `boot_rom` from address 0.
    pub fn new_with_bootrom(mbc: Mbc, boot_rom: [u8; BOOT_ROM_SIZE]) -> (r: GameBoy)
        ensures
            r.wf(),
            !r.mmu@.finished_boot,
            r.mmu@.boot_rom == boot_rom@,
            r.cpu.program_counter == 0 && r.cpu.stack_pointer == 0,
            r.frame_cycle == 0,
    {
        GameBoy {
            cpu: GbcCpu::default(),
            mmu: GbcMmu::new_with_bootrom(mbc, boot_rom),
            ppu: GbcPpu::default(),
            timer: Timer::new(),
            frame_cycle: 0,
            stat_line: false,
        }
    }

    /// Runs the timer for `t_cycles` T-cycles from the bus's TIMA, TMA and
    /// TAC, restarting its counter first where DIV was written, and writes
    /// DIV, TIMA and the timer interrupt request back to the bus.
    fn tick_timer(&mut self, t_cycles: u32)
        requires
            old(self).wf(),
        ensures
            final(self).wf(),
            (final(self).mmu@, final(self).timer) == timer_phase(
                old(self).mmu@,
                old(self).timer,
                t_cycles as nat,
            ),
            final(self).cpu == old(self).cpu,
            final(self).ppu == old(self).ppu,
            final(self).frame_cycle == old(self).frame_cycle,
            final(self).stat_line == old(self).stat_line,
    {
        if self.mmu.div_reset() {
            self.timer.reset_divider();
            self.mmu.clear_div_reset();
        }
        self.timer.tima_register = self.mmu.read_unprotected(TIMA_REGISTER_ADDRESS);
        self.timer.tma_register = self.mmu.read_unprotected(TMA_REGISTER_ADDRESS);
        self.timer.tac_register = self.mmu.read_unprotected(TAC_REGISTER_ADDRESS);
        let overflow = self.timer.cycle(t_cycles);
        self.mmu.write_unprotected(DIV_REGISTER_ADDRESS, self.timer.div_register());
        self.mmu.write_unprotected(TIMA_REGISTER_ADDRESS, self.timer.tima_register);
        if overflow {
            let iflag = self.mmu.read_unprotected(IF_REGISTER_ADDRESS);
            self.mmu.write_unprotected(IF_REGISTER_ADDRESS, iflag | 4);
        }
    }

    /// Brings the PPU to the current frame cycle and reflects LY, STAT and
    /// the V-blank and STAT interrupt requests into the bus.
    fn tick_ppu(&mut self)
        requires
            old(self).wf(),
        ensures
            final(self).wf(),
            exists|p: GbcPpu|
                registers_loaded(&old(self).ppu, &p, old(self).mmu@) && screen_updated(
                    &p,
                    &final(self).ppu,
                    old(self).mmu@,
                    old(self).frame_cycle as int,
                ),
            final(self).mmu@ == bus_after_ppu(
                old(self).mmu@,
                old(self).ppu.current_line_drawn,
                ly_of(old(self).frame_cycle as int) as u8,
                final(self).ppu.state,
                old(self).stat_line,
            ),
            final(self).stat_line == stat_line_spec(
                old(self).mmu@.read_unprotected(STAT_REGISTER_ADDRESS),
                ly_of(old(self).frame_cycle as int) as u8,
                old(self).mmu@.read_unprotected(LYC_REGISTER_ADDRESS),
                ppu_state_code(final(self).ppu.state),
            ),
            final(self).cpu == old(self).cpu,
            final(self).timer == old(self).timer,
            final(self).frame_cycle == old(self).frame_cycle,
    {
        let last_ly = self.ppu.current_line_drawn;
        let ghost p0 = self.ppu;
        self.ppu.update_registers(&self.mmu);
        let ghost p1 = self.ppu;
        self.ppu.update_gb_screen(&self.mmu, self.frame_cycle);
        assert(registers_loaded(&p0, &p1, self.mmu@));
        let ly: u8 = match self.ppu.current_line_drawn {
            Some(l) => l,
            None => 0,
        };
        self.mmu.write_unprotected(LY_REGISTER_ADDRESS, ly);
        let stat = self.mmu.read_unprotected(STAT_REGISTER_ADDRESS);
        let lyc = self.mmu.read_unprotected(LYC_REGISTER_ADDRESS);
        let mode = ppu_state_number(self.ppu.state);
        let coincidence: u8 = if ly == lyc { 4 } else { 0 };
        let new_stat: u8 = stat - stat % 8 + coincidence + mode;
        self.mmu.write_unprotected(STAT_REGISTER_ADDRESS, new_stat);
        let entered_vblank = match last_ly {
            Some(l) => l as usize != SCREEN_HEIGHT,
            None => true,
        } && ly as usize == SCREEN_HEIGHT;
        if entered_vblank {
            let iflag = self.mmu.read_unprotected(IF_REGISTER_ADDRESS);
            self.mmu.write_unprotected(IF_REGISTER_ADDRESS, iflag | 1);
        }
        let line = stat_line(stat, ly, lyc, mode);
        if line && !self.stat_line {
            let iflag = self.mmu.read_unprotected(IF_REGISTER_ADDRESS);
            self.mmu.write_unprotected(IF_REGISTER_ADDRESS, iflag | 2);
        }
        self.stat_line = line;
        self.mmu.set_ppu_state(self.ppu.state);
    }

    /// Ticks `t_cycles` T-cycles into the machine: the side effects of the
    /// I/O registers are applied, then the timer, the OAM DMA engine and the
    /// PPU run, in that order.
    pub fn tick(&mut self, t_cycles: u32)
        requires
            old(self).wf(),
            t_cycles < FRAME_CYCLES,
        ensures
            ({
                let m1 = registers_phase(old(self).mmu@);
                let (m2, timer) = timer_phase(m1, old(self).timer, t_cycles as nat);
                let m3 = m2.dma_run((t_cycles / 4) as nat);
                let frame_cycle = (old(self).frame_cycle + t_cycles) % (FRAME_CYCLES as int);
                let ly = ly_of(frame_cycle) as u8;
                &&& final(self).wf()
                &&& final(self).cpu == old(self).cpu
                &&& final(self).timer == timer
                &&& final(self).frame_cycle == frame_cycle
                &&& exists|p: GbcPpu|
                    registers_loaded(&old(self).ppu, &p, m3) && screen_updated(
                        &p,
                        &final(self).ppu,
                        m3,
                        frame_cycle,
                    )
                &&& final(self).mmu@ == bus_after_ppu(
                    m3,
                    old(self).ppu.current_line_drawn,
                    ly,
                    final(self).ppu.state,
                    old(self).stat_line,
                )
                &&& final(self).stat_line == stat_line_spec(
                    m3.read_unprotected(STAT_REGISTER_ADDRESS),
                    ly,
                    m3.read_unprotected(LYC_REGISTER_ADDRESS),
                    ppu_state_code(final(self).ppu.state),
                )
            }),
    {
        let trigger = self.mmu.dma_trasfer_trigger();
        apply_register_effects(&mut self.mmu, trigger);
        self.mmu.clear_dma_trasfer_trigger();
        self.tick_timer(t_cycles);
        self.mmu.cycle_dma(t_cycles / 4);
        self.frame_cycle = (self.frame_cycle + t_cycles) % FRAME_CYCLES;
        self.tick_ppu();
    }
}

} // verus!
