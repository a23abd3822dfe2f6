use vstd::prelude::*;
use crate::mbc::{Mbc, MbcState};
use crate::ppu_state::PpuState;
use crate::dma::OamDmaTransferer;
use crate::memory_registers::{DMA_REGISTER_ADDRESS, BOOT_REGISTER_ADDRESS, DIV_REGISTER_ADDRESS};

verus! {

pub const BOOT_ROM_SIZE: usize = 0x100;
pub const HRAM_SIZE: usize = 0x7F;
pub const SPRITE_ATTRIBUTE_TABLE_SIZE: usize = 0xA0;
pub const IO_PORTS_SIZE: usize = 0x80;
pub const WRAM_BANK_SIZE: usize = 0x1000;
pub const WRAM_SIZE: usize = 0x8000;
pub const VRAM_BANK_SIZE: usize = 0x2000;
pub const VRAM_SIZE: usize = 0x4000;
pub const BAD_READ_VALUE: u8 = 0xFF;

/// The model of the memory bus: every store it dispatches to, and the state
/// that gates CPU access.
pub struct MmuState {
    pub boot_rom: Seq<u8>,
    pub finished_boot: bool,
    pub mbc: MbcState,
    pub vram: Seq<u8>,
    pub vram_bank: u8,
    pub wram: Seq<u8>,
    pub wram_bank: u8,
    pub oam: Seq<u8>,
    pub io_ports: Seq<u8>,
    pub hram: Seq<u8>,
    pub interupt_enable_register: u8,
    pub ppu_state: PpuState,
    pub dma: OamDmaTransferer,
    pub dma_trasfer_trigger: bool,
    /// DIV was written since the timer last took notice: its counter is to
    /// restart from 0.
    pub div_reset: bool,
}

impl MmuState {
    pub open spec fn wf(self) -> bool {
        &&& self.boot_rom.len() == BOOT_ROM_SIZE
        &&& self.vram.len() == VRAM_SIZE
        &&& self.vram_bank < 2
        &&& self.wram.len() == WRAM_SIZE
        &&& self.wram_bank < 8
        &&& self.oam.len() == SPRITE_ATTRIBUTE_TABLE_SIZE
        &&& self.io_ports.len() == IO_PORTS_SIZE
        &&& self.hram.len() == HRAM_SIZE
        &&& self.dma.dma_cycle_counter <= SPRITE_ATTRIBUTE_TABLE_SIZE
        &&& self.dma.enable.is_some() ==> self.dma.dma_cycle_counter < SPRITE_ATTRIBUTE_TABLE_SIZE
    }

    /// One M-cycle of OAM DMA: the next byte of the source is copied into
    /// OAM, and the transfer ends after the 160th.
    pub open spec fn dma_step(self) -> MmuState {
        if self.dma.enable.is_none() {
            self
        } else {
            let k = self.dma.dma_cycle_counter as int;
            let source = self.dma.soure_address + k;
            let value: u8 = if source <= 0xFFFF { self.read_unprotected(source as u16) } else { 0 };
            let c = (k + 1) as u16;
            MmuState {
                oam: self.oam.update(k, value),
                dma: OamDmaTransferer {
                    dma_cycle_counter: c,
                    enable: if c == SPRITE_ATTRIBUTE_TABLE_SIZE { None } else { self.dma.enable },
                    ..self.dma
                },
                ..self
            }
        }
    }

    /// `n` M-cycles of OAM DMA.
    pub open spec fn dma_run(self, n: nat) -> MmuState
        decreases n,
    {
        if n == 0 {
            self
        } else {
            self.dma_run((n - 1) as nat).dma_step()
        }
    }

    pub open spec fn dma_active(self) -> bool {
        self.dma.enable.is_some()
    }

    /// The CPU may reach `address`: during OAM DMA only HRAM and IE.
    pub open spec fn cpu_accessible(self, address: u16) -> bool {
        !self.dma_active() || address >= 0xFF80
    }

    pub open spec fn vram_ready(self) -> bool {
        self.ppu_state != PpuState::PixelTransfer
    }

    pub open spec fn oam_ready(self) -> bool {
        self.ppu_state != PpuState::OamSearch && self.ppu_state != PpuState::PixelTransfer
            && !self.dma_active()
    }

    /// The CPU access to `address` is dropped (writes) or reads 0xFF.
    pub open spec fn gated(self, address: u16) -> bool {
        ||| !self.cpu_accessible(address)
        ||| (0x8000 <= address < 0xA000 && !self.vram_ready())
        ||| (0xFE00 <= address < 0xFEA0 && !self.oam_ready())
    }

    pub open spec fn vram_index(self, address: u16) -> int {
        self.vram_bank * VRAM_BANK_SIZE + (address - 0x8000)
    }

    pub open spec fn wram_effective_bank(self) -> int {
        if self.wram_bank == 0 { 1 } else { self.wram_bank as int }
    }

    /// Where 0xC000..0xFDFF lands in WRAM; 0xE000.. echoes 0xC000...
    pub open spec fn wram_index(self, address: u16) -> int {
        let a: int = if address >= 0xE000 { address - 0x2000 } else { address as int };
        if a < 0xD000 { a - 0xC000 } else { self.wram_effective_bank() * WRAM_BANK_SIZE + (a - 0xD000) }
    }

    /// What `address` holds, regardless of PPU mode and DMA.
    pub open spec fn read_unprotected(self, address: u16) -> u8 {
        if address < 0x100 {
            if self.finished_boot { self.mbc.read_bank0(address) } else { self.boot_rom[address as int] }
        } else if address < 0x4000 {
            self.mbc.read_bank0(address)
        } else if address < 0x8000 {
            self.mbc.read_current_bank((address - 0x4000) as u16)
        } else if address < 0xA000 {
            self.vram[self.vram_index(address)]
        } else if address < 0xC000 {
            self.mbc.read_external_ram((address - 0xA000) as u16)
        } else if address < 0xFE00 {
            self.wram[self.wram_index(address)]
        } else if address < 0xFEA0 {
            self.oam[address - 0xFE00]
        } else if address < 0xFF00 {
            0
        } else if address < 0xFF80 {
            self.io_ports[address - 0xFF00]
        } else if address < 0xFFFF {
            self.hram[address - 0xFF80]
        } else {
            self.interupt_enable_register
        }
    }

    /// What a CPU read of `address` returns.
    pub open spec fn read(self, address: u16) -> u8 {
        if self.gated(address) { BAD_READ_VALUE } else { self.read_unprotected(address) }
    }

    /// The effect of storing `value` at `address`, regardless of PPU mode and DMA.
    pub open spec fn write_unprotected(self, address: u16, value: u8) -> MmuState {
        if address < 0x8000 {
            MmuState { mbc: self.mbc.write_rom(address, value), ..self }
        } else if address < 0xA000 {
            MmuState { vram: self.vram.update(self.vram_index(address), value), ..self }
        } else if address < 0xC000 {
            MmuState { mbc: self.mbc.write_external_ram((address - 0xA000) as u16, value), ..self }
        } else if address < 0xFE00 {
            MmuState { wram: self.wram.update(self.wram_index(address), value), ..self }
        } else if address < 0xFEA0 {
            MmuState { oam: self.oam.update(address - 0xFE00, value), ..self }
        } else if address < 0xFF00 {
            self
        } else if address < 0xFF80 {
            MmuState { io_ports: self.io_ports.update(address - 0xFF00, value), ..self }
        } else if address < 0xFFFF {
            MmuState { hram: self.hram.update(address - 0xFF80, value), ..self }
        } else {
            MmuState { interupt_enable_register: value, ..self }
        }
    }

    /// The effect of a CPU write of `value` to `address`: a write to DIV
    /// stores 0 whatever the value and restarts the timer's counter.
    pub open spec fn write(self, address: u16, value: u8) -> MmuState {
        if self.gated(address) {
            self
        } else {
            let s = self.write_unprotected(address, value);
            if address == DMA_REGISTER_ADDRESS {
                MmuState { dma_trasfer_trigger: true, ..s }
            } else if address == DIV_REGISTER_ADDRESS {
                MmuState {
                    io_ports: s.io_ports.update(DIV_REGISTER_ADDRESS - 0xFF00, 0),
                    div_reset: true,
                    ..s
                }
            } else {
                s
            }
        }
    }

    /// A CPU write to `address` stores its value there: the region is RAM or a
    /// register, and the access is not gated.
    pub open spec fn writable(self, address: u16) -> bool {
        &&& !self.gated(address)
        &&& {
            ||| (0x8000 <= address < 0xA000)
            ||| (0xA000 <= address < 0xC000 && self.mbc.ram_accessible((address - 0xA000) as u16))
            ||| (0xC000 <= address < 0xFE00)
            ||| (0xFE00 <= address < 0xFEA0)
            ||| (0xFF00 <= address && address != DIV_REGISTER_ADDRESS)
        }
    }
}

/// Read-after-write on the bus: a CPU write to a writable, ungated address is
/// read back exactly; an ungated write to DIV reads back 0; a write anywhere
/// else leaves what that address reads unchanged (but in 0x4000..0x7FFF,
/// where a write may switch the ROM bank).
pub proof fn lemma_read_after_write(s: MmuState, address: u16, value: u8)
    requires
        s.wf(),
    ensures
        s.writable(address) ==> s.write(address, value).read(address) == value,
        address == DIV_REGISTER_ADDRESS && !s.gated(address) ==> s.write(address, value).read(
            address,
        ) == 0,
        !s.writable(address) && !(0x4000 <= address < 0x8000) && !(address == DIV_REGISTER_ADDRESS
            && !s.gated(address)) ==> s.write(address, value).read(address) == s.read(address),
{
}

/// During OAM DMA every CPU read below HRAM returns 0xFF.
pub proof fn lemma_dma_blocks_reads(s: MmuState, address: u16)
    requires
        s.dma_active(),
        address < 0xFF80,
    ensures
        s.read(address) == BAD_READ_VALUE,
        s.write(address, 0) == s,
{
}

/// A CPU write keeps the bus well formed.
pub proof fn lemma_write_wf(s: MmuState, address: u16, value: u8)
    requires
        s.wf(),
    ensures
        s.write(address, value).wf(),
{
}

/// The memory bus: boot ROM overlay, cartridge, VRAM, WRAM, OAM, I/O ports,
/// HRAM and IE, with PPU-mode and DMA access gating.
pub struct GbcMmu {
    boot_rom: Vec<u8>,
    finished_boot: bool,
    mbc: Mbc,
    vram: Vec<u8>,
    vram_bank: u8,
    wram: Vec<u8>,
    wram_bank: u8,
    sprite_attribute_table: Vec<u8>,
    io_ports: Vec<u8>,
    hram: Vec<u8>,
    interupt_enable_register: u8,
    ppu_state: PpuState,
    dma: OamDmaTransferer,
    dma_trasfer_trigger: bool,
    div_reset: bool,
}

impl View for GbcMmu {
    type V = MmuState;

    closed spec fn view(&self) -> MmuState {
        MmuState {
            boot_rom: self.boot_rom@,
            finished_boot: self.finished_boot,
            mbc: self.mbc@,
            vram: self.vram@,
            vram_bank: self.vram_bank,
            wram: self.wram@,
            wram_bank: self.wram_bank,
            oam: self.sprite_attribute_table@,
            io_ports: self.io_ports@,
            hram: self.hram@,
            interupt_enable_register: self.interupt_enable_register,
            ppu_state: self.ppu_state,
            dma: self.dma,
            dma_trasfer_trigger: self.dma_trasfer_trigger,
            div_reset: self.div_reset,
        }
    }
}

fn zeroed(n: usize) -> (r: Vec<u8>)
    ensures
        r@ == Seq::new(n as nat, |i: int| 0u8),
{
    let mut v: Vec<u8> = Vec::new();
    while v.len() < n
        invariant
            v@.len() <= n,
            forall|i: int| 0 <= i < v@.len() ==> v@[i] == 0,
        decreases n - v@.len(),
    {
        v.push(0);
    }
    assert(v@ =~= Seq::new(n as nat, |i: int| 0u8));
    v
}

impl GbcMmu {
    /// A bus whose first 256 bytes read from `boot_rom` until the boot
    /// register is written.
    pub fn new_with_bootrom(mbc: Mbc, boot_rom: [u8; BOOT_ROM_SIZE]) -> (r: GbcMmu)
        ensures
            r@.wf(),
            r@.boot_rom == boot_rom@,
            !r@.finished_boot,
            r@.mbc == mbc@,
            r@.vram == Seq::new(VRAM_SIZE as nat, |i: int| 0u8),
            r@.wram == Seq::new(WRAM_SIZE as nat, |i: int| 0u8),
            r@.oam == Seq::new(SPRITE_ATTRIBUTE_TABLE_SIZE as nat, |i: int| 0u8),
            r@.io_ports == Seq::new(IO_PORTS_SIZE as nat, |i: int| 0u8),
            r@.hram == Seq::new(HRAM_SIZE as nat, |i: int| 0u8),
            r@.vram_bank == 0 && r@.wram_bank == 1,
            r@.interupt_enable_register == 0,
            r@.ppu_state == PpuState::OamSearch,
            r@.dma == OamDmaTransferer::new_spec(),
            !r@.dma_trasfer_trigger,
            !r@.div_reset,
    {
        let mut rom: Vec<u8> = Vec::new();
        let mut i: usize = 0;
        while i < BOOT_ROM_SIZE
            invariant
                i <= BOOT_ROM_SIZE,
                rom@ == boot_rom@.take(i as int),
            decreases BOOT_ROM_SIZE - i,
        {
            rom.push(boot_rom[i]);
            i = i + 1;
            assert(rom@ =~= boot_rom@.take(i as int));
        }
        assert(rom@ =~= boot_rom@);
        GbcMmu {
            boot_rom: rom,
            finished_boot: false,
            mbc,
            vram: zeroed(VRAM_SIZE),
            vram_bank: 0,
            wram: zeroed(WRAM_SIZE),
            wram_bank: 1,
            sprite_attribute_table: zeroed(SPRITE_ATTRIBUTE_TABLE_SIZE),
            io_ports: zeroed(IO_PORTS_SIZE),
            hram: zeroed(HRAM_SIZE),
            interupt_enable_register: 0,
            ppu_state: PpuState::OamSearch,
            dma: OamDmaTransferer::new(),
            dma_trasfer_trigger: false,
            div_reset: false,
        }
    }

    /// A bus that starts after the boot sequence: the boot register reads 1.
    pub fn new(mbc: Mbc) -> (r: GbcMmu)
        ensures
            r@.wf(),
            r@.finished_boot,
            r@.mbc == mbc@,
            r@.vram == Seq::new(VRAM_SIZE as nat, |i: int| 0u8),
            r@.wram == Seq::new(WRAM_SIZE as nat, |i: int| 0u8),
            r@.oam == Seq::new(SPRITE_ATTRIBUTE_TABLE_SIZE as nat, |i: int| 0u8),
            r@.io_ports == Seq::new(IO_PORTS_SIZE as nat, |i: int| 0u8).update(
                BOOT_REGISTER_ADDRESS - 0xFF00,
                1,
            ),
            r@.hram == Seq::new(HRAM_SIZE as nat, |i: int| 0u8),
            r@.vram_bank == 0 && r@.wram_bank == 1,
            r@.interupt_enable_register == 0,
            r@.ppu_state == PpuState::OamSearch,
            r@.dma == OamDmaTransferer::new_spec(),
            !r@.dma_trasfer_trigger,
            !r@.div_reset,
    {
        let mut mmu = GbcMmu {
            boot_rom: zeroed(BOOT_ROM_SIZE),
            finished_boot: true,
            mbc,
            vram: zeroed(VRAM_SIZE),
            vram_bank: 0,
            wram: zeroed(WRAM_SIZE),
            wram_bank: 1,
            sprite_attribute_table: zeroed(SPRITE_ATTRIBUTE_TABLE_SIZE),
            io_ports: zeroed(IO_PORTS_SIZE),
            hram: zeroed(HRAM_SIZE),
            interupt_enable_register: 0,
            ppu_state: PpuState::OamSearch,
            dma: OamDmaTransferer::new(),
            dma_trasfer_trigger: false,
            div_reset: false,
        };
        // the boot sequence is over
        mmu.io_ports.set((BOOT_REGISTER_ADDRESS - 0xFF00) as usize, 1);
        mmu
    }

    pub fn is_oam_ready_for_io(&self) -> (r: bool)
        ensures
            r == self@.oam_ready(),
    {
        self.ppu_state != PpuState::OamSearch && self.ppu_state != PpuState::PixelTransfer
            && self.dma.enable.is_none()
    }

    pub fn is_vram_ready_for_io(&self) -> (r: bool)
        ensures
            r == self@.vram_ready(),
    {
        self.ppu_state != PpuState::PixelTransfer
    }

    fn is_gated(&self, address: u16) -> (r: bool)
        ensures
            r == self@.gated(address),
    {
        (self.dma.enable.is_some() && address < 0xFF80) || (0x8000 <= address && address < 0xA000
            && !self.is_vram_ready_for_io()) || (0xFE00 <= address && address < 0xFEA0
            && !self.is_oam_ready_for_io())
    }

    fn wram_index(&self, address: u16) -> (r: usize)
        requires
            self@.wf(),
            0xC000 <= address < 0xFE00,
        ensures
            r == self@.wram_index(address),
            r < WRAM_SIZE,
    {
        let a: usize = if address >= 0xE000 { (address - 0x2000) as usize } else { address as usize };
        if a < 0xD000 {
            a - 0xC000
        } else {
            let bank: usize = if self.wram_bank == 0 { 1 } else { self.wram_bank as usize };
            bank * WRAM_BANK_SIZE + (a - 0xD000)
        }
    }

    /// Reads `address` with no PPU-mode or DMA gating.
    pub fn read_unprotected(&self, address: u16) -> (r: u8)
        requires
            self@.wf(),
        ensures
            r == self@.read_unprotected(address),
    {
        if address < 0x100 {
            if self.finished_boot {
                self.mbc.read_bank0(address)
            } else {
                self.boot_rom[address as usize]
            }
        } else if address < 0x4000 {
            self.mbc.read_bank0(address)
        } else if address < 0x8000 {
            self.mbc.read_current_bank(address - 0x4000)
        } else if address < 0xA000 {
            self.vram[self.vram_bank as usize * VRAM_BANK_SIZE + (address - 0x8000) as usize]
        } else if address < 0xC000 {
            self.mbc.read_external_ram(address - 0xA000)
        } else if address < 0xFE00 {
            self.wram[self.wram_index(address)]
        } else if address < 0xFEA0 {
            self.sprite_attribute_table[(address - 0xFE00) as usize]
        } else if address < 0xFF00 {
            0
        } else if address < 0xFF80 {
            self.io_ports[(address - 0xFF00) as usize]
        } else if address < 0xFFFF {
            self.hram[(address - 0xFF80) as usize]
        } else {
            self.interupt_enable_register
        }
    }

    /// A CPU read: 0xFF where the access is gated.
    pub fn read(&self, address: u16) -> (r: u8)
        requires
            self@.wf(),
        ensures
            r == self@.read(address),
    {
        if self.is_gated(address) {
            BAD_READ_VALUE
        } else {
            self.read_unprotected(address)
        }
    }

    /// Stores `value` at `address` with no PPU-mode or DMA gating.
    pub fn write_unprotected(&mut self, address: u16, value: u8)
        requires
            old(self)@.wf(),
        ensures
            final(self)@ == old(self)@.write_unprotected(address, value),
    {
        if address < 0x8000 {
            self.mbc.write_rom(address, value);
        } else if address < 0xA000 {
            let i = self.vram_bank as usize * VRAM_BANK_SIZE + (address - 0x8000) as usize;
            self.vram.set(i, value);
        } else if address < 0xC000 {
            self.mbc.write_external_ram(address - 0xA000, value);
        } else if address < 0xFE00 {
            let i = self.wram_index(address);
            self.wram.set(i, value);
        } else if address < 0xFEA0 {
            self.sprite_attribute_table.set((address - 0xFE00) as usize, value);
        } else if address < 0xFF00 {
        } else if address < 0xFF80 {
            self.io_ports.set((address - 0xFF00) as usize, value);
        } else if address < 0xFFFF {
            self.hram.set((address - 0xFF80) as usize, value);
        } else {
            self.interupt_enable_register = value;
        }
    }

    /// A CPU write: dropped where the access is gated; a write to the DMA
    /// register raises the transfer trigger; a write to DIV stores 0 and
    /// raises the counter reset.
    pub fn write(&mut self, address: u16, value: u8)
        requires
            old(self)@.wf(),
        ensures
            final(self)@ == old(self)@.write(address, value),
    {
        if !self.is_gated(address) {
            self.write_unprotected(address, value);
            if address == DMA_REGISTER_ADDRESS {
                self.dma_trasfer_trigger = true;
            } else if address == DIV_REGISTER_ADDRESS {
                self.io_ports.set((DIV_REGISTER_ADDRESS - 0xFF00) as usize, 0);
                self.div_reset = true;
            }
        }
    }

    pub fn ppu_state(&self) -> (r: PpuState)
        ensures
            r == self@.ppu_state,
    {
        self.ppu_state
    }

    /// Reflects the PPU mode into the bus, which gates VRAM and OAM by it.
    pub fn set_ppu_state(&mut self, state: PpuState)
        ensures
            final(self)@ == (MmuState { ppu_state: state, ..old(self)@ }),
    {
        self.ppu_state = state;
    }

    pub fn finished_boot(&self) -> (r: bool)
        ensures
            r == self@.finished_boot,
    {
        self.finished_boot
    }

    pub fn set_finished_boot(&mut self, finished: bool)
        ensures
            final(self)@ == (MmuState { finished_boot: finished, ..old(self)@ }),
    {
        self.finished_boot = finished;
    }

    /// Selects the WRAM bank seen at 0xD000..0xDFFF (0 selects bank 1).
    pub fn set_wram_bank(&mut self, bank: u8)
        requires
            bank < 8,
        ensures
            final(self)@ == (MmuState { wram_bank: bank, ..old(self)@ }),
    {
        self.wram_bank = bank;
    }

    /// Selects the VRAM bank seen at 0x8000..0x9FFF.
    pub fn set_vram_bank(&mut self, bank: u8)
        requires
            bank < 2,
        ensures
            final(self)@ == (MmuState { vram_bank: bank, ..old(self)@ }),
    {
        self.vram_bank = bank;
    }

    pub fn dma(&self) -> (r: OamDmaTransferer)
        ensures
            r == self@.dma,
    {
        self.dma
    }

    pub fn set_dma(&mut self, dma: OamDmaTransferer)
        ensures
            final(self)@ == (MmuState { dma: dma, ..old(self)@ }),
    {
        self.dma = dma;
    }

    /// Whether 0xFF46 was written since the trigger was last cleared.
    pub fn dma_trasfer_trigger(&self) -> (r: bool)
        ensures
            r == self@.dma_trasfer_trigger,
    {
        self.dma_trasfer_trigger
    }

    pub fn clear_dma_trasfer_trigger(&mut self)
        ensures
            final(self)@ == (MmuState { dma_trasfer_trigger: false, ..old(self)@ }),
    {
        self.dma_trasfer_trigger = false;
    }

    pub fn mbc(&self) -> (r: &Mbc)
        ensures
            r@ == self@.mbc,
    {
        &self.mbc
    }

    /// Ends the bus's life and hands the cartridge back, to persist its RAM.
    pub fn into_mbc(self) -> (r: Mbc)
        ensures
            r@ == self@.mbc,
    {
        self.mbc
    }

    /// Whether DIV was written since the reset was last taken.
    pub fn div_reset(&self) -> (r: bool)
        ensures
            r == self@.div_reset,
    {
        self.div_reset
    }

    pub fn clear_div_reset(&mut self)
        ensures
            final(self)@ == (MmuState { div_reset: false, ..old(self)@ }),
    {
        self.div_reset = false;
    }

    /// Runs OAM DMA for `m_cycles` M-cycles: one byte per M-cycle is copied
    /// from the source to OAM, and the transfer ends with the 160th byte.
    pub fn cycle_dma(&mut self, m_cycles: u32)
        requires
            old(self)@.wf(),
        ensures
            final(self)@ == old(self)@.dma_run(m_cycles as nat),
            final(self)@.wf(),
    {
        let mut i: u32 = 0;
        while i < m_cycles
            invariant
                i <= m_cycles,
                self@.wf(),
                self@ == old(self)@.dma_run(i as nat),
            decreases m_cycles - i,
        {
            if self.dma.enable.is_some() {
                let k = self.dma.dma_cycle_counter;
                let source = self.dma.soure_address as u32 + k as u32;
                let value = if source <= 0xFFFF {
                    self.read_unprotected(source as u16)
                } else {
                    0
                };
                self.sprite_attribute_table.set(k as usize, value);
                self.dma.dma_cycle_counter = k + 1;
                if k + 1 == SPRITE_ATTRIBUTE_TABLE_SIZE as u16 {
                    self.dma.enable = None;
                }
            }
            i = i + 1;
        }
    }
}

} // verus!
