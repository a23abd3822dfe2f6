use vstd::prelude::*;
use crate::dma::{AccessBus, OamDmaTransferer};
use crate::mmu::{GbcMmu, MmuState, IO_PORTS_SIZE};
use crate::ppu_state::{PpuState, ppu_state_of};
use crate::memory_registers::{
    STAT_REGISTER_ADDRESS,
    SVBK_REGISTER_ADDRESS,
    VBK_REGISTER_ADDRESS,
    BOOT_REGISTER_ADDRESS,
    DMA_REGISTER_ADDRESS,
};

verus! {

/// The DMA engine after 0xFF46 is written with `register`.
pub open spec fn armed_dma(register: u8) -> OamDmaTransferer {
    OamDmaTransferer {
        soure_address: (register as int * 256) as u16,
        enable: Some(if 0x80 <= register < 0xA0 { AccessBus::Video } else { AccessBus::External }),
        dma_cycle_counter: 0,
    }
}

/// The bus once the side effects of its I/O registers are applied; `dma_written`
/// says whether 0xFF46 was written.
pub open spec fn updated_registers(s: MmuState, dma_written: bool) -> MmuState {
    let stat = s.io_ports[STAT_REGISTER_ADDRESS - 0xFF00];
    let svbk = s.io_ports[SVBK_REGISTER_ADDRESS - 0xFF00];
    let vbk = s.io_ports[VBK_REGISTER_ADDRESS - 0xFF00];
    let boot = s.io_ports[BOOT_REGISTER_ADDRESS - 0xFF00];
    let dma = s.io_ports[DMA_REGISTER_ADDRESS - 0xFF00];
    MmuState {
        ppu_state: ppu_state_of(stat),
        wram_bank: svbk % 8,
        vram_bank: vbk % 2,
        finished_boot: s.finished_boot || boot == 1,
        dma: if dma_written { armed_dma(dma) } else { s.dma },
        ..s
    }
}

/// Applies the side effects of the I/O registers: the PPU mode reflected in
/// STAT, the WRAM and VRAM banks, the boot ROM latch, and, where `ports` marks
/// 0xFF46 as written, the start of an OAM DMA transfer.
pub fn update_mmu_registers(memory: &mut GbcMmu, ports: &[bool; IO_PORTS_SIZE])
    requires
        old(memory)@.wf(),
    ensures
        final(memory)@ == updated_registers(old(memory)@, ports@[0x46]),
        final(memory)@.wf(),
{
    apply_register_effects(memory, ports[0x46]);
}

/// Applies the side effects of the I/O registers; `dma_written` says whether
/// 0xFF46 was written.
pub fn apply_register_effects(memory: &mut GbcMmu, dma_written: bool)
    requires
        old(memory)@.wf(),
    ensures
        final(memory)@ == updated_registers(old(memory)@, dma_written),
        final(memory)@.wf(),
{
    let stat = memory.read_unprotected(STAT_REGISTER_ADDRESS);
    handle_ppu_state(memory, stat);
    let svbk = memory.read_unprotected(SVBK_REGISTER_ADDRESS);
    handle_wram_register(memory, svbk);
    let vbk = memory.read_unprotected(VBK_REGISTER_ADDRESS);
    handle_vram_register(memory, vbk);
    let boot = memory.read_unprotected(BOOT_REGISTER_ADDRESS);
    handle_bootrom_register(memory, boot);
    if dma_written {
        let register = memory.read_unprotected(DMA_REGISTER_ADDRESS);
        let mut dma = memory.dma();
        handle_dma_transfer_register(register, &mut dma);
        memory.set_dma(dma);
    }
}

fn handle_ppu_state(memory: &mut GbcMmu, stat: u8)
    ensures
        final(memory)@ == (MmuState { ppu_state: ppu_state_of(stat), ..old(memory)@ }),
{
    memory.set_ppu_state(PpuState::from_u8(stat % 4));
}

fn handle_wram_register(memory: &mut GbcMmu, register: u8)
    ensures
        final(memory)@ == (MmuState { wram_bank: register % 8, ..old(memory)@ }),
{
    let bank: u8 = register % 8;
    memory.set_wram_bank(bank);
}

fn handle_vram_register(memory: &mut GbcMmu, register: u8)
    ensures
        final(memory)@ == (MmuState { vram_bank: register % 2, ..old(memory)@ }),
{
    memory.set_vram_bank(register % 2);
}

fn handle_bootrom_register(memory: &mut GbcMmu, register: u8)
    ensures
        final(memory)@ == (MmuState {
            finished_boot: old(memory)@.finished_boot || register == 1,
            ..old(memory)@
        }),
{
    if register == 1 {
        memory.set_finished_boot(true);
    }
}

/// Arms the DMA engine: the source is `register << 8`, read over the video
/// bus for 0x80..0x9F and over the external bus otherwise.
pub fn handle_dma_transfer_register(register: u8, dma: &mut OamDmaTransferer)
    ensures
        *final(dma) == armed_dma(register),
{
    dma.soure_address = (register as u16) * 256;
    dma.enable = if register < 0x80 {
        Some(AccessBus::External)
    } else if register < 0xA0 {
        Some(AccessBus::Video)
    } else {
        Some(AccessBus::External)
    };
    dma.dma_cycle_counter = 0;
}

} // verus!
