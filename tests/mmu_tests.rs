use lib_gbc::mbc::{Mbc, MbcKind, CartridgeError};
use lib_gbc::mmu::{GbcMmu, IO_PORTS_SIZE};
use lib_gbc::mmu_register_updater::{update_mmu_registers, handle_dma_transfer_register};
use lib_gbc::dma::{AccessBus, OamDmaTransferer};
use lib_gbc::ppu_state::PpuState;

fn rom_with_banks(size: usize) -> Vec<u8> {
    let mut rom = vec![0u8; size];
    for (i, b) in rom.iter_mut().enumerate() {
        *b = (i / 0x4000) as u8 ^ (i as u8);
    }
    rom
}

fn bus() -> GbcMmu {
    GbcMmu::new(Mbc::new(MbcKind::Mbc1, rom_with_banks(0x100000), vec![0; 0x8000]))
}

#[test]
fn mbc1_bank_select() {
    let rom = rom_with_banks(0x100000);
    let expected = rom[((0x01 << 5) | 0x01) * 0x4000];
    let mut mmu = GbcMmu::new(Mbc::new(MbcKind::Mbc1, rom, vec![]));
    mmu.write(0x2000, 0x21);
    mmu.write(0x4000, 0x01);
    assert_eq!(mmu.read(0x4000), expected);
    assert_eq!(expected, 0x21);
}

#[test]
fn mbc1_bank_zero_selects_one() {
    let mut mmu = bus();
    mmu.write(0x2000, 0x00);
    assert_eq!(mmu.read(0x4001), 0x01 ^ 0x01);
    assert_eq!(mmu.read(0x4002), 0x01 ^ 0x02);
}

#[test]
fn read_after_write_in_ram_regions() {
    let mut mmu = bus();
    mmu.set_ppu_state(PpuState::Vblank);
    for address in [0x8000u16, 0x9FFF, 0xC000, 0xCFFF, 0xD000, 0xDFFF, 0xFE00, 0xFE9F, 0xFF80, 0xFFFE, 0xFFFF] {
        mmu.write(address, 0x5A);
        assert_eq!(mmu.read(address), 0x5A);
    }
}

#[test]
fn echo_ram_mirrors_wram() {
    let mut mmu = bus();
    mmu.write(0xE010, 0x77);
    assert_eq!(mmu.read(0xC010), 0x77);
    mmu.write(0xD123, 0x66);
    assert_eq!(mmu.read(0xF123), 0x66);
}

#[test]
fn external_ram_needs_enable() {
    let mut mmu = bus();
    mmu.write(0xA000, 0x12);
    assert_eq!(mmu.read(0xA000), 0xFF);
    mmu.write(0x0000, 0x0A);
    mmu.write(0xA000, 0x12);
    assert_eq!(mmu.read(0xA000), 0x12);
    assert_eq!(mmu.mbc().external_ram()[0], 0x12);
}

#[test]
fn rom_and_unusable_region_ignore_writes() {
    let mut mmu = bus();
    let before = mmu.read(0x0150);
    mmu.write(0x0150, before.wrapping_add(1));
    assert_eq!(mmu.read(0x0150), before);
    mmu.write(0xFEA0, 0x42);
    assert_eq!(mmu.read(0xFEA0), 0x00);
}

#[test]
fn vram_and_oam_gated_by_ppu_mode() {
    let mut mmu = bus();
    // the bus starts in OAM search, which locks OAM
    mmu.write(0xFE00, 0x22);
    assert_eq!(mmu.read_unprotected(0xFE00), 0x00);
    mmu.set_ppu_state(PpuState::Hblank);
    mmu.write(0x8000, 0x11);
    mmu.write(0xFE00, 0x22);
    mmu.set_ppu_state(PpuState::PixelTransfer);
    assert_eq!(mmu.read(0x8000), 0xFF);
    assert_eq!(mmu.read(0xFE00), 0xFF);
    mmu.write(0x8000, 0x33);
    assert_eq!(mmu.read_unprotected(0x8000), 0x11);
    mmu.set_ppu_state(PpuState::OamSearch);
    assert_eq!(mmu.read(0x8000), 0x11);
    assert_eq!(mmu.read(0xFE00), 0xFF);
    mmu.set_ppu_state(PpuState::Hblank);
    assert_eq!(mmu.read(0xFE00), 0x22);
}

#[test]
fn dma_blocks_everything_but_hram() {
    let mut mmu = bus();
    mmu.set_ppu_state(PpuState::Hblank);
    mmu.write(0xC000, 0x99);
    mmu.write(0xFF80, 0x44);
    mmu.write(0xFF46, 0xC0);
    assert!(mmu.dma_trasfer_trigger());
    let mut ports = [false; IO_PORTS_SIZE];
    ports[0x46] = true;
    update_mmu_registers(&mut mmu, &ports);
    assert_eq!(mmu.dma().soure_address, 0xC000);
    for address in [0x0000u16, 0x4000, 0x8000, 0xA000, 0xC000, 0xE000, 0xFE00, 0xFF00, 0xFF7F] {
        assert_eq!(mmu.read(address), 0xFF);
    }
    assert_eq!(mmu.read(0xFF80), 0x44);
    mmu.write(0xC000, 0x01);
    assert_eq!(mmu.read_unprotected(0xC000), 0x99);
}

#[test]
fn dma_register_source_bus() {
    let mut dma = OamDmaTransferer::new();
    handle_dma_transfer_register(0x80, &mut dma);
    assert_eq!(dma.enable, Some(AccessBus::Video));
    assert_eq!(dma.soure_address, 0x8000);
    handle_dma_transfer_register(0xC1, &mut dma);
    assert_eq!(dma.enable, Some(AccessBus::External));
    assert_eq!(dma.soure_address, 0xC100);
}

#[test]
fn boot_rom_overlay_until_latched() {
    let mut rom = vec![0u8; 0x8000];
    rom[0x10] = 0xAA;
    let mut boot = [0u8; 0x100];
    boot[0x10] = 0x55;
    let mut mmu = GbcMmu::new_with_bootrom(Mbc::new(MbcKind::NoMbc, rom, vec![]), boot);
    assert_eq!(mmu.read(0x0010), 0x55);
    mmu.write(0xFF50, 1);
    update_mmu_registers(&mut mmu, &[false; IO_PORTS_SIZE]);
    assert!(mmu.finished_boot());
    assert_eq!(mmu.read(0x0010), 0xAA);
    mmu.write(0xFF50, 0);
    update_mmu_registers(&mut mmu, &[false; IO_PORTS_SIZE]);
    assert!(mmu.finished_boot());
}

#[test]
fn wram_bank_switch() {
    let mut mmu = bus();
    mmu.write(0xD000, 0x01);
    mmu.write(0xFF70, 2);
    update_mmu_registers(&mut mmu, &[false; IO_PORTS_SIZE]);
    assert_eq!(mmu.read(0xD000), 0x00);
    mmu.write(0xFF70, 0);
    update_mmu_registers(&mut mmu, &[false; IO_PORTS_SIZE]);
    assert_eq!(mmu.read(0xD000), 0x01);
}

#[test]
fn stat_mode_reflected() {
    let mut mmu = bus();
    mmu.write(0xFF41, 0x83);
    update_mmu_registers(&mut mmu, &[false; IO_PORTS_SIZE]);
    assert_eq!(mmu.ppu_state(), PpuState::PixelTransfer);
}

#[test]
fn cartridge_header_parsing() {
    assert_eq!(Mbc::from_rom(vec![0; 0x100]).err(), Some(CartridgeError::HeaderTooShort));
    let mut rom = vec![0u8; 0x8000];
    rom[0x147] = 0x05;
    assert_eq!(Mbc::from_rom(rom.clone()).err(), Some(CartridgeError::UnsupportedMbc(0x05)));
    rom[0x147] = 0x03;
    rom[0x149] = 0x09;
    assert_eq!(Mbc::from_rom(rom.clone()).err(), Some(CartridgeError::UnsupportedRamSize(0x09)));
    rom[0x149] = 0x03;
    let mbc = Mbc::from_rom(rom).ok().unwrap();
    assert_eq!(mbc.kind(), MbcKind::Mbc1);
    assert_eq!(mbc.external_ram().len(), 0x8000);
}

#[test]
fn external_ram_restore() {
    let mut mbc = Mbc::new(MbcKind::Mbc5, vec![0; 0x8000], vec![0; 0x2000]);
    assert!(!mbc.load_external_ram(vec![1; 0x100]));
    assert!(mbc.load_external_ram(vec![7; 0x2000]));
    mbc.write_rom(0x0000, 0x0A);
    assert_eq!(mbc.read_external_ram(0x10), 7);
}

#[test]
fn mbc5_nine_bit_bank() {
    let mut rom = vec![0u8; 0x404000];
    rom[0x400003] = 0xEE;
    rom[0x0003] = 0x11;
    let mut mbc = Mbc::new(MbcKind::Mbc5, rom, vec![]);
    mbc.write_rom(0x2000, 0x00);
    mbc.write_rom(0x3000, 0x01);
    assert_eq!(mbc.read_current_bank(0x0003), 0xEE);
    mbc.write_rom(0x3000, 0x00);
    assert_eq!(mbc.read_current_bank(0x0003), 0x11);
}

#[test]
fn oam_dma_copies_160_bytes() {
    let mut mmu = bus();
    mmu.set_ppu_state(PpuState::Hblank);
    for i in 0..160u16 {
        mmu.write(0xC100 + i, (i as u8) ^ 0x5A);
    }
    mmu.write(0xFF46, 0xC1);
    let mut ports = [false; IO_PORTS_SIZE];
    ports[0x46] = true;
    update_mmu_registers(&mut mmu, &ports);
    mmu.cycle_dma(10);
    assert_eq!(mmu.dma().dma_cycle_counter, 10);
    assert!(mmu.dma().enable.is_some());
    assert_eq!(mmu.read_unprotected(0xFE09), 9 ^ 0x5A);
    assert_eq!(mmu.read_unprotected(0xFE0A), 0);
    mmu.cycle_dma(1000);
    assert!(mmu.dma().enable.is_none());
    assert_eq!(mmu.read_unprotected(0xFE9F), 159 ^ 0x5A);
    assert_eq!(mmu.read(0xFE9F), 159 ^ 0x5A);
    assert_eq!(mmu.read(0xC100), 0x5A);
}

#[test]
fn div_write_stores_zero() {
    let mut mmu = bus();
    mmu.write_unprotected(0xFF04, 0x33);
    assert_eq!(mmu.read(0xFF04), 0x33);
    mmu.write(0xFF04, 0x99);
    assert_eq!(mmu.read(0xFF04), 0x00);
    assert!(mmu.div_reset());
}
