use lib_gbc::apu::WaveChannel;
use lib_gbc::mmu::GbcMmu;
use lib_gbc::frame_scaler::extend_vec;
use lib_gbc::machine::{GameBoy, FRAME_CYCLES};
use lib_gbc::mbc::{Mbc, MbcKind};

#[test]
fn extend_vec_blocks() {
    let image: Vec<u32> = vec![1, 2, 3, 4, 5, 6];
    let scaled = extend_vec(image, 2, 3, 2);
    assert_eq!(scaled.len(), 24);
    assert_eq!(&scaled[0..6], &[1, 1, 2, 2, 3, 3]);
    assert_eq!(&scaled[6..12], &[1, 1, 2, 2, 3, 3]);
    assert_eq!(&scaled[12..18], &[4, 4, 5, 5, 6, 6]);
    assert_eq!(&scaled[18..24], &[4, 4, 5, 5, 6, 6]);
}

#[test]
fn extend_vec_scale_one_is_identity() {
    let image: Vec<u32> = (0..12).collect();
    assert_eq!(extend_vec(image.clone(), 1, 4, 3), image);
}

#[test]
fn post_boot_registers() {
    let gb = GameBoy::new(Mbc::new(MbcKind::NoMbc, vec![0; 0x8000], vec![]));
    assert_eq!(gb.cpu.program_counter, 0x0100);
    assert_eq!(gb.cpu.stack_pointer, 0xFFFE);
    assert_eq!(gb.cpu.get_f(), 0xB0);
    assert_eq!(gb.cpu.a, 0x01);
}

#[test]
fn tick_order_and_interrupts() {
    let mut gb = GameBoy::new(Mbc::new(MbcKind::NoMbc, vec![0; 0x8000], vec![]));
    // timer at 16 T-cycles per increment, one step from overflow
    gb.mmu.write_unprotected(0xFF07, 0x05);
    gb.mmu.write_unprotected(0xFF05, 0xFF);
    gb.mmu.write_unprotected(0xFF06, 0x42);
    for _ in 0..4 {
        gb.tick(4);
    }
    assert_eq!(gb.mmu.read_unprotected(0xFF05), 0x00);
    assert_eq!(gb.mmu.read_unprotected(0xFF0F) & 0x04, 0x00);
    gb.tick(4);
    assert_eq!(gb.mmu.read_unprotected(0xFF05), 0x42);
    assert_eq!(gb.mmu.read_unprotected(0xFF0F) & 0x04, 0x04);
    assert_eq!(gb.mmu.read_unprotected(0xFF0F) & 0x01, 0x00);
    let mut cycles: u32 = 20;
    while cycles < 144 * 456 {
        gb.tick(4);
        cycles += 4;
    }
    assert_eq!(gb.mmu.read_unprotected(0xFF44), 144);
    assert_eq!(gb.mmu.read_unprotected(0xFF0F) & 0x01, 0x01);
    assert_eq!(gb.mmu.read_unprotected(0xFF41) & 0x03, 0x01);
    while cycles < FRAME_CYCLES {
        gb.tick(4);
        cycles += 4;
    }
    assert_eq!(gb.frame_cycle, 0);
    assert_eq!(gb.mmu.read_unprotected(0xFF44), 0);
}

#[test]
fn stat_interrupt_on_lyc_match() {
    let mut gb = GameBoy::new(Mbc::new(MbcKind::NoMbc, vec![0; 0x8000], vec![]));
    // LY == LYC source enabled, LYC = 2
    gb.mmu.write_unprotected(0xFF41, 0x40);
    gb.mmu.write_unprotected(0xFF45, 2);
    let mut cycles: u32 = 0;
    while cycles < 2 * 456 - 4 {
        gb.tick(4);
        cycles += 4;
    }
    assert_eq!(gb.mmu.read_unprotected(0xFF0F) & 0x02, 0x00);
    gb.tick(4);
    assert_eq!(gb.mmu.read_unprotected(0xFF44), 2);
    assert_eq!(gb.mmu.read_unprotected(0xFF0F) & 0x02, 0x02);
    assert_eq!(gb.mmu.read_unprotected(0xFF41) & 0x04, 0x04);
    assert!(gb.stat_line);
}

#[test]
fn div_write_resets_counter() {
    let mut gb = GameBoy::new(Mbc::new(MbcKind::NoMbc, vec![0; 0x8000], vec![]));
    for _ in 0..200 {
        gb.tick(4);
    }
    assert_eq!(gb.mmu.read(0xFF04), 3);
    gb.mmu.write(0xFF04, 0x77);
    assert_eq!(gb.mmu.read(0xFF04), 0);
    gb.tick(4);
    assert_eq!(gb.timer.divider, 4);
    assert_eq!(gb.mmu.read(0xFF04), 0);
    for _ in 0..63 {
        gb.tick(4);
    }
    assert_eq!(gb.mmu.read(0xFF04), 1);
}

#[test]
fn timer_counts_through_the_bus() {
    let mut gb = GameBoy::new(Mbc::new(MbcKind::NoMbc, vec![0; 0x8000], vec![]));
    gb.mmu.write(0xFF07, 0x05);
    gb.mmu.write(0xFF05, 0x10);
    gb.tick(16 * 7);
    assert_eq!(gb.mmu.read(0xFF05), 0x17);
    assert_eq!(gb.mmu.read(0xFF0F) & 0x04, 0);
}

#[test]
fn dma_armed_by_a_cpu_write_runs_in_tick() {
    let mut gb = GameBoy::new(Mbc::new(MbcKind::NoMbc, vec![0; 0x8000], vec![]));
    gb.mmu.set_ppu_state(lib_gbc::ppu_state::PpuState::Vblank);
    for i in 0..160u16 {
        gb.mmu.write(0xC000 + i, i as u8);
    }
    gb.mmu.write(0xFF46, 0xC0);
    gb.tick(4 * 160);
    assert!(gb.mmu.dma().enable.is_none());
    assert_eq!(gb.mmu.read_unprotected(0xFE00 + 77), 77);
}

#[test]
fn extend_vec_empty_width() {
    assert_eq!(extend_vec(Vec::new(), 3, 0, 5), Vec::<u32>::new());
}

#[test]
fn wave_channel_registers() {
    let mut mmu = GbcMmu::new(Mbc::new(MbcKind::NoMbc, vec![0; 0x8000], vec![]));
    mmu.write(0xFF1A, 0x80);
    mmu.write(0xFF1B, 0x3C);
    mmu.write(0xFF1C, 0x40);
    mmu.write(0xFF1D, 0x34);
    mmu.write(0xFF1E, 0xC6);
    for i in 0..16u16 {
        mmu.write(0xFF30 + i, 0x10 + i as u8);
    }
    let channel = WaveChannel::prepare_wave_channel(&mmu);
    assert!(channel.enable);
    assert_eq!(channel.sound_length, 0x3C);
    assert_eq!(channel.volume, 2);
    assert_eq!(channel.frequency, 0x634);
    assert!(channel.trigger && channel.length_enable);
    assert_eq!(channel.wave_samples[15], 0x1F);
}
