use lib_gbc::cpu::GbcCpu;
use lib_gbc::mbc::{Mbc, MbcKind};
use lib_gbc::mmu::GbcMmu;
use lib_gbc::interrupts::{get_pending_interrupt, handle_interrupts};
use lib_gbc::timer::Timer;
use lib_gbc::ppu::{GbcPpu, Color};
use lib_gbc::ppu_state::PpuState;

fn bus() -> GbcMmu {
    GbcMmu::new(Mbc::new(MbcKind::NoMbc, vec![0; 0x8000], vec![]))
}

#[test]
fn interrupt_priority_order() {
    assert_eq!(get_pending_interrupt(0x1F, 0x1F), Some(0));
    assert_eq!(get_pending_interrupt(0x1F, 0x1E), Some(1));
    assert_eq!(get_pending_interrupt(0x1C, 0x1F), Some(2));
    assert_eq!(get_pending_interrupt(0x18, 0x1F), Some(3));
    assert_eq!(get_pending_interrupt(0x10, 0x1F), Some(4));
    assert_eq!(get_pending_interrupt(0xE0, 0xFF), None);
    assert_eq!(get_pending_interrupt(0x01, 0x02), None);
}

#[test]
fn interrupt_dispatch() {
    let mut mmu = bus();
    let mut cpu = GbcCpu::default();
    cpu.program_counter = 0x1234;
    cpu.stack_pointer = 0xFFFE;
    cpu.mie = true;
    mmu.write(0xFFFF, 0x1F);
    mmu.write(0xFF0F, 0x06);
    assert_eq!(handle_interrupts(&mut cpu, &mut mmu), 20);
    assert_eq!(cpu.program_counter, 0x48);
    assert!(!cpu.mie);
    assert_eq!(mmu.read(0xFF0F), 0x04);
    assert_eq!(mmu.read(0xFFFD), 0x12);
    assert_eq!(mmu.read(0xFFFC), 0x34);
    cpu.halt = true;
    assert_eq!(handle_interrupts(&mut cpu, &mut mmu), 0);
    assert!(!cpu.halt);
    assert_eq!(cpu.program_counter, 0x48);
}

#[test]
fn timer_16_cycle_rate() {
    for n in [0u32, 1, 5, 200] {
        let mut timer = Timer::new();
        timer.divider = 0x1234;
        timer.tac_register = 0x05;
        let irq = timer.cycle(16 * n);
        assert_eq!(timer.tima_register as u32, n);
        assert!(!irq);
    }
}

#[test]
fn timer_overflow_reloads() {
    let mut timer = Timer::new();
    timer.tac_register = 0x05;
    timer.tima_register = 0xFF;
    timer.tma_register = 0xAB;
    // the overflow leaves 0 for one M-cycle, then TMA is loaded
    assert!(!timer.cycle(16));
    assert_eq!(timer.tima_register, 0x00);
    assert!(!timer.cycle(3));
    assert_eq!(timer.tima_register, 0x00);
    assert!(timer.cycle(1));
    assert_eq!(timer.tima_register, 0xAB);
    timer.reset_divider();
    assert_eq!(timer.div_register(), 0);
    timer.cycle(512);
    assert_eq!(timer.div_register(), 2);
}

#[test]
fn timer_disabled_keeps_tima() {
    let mut timer = Timer::new();
    timer.tac_register = 0x01;
    assert!(!timer.cycle(1000));
    assert_eq!(timer.tima_register, 0);
}

#[test]
fn ly_advances_every_456_cycles() {
    let mmu = bus();
    let mut ppu = GbcPpu::default();
    let mut expected: u8 = 0;
    for c in (0u32..(154 * 456 + 2 * 456)).step_by(456) {
        ppu.update_gb_screen(&mmu, c);
        assert_eq!(ppu.current_line_drawn, Some(expected));
        ppu.update_gb_screen(&mmu, c + 455);
        assert_eq!(ppu.current_line_drawn, Some(expected));
        expected = if expected == 153 { 0 } else { expected + 1 };
    }
}

#[test]
fn ppu_modes_within_a_line() {
    let mmu = bus();
    let mut ppu = GbcPpu::default();
    ppu.update_gb_screen(&mmu, 0);
    assert_eq!(ppu.state, PpuState::OamSearch);
    ppu.update_gb_screen(&mmu, 80);
    assert_eq!(ppu.state, PpuState::PixelTransfer);
    ppu.update_gb_screen(&mmu, 252);
    assert_eq!(ppu.state, PpuState::Hblank);
    ppu.update_gb_screen(&mmu, 144 * 456);
    assert_eq!(ppu.state, PpuState::Vblank);
}

#[test]
fn background_line_renders_through_bgp() {
    let mut mmu = bus();
    // LCDC: display on, BG on, tile data at 0x8000
    mmu.write(0xFF40, 0x91);
    // BGP: color 1 -> shade 2 (dark gray), color 3 -> black
    mmu.write(0xFF47, 0b1100_1000);
    // tile 1: first row, leftmost pixel color 1, next pixel color 3
    mmu.write(0x8010, 0b1100_0000);
    mmu.write(0x8011, 0b0100_0000);
    // map entry for the second tile column of row 0
    mmu.write(0x9801, 0x01);
    let mut ppu = GbcPpu::default();
    ppu.update_registers(&mmu);
    assert_eq!(ppu.bg_color_mapping[1], Color { r: 0x55, g: 0x55, b: 0x55 });
    ppu.update_gb_screen(&mmu, 0);
    let frame = ppu.get_frame_buffer();
    assert_eq!(frame[8], 0x555555);
    assert_eq!(frame[9], 0x000000);
    assert_eq!(frame[10], 0xFFFFFF);
    assert_eq!(frame[0], 0xFFFFFF);
}

#[test]
fn window_covers_from_wx_minus_7() {
    let mut mmu = bus();
    // LCDC: display, window on (map 0x9800), BG on, tile data 0x8000
    mmu.write(0xFF40, 0xB1);
    mmu.write(0xFF47, 0xE4);
    mmu.write(0xFF4A, 0);
    mmu.write(0xFF4B, 7 + 100);
    // tile 2 all black in row 0
    mmu.write(0x8020, 0xFF);
    mmu.write(0x8021, 0xFF);
    mmu.write(0x9800, 0x02);
    let mut ppu = GbcPpu::default();
    ppu.update_registers(&mmu);
    ppu.update_gb_screen(&mmu, 0);
    let frame = ppu.get_frame_buffer();
    assert_eq!(frame[99], 0xFFFFFF);
    assert_eq!(frame[100], 0x000000);
    assert_eq!(frame[108], 0xFFFFFF);
    assert_eq!(ppu.window_line_counter, 1);
}

#[test]
fn disabled_background_shows_color_zero() {
    let mmu = bus();
    let mut ppu = GbcPpu::default();
    ppu.bg_color_mapping[0] = Color { r: 1, g: 2, b: 3 };
    ppu.update_gb_screen(&mmu, 456 * 5);
    assert_eq!(ppu.get_frame_buffer()[5 * 160 + 17], 0x010203);
}

fn sprite_bus() -> GbcMmu {
    let mut mmu = bus();
    mmu.set_ppu_state(PpuState::Hblank);
    // display, tile data at 0x8000, objects on, background on
    mmu.write(0xFF40, 0x93);
    mmu.write(0xFF47, 0xE4);
    mmu.write(0xFF48, 0xE4);
    mmu.write(0xFF49, 0x1B);
    // tile 3, row 0: leftmost pixel color 1
    mmu.write(0x8030, 0x80);
    // tile 4, row 0: all pixels color 3
    mmu.write(0x8040, 0xFF);
    mmu.write(0x8041, 0xFF);
    mmu
}

fn put_object(mmu: &mut GbcMmu, entry: u16, y: u8, x: u8, tile: u8, attributes: u8) {
    mmu.write(0xFE00 + 4 * entry, y);
    mmu.write(0xFE00 + 4 * entry + 1, x);
    mmu.write(0xFE00 + 4 * entry + 2, tile);
    mmu.write(0xFE00 + 4 * entry + 3, attributes);
}

fn render_line_zero(mmu: &GbcMmu) -> Vec<u32> {
    let mut ppu = GbcPpu::default();
    ppu.update_registers(mmu);
    ppu.update_gb_screen(mmu, 0);
    ppu.get_frame_buffer()[0..160].to_vec()
}

#[test]
fn object_drawn_through_obp0() {
    let mut mmu = sprite_bus();
    put_object(&mut mmu, 0, 16, 8 + 10, 3, 0x00);
    let line = render_line_zero(&mmu);
    assert_eq!(line[10], 0xAAAAAA);
    assert_eq!(line[11], 0xFFFFFF);
    assert_eq!(line[9], 0xFFFFFF);
}

#[test]
fn object_palette_and_flip() {
    let mut mmu = sprite_bus();
    // OBP1, flipped horizontally: the opaque pixel is the rightmost one
    put_object(&mut mmu, 0, 16, 8 + 10, 3, 0x30);
    let line = render_line_zero(&mmu);
    assert_eq!(line[10], 0xFFFFFF);
    // OBP1 = 0x1B maps color 1 to shade 2
    assert_eq!(line[17], 0x555555);
}

#[test]
fn lower_x_object_wins() {
    let mut mmu = sprite_bus();
    put_object(&mut mmu, 0, 16, 8 + 10, 3, 0x00);
    put_object(&mut mmu, 1, 16, 8 + 9, 4, 0x00);
    let line = render_line_zero(&mmu);
    assert_eq!(line[10], 0x000000);
    assert_eq!(line[9], 0x000000);
}

#[test]
fn transparent_pixel_lets_next_object_show() {
    let mut mmu = sprite_bus();
    put_object(&mut mmu, 0, 16, 8 + 10, 3, 0x00);
    put_object(&mut mmu, 1, 16, 8 + 11, 4, 0x00);
    let line = render_line_zero(&mmu);
    assert_eq!(line[10], 0xAAAAAA);
    assert_eq!(line[11], 0x000000);
}

#[test]
fn background_priority_hides_object() {
    let mut mmu = sprite_bus();
    // background tile 4 (color 3) at map column 1
    mmu.write(0x9801, 0x04);
    put_object(&mut mmu, 0, 16, 8 + 8, 3, 0x80);
    put_object(&mut mmu, 1, 16, 8 + 0, 3, 0x80);
    let line = render_line_zero(&mmu);
    assert_eq!(line[8], 0x000000);
    assert_eq!(line[0], 0xAAAAAA);
}

#[test]
fn at_most_ten_objects_per_line() {
    let mut mmu = sprite_bus();
    for entry in 0..11u16 {
        put_object(&mut mmu, entry, 16, 8 + 12 * entry as u8, 3, 0x00);
    }
    let line = render_line_zero(&mmu);
    assert_eq!(line[12 * 9], 0xAAAAAA);
    assert_eq!(line[12 * 10], 0xFFFFFF);
}

#[test]
fn tall_objects_use_tile_pairs() {
    let mut mmu = sprite_bus();
    // 8x16 objects
    mmu.write(0xFF40, 0x97);
    // row 8 of an 8x16 object with tile 3 is row 0 of tile 3 (3 & !1 = 2, then +1)
    put_object(&mut mmu, 0, 16 - 8, 8 + 20, 3, 0x00);
    let line = render_line_zero(&mmu);
    assert_eq!(line[20], 0xAAAAAA);
}

#[test]
fn tile_decoding_both_addressing_modes() {
    let mut mmu = bus();
    // tile 1 at 0x8010: row 2 is 0b1000_0001 / 0b1000_0000
    mmu.write(0x8014, 0x81);
    mmu.write(0x8015, 0x80);
    // tile 0x01 in signed mode lives at 0x9010
    mmu.write(0x9010, 0x00);
    mmu.write(0x9011, 0xFF);
    let mut ppu = GbcPpu::default();
    ppu.window_tile_background_map_data_address = true;
    let sprite = ppu.get_bg_sprite(1, &mmu);
    assert_eq!(sprite.pixels[2 * 8], 3);
    assert_eq!(sprite.pixels[2 * 8 + 7], 1);
    assert_eq!(sprite.pixels[2 * 8 + 3], 0);
    ppu.window_tile_background_map_data_address = false;
    let sprite = ppu.get_bg_sprite(1, &mmu);
    assert_eq!(&sprite.pixels[0..8], &[2, 2, 2, 2, 2, 2, 2, 2]);
}
