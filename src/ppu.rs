use vstd::prelude::*;
use crate::mmu::{GbcMmu, MmuState};
use crate::ppu_state::PpuState;
use crate::memory_registers::{
    LCDC_REGISTER_ADDRESS,
    SCY_REGISTER_ADDRESS,
    SCX_REGISTER_ADDRESS,
    BGP_REGISTER_ADDRESS,
    OBP0_REGISTER_ADDRESS,
    OBP1_REGISTER_ADDRESS,
    WY_REGISTER_ADDRESS,
    WX_REGISTER_ADDRESS,
};
use vstd::arithmetic::div_mod::{lemma_fundamental_div_mod_converse_div, lemma_add_mod_noop};

verus! {

pub const SCREEN_HEIGHT: usize = 144;
pub const SCREEN_WIDTH: usize = 160;
pub const SCREEN_SIZE: usize = 23040;
/// T-cycles of one scanline.
pub const LINE_CLOCKS: u32 = 456;
/// T-cycles of OAM search at the start of a visible line.
pub const OAM_CLOCKS: u32 = 80;
/// T-cycles of pixel transfer after OAM search.
pub const PIXEL_TRANSFER_CLOCKS: u32 = 172;
/// Number of LY values: 144 visible lines and 10 of V-blank.
pub const LY_LINES: u32 = 154;

/// An RGB color.
#[derive(Clone, Copy, Debug, PartialEq, Eq, Structural)]
pub struct Color {
    pub r: u8,
    pub g: u8,
    pub b: u8,
}

/// The four DMG shades, from white (0) to black (3).
pub open spec fn shade_spec(index: u8) -> Color {
    let v: u8 = if index % 4 == 0 {
        0xFF
    } else if index % 4 == 1 {
        0xAA
    } else if index % 4 == 2 {
        0x55
    } else {
        0x00
    };
    Color { r: v, g: v, b: v }
}

pub fn shade(index: u8) -> (r: Color)
    ensures
        r == shade_spec(index),
{
    let m = index % 4;
    let v: u8 = if m == 0 {
        0xFF
    } else if m == 1 {
        0xAA
    } else if m == 2 {
        0x55
    } else {
        0x00
    };
    Color { r: v, g: v, b: v }
}

/// A color as a 0x00RRGGBB pixel.
pub open spec fn color_value(color: Color) -> u32 {
    (color.r as int * 65536 + color.g as int * 256 + color.b as int) as u32
}

/// The 2-bit color index of column `col` (0 leftmost) of a tile row whose
/// bit planes are `lo` and `hi`.
pub open spec fn pixel_index(lo: u8, hi: u8, col: int) -> u8 {
    ((lo >> ((7 - col) as u8)) % 2 + ((hi >> ((7 - col) as u8)) % 2) * 2) as u8
}

/// The color index of pixel (`row`, `col`) of the tile at `tile_address`.
pub open spec fn tile_pixel_spec(m: MmuState, tile_address: int, row: int, col: int) -> u8 {
    pixel_index(
        m.read_unprotected((tile_address + row * 2) as u16),
        m.read_unprotected((tile_address + row * 2 + 1) as u16),
        col,
    )
}

/// LY during T-cycle `cycle_counter` of the frame clock: one line per 456
/// T-cycles, wrapping from 153 to 0.
pub open spec fn ly_of(cycle_counter: int) -> int {
    (cycle_counter / LINE_CLOCKS as int) % LY_LINES as int
}

/// The PPU mode at T-cycle `cycle_counter` on line `ly`.
pub open spec fn ppu_state_at(cycle_counter: int, ly: int) -> PpuState {
    if ly >= SCREEN_HEIGHT {
        PpuState::Vblank
    } else if cycle_counter % (LINE_CLOCKS as int) < OAM_CLOCKS {
        PpuState::OamSearch
    } else if cycle_counter % (LINE_CLOCKS as int) < OAM_CLOCKS + PIXEL_TRANSFER_CLOCKS {
        PpuState::PixelTransfer
    } else {
        PpuState::Hblank
    }
}

/// Each LY value lasts exactly 456 T-cycles: LY is constant over a line that
/// starts at T-cycle `c`, and the next line has the next LY, 153 wrapping to 0.
pub proof fn lemma_scanline_period(c: int)
    requires
        c >= 0,
        c % (LINE_CLOCKS as int) == 0,
    ensures
        0 <= ly_of(c) < LY_LINES,
        forall|k: int| 0 <= k < LINE_CLOCKS ==> #[trigger] ly_of(c + k) == ly_of(c),
        ly_of(c + LINE_CLOCKS) == (ly_of(c) + 1) % (LY_LINES as int),
{
    let q = c / 456;
    lemma_fundamental_div_mod_converse_div(c, 456, q, 0);
    assert forall|k: int| 0 <= k < LINE_CLOCKS implies #[trigger] ly_of(c + k) == ly_of(c) by {
        lemma_fundamental_div_mod_converse_div(c + k, 456, q, k);
    }
    lemma_fundamental_div_mod_converse_div(c + 456, 456, q + 1, 0);
    lemma_add_mod_noop(q, 1, 154);
}

/// Bit `i` of `value`.
pub open spec fn bit_of(value: u8, i: u8) -> bool {
    (value >> i) % 2 == 1
}

/// The shade that palette register `palette` gives color index `i`.
pub open spec fn palette_color(palette: u8, i: int) -> Color {
    shade_spec((palette >> ((2 * i) as u8)) % 4)
}

fn palette_entry(palette: u8, i: u8) -> (r: Color)
    requires
        i < 4,
    ensures
        r == palette_color(palette, i as int),
{
    shade((palette >> (2 * i)) % 4)
}

/// Byte `k` of OAM entry `i`: Y + 16, X + 8, tile, attributes.
pub open spec fn oam_byte(m: MmuState, i: int, k: int) -> u8 {
    m.read_unprotected((0xFE00 + 4 * i + k) as u16)
}

/// What an object contributes to one pixel.
#[derive(Clone, Copy, Debug, PartialEq, Eq, Structural)]
pub struct ObjectPixel {
    pub color_index: u8,
    /// Attribute bit 4: OBP1 rather than OBP0.
    pub palette1: bool,
    /// Attribute bit 7: background colors 1-3 hide the object.
    pub behind_background: bool,
}

/// A scroll or window position.
#[derive(Clone, Copy, Debug, PartialEq, Eq, Structural)]
pub struct Vec2 {
    pub x: u8,
    pub y: u8,
}

/// A decoded 8x8 tile: 64 color indices, row by row.
pub struct Sprite {
    pub pixels: Vec<u8>,
}

impl Sprite {
    pub fn new() -> (r: Sprite)
        ensures
            r.pixels@ == Seq::new(64, |i: int| 0u8),
    {
        let mut pixels: Vec<u8> = Vec::new();
        while pixels.len() < 64
            invariant
                pixels@.len() <= 64,
                forall|i: int| 0 <= i < pixels@.len() ==> pixels@[i] == 0,
            decreases 64 - pixels@.len(),
        {
            pixels.push(0);
        }
        assert(pixels@ =~= Seq::new(64, |i: int| 0u8));
        Sprite { pixels }
    }
}

/// The picture processing unit: LCDC and palette state, the line counter, and
/// the 160x144 frame buffer it renders into.
pub struct GbcPpu {
    pub screen_buffer: Vec<u32>,
    pub screen_enable: bool,
    pub window_enable: bool,
    pub sprite_extended: bool,
    pub background_enabled: bool,
    pub gbc_mode: bool,
    pub sprite_enable: bool,
    pub window_tile_map_address: bool,
    pub window_tile_background_map_data_address: bool,
    pub background_tile_map_address: bool,
    pub background_scroll: Vec2,
    pub window_scroll: Vec2,
    pub bg_color_mapping: [Color; 4],
    pub obj_color_mapping0: [Option<Color>; 4],
    pub obj_color_mapping1: [Option<Color>; 4],
    pub current_line_drawn: Option<u8>,
    pub state: PpuState,
    /// The window line to draw next; it advances only on lines that show the
    /// window.
    pub window_line_counter: u8,
}

/// The height of objects: 16 rows where LCDC bit 2 is set, else 8.
pub open spec fn object_height(extended: bool) -> int {
    if extended { 16 } else { 8 }
}

/// OAM entry `i` covers line `ly`.
pub open spec fn object_on_line(m: MmuState, extended: bool, i: int, ly: u8) -> bool {
    let y = oam_byte(m, i, 0);
    y <= ly + 16 < y + object_height(extended)
}

/// The objects drawn on line `ly` among the first `n` OAM entries: in OAM
/// order, at most 10.
pub open spec fn line_objects(m: MmuState, extended: bool, ly: u8, n: int) -> Seq<u8>
    decreases n,
{
    if n <= 0 {
        Seq::empty()
    } else {
        let s = line_objects(m, extended, ly, n - 1);
        if s.len() < 10 && object_on_line(m, extended, n - 1, ly) {
            s.push((n - 1) as u8)
        } else {
            s
        }
    }
}

/// The color index that object `i`, which covers line `ly`, shows at
/// column `x`; 0 (transparent) outside it. Attribute bits 5 and 6 flip it.
pub open spec fn object_index_at(m: MmuState, extended: bool, i: int, ly: u8, x: int) -> u8 {
    let y = oam_byte(m, i, 0);
    let xo = oam_byte(m, i, 1);
    let tile = oam_byte(m, i, 2);
    let attr = oam_byte(m, i, 3);
    if xo <= x + 8 < xo + 8 {
        let col0 = x + 8 - xo;
        let row0 = ly + 16 - y;
        let col = if bit_of(attr, 5) { 7 - col0 } else { col0 };
        let row = if bit_of(attr, 6) { object_height(extended) - 1 - row0 } else { row0 };
        let base = if extended { tile - tile % 2 } else { tile as int };
        tile_pixel_spec(m, 0x8000 + base * 16, row, col)
    } else {
        0
    }
}

/// Of the first `n` objects of `sel`, the one shown at (`x`, `ly`): an
/// opaque pixel, the lowest X, then the lowest OAM index.
pub open spec fn best_object(m: MmuState, extended: bool, ly: u8, x: int, sel: Seq<u8>, n: int) -> Option<u8>
    decreases n,
{
    if n <= 0 {
        None
    } else {
        let prev = best_object(m, extended, ly, x, sel, n - 1);
        let i = sel[n - 1];
        if object_index_at(m, extended, i as int, ly, x) != 0 && (prev.is_none() || oam_byte(
            m,
            i as int,
            1,
        ) < oam_byte(m, prev.unwrap() as int, 1)) {
            Some(i)
        } else {
            prev
        }
    }
}

proof fn lemma_line_objects(m: MmuState, extended: bool, ly: u8, n: int)
    requires
        0 <= n <= 40,
    ensures
        line_objects(m, extended, ly, n).len() <= 10,
        forall|k: int|
            0 <= k < line_objects(m, extended, ly, n).len() ==> (#[trigger] line_objects(m, extended, ly, n)[k]) < n && object_on_line(m, extended, line_objects(m, extended, ly, n)[k] as int, ly),
    decreases n,
{
    if n > 0 {
        lemma_line_objects(m, extended, ly, n - 1);
    }
}

/// `new` is `old` with LCDC, SCY, SCX, WY, WX, BGP, OBP0 and OBP1 of bus `m`
/// read into it.
pub open spec fn registers_loaded(old: &GbcPpu, new: &GbcPpu, m: MmuState) -> bool {
    let lcdc = m.read_unprotected(LCDC_REGISTER_ADDRESS);
    let bgp = m.read_unprotected(BGP_REGISTER_ADDRESS);
    let obp0 = m.read_unprotected(OBP0_REGISTER_ADDRESS);
    let obp1 = m.read_unprotected(OBP1_REGISTER_ADDRESS);
    &&& new.screen_enable == bit_of(lcdc, 7)
    &&& new.window_tile_map_address == bit_of(lcdc, 6)
    &&& new.window_enable == bit_of(lcdc, 5)
    &&& new.window_tile_background_map_data_address == bit_of(lcdc, 4)
    &&& new.background_tile_map_address == bit_of(lcdc, 3)
    &&& new.sprite_extended == bit_of(lcdc, 2)
    &&& new.sprite_enable == bit_of(lcdc, 1)
    &&& new.background_enabled == bit_of(lcdc, 0)
    &&& new.background_scroll == (Vec2 {
        x: m.read_unprotected(SCX_REGISTER_ADDRESS),
        y: m.read_unprotected(SCY_REGISTER_ADDRESS),
    })
    &&& new.window_scroll == (Vec2 {
        x: m.read_unprotected(WX_REGISTER_ADDRESS),
        y: m.read_unprotected(WY_REGISTER_ADDRESS),
    })
    &&& forall|i: int|
        0 <= i < 4 ==> new.bg_color_mapping@[i] == palette_color(bgp, i)
    &&& new.obj_color_mapping0@[0].is_none()
    &&& new.obj_color_mapping1@[0].is_none()
    &&& forall|i: int|
        1 <= i < 4 ==> new.obj_color_mapping0@[i] == Some(
            palette_color(obp0, i),
        ) && new.obj_color_mapping1@[i] == Some(palette_color(obp1, i))
    &&& new.screen_buffer == old.screen_buffer
    &&& new.gbc_mode == old.gbc_mode
    &&& new.current_line_drawn == old.current_line_drawn
    &&& new.state == old.state
    &&& new.window_line_counter == old.window_line_counter
    }

/// `new` is `old` advanced to T-cycle `cycle_counter` of the frame clock over
/// bus `m`: LY and the mode set, and the line rendered when LY has just
/// changed to a visible one.
pub open spec fn screen_updated(old: &GbcPpu, new: &GbcPpu, m: MmuState, cycle_counter: int) -> bool {
    let ly = ly_of(cycle_counter) as u8;
    let drawn = old.current_line_drawn != Some(ly) && ly < SCREEN_HEIGHT;
    let row: u8 = if ly == 0 { 0 } else { old.window_line_counter };
    &&& new.wf()
    &&& new.same_registers(old)
    &&& new.current_line_drawn == Some(ly)
    &&& new.state == ppu_state_at(cycle_counter, ly as int)
    &&& drawn ==> forall|x: int|
        0 <= x < SCREEN_WIDTH ==> new.screen_buffer@[ly * SCREEN_WIDTH + x]
    == old.pixel_spec(m, ly, row, x)
    &&& drawn ==> forall|i: int|
        0 <= i < SCREEN_SIZE && !(ly * SCREEN_WIDTH <= i < ly * SCREEN_WIDTH
    + SCREEN_WIDTH) ==> new.screen_buffer@[i]
    == old.screen_buffer@[i]
    &&& drawn ==> new.window_line_counter == if old.window_on_line(ly)
        && row < 255 {
        (row + 1) as u8
    } else {
        row
    }
    &&& !drawn ==> new.screen_buffer@ == old.screen_buffer@
        && new.window_line_counter == old.window_line_counter
    }

/// A pixel depends only on the PPU's registers, not on its frame buffer,
/// LY, mode or window line counter.
proof fn lemma_pixel_spec_registers(a: &GbcPpu, b: &GbcPpu, m: MmuState, ly: u8, row: u8, x: int)
    requires
        a.same_registers(b),
    ensures
        a.pixel_spec(m, ly, row, x) == b.pixel_spec(m, ly, row, x),
{
}

impl Default for GbcPpu {
    /// A blank screen, every LCDC feature off, the identity palettes, and no
    /// line drawn yet.
    fn default() -> (r: GbcPpu)
        ensures
            r.wf(),
            forall|i: int| 0 <= i < SCREEN_SIZE ==> r.screen_buffer@[i] == 0,
            !r.screen_enable && !r.window_enable && !r.sprite_extended && !r.background_enabled,
            !r.gbc_mode && !r.sprite_enable && !r.window_tile_map_address,
            !r.window_tile_background_map_data_address && !r.background_tile_map_address,
            r.background_scroll == (Vec2 { x: 0, y: 0 }),
            r.window_scroll == (Vec2 { x: 0, y: 0 }),
            forall|i: int| 0 <= i < 4 ==> r.bg_color_mapping@[i] == shade_spec(i as u8),
            r.obj_color_mapping0@[0].is_none() && r.obj_color_mapping1@[0].is_none(),
            forall|i: int|
                1 <= i < 4 ==> r.obj_color_mapping0@[i] == Some(shade_spec(i as u8))
                    && r.obj_color_mapping1@[i] == Some(shade_spec(i as u8)),
            r.current_line_drawn.is_none(),
            r.state == PpuState::OamSearch,
            r.window_line_counter == 0,
    {
        let mut screen_buffer: Vec<u32> = Vec::new();
        while screen_buffer.len() < SCREEN_SIZE
            invariant
                screen_buffer@.len() <= SCREEN_SIZE,
                forall|i: int| 0 <= i < screen_buffer@.len() ==> screen_buffer@[i] == 0,
            decreases SCREEN_SIZE - screen_buffer@.len(),
        {
            screen_buffer.push(0);
        }
        GbcPpu {
            screen_buffer,
            screen_enable: false,
            window_enable: false,
            sprite_extended: false,
            background_enabled: false,
            gbc_mode: false,
            sprite_enable: false,
            window_tile_map_address: false,
            window_tile_background_map_data_address: false,
            background_tile_map_address: false,
            background_scroll: Vec2 { x: 0, y: 0 },
            window_scroll: Vec2 { x: 0, y: 0 },
            bg_color_mapping: [shade(0), shade(1), shade(2), shade(3)],
            obj_color_mapping0: [None, Some(shade(1)), Some(shade(2)), Some(shade(3))],
            obj_color_mapping1: [None, Some(shade(1)), Some(shade(2)), Some(shade(3))],
            current_line_drawn: None,
            state: PpuState::OamSearch,
            window_line_counter: 0,
        }
    }
}

impl GbcPpu {
    pub open spec fn wf(&self) -> bool {
        self.screen_buffer@.len() == SCREEN_SIZE
    }

    pub open spec fn bg_map_base(&self) -> int {
        if self.background_tile_map_address { 0x9C00 } else { 0x9800 }
    }

    pub open spec fn window_map_base(&self) -> int {
        if self.window_tile_map_address { 0x9C00 } else { 0x9800 }
    }

    /// Where the data of tile `tile` starts: unsigned from 0x8000, or signed
    /// around 0x9000.
    pub open spec fn tile_address(&self, tile: u8) -> int {
        if self.window_tile_background_map_data_address {
            0x8000 + tile as int * 16
        } else {
            0x8800 + ((tile as int + 128) % 256) * 16
        }
    }

    /// The color index of the background at screen pixel (`x`, `ly`).
    pub open spec fn bg_pixel_index(&self, m: MmuState, ly: u8, x: int) -> u8 {
        let y = (ly as int + self.background_scroll.y as int) % 256;
        let bx = (x + self.background_scroll.x as int) % 256;
        let tile = m.read_unprotected((self.bg_map_base() + (y / 8) * 32 + bx / 8) as u16);
        tile_pixel_spec(m, self.tile_address(tile), y % 8, bx % 8)
    }

    /// The background's color index at (`x`, `ly`); 0 where the background is off.
    pub open spec fn bg_index_spec(&self, m: MmuState, ly: u8, x: int) -> u8 {
        if self.background_enabled { self.bg_pixel_index(m, ly, x) } else { 0 }
    }

    /// The window is drawn on line `ly`.
    pub open spec fn window_on_line(&self, ly: u8) -> bool {
        self.window_enable && self.window_scroll.y <= ly && self.window_scroll.x <= 166
    }

    /// The window covers screen pixel (`x`, `ly`).
    pub open spec fn window_visible(&self, ly: u8, x: int) -> bool {
        self.window_on_line(ly) && x + 7 >= self.window_scroll.x
    }

    /// The window's color index at screen column `x` when drawing window line `row`.
    pub open spec fn window_index_spec(&self, m: MmuState, row: u8, x: int) -> u8 {
        let wx = x + 7 - self.window_scroll.x;
        let tile = m.read_unprotected((self.window_map_base() + (row / 8) * 32 + wx / 8) as u16);
        tile_pixel_spec(m, self.tile_address(tile), (row % 8) as int, wx % 8)
    }

    /// The color index below the objects at (`x`, `ly`): the window's where it
    /// covers the pixel, the background's elsewhere.
    pub open spec fn under_index_spec(&self, m: MmuState, ly: u8, row: u8, x: int) -> u8 {
        if self.window_visible(ly, x) {
            self.window_index_spec(m, row, x)
        } else {
            self.bg_index_spec(m, ly, x)
        }
    }

    /// The object pixel at (`x`, `ly`), if an object shows one there.
    pub open spec fn object_pixel_spec(&self, m: MmuState, ly: u8, x: int) -> Option<ObjectPixel> {
        let sel = line_objects(m, self.sprite_extended, ly, 40);
        match best_object(m, self.sprite_extended, ly, x, sel, sel.len() as int) {
            Some(i) => Some(
                ObjectPixel {
                    color_index: object_index_at(m, self.sprite_extended, i as int, ly, x),
                    palette1: bit_of(oam_byte(m, i as int, 3), 4),
                    behind_background: bit_of(oam_byte(m, i as int, 3), 7),
                },
            ),
            None => None,
        }
    }

    pub open spec fn obj_color_spec(&self, color: u8, palette1: bool) -> Option<Color> {
        if palette1 {
            self.obj_color_mapping1@[color as int]
        } else {
            self.obj_color_mapping0@[color as int]
        }
    }

    /// The color of object pixel `o` over color index `under`, unless the
    /// object is behind colors 1-3 of the background or transparent.
    pub open spec fn shown_object_color(&self, o: Option<ObjectPixel>, under: u8) -> Option<Color> {
        match o {
            Some(p) => if p.behind_background && under != 0 {
                None
            } else {
                self.obj_color_spec(p.color_index, p.palette1)
            },
            None => None,
        }
    }

    /// The pixel shown at (`x`, `ly`), window line `row` being the one drawn.
    pub open spec fn pixel_spec(&self, m: MmuState, ly: u8, row: u8, x: int) -> u32 {
        let under = self.under_index_spec(m, ly, row, x);
        let o = if self.sprite_enable { self.object_pixel_spec(m, ly, x) } else { None };
        match self.shown_object_color(o, under) {
            Some(c) => color_value(c),
            None => color_value(self.bg_color_mapping@[under as int]),
        }
    }

    /// Every field but the frame buffer, LY, mode and window line agree.
    pub open spec fn same_registers(&self, o: &GbcPpu) -> bool {
        &&& self.screen_enable == o.screen_enable
        &&& self.window_enable == o.window_enable
        &&& self.sprite_extended == o.sprite_extended
        &&& self.background_enabled == o.background_enabled
        &&& self.gbc_mode == o.gbc_mode
        &&& self.sprite_enable == o.sprite_enable
        &&& self.window_tile_map_address == o.window_tile_map_address
        &&& self.window_tile_background_map_data_address == o.window_tile_background_map_data_address
        &&& self.background_tile_map_address == o.background_tile_map_address
        &&& self.background_scroll == o.background_scroll
        &&& self.window_scroll == o.window_scroll
        &&& self.bg_color_mapping == o.bg_color_mapping
        &&& self.obj_color_mapping0 == o.obj_color_mapping0
        &&& self.obj_color_mapping1 == o.obj_color_mapping1
    }

    /// Reads LCDC, SCY, SCX, WY, WX, BGP, OBP0 and OBP1 into the PPU's state.
    pub fn update_registers(&mut self, memory: &GbcMmu)
        requires
            memory@.wf(),
        ensures
            registers_loaded(old(self), final(self), memory@),
    {
        let lcdc = memory.read_unprotected(LCDC_REGISTER_ADDRESS);
        self.screen_enable = (lcdc >> 7u8) % 2 == 1;
        self.window_tile_map_address = (lcdc >> 6u8) % 2 == 1;
        self.window_enable = (lcdc >> 5u8) % 2 == 1;
        self.window_tile_background_map_data_address = (lcdc >> 4u8) % 2 == 1;
        self.background_tile_map_address = (lcdc >> 3u8) % 2 == 1;
        self.sprite_extended = (lcdc >> 2u8) % 2 == 1;
        self.sprite_enable = (lcdc >> 1u8) % 2 == 1;
        self.background_enabled = (lcdc >> 0u8) % 2 == 1;
        self.background_scroll = Vec2 {
            x: memory.read_unprotected(SCX_REGISTER_ADDRESS),
            y: memory.read_unprotected(SCY_REGISTER_ADDRESS),
        };
        self.window_scroll = Vec2 {
            x: memory.read_unprotected(WX_REGISTER_ADDRESS),
            y: memory.read_unprotected(WY_REGISTER_ADDRESS),
        };
        let bgp = memory.read_unprotected(BGP_REGISTER_ADDRESS);
        self.bg_color_mapping = [
            palette_entry(bgp, 0),
            palette_entry(bgp, 1),
            palette_entry(bgp, 2),
            palette_entry(bgp, 3),
        ];
        let obp0 = memory.read_unprotected(OBP0_REGISTER_ADDRESS);
        self.obj_color_mapping0 = [
            None,
            Some(palette_entry(obp0, 1)),
            Some(palette_entry(obp0, 2)),
            Some(palette_entry(obp0, 3)),
        ];
        let obp1 = memory.read_unprotected(OBP1_REGISTER_ADDRESS);
        self.obj_color_mapping1 = [
            None,
            Some(palette_entry(obp1, 1)),
            Some(palette_entry(obp1, 2)),
            Some(palette_entry(obp1, 3)),
        ];
    }

    fn color_as_uint(color: &Color) -> (r: u32)
        ensures
            r == color_value(*color),
    {
        (color.r as u32) * 65536 + (color.g as u32) * 256 + color.b as u32
    }

    pub fn get_frame_buffer(&self) -> (r: &Vec<u32>)
        ensures
            r@ == self.screen_buffer@,
    {
        &self.screen_buffer
    }

    /// Sets LY for T-cycle `cycle_counter` of the frame clock.
    pub fn update_ly(&mut self, cycle_counter: u32)
        ensures
            final(self).current_line_drawn == Some(ly_of(cycle_counter as int) as u8),
            final(self).screen_buffer == old(self).screen_buffer,
            final(self).same_registers(old(self)),
            final(self).state == old(self).state,
            final(self).window_line_counter == old(self).window_line_counter,
    {
        let line = (cycle_counter / LINE_CLOCKS) % LY_LINES;
        self.current_line_drawn = Some(line as u8);
    }

    fn get_ppu_state(cycle_counter: u32, ly: u8) -> (r: PpuState)
        ensures
            r == ppu_state_at(cycle_counter as int, ly as int),
    {
        if ly as usize >= SCREEN_HEIGHT {
            return PpuState::Vblank;
        }
        let current_line_clocks = cycle_counter % LINE_CLOCKS;
        if current_line_clocks < OAM_CLOCKS {
            PpuState::OamSearch
        } else if current_line_clocks < OAM_CLOCKS + PIXEL_TRANSFER_CLOCKS {
            PpuState::PixelTransfer
        } else {
            PpuState::Hblank
        }
    }

    /// Decodes the 2-bit color index of pixel (`row`, `col`) of a tile.
    fn tile_pixel(memory: &GbcMmu, tile_address: u16, row: u16, col: u16) -> (r: u8)
        requires
            memory@.wf(),
            tile_address as int + row * 2 + 1 <= 0xFFFF,
            row < 8,
            col < 8,
        ensures
            r == tile_pixel_spec(memory@, tile_address as int, row as int, col as int),
            r < 4,
    {
        let lo = memory.read_unprotected(tile_address + row * 2);
        let hi = memory.read_unprotected(tile_address + row * 2 + 1);
        let shift: u8 = (7 - col) as u8;
        (lo >> shift) % 2 + ((hi >> shift) % 2) * 2
    }

    fn tile_address_of(&self, tile: u8) -> (r: u16)
        ensures
            r == self.tile_address(tile),
            r as int + 15 <= 0x97FF,
    {
        if self.window_tile_background_map_data_address {
            0x8000 + tile as u16 * 16
        } else {
            0x8800 + (tile.wrapping_add(0x80) as u16) * 16
        }
    }

    /// Decodes the tile `index` into its 64 color indices, using the tile data
    /// addressing selected by LCDC bit 4.
    pub fn get_bg_sprite(&self, index: u8, memory: &GbcMmu) -> (r: Sprite)
        requires
            memory@.wf(),
        ensures
            r.pixels@.len() == 64,
            forall|row: int, col: int|
                0 <= row < 8 && 0 <= col < 8 ==> r.pixels@[row * 8 + col] == tile_pixel_spec(
                    memory@,
                    self.tile_address(index),
                    row,
                    col,
                ),
    {
        let address = self.tile_address_of(index);
        let mut sprite = Sprite::new();
        let mut row: u16 = 0;
        while row < 8
            invariant
                row <= 8,
                memory@.wf(),
                address == self.tile_address(index),
                address as int + 15 <= 0x97FF,
                sprite.pixels@.len() == 64,
                forall|r: int, c: int|
                    0 <= r < row && 0 <= c < 8 ==> sprite.pixels@[r * 8 + c] == tile_pixel_spec(
                        memory@,
                        address as int,
                        r,
                        c,
                    ),
            decreases 8 - row,
        {
            let mut col: u16 = 0;
            while col < 8
                invariant
                    row < 8,
                    col <= 8,
                    memory@.wf(),
                    address as int + 15 <= 0x97FF,
                    sprite.pixels@.len() == 64,
                    forall|r: int, c: int|
                        0 <= r < row && 0 <= c < 8 ==> sprite.pixels@[r * 8 + c]
                            == tile_pixel_spec(memory@, address as int, r, c),
                    forall|c: int|
                        0 <= c < col ==> sprite.pixels@[row * 8 + c] == tile_pixel_spec(
                            memory@,
                            address as int,
                            row as int,
                            c,
                        ),
                decreases 8 - col,
            {
                let value = Self::tile_pixel(memory, address, row, col);
                sprite.pixels.set((row * 8 + col) as usize, value);
                col = col + 1;
            }
            row = row + 1;
        }
        sprite
    }

    fn get_bg_color(&self, color: u8) -> (r: Color)
        requires
            color < 4,
        ensures
            r == self.bg_color_mapping@[color as int],
    {
        self.bg_color_mapping[color as usize]
    }

    /// The background color indices of the line being drawn.
    fn get_bg_frame_buffer(&self, memory: &GbcMmu) -> (r: Vec<u8>)
        requires
            memory@.wf(),
            self.current_line_drawn.is_some(),
        ensures
            r@.len() == SCREEN_WIDTH,
            forall|x: int|
                0 <= x < SCREEN_WIDTH ==> r@[x] == self.bg_index_spec(
                    memory@,
                    self.current_line_drawn.unwrap(),
                    x,
                ) && r@[x] < 4,
    {
        let ly = match self.current_line_drawn {
            Some(l) => l,
            None => 0,
        };
        let mut line: Vec<u8> = Vec::new();
        if !self.background_enabled {
            while line.len() < SCREEN_WIDTH
                invariant
                    line@.len() <= SCREEN_WIDTH,
                    forall|x: int| 0 <= x < line@.len() ==> line@[x] == 0,
                decreases SCREEN_WIDTH - line@.len(),
            {
                line.push(0);
            }
            return line;
        }
        let address: u16 = if self.background_tile_map_address { 0x9C00 } else { 0x9800 };
        let y: u16 = ly.wrapping_add(self.background_scroll.y) as u16;
        while line.len() < SCREEN_WIDTH
            invariant
                line@.len() <= SCREEN_WIDTH,
                memory@.wf(),
                self.background_enabled,
                self.current_line_drawn == Some(ly),
                address == self.bg_map_base(),
                y == (ly as int + self.background_scroll.y as int) % 256,
                forall|x: int|
                    0 <= x < line@.len() ==> line@[x] == self.bg_index_spec(memory@, ly, x)
                        && line@[x] < 4,
            decreases SCREEN_WIDTH - line@.len(),
        {
            let x = line.len();
            let bx: u16 = (x as u16 + self.background_scroll.x as u16) % 256;
            let chr = memory.read_unprotected(address + (y / 8) * 32 + bx / 8);
            let tile_address = self.tile_address_of(chr);
            line.push(Self::tile_pixel(memory, tile_address, y % 8, bx % 8));
        }
        line
    }

    /// The window color indices of the line being drawn, `None` where the
    /// window does not cover the pixel.
    fn get_window_frame_buffer(&self, memory: &GbcMmu) -> (r: Vec<Option<u8>>)
        requires
            memory@.wf(),
            self.current_line_drawn.is_some(),
        ensures
            r@.len() == SCREEN_WIDTH,
            forall|x: int|
                0 <= x < SCREEN_WIDTH ==> r@[x] == if self.window_visible(
                    self.current_line_drawn.unwrap(),
                    x,
                ) {
                    Some(self.window_index_spec(memory@, self.window_line_counter, x))
                } else {
                    None
                },
            forall|x: int| 0 <= x < SCREEN_WIDTH && r@[x].is_some() ==> r@[x].unwrap() < 4,
    {
        let ly = match self.current_line_drawn {
            Some(l) => l,
            None => 0,
        };
        let on_line = self.window_enable && self.window_scroll.y <= ly && self.window_scroll.x
            <= 166;
        let address: u16 = if self.window_tile_map_address { 0x9C00 } else { 0x9800 };
        let row: u16 = self.window_line_counter as u16;
        let mut line: Vec<Option<u8>> = Vec::new();
        while line.len() < SCREEN_WIDTH
            invariant
                line@.len() <= SCREEN_WIDTH,
                memory@.wf(),
                self.current_line_drawn == Some(ly),
                on_line == self.window_on_line(ly),
                address == self.window_map_base(),
                row == self.window_line_counter,
                forall|x: int|
                    0 <= x < line@.len() ==> line@[x] == if self.window_visible(ly, x) {
                        Some(self.window_index_spec(memory@, self.window_line_counter, x))
                    } else {
                        None
                    },
                forall|x: int| 0 <= x < line@.len() && line@[x].is_some() ==> line@[x].unwrap() < 4,
            decreases SCREEN_WIDTH - line@.len(),
        {
            let x = line.len() as u16;
            if on_line && x + 7 >= self.window_scroll.x as u16 {
                let wx: u16 = x + 7 - self.window_scroll.x as u16;
                let chr = memory.read_unprotected(address + (row / 8) * 32 + wx / 8);
                let tile_address = self.tile_address_of(chr);
                line.push(Some(Self::tile_pixel(memory, tile_address, row % 8, wx % 8)));
            } else {
                line.push(None);
            }
        }
        line
    }

    fn oam_entry_byte(memory: &GbcMmu, i: u8, k: u8) -> (r: u8)
        requires
            memory@.wf(),
            i < 40,
            k < 4,
        ensures
            r == oam_byte(memory@, i as int, k as int),
    {
        memory.read_unprotected(0xFE00 + 4 * i as u16 + k as u16)
    }

    /// The OAM entries drawn on the line being drawn: those whose rows cover
    /// it, in OAM order, at most 10.
    fn get_objects_sprites(&self, memory: &GbcMmu) -> (r: Vec<u8>)
        requires
            memory@.wf(),
            self.current_line_drawn.is_some(),
        ensures
            r@ == line_objects(memory@, self.sprite_extended, self.current_line_drawn.unwrap(), 40),
    {
        let ly = match self.current_line_drawn {
            Some(l) => l,
            None => 0,
        };
        let height: u16 = if self.sprite_extended { 16 } else { 8 };
        let mut sprites: Vec<u8> = Vec::new();
        let mut i: u8 = 0;
        while i < 40
            invariant
                i <= 40,
                memory@.wf(),
                self.current_line_drawn == Some(ly),
                height == object_height(self.sprite_extended),
                sprites@ == line_objects(memory@, self.sprite_extended, ly, i as int),
            decreases 40 - i,
        {
            proof {
                lemma_line_objects(memory@, self.sprite_extended, ly, i as int);
            }
            let y = Self::oam_entry_byte(memory, i, 0) as u16;
            if sprites.len() < 10 && y <= ly as u16 + 16 && (ly as u16) + 16 < y + height {
                sprites.push(i);
            }
            i = i + 1;
        }
        sprites
    }

    /// The color index object `i` shows at column `x` of line `ly`.
    fn object_pixel(&self, memory: &GbcMmu, i: u8, ly: u8, x: u16) -> (r: u8)
        requires
            memory@.wf(),
            i < 40,
            x < SCREEN_WIDTH,
            object_on_line(memory@, self.sprite_extended, i as int, ly),
        ensures
            r == object_index_at(memory@, self.sprite_extended, i as int, ly, x as int),
            r < 4,
    {
        let y = Self::oam_entry_byte(memory, i, 0) as u16;
        let xo = Self::oam_entry_byte(memory, i, 1) as u16;
        let tile = Self::oam_entry_byte(memory, i, 2);
        let attr = Self::oam_entry_byte(memory, i, 3);
        if xo <= x + 8 && x + 8 < xo + 8 {
            let height: u16 = if self.sprite_extended { 16 } else { 8 };
            let col0: u16 = x + 8 - xo;
            let row0: u16 = ly as u16 + 16 - y;
            let col: u16 = if (attr >> 5u8) % 2 == 1 { 7 - col0 } else { col0 };
            let row: u16 = if (attr >> 6u8) % 2 == 1 { height - 1 - row0 } else { row0 };
            let base: u16 = if self.sprite_extended { (tile - tile % 2) as u16 } else { tile as u16 };
            let address: u16 = 0x8000 + base * 16 + row * 2;
            let lo = memory.read_unprotected(address);
            let hi = memory.read_unprotected(address + 1);
            let shift: u8 = (7 - col) as u8;
            (lo >> shift) % 2 + ((hi >> shift) % 2) * 2
        } else {
            0
        }
    }

    /// The object pixels of the line being drawn, from the objects `sprites`
    /// selected for it.
    fn get_objects_frame_buffer(&self, memory: &GbcMmu, sprites: &Vec<u8>) -> (r: Vec<
        Option<ObjectPixel>,
    >)
        requires
            memory@.wf(),
            self.current_line_drawn.is_some(),
            sprites@ == line_objects(memory@, self.sprite_extended, self.current_line_drawn.unwrap(), 40),
        ensures
            r@.len() == SCREEN_WIDTH,
            forall|x: int|
                0 <= x < SCREEN_WIDTH ==> r@[x] == self.object_pixel_spec(
                    memory@,
                    self.current_line_drawn.unwrap(),
                    x,
                ),
            forall|x: int|
                0 <= x < SCREEN_WIDTH && r@[x].is_some() ==> r@[x].unwrap().color_index < 4,
    {
        let ly = match self.current_line_drawn {
            Some(l) => l,
            None => 0,
        };
        proof {
            lemma_line_objects(memory@, self.sprite_extended, ly, 40);
        }
        let mut line: Vec<Option<ObjectPixel>> = Vec::new();
        while line.len() < SCREEN_WIDTH
            invariant
                line@.len() <= SCREEN_WIDTH,
                memory@.wf(),
                self.current_line_drawn == Some(ly),
                sprites@ == line_objects(memory@, self.sprite_extended, ly, 40),
                sprites@.len() <= 10,
                forall|k: int|
                    0 <= k < sprites@.len() ==> (#[trigger] sprites@[k]) < 40
                        && object_on_line(memory@, self.sprite_extended, sprites@[k] as int, ly),
                forall|x: int|
                    0 <= x < line@.len() ==> line@[x] == self.object_pixel_spec(memory@, ly, x),
                forall|x: int|
                    0 <= x < line@.len() && line@[x].is_some() ==> line@[x].unwrap().color_index
                        < 4,
            decreases SCREEN_WIDTH - line@.len(),
        {
            let x = line.len() as u16;
            let mut best: Option<u8> = None;
            let mut best_index: u8 = 0;
            let mut k: usize = 0;
            while k < sprites.len()
                invariant
                    k <= sprites@.len(),
                    x < SCREEN_WIDTH,
                    memory@.wf(),
                    forall|j: int|
                        0 <= j < sprites@.len() ==> (#[trigger] sprites@[j]) < 40
                            && object_on_line(memory@, self.sprite_extended, sprites@[j] as int, ly),
                    best == best_object(memory@, self.sprite_extended, ly, x as int, sprites@, k as int),
                    best.is_some() ==> best.unwrap() < 40 && best_index == object_index_at(memory@, self.sprite_extended,
                        best.unwrap() as int,
                        ly,
                        x as int,
                    ) && best_index < 4,
                decreases sprites@.len() - k,
            {
                let i = sprites[k];
                let p = self.object_pixel(memory, i, ly, x);
                let better = match best {
                    None => true,
                    Some(b) => Self::oam_entry_byte(memory, i, 1) < Self::oam_entry_byte(
                        memory,
                        b,
                        1,
                    ),
                };
                if p != 0 && better {
                    best = Some(i);
                    best_index = p;
                }
                k = k + 1;
            }
            match best {
                Some(i) => {
                    let attr = Self::oam_entry_byte(memory, i, 3);
                    line.push(
                        Some(
                            ObjectPixel {
                                color_index: best_index,
                                palette1: (attr >> 4u8) % 2 == 1,
                                behind_background: (attr >> 7u8) % 2 == 1,
                            },
                        ),
                    );
                },
                None => line.push(None),
            }
        }
        line
    }

    fn get_obj_color(&self, color: u8, pallet_bit_set: bool) -> (r: Option<Color>)
        requires
            color < 4,
        ensures
            r == self.obj_color_spec(color, pallet_bit_set),
    {
        if pallet_bit_set {
            self.obj_color_mapping1[color as usize]
        } else {
            self.obj_color_mapping0[color as usize]
        }
    }

    /// Renders the line being drawn into the frame buffer: objects over the
    /// window over the background.
    fn draw_line(&mut self, memory: &GbcMmu)
        requires
            old(self).wf(),
            memory@.wf(),
            old(self).current_line_drawn.is_some(),
            old(self).current_line_drawn.unwrap() < SCREEN_HEIGHT,
        ensures
            ({
                let ly = old(self).current_line_drawn.unwrap();
                &&& final(self).wf()
                &&& final(self).same_registers(old(self))
                &&& final(self).current_line_drawn == old(self).current_line_drawn
                &&& final(self).state == old(self).state
                &&& final(self).window_line_counter == old(self).window_line_counter
                &&& forall|x: int|
                    0 <= x < SCREEN_WIDTH ==> final(self).screen_buffer@[ly * SCREEN_WIDTH + x]
                        == old(self).pixel_spec(memory@, ly, old(self).window_line_counter, x)
                &&& forall|i: int|
                    0 <= i < SCREEN_SIZE && !(ly * SCREEN_WIDTH <= i < ly * SCREEN_WIDTH
                        + SCREEN_WIDTH) ==> final(self).screen_buffer@[i]
                        == old(self).screen_buffer@[i]
            }),
    {
        let ly: u8 = match self.current_line_drawn {
            Some(l) => l,
            None => 0,
        };
        let bg_frame_buffer_line = self.get_bg_frame_buffer(memory);
        let window_frame_buffer_line = self.get_window_frame_buffer(memory);
        let obj_sprites = self.get_objects_sprites(memory);
        let obj_buffer = self.get_objects_frame_buffer(memory, &obj_sprites);
        let line_index = ly as usize * SCREEN_WIDTH;
        let ghost before = self.screen_buffer@;
        let ghost pre: GbcPpu = *self;
        let mut i: usize = 0;
        while i < SCREEN_WIDTH
            invariant
                i <= SCREEN_WIDTH,
                ly < SCREEN_HEIGHT,
                pre.current_line_drawn == Some(ly),
                line_index == ly * SCREEN_WIDTH,
                self.same_registers(&pre),
                self.window_line_counter == pre.window_line_counter,
                self.current_line_drawn == pre.current_line_drawn,
                self.state == pre.state,
                self.screen_buffer@.len() == SCREEN_SIZE,
                before.len() == SCREEN_SIZE,
                bg_frame_buffer_line@.len() == SCREEN_WIDTH,
                window_frame_buffer_line@.len() == SCREEN_WIDTH,
                obj_buffer@.len() == SCREEN_WIDTH,
                forall|x: int|
                    0 <= x < SCREEN_WIDTH ==> bg_frame_buffer_line@[x] == pre.bg_index_spec(
                        memory@,
                        ly,
                        x,
                    ) && bg_frame_buffer_line@[x] < 4,
                forall|x: int|
                    0 <= x < SCREEN_WIDTH ==> window_frame_buffer_line@[x] == if pre.window_visible(ly, x) {
                        Some(pre.window_index_spec(memory@, pre.window_line_counter, x))
                    } else {
                        None
                    },
                forall|x: int|
                    0 <= x < SCREEN_WIDTH && window_frame_buffer_line@[x].is_some()
                        ==> window_frame_buffer_line@[x].unwrap() < 4,
                forall|x: int|
                    0 <= x < SCREEN_WIDTH ==> obj_buffer@[x] == pre.object_pixel_spec(
                        memory@,
                        ly,
                        x,
                    ),
                forall|x: int|
                    0 <= x < SCREEN_WIDTH && obj_buffer@[x].is_some()
                        ==> obj_buffer@[x].unwrap().color_index < 4,
                forall|x: int|
                    0 <= x < i ==> self.screen_buffer@[line_index + x] == #[trigger] pre.pixel_spec(
                        memory@,
                        ly,
                        pre.window_line_counter,
                        x,
                    ),
                forall|j: int|
                    0 <= j < SCREEN_SIZE && !(line_index <= j < line_index + i)
                        ==> self.screen_buffer@[j] == before[j],
            decreases SCREEN_WIDTH - i,
        {
            let under: u8 = match window_frame_buffer_line[i] {
                Some(v) => v,
                None => bg_frame_buffer_line[i],
            };
            let object = if self.sprite_enable {
                obj_buffer[i]
            } else {
                None
            };
            let shown = match object {
                Some(p) => if p.behind_background && under != 0 {
                    None
                } else {
                    self.get_obj_color(p.color_index, p.palette1)
                },
                None => None,
            };
            let value = match shown {
                Some(c) => Self::color_as_uint(&c),
                None => Self::color_as_uint(&self.get_bg_color(under)),
            };
            assert(under == pre.under_index_spec(memory@, ly, pre.window_line_counter, i as int));
            assert(value == pre.pixel_spec(memory@, ly, pre.window_line_counter, i as int));
            self.screen_buffer.set(line_index + i, value);
            i = i + 1;
        }
        assert forall|x: int| 0 <= x < SCREEN_WIDTH implies self.screen_buffer@[line_index + x]
            == old(self).pixel_spec(memory@, ly, pre.window_line_counter, x) by {
            assert(pre.pixel_spec(memory@, ly, pre.window_line_counter, x) == old(
                self,
            ).pixel_spec(memory@, ly, pre.window_line_counter, x));
        }
    }

    /// Advances the PPU to T-cycle `cycle_counter` of the frame clock: sets LY
    /// and the mode, and renders a visible line when LY has just changed to it.
    pub fn update_gb_screen(&mut self, memory: &GbcMmu, cycle_counter: u32)
        requires
            old(self).wf(),
            memory@.wf(),
        ensures
            screen_updated(old(self), final(self), memory@, cycle_counter as int),
    {
        let last_ly = self.current_line_drawn;
        self.update_ly(cycle_counter);
        let ly: u8 = match self.current_line_drawn {
            Some(l) => l,
            None => 0,
        };
        let changed = match last_ly {
            Some(l) => l != ly,
            None => true,
        };
        if changed && (ly as usize) < SCREEN_HEIGHT {
            if ly == 0 {
                self.window_line_counter = 0;
            }
            let ghost mid: GbcPpu = *self;
            self.draw_line(memory);
            assert forall|x: int| 0 <= x < SCREEN_WIDTH implies self.screen_buffer@[ly as int
                * SCREEN_WIDTH + x] == old(self).pixel_spec(
                memory@,
                ly,
                mid.window_line_counter,
                x,
            ) by {
                lemma_pixel_spec_registers(&mid, old(self), memory@, ly, mid.window_line_counter, x);
            }
            if self.window_enable && self.window_scroll.y <= ly && self.window_scroll.x <= 166
                && self.window_line_counter < 255 {
                self.window_line_counter = self.window_line_counter + 1;
            }
        }
        self.state = Self::get_ppu_state(cycle_counter, ly);
    }
}

} // verus!
