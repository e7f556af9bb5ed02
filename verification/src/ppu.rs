//! The picture unit: the scanline counter driven by elapsed T-cycles, and
//! the composition of a scanline from the background, the window and the
//! sprites into a buffer of colours.
//!
//! The buffer holds one colour per pixel, row by row; what it holds after
//! a scanline is rendered is stated pixel by pixel.

use vstd::prelude::*;
use crate::alu::{bit_is_set, has_bit, put_bit, set_bit};
use crate::memory::{wrap16, BusState, MemoryBus};

verus! {

/// First address of video RAM.
pub const VRAM_BEGIN: u16 = 0x8000;

/// First address of the sprite table.
pub const OAM_BEGIN: u16 = 0xFE00;

/// Pixels in a scanline.
pub const SCREEN_WIDTH: usize = 160;

/// Visible scanlines in a frame.
pub const SCREEN_HEIGHT: usize = 144;

/// Pixels in a frame.
pub const SCREEN_PIXELS: usize = 23040;

/// T-cycles per scanline.
pub const LINE_CYCLES: u32 = 456;

/// Scanlines in a frame, the invisible ones included.
pub const FRAME_LINES: u16 = 154;

/// Position of the vertical-blank bit in the interrupt-flag byte.
pub const VBLANK_BIT: u8 = 0;

/// The registers of the picture unit on the bus.
#[derive(Clone, Copy, Debug, PartialEq, Eq, Structural)]
pub enum PPUSettings {
    LCDC,
    STAT,
    SCY,
    SCX,
    LY,
    LYC,
    DMA,
    BGP,
    OGP0,
    OGP1,
    WY,
    WX,
}

impl PPUSettings {
    pub open spec fn spec_address(self) -> u16 {
        match self {
            PPUSettings::LCDC => 0xFF40,
            PPUSettings::STAT => 0xFF41,
            PPUSettings::SCY => 0xFF42,
            PPUSettings::SCX => 0xFF43,
            PPUSettings::LY => 0xFF44,
            PPUSettings::LYC => 0xFF45,
            PPUSettings::DMA => 0xFF46,
            PPUSettings::BGP => 0xFF47,
            PPUSettings::OGP0 => 0xFF48,
            PPUSettings::OGP1 => 0xFF49,
            PPUSettings::WY => 0xFF4A,
            PPUSettings::WX => 0xFF4B,
        }
    }

    /// The bus address of the register.
    pub fn address(self) -> (addr: u16)
        ensures
            addr == self.spec_address(),
    {
        match self {
            PPUSettings::LCDC => 0xFF40,
            PPUSettings::STAT => 0xFF41,
            PPUSettings::SCY => 0xFF42,
            PPUSettings::SCX => 0xFF43,
            PPUSettings::LY => 0xFF44,
            PPUSettings::LYC => 0xFF45,
            PPUSettings::DMA => 0xFF46,
            PPUSettings::BGP => 0xFF47,
            PPUSettings::OGP0 => 0xFF48,
            PPUSettings::OGP1 => 0xFF49,
            PPUSettings::WY => 0xFF4A,
            PPUSettings::WX => 0xFF4B,
        }
    }
}

/// The picture unit: the T-cycles into the current scanline, and the
/// colours of the frame, row by row.
pub struct PPU {
    pub cycle_count: u16,
    pub buffer: [u32; 23040],
}

/// The value of a register of the picture unit.
pub open spec fn setting(bus: BusState, which: PPUSettings) -> u8 {
    bus.read(which.spec_address())
}

/// The byte of video RAM at `offset`.
pub open spec fn vram_byte(bus: BusState, offset: int) -> u8 {
    bus.read(wrap16(VRAM_BEGIN + offset))
}

/// The byte of the sprite table at `offset`.
pub open spec fn oam_byte(bus: BusState, offset: int) -> u8 {
    bus.read(wrap16(OAM_BEGIN + offset))
}

/// The colour of a shade, from white for 0 to black for 3.
pub open spec fn shade(index: int) -> u32 {
    if index == 0 {
        0xFFFFFF
    } else if index == 1 {
        0xAAAAAA
    } else if index == 2 {
        0x555555
    } else {
        0x000000
    }
}

/// The colour that a palette gives to a colour index: the shade held in
/// the two bits of the palette at twice the index.
pub open spec fn color_of(palette: u8, color_id: u8) -> u32 {
    let scale: int = if color_id == 0 {
        1
    } else if color_id == 1 {
        4
    } else if color_id == 2 {
        16
    } else {
        64
    };
    shade(palette as int / scale % 4)
}

/// The colour index of a column of a tile line; column 0, the leftmost,
/// is bit 7 of the line.
pub open spec fn line_color_id(line: u8, column: int) -> u8 {
    if bit_is_set(line, (7 - column) as u8) {
        1
    } else {
        0
    }
}

/// Offset in video RAM of the tile map that a bit of the control register
/// selects.
pub open spec fn tile_map_area(lcdc: u8, select: u8) -> int {
    if bit_is_set(lcdc, select) {
        0x1C00
    } else {
        0x1800
    }
}

/// Offset in video RAM of the tile data that bit 4 of the control register
/// selects.
pub open spec fn tile_data_area(lcdc: u8) -> int {
    if bit_is_set(lcdc, 4) {
        0x0800
    } else {
        0x0000
    }
}

/// The colour at row `y` and column `x`, both below 256, of the tile map
/// at offset `map`: the map names a tile for every 8 by 8 square, and the
/// tile's line gives the colour index that the background palette colours.
pub open spec fn map_color(bus: BusState, map: int, y: int, x: int) -> u32 {
    let tile_index = vram_byte(bus, map + y / 8 * 32 + x / 8);
    let line = vram_byte(
        bus,
        tile_data_area(setting(bus, PPUSettings::LCDC)) + tile_index * 16 + y % 8 * 2,
    );
    color_of(setting(bus, PPUSettings::BGP), line_color_id(line, x % 8))
}

/// Whether `index` lies in row `row` of the buffer.
pub open spec fn in_row(index: int, row: int) -> bool {
    row * 160 <= index < row * 160 + 160
}

/// Whether the background is drawn on the current scanline: bit 0 of the
/// control register is set and the scanline is a visible one.
pub open spec fn background_shows(bus: BusState) -> bool {
    bit_is_set(setting(bus, PPUSettings::LCDC), 0) && setting(bus, PPUSettings::LY) < 144
}

/// The colour of the background at column `x` of the current scanline:
/// that of the tile map at the scanline moved down by `SCY` and the column
/// moved right by `SCX`, both wrapping at 256.
pub open spec fn background_color(bus: BusState, x: int) -> u32 {
    map_color(
        bus,
        tile_map_area(setting(bus, PPUSettings::LCDC), 3),
        (setting(bus, PPUSettings::LY) + setting(bus, PPUSettings::SCY)) % 256,
        (x + setting(bus, PPUSettings::SCX)) % 256,
    )
}

/// The buffer after the background of the current scanline is drawn.
pub open spec fn with_background(buffer: Seq<u32>, bus: BusState) -> Seq<u32> {
    let ly = setting(bus, PPUSettings::LY) as int;
    Seq::new(
        buffer.len(),
        |i: int|
            if background_shows(bus) && in_row(i, ly) {
                background_color(bus, i - ly * 160)
            } else {
                buffer[i]
            },
    )
}

/// Whether the window is drawn on the current scanline: bit 5 of the
/// control register is set, and the scanline is a visible one at or below
/// the window's top.
pub open spec fn window_shows(bus: BusState) -> bool {
    let ly = setting(bus, PPUSettings::LY) as int;
    let wy = setting(bus, PPUSettings::WY) as int;
    bit_is_set(setting(bus, PPUSettings::LCDC), 5) && wy <= ly < 144
}

/// The column of the window that falls on column `x` of the screen; the
/// window's left edge is at column `WX - 7`. Negative left of the window.
pub open spec fn window_column(bus: BusState, x: int) -> int {
    x - (setting(bus, PPUSettings::WX) - 7)
}

/// The colour of the window at column `x` of the current scanline.
pub open spec fn window_color(bus: BusState, x: int) -> u32 {
    map_color(
        bus,
        tile_map_area(setting(bus, PPUSettings::LCDC), 6),
        setting(bus, PPUSettings::LY) - setting(bus, PPUSettings::WY),
        window_column(bus, x),
    )
}

/// The buffer after the window of the current scanline is drawn: it
/// covers the columns from its left edge on.
pub open spec fn with_window(buffer: Seq<u32>, bus: BusState) -> Seq<u32> {
    let ly = setting(bus, PPUSettings::LY) as int;
    Seq::new(
        buffer.len(),
        |i: int|
            if window_shows(bus) && in_row(i, ly) && window_column(bus, i - ly * 160) >= 0 {
                window_color(bus, i - ly * 160)
            } else {
                buffer[i]
            },
    )
}

/// How the shifts of a palette read over the integers.
pub proof fn lemma_palette_bits(palette: u8)
    by (bit_vector)
    ensures
        palette & 0x03 == palette % 4,
        (palette >> 2) & 0x03 == palette / 4 % 4,
        (palette >> 4) & 0x03 == palette / 16 % 4,
        (palette >> 6) & 0x03 == palette / 64 % 4,
{
}

impl PPU {
    /// A picture unit at the start of a scanline, its buffer black.
    pub fn new() -> (ppu: Self)
        ensures
            ppu.cycle_count == 0,
            ppu.buffer@ == Seq::new(23040, |i: int| 0u32),
    {
        let ppu = PPU { cycle_count: 0, buffer: [0x00u32; 23040] };
        assert(ppu.buffer@ =~= Seq::new(23040, |i: int| 0u32));
        ppu
    }

    /// Reads video RAM at an offset from its start.
    pub fn read_vram(bus: &MemoryBus, addr: u16) -> (byte: u8)
        ensures
            byte == vram_byte(bus@, addr as int),
    {
        bus.read_byte(addr.wrapping_add(VRAM_BEGIN))
    }

    /// Writes video RAM at an offset from its start.
    pub fn write_vram(bus: &mut MemoryBus, addr: u16, value: u8)
        ensures
            final(bus)@ == old(bus)@.write(wrap16(VRAM_BEGIN + addr), value),
    {
        bus.write_byte(addr.wrapping_add(VRAM_BEGIN), value)
    }

    /// Reads the sprite table at an offset from its start.
    pub fn read_oam(bus: &MemoryBus, addr: u16) -> (byte: u8)
        ensures
            byte == oam_byte(bus@, addr as int),
    {
        bus.read_byte(addr.wrapping_add(OAM_BEGIN))
    }

    /// Writes the sprite table at an offset from its start.
    pub fn write_oam(bus: &mut MemoryBus, addr: u16, value: u8)
        ensures
            final(bus)@ == old(bus)@.write(wrap16(OAM_BEGIN + addr), value),
    {
        bus.write_byte(addr.wrapping_add(OAM_BEGIN), value)
    }

    /// Reads a register of the picture unit.
    pub fn get(bus: &MemoryBus, setting: PPUSettings) -> (byte: u8)
        ensures
            byte == self::setting(bus@, setting),
    {
        bus.read_byte(setting.address())
    }

    /// Writes a register of the picture unit.
    pub fn set(bus: &mut MemoryBus, setting: PPUSettings, val: u8)
        ensures
            final(bus)@ == old(bus)@.write(setting.spec_address(), val),
    {
        bus.write_byte(setting.address(), val);
    }

    /// The colour that a palette gives to a colour index.
    pub fn get_color(palette: u8, color_id: u8) -> (color: u32)
        ensures
            color == color_of(palette, color_id),
    {
        proof {
            lemma_palette_bits(palette);
        }
        let entry = match color_id {
            0 => palette & 0x03,
            1 => (palette >> 2) & 0x03,
            2 => (palette >> 4) & 0x03,
            _ => (palette >> 6) & 0x03,
        };
        match entry {
            0 => 0xFFFFFF,
            1 => 0xAAAAAA,
            2 => 0x555555,
            _ => 0x000000,
        }
    }

    /// The colour at a row and column of a tile map.
    fn map_pixel(bus: &MemoryBus, map: u16, y: u8, x: u8) -> (color: u32)
        requires
            map == 0x1800 || map == 0x1C00,
        ensures
            color == map_color(bus@, map as int, y as int, x as int),
    {
        let lcdc = Self::get(bus, PPUSettings::LCDC);
        let tile_data_area: u16 = if has_bit(lcdc, 4) {
            0x0800
        } else {
            0x0000
        };
        let tile_row = (y / 8) as u16 * 32;
        let tile_column = (x / 8) as u16;
        let tile_index = Self::read_vram(bus, map + tile_row + tile_column);
        let tile_address = tile_data_area + (tile_index as u16 * 16);
        let line = Self::read_vram(bus, tile_address + ((y % 8) * 2) as u16);
        let color_id: u8 = if has_bit(line, 7 - x % 8) {
            1
        } else {
            0
        };
        Self::get_color(Self::get(bus, PPUSettings::BGP), color_id)
    }

    /// Draws the background of the current scanline.
    pub fn render_background(&mut self, bus: &MemoryBus)
        ensures
            final(self).cycle_count == old(self).cycle_count,
            final(self).buffer@ == with_background(old(self).buffer@, bus@),
    {
        let lcdc = Self::get(bus, PPUSettings::LCDC);
        let ly = Self::get(bus, PPUSettings::LY);
        if !has_bit(lcdc, 0) || ly >= 144 {
            assert(self.buffer@ =~= with_background(self.buffer@, bus@));
            return ;
        }
        let tile_map_area: u16 = if has_bit(lcdc, 3) {
            0x1C00
        } else {
            0x1800
        };
        let y = ly.wrapping_add(Self::get(bus, PPUSettings::SCY));
        let row = ly as usize * 160;
        let mut x: u8 = 0;
        while x < 160
            invariant
                x <= 160,
                row == ly * 160,
                ly < 144,
                ly == setting(bus@, PPUSettings::LY),
                y == (ly + setting(bus@, PPUSettings::SCY)) % 256,
                tile_map_area == self::tile_map_area(setting(bus@, PPUSettings::LCDC), 3),
                self.cycle_count == old(self).cycle_count,
                forall|i: int|
                    0 <= i < 23040 ==> #[trigger] self.buffer@[i] == (if row <= i < row + x {
                        background_color(bus@, i - row)
                    } else {
                        old(self).buffer@[i]
                    }),
            decreases 160 - x,
        {
            let scrolled_x = x.wrapping_add(Self::get(bus, PPUSettings::SCX));
            assert(scrolled_x == (x + setting(bus@, PPUSettings::SCX)) % 256);
            let color = Self::map_pixel(bus, tile_map_area, y, scrolled_x);
            self.buffer[row + x as usize] = color;
            x = x + 1;
        }
        assert(self.buffer@ =~= with_background(old(self).buffer@, bus@));
    }

    /// Draws the window of the current scanline.
    pub fn render_window(&mut self, bus: &MemoryBus)
        ensures
            final(self).cycle_count == old(self).cycle_count,
            final(self).buffer@ == with_window(old(self).buffer@, bus@),
    {
        let lcdc = Self::get(bus, PPUSettings::LCDC);
        let ly = Self::get(bus, PPUSettings::LY);
        let wy = Self::get(bus, PPUSettings::WY);
        if !has_bit(lcdc, 5) || ly < wy || ly >= 144 {
            assert(self.buffer@ =~= with_window(self.buffer@, bus@));
            return ;
        }
        let tile_map_area: u16 = if has_bit(lcdc, 6) {
            0x1C00
        } else {
            0x1800
        };
        let y = ly - wy;
        let start: i16 = Self::get(bus, PPUSettings::WX) as i16 - 7;
        let row = ly as usize * 160;
        let mut x: u8 = 0;
        while x < 160
            invariant
                x <= 160,
                row == ly * 160,
                ly < 144,
                ly == setting(bus@, PPUSettings::LY),
                y == ly - setting(bus@, PPUSettings::WY),
                tile_map_area == self::tile_map_area(setting(bus@, PPUSettings::LCDC), 6),
                start == setting(bus@, PPUSettings::WX) - 7,
                self.cycle_count == old(self).cycle_count,
                forall|i: int|
                    0 <= i < 23040 ==> #[trigger] self.buffer@[i] == (if row <= i < row + x
                        && window_column(bus@, i - row) >= 0 {
                        window_color(bus@, i - row)
                    } else {
                        old(self).buffer@[i]
                    }),
            decreases 160 - x,
        {
            let window_x: i16 = x as i16 - start;
            if window_x >= 0 {
                let color = Self::map_pixel(bus, tile_map_area, y, window_x as u8);
                self.buffer[row + x as usize] = color;
            }
            x = x + 1;
        }
        assert(self.buffer@ =~= with_window(old(self).buffer@, bus@));
    }
}

/// Height of the sprites in scanlines: 16 with bit 2 of the control
/// register set, else 8.
pub open spec fn sprite_height(bus: BusState) -> int {
    if bit_is_set(setting(bus, PPUSettings::LCDC), 2) {
        16
    } else {
        8
    }
}

/// The scanline of the top of sprite `sprite`: its first byte less 16.
pub open spec fn sprite_top(bus: BusState, sprite: int) -> int {
    oam_byte(bus, 4 * sprite) - 16
}

/// The column of the left of sprite `sprite`: its second byte less 8.
pub open spec fn sprite_left(bus: BusState, sprite: int) -> int {
    oam_byte(bus, 4 * sprite + 1) - 8
}

/// The attributes of sprite `sprite`: bit 6 flips it top to bottom, bit 5
/// left to right, and bit 4 selects the second object palette.
pub open spec fn sprite_attributes(bus: BusState, sprite: int) -> u8 {
    oam_byte(bus, 4 * sprite + 3)
}

/// Whether sprite `sprite` covers the current scanline.
pub open spec fn sprite_on_line(bus: BusState, sprite: int) -> bool {
    let ly = setting(bus, PPUSettings::LY) as int;
    sprite_top(bus, sprite) <= ly < sprite_top(bus, sprite) + sprite_height(bus)
}

/// The line of tile data that sprite `sprite` shows on the current
/// scanline.
pub open spec fn sprite_line(bus: BusState, sprite: int) -> u8 {
    let row = setting(bus, PPUSettings::LY) - sprite_top(bus, sprite);
    let line = if bit_is_set(sprite_attributes(bus, sprite), 6) {
        sprite_height(bus) - 1 - row
    } else {
        row
    };
    vram_byte(bus, oam_byte(bus, 4 * sprite + 2) * 16 + line * 2)
}

/// The column of the tile of sprite `sprite` that falls on column `x` of
/// the screen.
pub open spec fn sprite_column(bus: BusState, sprite: int, x: int) -> int {
    if bit_is_set(sprite_attributes(bus, sprite), 5) {
        7 - (x - sprite_left(bus, sprite))
    } else {
        x - sprite_left(bus, sprite)
    }
}

/// Whether sprite `sprite` paints column `x` of the current scanline: it
/// covers the scanline and the column, and its colour index there is not
/// zero, which is transparent.
pub open spec fn sprite_paints(bus: BusState, sprite: int, x: int) -> bool {
    &&& sprite_on_line(bus, sprite)
    &&& 0 <= x - sprite_left(bus, sprite) < 8
    &&& line_color_id(sprite_line(bus, sprite), sprite_column(bus, sprite, x)) != 0
}

/// The colour that sprite `sprite` paints with.
pub open spec fn sprite_color(bus: BusState, sprite: int) -> u32 {
    color_of(
        if bit_is_set(sprite_attributes(bus, sprite), 4) {
            setting(bus, PPUSettings::OGP1)
        } else {
            setting(bus, PPUSettings::OGP0)
        },
        1,
    )
}

/// The colour of column `x` of the current scanline once the sprites from
/// `from` up to the last are drawn over `under`: the sprite of the lowest
/// index that paints the column wins.
pub open spec fn sprites_color(bus: BusState, x: int, from: int, under: u32) -> u32
    decreases 40 - from,
{
    if from >= 40 {
        under
    } else if sprite_paints(bus, from, x) {
        sprite_color(bus, from)
    } else {
        sprites_color(bus, x, from + 1, under)
    }
}

/// Whether sprites are drawn on the current scanline: bit 1 of the control
/// register is set and the scanline is a visible one.
pub open spec fn sprites_show(bus: BusState) -> bool {
    bit_is_set(setting(bus, PPUSettings::LCDC), 1) && setting(bus, PPUSettings::LY) < 144
}

/// The buffer after the sprites of the current scanline are drawn.
pub open spec fn with_sprites(buffer: Seq<u32>, bus: BusState) -> Seq<u32> {
    let ly = setting(bus, PPUSettings::LY) as int;
    Seq::new(
        buffer.len(),
        |i: int|
            if sprites_show(bus) && in_row(i, ly) {
                sprites_color(bus, i - ly * 160, 0, buffer[i])
            } else {
                buffer[i]
            },
    )
}

/// The buffer after the current scanline is composed: the background,
/// over it the window, over both the sprites.
pub open spec fn with_scanline(buffer: Seq<u32>, bus: BusState) -> Seq<u32> {
    with_sprites(with_window(with_background(buffer, bus), bus), bus)
}

/// The scanline after `ly`; the frame starts over after its last line.
pub open spec fn next_line(ly: u8) -> u8 {
    ((ly + 1) % (FRAME_LINES as int)) as u8
}

/// The buffer and the bus after the picture unit moves to the next
/// scanline: the scanline register is advanced; a visible scanline is
/// composed into the buffer; the first invisible one requests the
/// vertical-blank interrupt.
pub open spec fn advance(buffer: Seq<u32>, bus: BusState) -> (Seq<u32>, BusState) {
    let next = next_line(setting(bus, PPUSettings::LY));
    let moved = bus.write(PPUSettings::LY.spec_address(), next);
    if next < 144 {
        (with_scanline(buffer, moved), moved)
    } else if next == 144 {
        (buffer, BusState { inf: set_bit(moved.inf, VBLANK_BIT), ..moved })
    } else {
        (buffer, moved)
    }
}

/// The buffer and the bus after `lines` moves to the next scanline.
pub open spec fn advance_by(buffer: Seq<u32>, bus: BusState, lines: nat) -> (Seq<u32>, BusState)
    decreases lines,
{
    if lines == 0 {
        (buffer, bus)
    } else {
        let (drawn, moved) = advance(buffer, bus);
        advance_by(drawn, moved, (lines - 1) as nat)
    }
}

/// The byte at `index` of the frame that shows a buffer: four bytes per
/// pixel, red, green, blue and an opaque alpha.
pub open spec fn frame_byte(buffer: Seq<u32>, index: int) -> u8 {
    let color = buffer[index / 4] as int;
    let channel = index % 4;
    if channel == 0 {
        (color / 0x10000 % 0x100) as u8
    } else if channel == 1 {
        (color / 0x100 % 0x100) as u8
    } else if channel == 2 {
        (color % 0x100) as u8
    } else {
        0xFF
    }
}

/// How the channels of a colour read over the integers.
pub proof fn lemma_channel_bits(color: u32)
    by (bit_vector)
    ensures
        (color >> 16) & 0xFF == color / 0x10000 % 0x100,
        (color >> 8) & 0xFF == color / 0x100 % 0x100,
        color & 0xFF == color % 0x100,
{
}

impl PPU {
    /// Draws one sprite on the current scanline.
    fn render_sprite(&mut self, bus: &MemoryBus, sprite: u8)
        requires
            sprite < 40,
            sprites_show(bus@),
        ensures
            final(self).cycle_count == old(self).cycle_count,
            forall|i: int|
                0 <= i < 23040 ==> #[trigger] final(self).buffer@[i] == (if in_row(
                    i,
                    setting(bus@, PPUSettings::LY) as int,
                ) && sprite_paints(
                    bus@,
                    sprite as int,
                    i - setting(bus@, PPUSettings::LY) * 160,
                ) {
                    sprite_color(bus@, sprite as int)
                } else {
                    old(self).buffer@[i]
                }),
    {
        let lcdc = Self::get(bus, PPUSettings::LCDC);
        let ly = Self::get(bus, PPUSettings::LY);
        let sprite_height: i16 = if has_bit(lcdc, 2) {
            16
        } else {
            8
        };
        let index = sprite as u16 * 4;
        let y = Self::read_oam(bus, index) as i16 - 16;
        let x = Self::read_oam(bus, index + 1) as i16 - 8;
        let tile_index = Self::read_oam(bus, index + 2);
        let attributes = Self::read_oam(bus, index + 3);
        if (ly as i16) < y || ly as i16 >= y + sprite_height {
            return ;
        }
        let line: i16 = if !has_bit(attributes, 6) {
            ly as i16 - y
        } else {
            sprite_height - 1 - (ly as i16 - y)
        };
        let tile_address: u16 = tile_index as u16 * 16 + line as u16 * 2;
        let tile_data = Self::read_vram(bus, tile_address);
        let palette = if !has_bit(attributes, 4) {
            Self::get(bus, PPUSettings::OGP0)
        } else {
            Self::get(bus, PPUSettings::OGP1)
        };
        let color = Self::get_color(palette, 1);
        let flipped = has_bit(attributes, 5);
        let row = ly as usize * 160;
        let mut tile_x: u8 = 0;
        while tile_x < 8
            invariant
                tile_x <= 8,
                sprite < 40,
                row == ly * 160,
                ly < 144,
                ly == setting(bus@, PPUSettings::LY),
                x == sprite_left(bus@, sprite as int),
                sprite_on_line(bus@, sprite as int),
                tile_data == sprite_line(bus@, sprite as int),
                flipped == bit_is_set(sprite_attributes(bus@, sprite as int), 5),
                color == sprite_color(bus@, sprite as int),
                self.cycle_count == old(self).cycle_count,
                forall|i: int|
                    0 <= i < 23040 ==> #[trigger] self.buffer@[i] == (if row <= i < row + 160
                        && sprite_paints(bus@, sprite as int, i - row) && sprite_column(
                        bus@,
                        sprite as int,
                        i - row,
                    ) < tile_x {
                        color
                    } else {
                        old(self).buffer@[i]
                    }),
            decreases 8 - tile_x,
        {
            if has_bit(tile_data, 7 - tile_x) {
                let pixel_x: i16 = if !flipped {
                    x + tile_x as i16
                } else {
                    x + (7 - tile_x as i16)
                };
                if 0 <= pixel_x && pixel_x < 160 {
                    self.buffer[row + pixel_x as usize] = color;
                }
            }
            tile_x = tile_x + 1;
        }
    }

    /// Draws the sprites of the current scanline, the last of the table
    /// first, so that a sprite of a lower index covers one of a higher.
    pub fn render_sprites(&mut self, bus: &MemoryBus)
        ensures
            final(self).cycle_count == old(self).cycle_count,
            final(self).buffer@ == with_sprites(old(self).buffer@, bus@),
    {
        let lcdc = Self::get(bus, PPUSettings::LCDC);
        let ly = Self::get(bus, PPUSettings::LY);
        if !has_bit(lcdc, 1) || ly >= 144 {
            assert(self.buffer@ =~= with_sprites(self.buffer@, bus@));
            return ;
        }
        let ghost row = ly as int * 160;
        let mut remaining: u8 = 40;
        while remaining > 0
            invariant
                remaining <= 40,
                row == ly * 160,
                ly == setting(bus@, PPUSettings::LY),
                sprites_show(bus@),
                self.cycle_count == old(self).cycle_count,
                forall|i: int|
                    0 <= i < 23040 ==> #[trigger] self.buffer@[i] == (if row <= i < row + 160 {
                        sprites_color(bus@, i - row, remaining as int, old(self).buffer@[i])
                    } else {
                        old(self).buffer@[i]
                    }),
            decreases remaining,
        {
            remaining = remaining - 1;
            self.render_sprite(bus, remaining);
        }
        assert(self.buffer@ =~= with_sprites(old(self).buffer@, bus@));
    }

    /// Composes the current scanline into the buffer.
    pub fn render_scanline(&mut self, bus: &MemoryBus)
        ensures
            final(self).cycle_count == old(self).cycle_count,
            final(self).buffer@ == with_scanline(old(self).buffer@, bus@),
    {
        self.render_background(bus);
        self.render_window(bus);
        self.render_sprites(bus);
    }

    /// Lets `cycles` T-cycles pass: the picture unit moves to the next
    /// scanline for every `LINE_CYCLES` that have passed since the start of
    /// the current one.
    pub fn update(&mut self, bus: &mut MemoryBus, cycles: u16)
        ensures
            final(self).cycle_count == (old(self).cycle_count + cycles) % (LINE_CYCLES as int),
            (final(self).buffer@, final(bus)@) == advance_by(
                old(self).buffer@,
                old(bus)@,
                ((old(self).cycle_count + cycles) / (LINE_CYCLES as int)) as nat,
            ),
    {
        let total: u32 = self.cycle_count as u32 + cycles as u32;
        let lines: u32 = total / LINE_CYCLES;
        self.cycle_count = (total % LINE_CYCLES) as u16;
        let mut done: u32 = 0;
        while done < lines
            invariant
                done <= lines,
                self.cycle_count == (old(self).cycle_count + cycles) % (LINE_CYCLES as int),
                advance_by(self.buffer@, bus@, (lines - done) as nat) == advance_by(
                    old(self).buffer@,
                    old(bus)@,
                    lines as nat,
                ),
            decreases lines - done,
        {
            let ly = Self::get(bus, PPUSettings::LY);
            let next = ((ly as u16 + 1) % FRAME_LINES) as u8;
            Self::set(bus, PPUSettings::LY, next);
            if next < 144 {
                self.render_scanline(bus);
            } else if next == 144 {
                bus.inf = put_bit(bus.inf, VBLANK_BIT);
            }
            done = done + 1;
        }
    }

    /// The frame that shows the buffer: four bytes per pixel, red, green,
    /// blue and an opaque alpha, row by row.
    pub fn draw_buffer(&self) -> (frame: Vec<u8>)
        ensures
            frame@.len() == 4 * 23040,
            forall|k: int| 0 <= k < 4 * 23040 ==> #[trigger] frame@[k] == frame_byte(self.buffer@, k),
    {
        let mut frame: Vec<u8> = Vec::new();
        let mut i: usize = 0;
        while i < 23040
            invariant
                i <= 23040,
                frame@.len() == 4 * i,
                forall|k: int| 0 <= k < 4 * i ==> #[trigger] frame@[k] == frame_byte(self.buffer@, k),
            decreases 23040 - i,
        {
            let color = self.buffer[i];
            proof {
                lemma_channel_bits(color);
            }
            frame.push(((color >> 16) & 0xFF) as u8);
            frame.push(((color >> 8) & 0xFF) as u8);
            frame.push((color & 0xFF) as u8);
            frame.push(0xFF);
            i = i + 1;
        }
        frame
    }
}

/// Composing a scanline changes the row of the current scanline and no
/// other: every pixel outside that row keeps its colour, and so does the
/// whole buffer when the scanline is not a visible one.
pub proof fn lemma_scanline_touches_its_row(buffer: Seq<u32>, bus: MemoryBus, index: int)
    requires
        0 <= index < buffer.len(),
        !in_row(index, setting(bus@, PPUSettings::LY) as int) || setting(bus@, PPUSettings::LY)
            >= 144,
    ensures
        with_scanline(buffer, bus@).len() == buffer.len(),
        with_scanline(buffer, bus@)[index] == buffer[index],
{
}

/// The scanline register counts through the 154 lines of a frame and
/// starts over.
pub proof fn lemma_next_line(ly: u8)
    ensures
        ly < 153 ==> next_line(ly) == ly + 1,
        ly == 153 ==> next_line(ly) == 0,
        next_line(ly) < 154,
{
}

} // verus!
