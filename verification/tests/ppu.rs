use gameboy::memory::MemoryBus;
use gameboy::ppu::{PPUSettings, PPU};
use gameboy::rom::ROM;

const WHITE: u32 = 0xFFFFFF;
const LIGHT: u32 = 0xAAAAAA;
const DARK: u32 = 0x555555;
const BLACK: u32 = 0x000000;

fn fresh() -> (Box<PPU>, MemoryBus) {
    (Box::new(PPU::new()), MemoryBus::new(ROM::new(vec![])))
}

#[test]
fn settings_have_fixed_addresses() {
    let all = [
        PPUSettings::LCDC,
        PPUSettings::STAT,
        PPUSettings::SCY,
        PPUSettings::SCX,
        PPUSettings::LY,
        PPUSettings::LYC,
        PPUSettings::DMA,
        PPUSettings::BGP,
        PPUSettings::OGP0,
        PPUSettings::OGP1,
        PPUSettings::WY,
        PPUSettings::WX,
    ];
    for (i, setting) in all.iter().enumerate() {
        assert_eq!(setting.address(), 0xFF40 + i as u16);
    }
}

#[test]
fn vram_and_oam_are_reached_by_offset() {
    let (_, mut bus) = fresh();
    PPU::write_vram(&mut bus, 0x0010, 0x12);
    assert_eq!(bus.read_byte(0x8010), 0x12);
    assert_eq!(PPU::read_vram(&bus, 0x0010), 0x12);
    PPU::write_oam(&mut bus, 0x0004, 0x34);
    assert_eq!(bus.read_byte(0xFE04), 0x34);
    assert_eq!(PPU::read_oam(&bus, 0x0004), 0x34);
    PPU::set(&mut bus, PPUSettings::SCX, 0x56);
    assert_eq!(bus.read_byte(0xFF43), 0x56);
    assert_eq!(PPU::get(&bus, PPUSettings::SCX), 0x56);
}

#[test]
fn palette_entries_select_shades() {
    assert_eq!(PPU::get_color(0b11_10_01_00, 0), WHITE);
    assert_eq!(PPU::get_color(0b11_10_01_00, 1), LIGHT);
    assert_eq!(PPU::get_color(0b11_10_01_00, 2), DARK);
    assert_eq!(PPU::get_color(0b11_10_01_00, 3), BLACK);
    assert_eq!(PPU::get_color(0b00_01_10_11, 0), BLACK);
    assert_eq!(PPU::get_color(0b00_01_10_11, 3), WHITE);
}

#[test]
fn a_new_picture_unit_is_black() {
    let (ppu, _) = fresh();
    assert_eq!(ppu.cycle_count, 0);
    assert!(ppu.buffer.iter().all(|c| *c == 0));
}

#[test]
fn a_scanline_takes_456_cycles() {
    let (mut ppu, mut bus) = fresh();
    ppu.update(&mut bus, 455);
    assert_eq!(bus.read_byte(0xFF44), 0);
    assert_eq!(ppu.cycle_count, 455);
    ppu.update(&mut bus, 1);
    assert_eq!(bus.read_byte(0xFF44), 1);
    assert_eq!(ppu.cycle_count, 0);
    ppu.update(&mut bus, 456 * 3 + 10);
    assert_eq!(bus.read_byte(0xFF44), 4);
    assert_eq!(ppu.cycle_count, 10);
}

#[test]
fn line_144_requests_vblank_and_the_frame_wraps_after_153() {
    let (mut ppu, mut bus) = fresh();
    for _ in 0..143 {
        ppu.update(&mut bus, 456);
    }
    assert_eq!(bus.read_byte(0xFF44), 143);
    assert_eq!(bus.inf & 0x01, 0);
    ppu.update(&mut bus, 456);
    assert_eq!(bus.read_byte(0xFF44), 144);
    assert_eq!(bus.inf & 0x01, 0x01);
    bus.inf = 0;
    for _ in 0..9 {
        ppu.update(&mut bus, 456);
    }
    assert_eq!(bus.read_byte(0xFF44), 153);
    assert_eq!(bus.inf, 0);
    ppu.update(&mut bus, 456);
    assert_eq!(bus.read_byte(0xFF44), 0);
}

fn checkered_background(bus: &mut MemoryBus) {
    // Tile 1 has its even columns set on every line; the first map row
    // names tile 1 in every second square.
    for line in 0..8u16 {
        PPU::write_vram(bus, 16 + line * 2, 0b1010_1010);
    }
    for column in 0..32u16 {
        PPU::write_vram(bus, 0x1800 + column, (column % 2) as u8);
    }
    PPU::set(bus, PPUSettings::BGP, 0b11_10_01_00);
}

#[test]
fn background_draws_the_tiles_of_the_map() {
    let (mut ppu, mut bus) = fresh();
    checkered_background(&mut bus);
    PPU::set(&mut bus, PPUSettings::LCDC, 0x01);
    PPU::set(&mut bus, PPUSettings::LY, 3);
    ppu.render_background(&bus);
    for x in 0..160usize {
        let in_tile_one = (x / 8) % 2 == 1;
        let expected = if in_tile_one && x % 2 == 0 { LIGHT } else { WHITE };
        assert_eq!(ppu.buffer[3 * 160 + x], expected, "column {}", x);
    }
    assert!(ppu.buffer[..3 * 160].iter().all(|c| *c == 0));
    assert!(ppu.buffer[4 * 160..].iter().all(|c| *c == 0));
}

#[test]
fn background_scrolls_by_scx() {
    let (mut ppu, mut bus) = fresh();
    checkered_background(&mut bus);
    PPU::set(&mut bus, PPUSettings::LCDC, 0x01);
    PPU::set(&mut bus, PPUSettings::SCX, 8);
    ppu.render_background(&bus);
    assert_eq!(ppu.buffer[0], LIGHT);
    assert_eq!(ppu.buffer[1], WHITE);
    assert_eq!(ppu.buffer[8], WHITE);
    PPU::set(&mut bus, PPUSettings::SCX, 255);
    ppu.render_background(&bus);
    assert_eq!(ppu.buffer[0], WHITE);
    assert_eq!(ppu.buffer[9], LIGHT);
}

#[test]
fn a_disabled_background_leaves_the_buffer() {
    let (mut ppu, mut bus) = fresh();
    checkered_background(&mut bus);
    ppu.buffer[5] = 0x123456;
    ppu.render_background(&bus);
    assert_eq!(ppu.buffer[5], 0x123456);
    PPU::set(&mut bus, PPUSettings::LCDC, 0x01);
    PPU::set(&mut bus, PPUSettings::LY, 144);
    ppu.render_background(&bus);
    assert_eq!(ppu.buffer[5], 0x123456);
}

#[test]
fn window_covers_the_columns_from_wx_less_seven() {
    let (mut ppu, mut bus) = fresh();
    for line in 0..8u16 {
        PPU::write_vram(&mut bus, 16 + line * 2, 0xFF);
    }
    for column in 0..32u16 {
        PPU::write_vram(&mut bus, 0x1C00 + column, 1);
    }
    PPU::set(&mut bus, PPUSettings::BGP, 0b11_10_01_00);
    PPU::set(&mut bus, PPUSettings::LCDC, 0x60);
    PPU::set(&mut bus, PPUSettings::WX, 107);
    PPU::set(&mut bus, PPUSettings::WY, 2);
    PPU::set(&mut bus, PPUSettings::LY, 5);
    ppu.render_window(&bus);
    for x in 0..160usize {
        let expected = if x >= 100 { LIGHT } else { 0 };
        assert_eq!(ppu.buffer[5 * 160 + x], expected, "column {}", x);
    }
    PPU::set(&mut bus, PPUSettings::LY, 1);
    ppu.render_window(&bus);
    assert!(ppu.buffer[160..2 * 160].iter().all(|c| *c == 0));
}

fn one_sprite(bus: &mut MemoryBus, sprite: u16, y: u8, x: u8, tile: u8, attributes: u8) {
    PPU::write_oam(bus, sprite * 4, y);
    PPU::write_oam(bus, sprite * 4 + 1, x);
    PPU::write_oam(bus, sprite * 4 + 2, tile);
    PPU::write_oam(bus, sprite * 4 + 3, attributes);
}

#[test]
fn sprites_paint_their_set_columns() {
    let (mut ppu, mut bus) = fresh();
    PPU::write_vram(&mut bus, 2 * 16 + 3 * 2, 0b1100_0001);
    PPU::set(&mut bus, PPUSettings::OGP0, 0b11_10_01_00);
    PPU::set(&mut bus, PPUSettings::OGP1, 0b00_00_11_00);
    PPU::set(&mut bus, PPUSettings::LCDC, 0x02);
    PPU::set(&mut bus, PPUSettings::LY, 13);
    // Top at line 10, left at column 20: line 13 is row 3 of the tile.
    one_sprite(&mut bus, 0, 26, 28, 2, 0x00);
    ppu.render_sprites(&bus);
    for x in 0..160usize {
        let expected = if x == 20 || x == 21 || x == 27 { LIGHT } else { 0 };
        assert_eq!(ppu.buffer[13 * 160 + x], expected, "column {}", x);
    }
}

#[test]
fn sprites_flip_and_use_the_second_palette() {
    let (mut ppu, mut bus) = fresh();
    PPU::write_vram(&mut bus, 2 * 16 + 3 * 2, 0b1100_0001);
    PPU::write_vram(&mut bus, 2 * 16 + 4 * 2, 0b0000_1000);
    PPU::set(&mut bus, PPUSettings::OGP0, 0b11_10_01_00);
    PPU::set(&mut bus, PPUSettings::OGP1, 0b00_00_11_00);
    PPU::set(&mut bus, PPUSettings::LCDC, 0x02);
    PPU::set(&mut bus, PPUSettings::LY, 13);
    one_sprite(&mut bus, 0, 26, 28, 2, 0x30);
    ppu.buffer = [0x111111; 23040];
    ppu.render_sprites(&bus);
    for x in 0..160usize {
        let expected = if x == 20 || x == 26 || x == 27 { BLACK } else { 0x111111 };
        assert_eq!(ppu.buffer[13 * 160 + x], expected, "column {}", x);
    }
    // Flipped top to bottom, line 13 shows row 4 of the tile.
    let (mut ppu, _) = fresh();
    ppu.buffer = [0x111111; 23040];
    one_sprite(&mut bus, 0, 26, 28, 2, 0x40);
    ppu.render_sprites(&bus);
    for x in 0..160usize {
        let expected = if x == 24 { LIGHT } else { 0x111111 };
        assert_eq!(ppu.buffer[13 * 160 + x], expected, "column {}", x);
    }
}

#[test]
fn a_sprite_of_a_lower_index_covers_one_of_a_higher() {
    let (mut ppu, mut bus) = fresh();
    PPU::write_vram(&mut bus, 16, 0xFF);
    PPU::set(&mut bus, PPUSettings::OGP0, 0b11_10_01_00);
    PPU::set(&mut bus, PPUSettings::OGP1, 0b11_10_10_00);
    PPU::set(&mut bus, PPUSettings::LCDC, 0x02);
    one_sprite(&mut bus, 3, 16, 8 + 4, 1, 0x00);
    one_sprite(&mut bus, 7, 16, 8 + 8, 1, 0x10);
    ppu.render_sprites(&bus);
    for x in 0..160usize {
        let expected = if (4..12).contains(&x) {
            LIGHT
        } else if (12..16).contains(&x) {
            DARK
        } else {
            0
        };
        assert_eq!(ppu.buffer[x], expected, "column {}", x);
    }
}

#[test]
fn sprites_are_clipped_at_the_edges_and_may_be_tall() {
    let (mut ppu, mut bus) = fresh();
    PPU::write_vram(&mut bus, 16 + 9 * 2, 0xFF);
    PPU::set(&mut bus, PPUSettings::OGP0, 0b11_10_01_00);
    PPU::set(&mut bus, PPUSettings::LCDC, 0x06);
    PPU::set(&mut bus, PPUSettings::LY, 9);
    one_sprite(&mut bus, 0, 16, 3, 1, 0x00);
    one_sprite(&mut bus, 1, 16, 165, 1, 0x00);
    ppu.render_sprites(&bus);
    for x in 0..160usize {
        let expected = if x < 3 || x >= 157 { LIGHT } else { 0 };
        assert_eq!(ppu.buffer[9 * 160 + x], expected, "column {}", x);
    }
    // With sprites 8 lines tall, line 9 is below the sprite.
    let (mut ppu, _) = fresh();
    PPU::set(&mut bus, PPUSettings::LCDC, 0x02);
    ppu.render_sprites(&bus);
    assert!(ppu.buffer.iter().all(|c| *c == 0));
}

#[test]
fn a_scanline_layers_background_window_and_sprites() {
    let (mut ppu, mut bus) = fresh();
    // Tile 0 is blank, tile 1 is solid.
    for line in 0..8u16 {
        PPU::write_vram(&mut bus, 16 + line * 2, 0xFF);
    }
    for column in 0..32u16 {
        PPU::write_vram(&mut bus, 0x1C00 + column, 1);
    }
    PPU::set(&mut bus, PPUSettings::BGP, 0b11_10_01_00);
    PPU::set(&mut bus, PPUSettings::OGP0, 0b11_10_11_00);
    PPU::set(&mut bus, PPUSettings::WX, 87);
    PPU::set(&mut bus, PPUSettings::LCDC, 0x63);
    one_sprite(&mut bus, 0, 16, 8 + 76, 1, 0x00);
    ppu.render_scanline(&bus);
    for x in 0..160usize {
        let expected = if (76..84).contains(&x) {
            BLACK
        } else if x >= 80 {
            LIGHT
        } else {
            WHITE
        };
        assert_eq!(ppu.buffer[x], expected, "column {}", x);
    }
}

#[test]
fn update_renders_each_visible_line_it_reaches() {
    let (mut ppu, mut bus) = fresh();
    checkered_background(&mut bus);
    for column in 0..32u16 {
        PPU::write_vram(&mut bus, 0x1800 + column, 1);
    }
    PPU::set(&mut bus, PPUSettings::LCDC, 0x01);
    ppu.update(&mut bus, 456 * 2);
    assert_eq!(bus.read_byte(0xFF44), 2);
    assert!(ppu.buffer[..160].iter().all(|c| *c == 0));
    assert_eq!(ppu.buffer[160], LIGHT);
    assert_eq!(ppu.buffer[161], WHITE);
    assert_eq!(ppu.buffer[2 * 160], LIGHT);
    assert!(ppu.buffer[3 * 160..].iter().all(|c| *c == 0));
}

#[test]
fn the_frame_holds_four_bytes_per_pixel() {
    let (mut ppu, _) = fresh();
    ppu.buffer[0] = 0x123456;
    ppu.buffer[1] = 0xAAAAAA;
    ppu.buffer[23039] = 0x0000FF;
    let frame = ppu.draw_buffer();
    assert_eq!(frame.len(), 160 * 144 * 4);
    assert_eq!(&frame[0..8], &[0x12, 0x34, 0x56, 0xFF, 0xAA, 0xAA, 0xAA, 0xFF]);
    assert_eq!(&frame[8..12], &[0x00, 0x00, 0x00, 0xFF]);
    assert_eq!(&frame[92156..92160], &[0x00, 0x00, 0xFF, 0xFF]);
}
