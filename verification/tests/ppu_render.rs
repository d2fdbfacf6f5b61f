//! Picture-processor tests: register decoding, color lookup, bitplane
//! decoding, sprite selection and the per-pixel cascade.

use breeze_core::ppu::{Ppu, Rgb};

/// Writes one OAM entry: position, tile and attribute byte.
fn set_oam(ppu: &mut Ppu, index: usize, x: u8, y: u8, tile: u8, attrs: u8) {
    ppu.oam[index * 4] = x;
    ppu.oam[index * 4 + 1] = y;
    ppu.oam[index * 4 + 2] = tile;
    ppu.oam[index * 4 + 3] = attrs;
}

/// Writes a 15-bit BGR value into color RAM.
fn set_color(ppu: &mut Ppu, index: usize, bgr: u16) {
    ppu.cgram[index * 2] = (bgr & 0xFF) as u8;
    ppu.cgram[index * 2 + 1] = (bgr >> 8) as u8;
}

#[test]
fn tilemap_entry_decodes_the_documented_layout() {
    // Word $a007 under the layout vhopppcc cccccccc: vflip set, hflip clear,
    // priority 1, palette 0, tile number 7.
    let mut ppu = Ppu::new();
    ppu.vram[0x200] = 0x07;
    ppu.vram[0x201] = 0xA0;
    let e = ppu.tilemap_entry(0x100);
    assert!(e.vflip);
    assert!(!e.hflip);
    assert_eq!(e.priority, 1);
    assert_eq!(e.palette, 0);
    assert_eq!(e.tile_number, 7);
    // Mode 0 gives every layer 4 colors, i.e. 2 bitplanes.
    assert_eq!(ppu.color_count_for_bg(1), 4);
}

#[test]
fn tilemap_entry_decodes_palette_and_flips() {
    let mut ppu = Ppu::new();
    ppu.vram[0x2000] = 0xFF;
    ppu.vram[0x2001] = 0x67; // hflip, priority 1, palette 1, tile $3ff
    let e = ppu.tilemap_entry(0x1000);
    assert!(!e.vflip);
    assert!(e.hflip);
    assert_eq!(e.priority, 1);
    assert_eq!(e.palette, 1);
    assert_eq!(e.tile_number, 0x3FF);
}

#[test]
fn color_lookup_widens_five_bit_channels() {
    let mut ppu = Ppu::new();
    set_color(&mut ppu, 1, 0x7FFF);
    assert_eq!(ppu.lookup_color(1), Rgb { r: 0xF8, g: 0xF8, b: 0xF8 });
    set_color(&mut ppu, 2, 0x7C00); // blue only
    assert_eq!(ppu.lookup_color(2), Rgb { r: 0, g: 0, b: 0xF8 });
    set_color(&mut ppu, 3, 0x03E0); // green only
    assert_eq!(ppu.lookup_color(3), Rgb { r: 0, g: 0xF8, b: 0 });
    set_color(&mut ppu, 4, 0x001F); // red only
    assert_eq!(ppu.lookup_color(4), Rgb { r: 0xF8, g: 0, b: 0 });
}

#[test]
fn two_bitplanes_read_msb_first() {
    let mut ppu = Ppu::new();
    ppu.vram[0x100] = 0b1000_0001; // bit 0 plane
    ppu.vram[0x101] = 0b0000_0001; // bit 1 plane
    assert_eq!(ppu.read_2_bitplanes(0x100, 0, 0), 1);
    assert_eq!(ppu.read_2_bitplanes(0x100, 7, 0), 3);
    assert_eq!(ppu.read_2_bitplanes(0x100, 1, 0), 0);
}

#[test]
fn chr_entry_accumulates_two_bits_per_pair() {
    let mut ppu = Ppu::new();
    // First pair gives 1, second pair (16 bytes on) gives 2: index 0b1001.
    ppu.vram[0x40] = 0x80;
    ppu.vram[0x41] = 0x00;
    ppu.vram[0x50] = 0x00;
    ppu.vram[0x51] = 0x80;
    assert_eq!(ppu.read_chr_entry(4, 0x40, 8, 0, 0), 0b1001);
}

#[test]
fn second_oam_table_packs_two_bits_per_sprite() {
    // Byte 0x04 holds sprite 1's pair in bits 2-3: size toggle set, ninth
    // X bit clear, so X stays the positive stored byte.
    let mut ppu = Ppu::new();
    set_oam(&mut ppu, 1, 0x40, 0, 0, 0);
    ppu.oam[512] = 0x04;
    let e = ppu.get_oam_entry(1);
    assert!(e.size_toggle);
    assert_eq!(e.x, 0x40);
    // Sprite 0's pair (bits 0-1) is clear.
    let e0 = ppu.get_oam_entry(0);
    assert!(!e0.size_toggle);
    // Byte 0x08 holds sprite 1's ninth X bit: X becomes negative.
    ppu.oam[512] = 0x08;
    let e1 = ppu.get_oam_entry(1);
    assert!(!e1.size_toggle);
    assert_eq!(e1.x, 0x40 - 0x100);
}

#[test]
fn obj_size_follows_the_selection_bits() {
    let mut ppu = Ppu::new();
    ppu.obsel = 0;
    assert_eq!(ppu.obj_size(false), (8, 8));
    assert_eq!(ppu.obj_size(true), (16, 16));
    ppu.obsel = 5;
    assert_eq!(ppu.obj_size(false), (32, 32));
    assert_eq!(ppu.obj_size(true), (64, 64));
}

#[test]
fn bg_settings_collects_addresses_and_mirroring() {
    let mut ppu = Ppu::new();
    ppu.bg1sc = 0xFF; // tilemap at the top, both mirrors off (bits set)
    ppu.bg12nba = 0x21;
    ppu.bg1hofs = 0x0123;
    ppu.bg1vofs = 0x0456;
    let bg = ppu.bg_settings(1);
    assert_eq!(bg.tilemap_addr, 0xFC00);
    assert!(!bg.tilemap_mirror_h);
    assert!(!bg.tilemap_mirror_v);
    assert_eq!(bg.chr_addr, 0x1000);
    assert_eq!(bg.tile_size, 8);
    assert_eq!(bg.hscroll, 0x0123);
    assert_eq!(bg.vscroll, 0x0456);
    assert_eq!(bg.mosaic, 1);
    let bg2 = ppu.bg_settings(2);
    assert_eq!(bg2.chr_addr, 0x2000);
}

#[test]
fn forty_sprites_on_one_scanline_select_exactly_thirty_two() {
    let mut ppu = Ppu::new();
    ppu.scanline = 10;
    for i in 0..40 {
        set_oam(&mut ppu, i, i as u8, 10, 0, 0);
    }
    ppu.collect_sprite_data_for_scanline();
    // The first 32 in scan order are selected; the overflow condition is
    // raised; the 34-tile cap is not reached by 32 single-tile sprites.
    assert_eq!(ppu.render_state.visible_sprite_tiles.len(), 32);
    assert!(ppu.render_state.sprite_overflow);
    assert!(!ppu.render_state.tile_overflow);
    // Tiles are emitted in reverse selection order: sprite 31 first.
    assert_eq!(ppu.render_state.visible_sprite_tiles[0].x, 31);
    assert_eq!(ppu.render_state.visible_sprite_tiles[31].x, 0);
}

#[test]
fn thirty_two_sprites_raise_no_overflow() {
    let mut ppu = Ppu::new();
    ppu.scanline = 10;
    for i in 0..32 {
        set_oam(&mut ppu, i, 0, 10, 0, 0);
    }
    ppu.collect_sprite_data_for_scanline();
    assert_eq!(ppu.render_state.visible_sprite_tiles.len(), 32);
    assert!(!ppu.render_state.sprite_overflow);
}

#[test]
fn wide_sprites_overflow_the_tile_list_at_thirty_four() {
    let mut ppu = Ppu::new();
    ppu.scanline = 10;
    ppu.obsel = 2; // alternate size 64x64: 8 tiles per sprite
    for i in 0..5 {
        set_oam(&mut ppu, i, 0, 10, 0, 0);
        // each second-table byte packs four sprites at two bits each; the
        // low bit of a sprite's pair is its size toggle
        ppu.oam[512 + i / 4] |= 1 << (2 * (i % 4));
    }
    ppu.collect_sprite_data_for_scanline();
    assert_eq!(ppu.render_state.visible_sprite_tiles.len(), 34);
    assert!(ppu.render_state.tile_overflow);
    assert!(!ppu.render_state.sprite_overflow);
}

#[test]
fn scan_starts_at_the_configured_first_sprite() {
    let mut ppu = Ppu::new();
    ppu.scanline = 10;
    ppu.first_sprite = 2;
    for i in 0..3 {
        set_oam(&mut ppu, i, 10 + i as u8, 10, 0, 0);
    }
    ppu.collect_sprite_data_for_scanline();
    // Scan order is 2, 3, ..., 127, 0, 1: selection is [2, 0, 1], and the
    // tiles are emitted in reverse selection order.
    assert_eq!(ppu.render_state.visible_sprite_tiles.len(), 3);
    assert_eq!(ppu.render_state.visible_sprite_tiles[0].x, 11);
    assert_eq!(ppu.render_state.visible_sprite_tiles[1].x, 10);
    assert_eq!(ppu.render_state.visible_sprite_tiles[2].x, 12);
}

#[test]
fn sprite_off_the_scanline_is_not_selected() {
    let mut ppu = Ppu::new();
    ppu.scanline = 100;
    set_oam(&mut ppu, 0, 0, 10, 0, 0); // spans lines 10-18 only
    set_oam(&mut ppu, 1, 0, 95, 0, 0); // spans lines 95-103
    ppu.collect_sprite_data_for_scanline();
    assert_eq!(ppu.render_state.visible_sprite_tiles.len(), 1);
}

#[test]
fn backdrop_color_wins_when_nothing_is_enabled() {
    let mut ppu = Ppu::new();
    set_color(&mut ppu, 0, 0x001F);
    ppu.x = 100;
    ppu.scanline = 100;
    assert_eq!(ppu.render_pixel(), Rgb { r: 0xF8, g: 0, b: 0 });
}

#[test]
fn debug_region_reads_the_palette_directly() {
    let mut ppu = Ppu::new();
    // The dot (x, scanline) = (4, 8) maps to palette entry 2 * 16 + 1.
    set_color(&mut ppu, 33, 0x03E0);
    ppu.x = 4;
    ppu.scanline = 8;
    assert_eq!(ppu.render_pixel(), Rgb { r: 0, g: 0xF8, b: 0 });
}

#[test]
fn sprite_pixel_resolves_through_its_palette() {
    let mut ppu = Ppu::new();
    ppu.tm = 0x10; // sprites enabled, no backgrounds
    ppu.scanline = 100;
    ppu.x = 0; // the cache is rebuilt on the first dot; redrawn below
    set_oam(&mut ppu, 0, 100, 100, 0, 0); // 8x8 sprite at (100, 100)
    ppu.vram[0] = 0x80; // top-left pixel: palette index 1
    set_color(&mut ppu, 129, 0x7FFF); // 128 + palette 0 * 16 + 1
    set_color(&mut ppu, 0, 0x0000);
    ppu.render_pixel(); // dot 0: rebuilds the scanline cache
    ppu.x = 100;
    assert_eq!(ppu.render_pixel(), Rgb { r: 0xF8, g: 0xF8, b: 0xF8 });
    // One pixel to the right inside the tile is transparent: backdrop.
    ppu.x = 101;
    assert_eq!(ppu.render_pixel(), Rgb { r: 0, g: 0, b: 0 });
}

#[test]
fn background_pixel_resolves_through_the_tilemap() {
    let mut ppu = Ppu::new();
    ppu.tm = 0x01; // background 1 only
    ppu.bgmode = 0; // mode 0: 2 bitplanes, 8x8 tiles
    ppu.bg1sc = 0x03; // tilemap at word 0, mirrors off
    ppu.bg12nba = 0x01; // characters at word $1000 (byte $2000)
    ppu.scanline = 100;
    ppu.x = 0;
    // The dot (16, 100) falls in tile (2, 12): tilemap word 12 * 32 + 2.
    let entry_word = 12 * 32 + 2;
    ppu.vram[entry_word * 2] = 5; // tile number 5, palette 0, priority 0
    ppu.vram[entry_word * 2 + 1] = 0;
    // Tile 5's bitplanes: 2 bitplanes, 16 bytes per tile, row 4 of the tile
    // (scanline 100 with no scroll), leftmost pixel set on plane 1.
    let chr = 0x2000 + 5 * 16 + 4 * 2;
    ppu.vram[chr] = 0x00;
    ppu.vram[chr + 1] = 0x80; // palette index 2
    set_color(&mut ppu, 2, 0x7C00); // mode 0, palette 0, layer 1: base 0
    ppu.render_pixel();
    ppu.x = 16;
    assert_eq!(ppu.render_pixel(), Rgb { r: 0, g: 0, b: 0xF8 });
    // The tilemap entry has priority 0, so a priority-1 probe rejects it.
    assert_eq!(ppu.lookup_bg_color(1, 1), None);
    assert!(ppu.lookup_bg_color(1, 0).is_some());
}

#[test]
fn update_advances_dots_and_fires_blanking_events() {
    let mut ppu = Ppu::new();
    ppu.x = 255;
    ppu.scanline = 0;
    let (cy, hblank, vblank) = ppu.update();
    assert_eq!(cy, 4);
    assert!(hblank);
    assert!(!vblank);
    ppu.x = 339;
    ppu.scanline = 223;
    let (_, hblank, vblank) = ppu.update();
    assert!(!hblank);
    assert!(vblank);
    assert_eq!(ppu.x, 0);
    assert_eq!(ppu.scanline, 224);
    ppu.x = 339;
    ppu.scanline = 261;
    let (_, _, vblank) = ppu.update();
    assert!(!vblank);
    assert_eq!(ppu.scanline, 0);
}
