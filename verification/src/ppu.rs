//! Picture-processor compositing pipeline: per-scanline sprite visibility
//! selection, per-pixel layer and priority resolution, tile and bitplane
//! decoding, and color lookup, together with the dot-level timing the
//! master-clock scheduler drives.

use vstd::prelude::*;
use crate::sprite_list::{sprite_range_view, SpriteRange};

verus! {

/// Dots per scanline.
pub const DOTS_PER_LINE: u16 = 340;
/// Scanlines per frame.
pub const LINES_PER_FRAME: u16 = 262;
/// The first scanline of the vertical blanking period.
pub const VBLANK_START_LINE: u16 = 224;
/// The first dot of the horizontal blanking period.
pub const HBLANK_START_DOT: u16 = 256;
/// Master-clock cycles one dot takes.
pub const DOT_MASTER_CYCLES: u8 = 4;

/// An 8-bit-per-channel color, converted from the 15-bit BGR color RAM format.
#[derive(Clone, Copy, Debug, PartialEq, Eq, Structural)]
pub struct Rgb {
    pub r: u8,
    pub g: u8,
    pub b: u8,
}

/// Unpacked object-attribute entry for internal use.
#[derive(Clone, Copy, Debug, PartialEq, Eq, Structural)]
pub struct OamEntry {
    /// First tile (0-255); the name table selection bit is applied later.
    pub tile: u8,
    /// Sprite's name table (0 or 1).
    pub name_table: u8,
    /// 9 bits, considered signed (-256 to 255).
    pub x: i16,
    pub y: u8,
    /// 0-3.
    pub priority: u8,
    /// 0-7; the first palette entry is `128 + palette * 16`.
    pub palette: u8,
    pub hflip: bool,
    pub vflip: bool,
    pub size_toggle: bool,
}

/// One 8-pixel-wide tile of a sprite on the current scanline, with everything
/// pixel lookup needs.
#[derive(Clone, Copy, Debug, PartialEq, Eq, Structural)]
pub struct SpriteTile {
    /// Address of the character data for this tile.
    pub chr_addr: u16,
    /// X position of the tile on the screen.
    pub x: i16,
    /// Y position of the scanline inside the tile (0-7).
    pub y_off: u8,
    /// Priority of the sprite (0-3).
    pub priority: u8,
    /// Palette of the sprite (0-7).
    pub palette: u8,
}

/// Collected background settings.
#[derive(Clone, Copy, Debug, PartialEq, Eq, Structural)]
pub struct BgSettings {
    /// Mosaic pixel size (1-16); 1 = normal pixels.
    pub mosaic: u8,
    /// Tilemap word address in VRAM.
    pub tilemap_addr: u16,
    /// When `true`, this background's tilemaps are mirrored sideways.
    pub tilemap_mirror_h: bool,
    /// When `true`, this background's tilemaps are mirrored downwards.
    pub tilemap_mirror_v: bool,
    /// Either 8 or 16.
    pub tile_size: u8,
    /// Character data / tileset address in VRAM.
    pub chr_addr: u16,
    pub hscroll: u16,
    pub vscroll: u16,
}

/// Unpacked tilemap entry for rendering use.
#[derive(Clone, Copy, Debug, PartialEq, Eq, Structural)]
pub struct TilemapEntry {
    pub vflip: bool,
    pub hflip: bool,
    /// Priority bit (0-1).
    pub priority: u8,
    /// Tile palette (0-7).
    pub palette: u8,
    /// Index into the character data where the tile is stored (10 bits).
    pub tile_number: u16,
}

/// Per-scanline render state kept inside the `Ppu`: a cache rebuilt at the
/// start of each scanline and read-only for the rest of it.
pub struct RenderState {
    /// Up to 34 sprite tiles visible on the current scanline.
    pub visible_sprite_tiles: Vec<SpriteTile>,
    /// Set when more than 32 sprites were on one scanline.
    pub sprite_overflow: bool,
    /// Set when the sprites on one scanline spanned more than 34 tiles.
    pub tile_overflow: bool,
}

/// The picture processor: video memory, object attributes, color RAM, the
/// mode and scroll registers, and the current beam position.
pub struct Ppu {
    /// Video RAM: a flat byte array, addressed in 16-bit words.
    pub vram: Vec<u8>,
    /// Object-attribute memory: 128 4-byte entries plus the 32-byte second table.
    pub oam: Vec<u8>,
    /// Color RAM: 256 15-bit BGR entries, two bytes each.
    pub cgram: Vec<u8>,
    /// `$2101` OBSEL: sprite size and name table selection.
    pub obsel: u8,
    /// `$2105` BGMODE: background mode and per-layer character size.
    pub bgmode: u8,
    /// `$2106` MOSAIC: mosaic size and enable bits.
    pub mosaic: u8,
    /// `$2107`-`$210a` BGxSC: per-layer tilemap address and mirroring.
    pub bg1sc: u8,
    pub bg2sc: u8,
    pub bg3sc: u8,
    pub bg4sc: u8,
    /// `$210b` BG12NBA: character data addresses for layers 1 and 2.
    pub bg12nba: u8,
    /// `$210c` BG34NBA: character data addresses for layers 3 and 4.
    pub bg34nba: u8,
    pub bg1hofs: u16,
    pub bg1vofs: u16,
    pub bg2hofs: u16,
    pub bg2vofs: u16,
    pub bg3hofs: u16,
    pub bg3vofs: u16,
    pub bg4hofs: u16,
    pub bg4vofs: u16,
    /// `$212c` TM: layer enable bits (bit 4 enables sprites).
    pub tm: u8,
    /// The object-attribute entry the per-scanline scan starts from
    /// (priority rotation); 0-127.
    pub first_sprite: u8,
    /// Current dot (0-339).
    pub x: u16,
    /// Current scanline (0-261).
    pub scanline: u16,
    pub render_state: RenderState,
}

/// The sizes of video, object-attribute and color memory.
pub const VRAM_SIZE: usize = 65536;
pub const OAM_SIZE: usize = 544;
pub const CGRAM_SIZE: usize = 512;

impl Ppu {
    /// Well-formedness: the three memories have their fixed sizes and the
    /// beam position is inside the frame.
    pub open spec fn wf(&self) -> bool {
        &&& self.vram@.len() == VRAM_SIZE
        &&& self.oam@.len() == OAM_SIZE
        &&& self.cgram@.len() == CGRAM_SIZE
        &&& self.x < DOTS_PER_LINE
        &&& self.scanline < LINES_PER_FRAME
        &&& self.first_sprite < 128
        &&& tiles_wf(self.render_state.visible_sprite_tiles@)
    }

    /// The sprite-size selection in OBSEL names one of the supported pairs.
    pub open spec fn obj_size_valid(&self) -> bool {
        self.obsel & 7 <= 5
    }

    /// The active background mode (0-7).
    pub open spec fn spec_bg_mode(&self) -> u8 {
        self.bgmode & 0b111
    }

    /// Returns the active background mode (0-7).
    pub fn bg_mode(&self) -> (r: u8)
        ensures
            r == self.spec_bg_mode(),
    {
        self.bgmode & 0b111
    }

    /// The configured sprite size in pixels for one of the two size groups.
    pub open spec fn spec_obj_size(&self, alt: bool) -> (u8, u8) {
        let sel = self.obsel & 0b111;
        if sel == 0 {
            if !alt { (8, 8) } else { (16, 16) }
        } else if sel == 1 {
            if !alt { (8, 8) } else { (32, 32) }
        } else if sel == 2 {
            if !alt { (8, 8) } else { (64, 64) }
        } else if sel == 3 {
            if !alt { (16, 16) } else { (32, 32) }
        } else if sel == 4 {
            if !alt { (16, 16) } else { (64, 64) }
        } else {
            if !alt { (32, 32) } else { (64, 64) }
        }
    }

    /// Gets the configured sprite size in pixels; the two rectangular
    /// selections are unsupported and ruled out by the precondition.
    pub fn obj_size(&self, alt: bool) -> (r: (u8, u8))
        requires
            self.obj_size_valid(),
        ensures
            r == self.spec_obj_size(alt),
    {
        let sel = self.obsel & 0b111;
        if sel == 0 {
            if !alt { (8, 8) } else { (16, 16) }
        } else if sel == 1 {
            if !alt { (8, 8) } else { (32, 32) }
        } else if sel == 2 {
            if !alt { (8, 8) } else { (64, 64) }
        } else if sel == 3 {
            if !alt { (16, 16) } else { (32, 32) }
        } else if sel == 4 {
            if !alt { (16, 16) } else { (64, 64) }
        } else {
            if !alt { (32, 32) } else { (64, 64) }
        }
    }

    /// The tilemap entry at a VRAM word address, decoded from the layout
    /// `vhopppcc cccccccc` (high byte, low byte): vertical/horizontal flip,
    /// one priority bit, a 3-bit palette and a 10-bit tile number. The word
    /// address wraps inside the 32K words of VRAM.
    pub open spec fn spec_tilemap_entry(&self, word_address: u16) -> TilemapEntry {
        let wa = word_address & 0x7fff;
        let lo = self.vram@[2 * wa];
        let hi = self.vram@[2 * wa + 1];
        TilemapEntry {
            vflip: hi & 0x80 != 0,
            hflip: hi & 0x40 != 0,
            priority: (hi & 0x20) >> 5,
            palette: (hi & 0x1c) >> 2,
            tile_number: (((hi as u16) & 0x03) << 8) | (lo as u16),
        }
    }

    /// Reads the tilemap entry at the given VRAM word address.
    pub fn tilemap_entry(&self, word_address: u16) -> (r: TilemapEntry)
        requires
            self.wf(),
        ensures
            r == self.spec_tilemap_entry(word_address),
            r.priority <= 1,
            r.palette <= 7,
            r.tile_number <= 0x3ff,
    {
        let wa = word_address & 0x7fff;
        proof {
            let w = word_address;
            assert(w & 0x7fff <= 0x7fff) by (bit_vector);
        }
        let lo = self.vram[(wa as usize) * 2];
        let hi = self.vram[(wa as usize) * 2 + 1];
        proof {
            assert((hi & 0x20) >> 5 <= 1 && (hi & 0x1c) >> 2 <= 7 && ((((hi as u16) & 0x03) << 8)
                | (lo as u16)) <= 0x3ff) by (bit_vector);
        }
        TilemapEntry {
            vflip: hi & 0x80 != 0,
            hflip: hi & 0x40 != 0,
            priority: (hi & 0x20) >> 5,
            palette: (hi & 0x1c) >> 2,
            tile_number: (((hi as u16) & 0x03) << 8) | (lo as u16),
        }
    }

    /// Whether the given background layer (1-4) is enabled in TM.
    pub open spec fn spec_bg_enabled(&self, bg: u8) -> bool {
        self.tm & (1u8 << (bg - 1)) != 0
    }

    /// Determines whether the given background layer is enabled.
    pub fn bg_enabled(&self, bg: u8) -> (r: bool)
        requires
            1 <= bg <= 4,
        ensures
            r == self.spec_bg_enabled(bg),
    {
        self.tm & (1u8 << (bg - 1)) != 0
    }

    /// The collected settings of a background layer (1-4): tilemap address
    /// and mirroring from BGxSC, character address from the NBA registers,
    /// tile size from the mode and the per-layer size bit, and the scroll
    /// registers.
    pub open spec fn spec_bg_settings(&self, bg: u8) -> BgSettings {
        let bgsc = if bg == 1 { self.bg1sc } else if bg == 2 { self.bg2sc }
            else if bg == 3 { self.bg3sc } else { self.bg4sc };
        let chr = if bg == 1 { self.bg12nba & 0x0f } else if bg == 2 { (self.bg12nba & 0xf0) >> 4 }
            else if bg == 3 { self.bg34nba & 0x0f } else { (self.bg34nba & 0xf0) >> 4 };
        let hscroll = if bg == 1 { self.bg1hofs } else if bg == 2 { self.bg2hofs }
            else if bg == 3 { self.bg3hofs } else { self.bg4hofs };
        let vscroll = if bg == 1 { self.bg1vofs } else if bg == 2 { self.bg2vofs }
            else if bg == 3 { self.bg3vofs } else { self.bg4vofs };
        let mode = self.spec_bg_mode();
        BgSettings {
            mosaic: if self.mosaic & (1u8 << (bg - 1)) == 0 {
                1
            } else {
                (((self.mosaic & 0xf0) >> 4) + 1) as u8
            },
            tilemap_addr: (((bgsc as u16) & 0xfc) >> 2) << 10,
            tilemap_mirror_h: bgsc & 0b01 == 0,
            tilemap_mirror_v: bgsc & 0b10 == 0,
            tile_size: if mode == 5 || mode == 6 {
                16
            } else if mode == 7 {
                8
            } else {
                if self.bgmode & (1u8 << (bg + 3)) == 0 { 8 } else { 16 }
            },
            chr_addr: (chr as u16) << 12,
            hscroll,
            vscroll,
        }
    }

    /// Collects the properties of a background layer (1-4).
    pub fn bg_settings(&self, bg: u8) -> (r: BgSettings)
        requires
            1 <= bg <= 4,
        ensures
            r == self.spec_bg_settings(bg),
    {
        let bgsc = if bg == 1 { self.bg1sc } else if bg == 2 { self.bg2sc }
            else if bg == 3 { self.bg3sc } else { self.bg4sc };
        let chr = if bg == 1 { self.bg12nba & 0x0f } else if bg == 2 { (self.bg12nba & 0xf0) >> 4 }
            else if bg == 3 { self.bg34nba & 0x0f } else { (self.bg34nba & 0xf0) >> 4 };
        let (hscroll, vscroll) = if bg == 1 { (self.bg1hofs, self.bg1vofs) }
            else if bg == 2 { (self.bg2hofs, self.bg2vofs) }
            else if bg == 3 { (self.bg3hofs, self.bg3vofs) }
            else { (self.bg4hofs, self.bg4vofs) };
        let mode = self.bg_mode();
        proof {
            let m = self.mosaic;
            assert((m & 0xf0) >> 4 <= 0x0f) by (bit_vector);
        }
        BgSettings {
            mosaic: if self.mosaic & (1u8 << (bg - 1)) == 0 {
                1
            } else {
                ((self.mosaic & 0xf0) >> 4) + 1
            },
            tilemap_addr: (((bgsc as u16) & 0xfc) >> 2) << 10,
            tilemap_mirror_h: bgsc & 0b01 == 0,
            tilemap_mirror_v: bgsc & 0b10 == 0,
            tile_size: if mode == 5 || mode == 6 {
                16
            } else if mode == 7 {
                8
            } else {
                if self.bgmode & (1u8 << (bg + 3)) == 0 { 8 } else { 16 }
            },
            chr_addr: (chr as u16) << 12,
            hscroll,
            vscroll,
        }
    }

    /// The unpacked object-attribute entry of sprite `index` (0-127): X with
    /// its ninth bit sign-extended from the second table, Y, the tile and
    /// name-table selection, priority, palette, the flip bits and the
    /// size-toggle bit. Each second-table byte packs four sprites at two
    /// bits each: the size toggle in the low bit of the pair, X's ninth bit
    /// in the high bit.
    pub open spec fn spec_oam_entry(&self, index: u8) -> OamEntry {
        let start = index as int * 4;
        let byte4 = self.oam@[start + 3];
        let byte = self.oam@[512 + index as int / 4];
        let info = (byte >> (2 * (index & 0x03))) & 0x03;
        let x_lo = self.oam@[start] as u16;
        let x = if info & 0x02 != 0 { 0xff00u16 | x_lo } else { x_lo };
        OamEntry {
            tile: self.oam@[start + 2],
            name_table: byte4 & 1,
            x: x as i16,
            y: self.oam@[start + 1],
            priority: (byte4 & 0x30) >> 4,
            palette: (byte4 & 0x0e) >> 1,
            hflip: byte4 & 0x40 != 0,
            vflip: byte4 & 0x80 != 0,
            size_toggle: info & 0x01 != 0,
        }
    }

    /// Returns the OAM entry of the given sprite; always a valid entry for
    /// `index` in 0-127.
    pub fn get_oam_entry(&self, index: u8) -> (r: OamEntry)
        requires
            self.wf(),
            index < 128,
        ensures
            r == self.spec_oam_entry(index),
            r.priority <= 3,
            r.palette <= 7,
            -256 <= r.x <= 255,
    {
        let start = (index as usize) * 4;
        let byte4 = self.oam[start + 3];
        let byte = self.oam[512 + (index as usize) / 4];
        proof {
            let ix = index;
            assert(2 * (ix & 0x03) <= 6) by (bit_vector);
        }
        let info = (byte >> (2 * (index & 0x03))) & 0x03;
        let x_lo = self.oam[start] as u16;
        let x = if info & 0x02 != 0 {
            0xff00u16 | x_lo
        } else {
            x_lo
        };
        proof {
            let b4 = byte4;
            assert((b4 & 0x30) >> 4 <= 3 && (b4 & 0x0e) >> 1 <= 7) by (bit_vector);
            let xl = x_lo;
            assert(xl <= 0xff ==> -256 <= ((0xff00u16 | xl) as i16) <= 255 && -256 <= (
            xl as i16) <= 255) by (bit_vector);
        }
        OamEntry {
            tile: self.oam[start + 2],
            name_table: byte4 & 1,
            x: x as i16,
            y: self.oam[start + 1],
            priority: (byte4 & 0x30) >> 4,
            palette: (byte4 & 0x0e) >> 1,
            hflip: byte4 & 0x40 != 0,
            vflip: byte4 & 0x80 != 0,
            size_toggle: info & 0x01 != 0,
        }
    }

    /// The color stored at a color RAM index, widened from 15-bit BGR
    /// (5 bits per channel, high byte first in memory) to 8 bits per channel
    /// by shifting each channel up by 3.
    pub open spec fn spec_lookup_color(&self, color: u8) -> Rgb {
        let lo = self.cgram@[color as int * 2] as u16;
        let hi = self.cgram@[color as int * 2 + 1] as u16;
        let val = (hi << 8) | lo;
        Rgb {
            r: ((val & 0x001f) as u8) << 3,
            g: (((val & 0x03e0) >> 5) as u8) << 3,
            b: (((val & 0x7c00) >> 10) as u8) << 3,
        }
    }

    /// Looks up a color index in the color RAM.
    pub fn lookup_color(&self, color: u8) -> (r: Rgb)
        requires
            self.wf(),
        ensures
            r == self.spec_lookup_color(color),
    {
        let lo = self.cgram[(color as usize) * 2] as u16;
        let hi = self.cgram[(color as usize) * 2 + 1] as u16;
        let val = (hi << 8) | lo;
        let b = (val & 0x7c00) >> 10;
        let g = (val & 0x03e0) >> 5;
        let r = val & 0x001f;
        proof {
            let v = val;
            assert((v & 0x001f) <= 0x1f && (v & 0x03e0) >> 5 <= 0x1f && (v & 0x7c00) >> 10
                <= 0x1f) by (bit_vector);
        }
        Rgb { r: (r as u8) << 3, g: (g as u8) << 3, b: (b as u8) << 3 }
    }

    /// The backdrop color used when no layer yields a pixel: palette index 0.
    pub open spec fn spec_backdrop_color(&self) -> Rgb {
        self.spec_lookup_color(0)
    }

    /// Returns the backdrop color used as a default color.
    pub fn backdrop_color(&self) -> (r: Rgb)
        requires
            self.wf(),
        ensures
            r == self.spec_backdrop_color(),
    {
        self.lookup_color(0)
    }

    /// Whether `bg` names a background layer that exists in the given mode.
    pub open spec fn bg_in_mode(mode: u8, bg: u8) -> bool {
        if mode == 0 {
            1 <= bg <= 4
        } else if mode == 1 {
            1 <= bg <= 3
        } else if mode == 2 || mode == 3 || mode == 4 || mode == 5 {
            1 <= bg <= 2
        } else if mode == 6 {
            bg == 1
        } else {
            false
        }
    }

    /// The number of colors of a background layer in the current mode:
    /// 4, 16 or 256 (mode 7 is unsupported here).
    pub open spec fn spec_color_count_for_bg(&self, bg: u8) -> u16 {
        let mode = self.spec_bg_mode();
        if mode == 0 {
            4
        } else if mode == 1 {
            if bg <= 2 { 16 } else { 4 }
        } else if mode == 2 {
            16
        } else if mode == 3 {
            if bg == 1 { 256 } else { 16 }
        } else if mode == 4 {
            if bg == 1 { 256 } else { 4 }
        } else if mode == 5 {
            if bg == 1 { 16 } else { 4 }
        } else {
            16
        }
    }

    /// Returns the number of colors of the given background layer in the
    /// current background mode.
    pub fn color_count_for_bg(&self, bg: u8) -> (r: u16)
        requires
            self.spec_bg_mode() != 7,
            Self::bg_in_mode(self.spec_bg_mode(), bg),
        ensures
            r == self.spec_color_count_for_bg(bg),
            r == 4 || r == 16 || r == 256,
    {
        let mode = self.bg_mode();
        if mode == 0 {
            4
        } else if mode == 1 {
            if bg <= 2 { 16 } else { 4 }
        } else if mode == 2 {
            16
        } else if mode == 3 {
            if bg == 1 { 256 } else { 16 }
        } else if mode == 4 {
            if bg == 1 { 256 } else { 4 }
        } else if mode == 5 {
            if bg == 1 { 16 } else { 4 }
        } else {
            16
        }
    }

    /// The palette base index of a background tile: the mode-specific formula
    /// applied to the 3-bit palette number from the tilemap entry.
    pub open spec fn spec_palette_base_for_bg_tile(&self, bg: u8, palette_num: u8) -> u8 {
        let mode = self.spec_bg_mode();
        if mode == 0 {
            (palette_num * 4 + (bg - 1) * 32) as u8
        } else if mode == 1 || mode == 5 {
            (palette_num * (self.spec_color_count_for_bg(bg) as u8)) as u8
        } else if mode == 2 {
            (palette_num * 16) as u8
        } else if mode == 3 {
            if bg == 1 { 0 } else { (palette_num * 16) as u8 }
        } else if mode == 4 {
            if bg == 1 { 0 } else { (palette_num * 4) as u8 }
        } else {
            (palette_num * 16) as u8
        }
    }

    /// Calculates the palette base index for a tile in the given background
    /// layer; `palette_num` is the 3-bit palette number from the tilemap.
    pub fn palette_base_for_bg_tile(&self, bg: u8, palette_num: u8) -> (r: u8)
        requires
            self.spec_bg_mode() != 7,
            Self::bg_in_mode(self.spec_bg_mode(), bg),
            palette_num <= 7,
        ensures
            r == self.spec_palette_base_for_bg_tile(bg, palette_num),
            r <= 127,
    {
        let mode = self.bg_mode();
        if mode == 0 {
            palette_num * 4 + (bg - 1) * 32
        } else if mode == 1 || mode == 5 {
            palette_num * (self.color_count_for_bg(bg) as u8)
        } else if mode == 2 {
            palette_num * 16
        } else if mode == 3 {
            if bg == 1 { 0 } else { palette_num * 16 }
        } else if mode == 4 {
            if bg == 1 { 0 } else { palette_num * 4 }
        } else {
            palette_num * 16
        }
    }

    /// Two bits of palette index for one pixel, read from a pair of
    /// interleaved bitplanes: bit 0 in the low byte, bit 1 in the high byte,
    /// most significant bit leftmost. Addresses wrap inside VRAM.
    pub open spec fn spec_read_2_bitplanes(&self, bitplanes_start: u16, x_off: u8, y_off: u8) -> u8 {
        let lo = self.vram@[vstd::wrapping::u16_specs::wrapping_add(
            bitplanes_start,
            (((y_off as u16) * 2) as u16),
        ) as int];
        let hi = self.vram@[vstd::wrapping::u16_specs::wrapping_add(
            bitplanes_start,
            (((y_off as u16) * 2 + 1) as u16),
        ) as int];
        let bit0 = (lo >> ((7 - x_off) as u8)) & 1;
        let bit1 = (hi >> ((7 - x_off) as u8)) & 1;
        (bit1 << 1) | bit0
    }

    /// Reads 2 bits of the given in-tile coordinate from 2 interleaved
    /// bitplanes.
    pub fn read_2_bitplanes(&self, bitplanes_start: u16, x_off: u8, y_off: u8) -> (r: u8)
        requires
            self.wf(),
            x_off <= 7,
            y_off <= 7,
        ensures
            r == self.spec_read_2_bitplanes(bitplanes_start, x_off, y_off),
            r <= 3,
    {
        let lo = self.vram[bitplanes_start.wrapping_add((y_off as u16) * 2) as usize];
        let hi = self.vram[bitplanes_start.wrapping_add((y_off as u16) * 2 + 1) as usize];
        let bit0 = (lo >> (7 - x_off)) & 1;
        let bit1 = (hi >> (7 - x_off)) & 1;
        proof {
            let l = lo;
            let h = hi;
            let xo = x_off;
            assert((((h >> ((7 - xo) as u8)) & 1) << 1) | ((l >> ((7 - xo) as u8)) & 1) <= 3)
                by (bit_vector);
        }
        (bit1 << 1) | bit0
    }

    /// The palette index accumulated from `pairs` bitplane pairs, two bits
    /// each, pair `i` shifted up by `2 * i`; pairs are stored 16 bytes apart.
    pub open spec fn spec_chr_acc(&self, start_addr: u16, x: u8, y: u8, pairs: int) -> u8
        decreases pairs,
    {
        if pairs <= 0 {
            0
        } else {
            let prev = self.spec_chr_acc(start_addr, x, y, pairs - 1);
            let bits = self.spec_read_2_bitplanes(
                vstd::wrapping::u16_specs::wrapping_add(start_addr, ((pairs - 1) * 16) as u16),
                x,
                y,
            );
            prev | (bits << ((2 * (pairs - 1)) as u8))
        }
    }

    /// Reads the character data of one pixel and returns the palette index
    /// stored in its bitplanes. `bitplane_count` is 2, 4 or 8; only 8x8
    /// tiles are supported, which the precondition pins.
    pub fn read_chr_entry(&self, bitplane_count: u8, start_addr: u16, tile_size: u8, x: u8, y: u8)
        -> (r: u8)
        requires
            self.wf(),
            bitplane_count == 2 || bitplane_count == 4 || bitplane_count == 8,
            tile_size == 8,
            x <= 7,
            y <= 7,
        ensures
            r == self.spec_chr_acc(start_addr, x, y, (bitplane_count / 2) as int),
            bitplane_count == 2 ==> r <= 3,
            bitplane_count == 4 ==> r <= 15,
    {
        let bitplane_pairs = bitplane_count / 2;
        let mut palette_index: u8 = 0;
        let mut i: u8 = 0;
        while i < bitplane_pairs
            invariant
                self.wf(),
                bitplane_pairs <= 4,
                i <= bitplane_pairs,
                x <= 7,
                y <= 7,
                palette_index == self.spec_chr_acc(start_addr, x, y, i as int),
                bitplane_pairs == 1 ==> palette_index <= 3,
                bitplane_pairs == 2 && i <= 1 ==> palette_index <= 3,
                bitplane_pairs == 2 ==> palette_index <= 15,
            decreases bitplane_pairs - i,
        {
            let bitplane_bits = self.read_2_bitplanes(start_addr.wrapping_add((i as u16) * 16), x, y);
            proof {
                let pi = palette_index;
                let bb = bitplane_bits;
                let ii = i;
                assert((pi == 0 && bb <= 3 && ii == 0) ==> (pi | (bb << ((2 * ii) as u8)) <= 3))
                    by (bit_vector);
                assert((pi <= 3 && bb <= 3 && ii <= 1) ==> (pi | (bb << ((2 * ii) as u8)) <= 15))
                    by (bit_vector);
            }
            palette_index = palette_index | (bitplane_bits << (2 * i));
            i += 1;
        }
        palette_index
    }

    /// Color math is out of scope for this core: the color is returned
    /// unchanged.
    pub fn maybe_apply_color_math(&self, color: Rgb) -> (r: Rgb)
        ensures
            r == color,
    {
        color
    }

    /// A cleared picture processor: memories all zero, every register zero,
    /// the beam at the top-left corner, no sprites cached and no overflow
    /// conditions raised.
    pub open spec fn spec_cleared(&self) -> bool {
        &&& self.vram@ == Seq::new(VRAM_SIZE as nat, |i: int| 0u8)
        &&& self.oam@ == Seq::new(OAM_SIZE as nat, |i: int| 0u8)
        &&& self.cgram@ == Seq::new(CGRAM_SIZE as nat, |i: int| 0u8)
        &&& self.obsel == 0 && self.bgmode == 0 && self.mosaic == 0
        &&& self.bg1sc == 0 && self.bg2sc == 0 && self.bg3sc == 0 && self.bg4sc == 0
        &&& self.bg12nba == 0 && self.bg34nba == 0
        &&& self.bg1hofs == 0 && self.bg1vofs == 0 && self.bg2hofs == 0 && self.bg2vofs == 0
        &&& self.bg3hofs == 0 && self.bg3vofs == 0 && self.bg4hofs == 0 && self.bg4vofs == 0
        &&& self.tm == 0
        &&& self.first_sprite == 0
        &&& self.x == 0 && self.scanline == 0
        &&& self.render_state.visible_sprite_tiles@ == Seq::<SpriteTile>::empty()
        &&& !self.render_state.sprite_overflow
        &&& !self.render_state.tile_overflow
    }

    /// A freshly created picture processor is cleared.
    pub fn new() -> (r: Ppu)
        ensures
            r.wf(),
            r.spec_cleared(),
    {
        let mut vram: Vec<u8> = Vec::new();
        let mut i: usize = 0;
        while i < VRAM_SIZE
            invariant
                i <= VRAM_SIZE,
                vram@.len() == i,
                forall|j: int| 0 <= j < i ==> vram@[j] == 0u8,
            decreases VRAM_SIZE - i,
        {
            vram.push(0);
            i += 1;
        }
        let mut oam: Vec<u8> = Vec::new();
        let mut i: usize = 0;
        while i < OAM_SIZE
            invariant
                i <= OAM_SIZE,
                oam@.len() == i,
                forall|j: int| 0 <= j < i ==> oam@[j] == 0u8,
            decreases OAM_SIZE - i,
        {
            oam.push(0);
            i += 1;
        }
        let mut cgram: Vec<u8> = Vec::new();
        let mut i: usize = 0;
        while i < CGRAM_SIZE
            invariant
                i <= CGRAM_SIZE,
                cgram@.len() == i,
                forall|j: int| 0 <= j < i ==> cgram@[j] == 0u8,
            decreases CGRAM_SIZE - i,
        {
            cgram.push(0);
            i += 1;
        }
        proof {
            assert(vram@ =~= Seq::new(VRAM_SIZE as nat, |i: int| 0u8));
            assert(oam@ =~= Seq::new(OAM_SIZE as nat, |i: int| 0u8));
            assert(cgram@ =~= Seq::new(CGRAM_SIZE as nat, |i: int| 0u8));
        }
        Ppu {
            vram,
            oam,
            cgram,
            obsel: 0,
            bgmode: 0,
            mosaic: 0,
            bg1sc: 0,
            bg2sc: 0,
            bg3sc: 0,
            bg4sc: 0,
            bg12nba: 0,
            bg34nba: 0,
            bg1hofs: 0,
            bg1vofs: 0,
            bg2hofs: 0,
            bg2vofs: 0,
            bg3hofs: 0,
            bg3vofs: 0,
            bg4hofs: 0,
            bg4vofs: 0,
            tm: 0,
            first_sprite: 0,
            x: 0,
            scanline: 0,
            render_state: RenderState {
                visible_sprite_tiles: Vec::new(),
                sprite_overflow: false,
                tile_overflow: false,
            },
        }
    }

    /// Advances the beam by one dot and reports the master cycles consumed
    /// together with the blanking events: the horizontal-blank event fires
    /// when the beam leaves the visible part of a line, the vertical-blank
    /// event when it wraps onto the first blanking scanline.
    pub fn update(&mut self) -> (r: (u8, bool, bool))
        requires
            old(self).wf(),
        ensures
            final(self).wf(),
            r.0 == DOT_MASTER_CYCLES,
            final(self).vram == old(self).vram,
            final(self).oam == old(self).oam,
            final(self).cgram == old(self).cgram,
            final(self).obsel == old(self).obsel,
            final(self).bgmode == old(self).bgmode,
            final(self).mosaic == old(self).mosaic,
            final(self).bg1sc == old(self).bg1sc && final(self).bg2sc == old(self).bg2sc,
            final(self).bg3sc == old(self).bg3sc && final(self).bg4sc == old(self).bg4sc,
            final(self).bg12nba == old(self).bg12nba && final(self).bg34nba == old(self).bg34nba,
            final(self).bg1hofs == old(self).bg1hofs && final(self).bg1vofs == old(self).bg1vofs,
            final(self).bg2hofs == old(self).bg2hofs && final(self).bg2vofs == old(self).bg2vofs,
            final(self).bg3hofs == old(self).bg3hofs && final(self).bg3vofs == old(self).bg3vofs,
            final(self).bg4hofs == old(self).bg4hofs && final(self).bg4vofs == old(self).bg4vofs,
            final(self).tm == old(self).tm,
            final(self).first_sprite == old(self).first_sprite,
            final(self).render_state == old(self).render_state,
            (final(self).x, final(self).scanline) == spec_dot_step(old(self).x, old(self).scanline),
            r.1 == (final(self).x == HBLANK_START_DOT),
            r.2 == (final(self).x == 0 && final(self).scanline == VBLANK_START_LINE),
    {
        let new_x = self.x + 1;
        if new_x == DOTS_PER_LINE {
            self.x = 0;
            let new_line = self.scanline + 1;
            self.scanline = if new_line == LINES_PER_FRAME {
                0
            } else {
                new_line
            };
        } else {
            self.x = new_x;
        }
        let hblank = self.x == HBLANK_START_DOT;
        let vblank = self.x == 0 && self.scanline == VBLANK_START_LINE;
        (DOT_MASTER_CYCLES, hblank, vblank)
    }
}


/// What pixel lookup relies on of every cached sprite tile: an in-tile row,
/// a 3-bit palette, and an on-screen X position a sprite can reach.
pub open spec fn tiles_wf(tiles: Seq<SpriteTile>) -> bool {
    forall|i: int|
        0 <= i < tiles.len() ==> {
            &&& (#[trigger] tiles[i]).y_off <= 7
            &&& tiles[i].palette <= 7
            &&& -256 <= tiles[i].x <= 311
        }
}

/// Where the beam stands after one dot: the dot advances, wrapping into the
/// next scanline at the end of a line and into the next frame at the end of
/// a frame.
pub open spec fn spec_dot_step(x: u16, scanline: u16) -> (u16, u16) {
    if x + 1 < DOTS_PER_LINE {
        ((x + 1) as u16, scanline)
    } else {
        (0u16, if scanline + 1 == LINES_PER_FRAME {
            0u16
        } else {
            (scanline + 1) as u16
        })
    }
}

/// Two picture processors that differ at most in their beam position.
pub open spec fn same_but_beam(a: &Ppu, b: &Ppu) -> bool {
    &&& a.vram == b.vram
    &&& a.oam == b.oam
    &&& a.cgram == b.cgram
    &&& a.obsel == b.obsel
    &&& a.bgmode == b.bgmode
    &&& a.mosaic == b.mosaic
    &&& a.bg1sc == b.bg1sc && a.bg2sc == b.bg2sc && a.bg3sc == b.bg3sc && a.bg4sc == b.bg4sc
    &&& a.bg12nba == b.bg12nba && a.bg34nba == b.bg34nba
    &&& a.bg1hofs == b.bg1hofs && a.bg1vofs == b.bg1vofs
    &&& a.bg2hofs == b.bg2hofs && a.bg2vofs == b.bg2vofs
    &&& a.bg3hofs == b.bg3hofs && a.bg3vofs == b.bg3vofs
    &&& a.bg4hofs == b.bg4hofs && a.bg4vofs == b.bg4vofs
    &&& a.tm == b.tm
    &&& a.first_sprite == b.first_sprite
    &&& a.render_state == b.render_state
}

/// Two picture processors that differ at most in their per-scanline cache.
pub open spec fn same_but_render_state(a: &Ppu, b: &Ppu) -> bool {
    &&& a.vram == b.vram
    &&& a.oam == b.oam
    &&& a.cgram == b.cgram
    &&& a.obsel == b.obsel
    &&& a.bgmode == b.bgmode
    &&& a.mosaic == b.mosaic
    &&& a.bg1sc == b.bg1sc && a.bg2sc == b.bg2sc && a.bg3sc == b.bg3sc && a.bg4sc == b.bg4sc
    &&& a.bg12nba == b.bg12nba && a.bg34nba == b.bg34nba
    &&& a.bg1hofs == b.bg1hofs && a.bg1vofs == b.bg1vofs
    &&& a.bg2hofs == b.bg2hofs && a.bg2vofs == b.bg2vofs
    &&& a.bg3hofs == b.bg3hofs && a.bg3vofs == b.bg3vofs
    &&& a.bg4hofs == b.bg4hofs && a.bg4vofs == b.bg4vofs
    &&& a.tm == b.tm
    &&& a.first_sprite == b.first_sprite
    &&& a.x == b.x
    &&& a.scanline == b.scanline
}

impl Ppu {
    /// Whether a sprite lies on the current scanline and inside the visible
    /// horizontal range: its vertical span covers the scanline and its X
    /// satisfies `-width < x`, an X of exactly -256 counting as 0.
    pub open spec fn spec_sprite_on_scanline(&self, sprite: OamEntry) -> bool {
        let wh = self.spec_obj_size(sprite.size_toggle);
        let x = if sprite.x == -256 { 0 as i16 } else { sprite.x };
        &&& -(wh.0 as i16) < x
        &&& sprite.y <= self.scanline
        &&& sprite.y + wh.1 >= self.scanline
    }

    /// Determines if the given sprite is on the current scanline.
    pub fn sprite_on_scanline(&self, sprite: &OamEntry) -> (r: bool)
        requires
            self.obj_size_valid(),
        ensures
            r == self.spec_sprite_on_scanline(*sprite),
    {
        let (w, h) = self.obj_size(sprite.size_toggle);
        let w = w as i16;
        let x = if sprite.x == -256 {
            0
        } else {
            sprite.x
        };
        if -w < x {
            (sprite.y as u16) <= self.scanline && (sprite.y as u16) + (h as u16) >= self.scanline
        } else {
            false
        }
    }

    /// The object-attribute entry visited at step `k` of the scan: the scan
    /// starts at the configurable first index and wraps over all 128 entries.
    pub open spec fn scan_index(&self, k: int) -> u8 {
        (((self.first_sprite as int) + k) % 128) as u8
    }

    /// Computes the entry visited at step `k` of the scan.
    pub fn scan_index_at(&self, k: u8) -> (r: u8)
        requires
            k < 128,
        ensures
            r == self.scan_index(k as int),
            r < 128,
    {
        (((self.first_sprite as u16) + (k as u16)) % 128) as u8
    }

    /// The sprites selected for the current scanline after the first `n`
    /// steps of the scan: every entry on the scanline, in scan order, until
    /// the cap of 32 stops the scan.
    pub open spec fn spec_selected(&self, n: int) -> Seq<u8>
        decreases n,
    {
        if n <= 0 {
            Seq::empty()
        } else {
            let prev = self.spec_selected(n - 1);
            if prev.len() >= 32 {
                prev
            } else if self.spec_sprite_on_scanline(self.spec_oam_entry(self.scan_index(n - 1))) {
                prev.push(self.scan_index(n - 1))
            } else {
                prev
            }
        }
    }

    /// How many of the first `n` object-attribute entries are on the current
    /// scanline, uncapped.
    pub open spec fn spec_match_count(&self, n: int) -> int
        decreases n,
    {
        if n <= 0 {
            0
        } else {
            self.spec_match_count(n - 1) + if self.spec_sprite_on_scanline(
                self.spec_oam_entry(self.scan_index(n - 1)),
            ) {
                1int
            } else {
                0int
            }
        }
    }

    /// All entries on the current scanline among the first `n`, in scan
    /// order, with no cap applied.
    pub open spec fn spec_matching(&self, n: int) -> Seq<u8>
        decreases n,
    {
        if n <= 0 {
            Seq::empty()
        } else {
            let prev = self.spec_matching(n - 1);
            if self.spec_sprite_on_scanline(self.spec_oam_entry(self.scan_index(n - 1))) {
                prev.push(self.scan_index(n - 1))
            } else {
                prev
            }
        }
    }

    /// The selection never exceeds the cap of 32.
    pub proof fn lemma_selected_len(&self, n: int)
        ensures
            self.spec_selected(n).len() <= 32,
        decreases n,
    {
        if n > 0 {
            self.lemma_selected_len(n - 1);
        }
    }

    /// Once the cap is reached, scanning further entries changes nothing.
    pub proof fn lemma_selected_stable(&self, m: int, n: int)
        requires
            0 <= m <= n,
            self.spec_selected(m).len() >= 32,
        ensures
            self.spec_selected(n) == self.spec_selected(m),
        decreases n,
    {
        if n > m {
            self.lemma_selected_stable(m, n - 1);
        }
    }

    /// The match count grows with the number of entries scanned.
    pub proof fn lemma_match_count_mono(&self, m: int, n: int)
        requires
            m <= n,
        ensures
            self.spec_match_count(m) <= self.spec_match_count(n),
        decreases n - m,
    {
        if n > m {
            self.lemma_match_count_mono(m, n - 1);
        }
    }

    /// Every selected index names an entry already scanned, and that entry is
    /// on the current scanline.
    pub proof fn lemma_selected_members(&self, n: int)
        requires
            n <= 128,
        ensures
            forall|k: int|
                0 <= k < self.spec_selected(n).len() ==> (#[trigger] self.spec_selected(n)[k]) < 128
                    && self.spec_sprite_on_scanline(
                    self.spec_oam_entry(self.spec_selected(n)[k]),
                ),
        decreases n,
    {
        if n > 0 {
            self.lemma_selected_members(n - 1);
            let prev = self.spec_selected(n - 1);
            let cur = self.spec_selected(n);
            assert forall|k: int| 0 <= k < cur.len() implies (#[trigger] cur[k]) < 128
                && self.spec_sprite_on_scanline(self.spec_oam_entry(cur[k])) by {
                if k < prev.len() {
                    assert(cur[k] == prev[k]);
                } else {
                    assert(cur[k] == self.scan_index(n - 1));
                }
            }
        }
    }

    /// Sprite visibility cap: the selection is exactly the first 32 entries
    /// on the scanline in scan order (all of them when 32 or fewer match),
    /// and the match count counts every matching entry.
    pub proof fn lemma_selection_is_capped_prefix(&self, n: int)
        ensures
            self.spec_match_count(n) == self.spec_matching(n).len(),
            self.spec_selected(n) == if self.spec_matching(n).len() <= 32 {
                self.spec_matching(n)
            } else {
                self.spec_matching(n).take(32)
            },
        decreases n,
    {
        if n > 0 {
            self.lemma_selection_is_capped_prefix(n - 1);
            let prev_m = self.spec_matching(n - 1);
            let m = self.spec_matching(n);
            if prev_m.len() > 32 {
                if self.spec_sprite_on_scanline(self.spec_oam_entry(self.scan_index(n - 1))) {
                    assert(m.take(32) =~= prev_m.take(32));
                }
            } else if prev_m.len() == 32 {
                if self.spec_sprite_on_scanline(self.spec_oam_entry(self.scan_index(n - 1))) {
                    assert(m.take(32) =~= prev_m);
                }
            }
        }
    }

    /// The tiles one sprite contributes to the scanline cache: one descriptor
    /// per 8-pixel column of the sprite, left to right, each naming the
    /// character data of the tile row the scanline crosses.
    pub open spec fn spec_sprite_tiles(&self, idx: u8) -> Seq<SpriteTile> {
        let e = self.spec_oam_entry(idx);
        let w = self.spec_obj_size(e.size_toggle).0;
        let yoff = self.scanline - e.y;
        let tile_y_off = (yoff % 8) as u8;
        let y_tile = yoff / 8;
        let name_base = (self.obsel & 0b111) as u16;
        let name_select = ((self.obsel >> 3) & 0b11) as u16;
        let tile_start_word = vstd::wrapping::u16_specs::wrapping_add(
            vstd::wrapping::u16_specs::wrapping_add(name_base << 13, (e.tile as u16) << 4),
            vstd::wrapping::u16_specs::wrapping_mul(
                e.name_table as u16,
                (((name_select + 1) as u16) << 12),
            ),
        ) & 0x7fff;
        let tile_start_addr = (tile_start_word * 2) as u16;
        let y_row_start_addr = vstd::wrapping::u16_specs::wrapping_add(
            tile_start_addr,
            (512 * y_tile) as u16,
        );
        Seq::new(
            (w / 8) as nat,
            |k: int|
                SpriteTile {
                    chr_addr: vstd::wrapping::u16_specs::wrapping_add(
                        y_row_start_addr,
                        (32 * k) as u16,
                    ),
                    x: (e.x + 8 * k) as i16,
                    y_off: tile_y_off,
                    priority: e.priority,
                    palette: e.palette,
                },
        )
    }

    /// The scanline tile cache built from the selected sprites, processed in
    /// reverse selection order, capped at 34 descriptors; the flag reports
    /// that the cap stopped emission.
    pub open spec fn spec_tiles_build(
        &self,
        sel: Seq<u8>,
        j: int,
        acc: Seq<SpriteTile>,
        of: bool,
    ) -> (Seq<SpriteTile>, bool)
        decreases j,
    {
        if j <= 0 {
            (acc, of)
        } else {
            let t = self.spec_sprite_tiles(sel[j - 1]);
            if acc.len() + t.len() <= 34 {
                self.spec_tiles_build(sel, j - 1, acc + t, of)
            } else {
                (acc + t.take(34 - acc.len() as int), true)
            }
        }
    }

    /// The tile cache the current scanline gets.
    pub open spec fn spec_visible_tiles(&self) -> Seq<SpriteTile> {
        self.spec_tiles_build(
            self.spec_selected(128),
            self.spec_selected(128).len() as int,
            Seq::empty(),
            false,
        ).0
    }

    /// Whether building the cache ran into the 34-tile cap.
    pub open spec fn spec_tile_overflow(&self) -> bool {
        self.spec_tiles_build(
            self.spec_selected(128),
            self.spec_selected(128).len() as int,
            Seq::empty(),
            false,
        ).1
    }

    /// Whether more than 32 sprites were on the scanline.
    pub open spec fn spec_sprite_overflow(&self) -> bool {
        self.spec_match_count(128) > 32
    }

    /// Rebuilds the per-scanline sprite cache: scans the 128 object-attribute
    /// entries in order, keeps the first 32 on the current scanline (raising
    /// the sprite-overflow condition and stopping the scan past the cap),
    /// then emits the selected sprites' tiles in reverse selection order into
    /// a list capped at 34 (raising the tile-overflow condition and stopping
    /// emission past that cap).
    pub fn collect_sprite_data_for_scanline(&mut self)
        requires
            old(self).wf(),
            old(self).obj_size_valid(),
        ensures
            final(self).wf(),
            same_but_render_state(final(self), old(self)),
            final(self).render_state.visible_sprite_tiles@ == old(self).spec_visible_tiles(),
            final(self).render_state.sprite_overflow == old(self).spec_sprite_overflow(),
            final(self).render_state.tile_overflow == old(self).spec_tile_overflow(),
    {
        let mut range = SpriteRange::new();
        let mut sprite_overflow = false;
        let mut i: u8 = 0;
        while i < 128
            invariant_except_break
                *self == *old(self),
                self.wf(),
                self.obj_size_valid(),
                i <= 128,
                sprite_range_view(range) == self.spec_selected(i as int),
                sprite_range_view(range).len() <= 32,
                self.spec_match_count(i as int) == sprite_range_view(range).len(),
                !sprite_overflow,
            ensures
                *self == *old(self),
                sprite_range_view(range) == self.spec_selected(128),
                sprite_overflow == (self.spec_match_count(128) > 32),
            decreases 128 - i,
        {
            let idx = self.scan_index_at(i);
            let entry = self.get_oam_entry(idx);
            if self.sprite_on_scanline(&entry) {
                if !range.try_push(idx) {
                    sprite_overflow = true;
                    proof {
                        self.lemma_selected_stable(i as int + 1, 128);
                        self.lemma_match_count_mono(i as int + 1, 128);
                    }
                    break;
                }
            }
            i += 1;
        }
        proof {
            self.lemma_selected_members(128);
            self.lemma_selected_len(128);
        }
        let ghost sel = self.spec_selected(128);
        let n = range.len();
        let mut tiles: Vec<SpriteTile> = Vec::new();
        let mut tile_overflow = false;
        let mut j = n;
        while j > 0
            invariant_except_break
                *self == *old(self),
                self.wf(),
                self.obj_size_valid(),
                j <= n,
                n == sel.len(),
                sel == self.spec_selected(128),
                sprite_range_view(range) == sel,
                forall|k: int|
                    0 <= k < sel.len() ==> (#[trigger] sel[k]) < 128
                        && self.spec_sprite_on_scanline(self.spec_oam_entry(sel[k])),
                tiles@.len() <= 34,
                tiles_wf(tiles@),
                !tile_overflow,
                self.spec_tiles_build(sel, j as int, tiles@, false) == self.spec_tiles_build(
                    sel,
                    n as int,
                    Seq::empty(),
                    false,
                ),
            ensures
                *self == *old(self),
                tiles_wf(tiles@),
                tiles@ == self.spec_tiles_build(sel, n as int, Seq::empty(), false).0,
                tile_overflow == self.spec_tiles_build(sel, n as int, Seq::empty(), false).1,
            decreases j,
        {
            j -= 1;
            let idx = range.get(j);
            let entry = self.get_oam_entry(idx);
            let (sprite_w, _sprite_h) = self.obj_size(entry.size_toggle);
            let w_tiles = sprite_w / 8;
            let sprite_y_off = self.scanline - (entry.y as u16);
            let y_tile = sprite_y_off / 8;
            let tile_y_off = (sprite_y_off % 8) as u8;
            let name_base = (self.obsel & 0b111) as u16;
            let name_select = ((self.obsel >> 3) & 0b11) as u16;
            proof {
                let o = self.obsel;
                assert((o & 0b111) <= 7 && ((o >> 3) & 0b11) <= 3) by (bit_vector);
            }
            let tile_start_word = (name_base << 13).wrapping_add((entry.tile as u16) << 4)
                .wrapping_add(
                (entry.name_table as u16).wrapping_mul((name_select + 1) << 12),
            ) & 0x7fff;
            proof {
                let w = (name_base << 13).wrapping_add((entry.tile as u16) << 4).wrapping_add(
                    (entry.name_table as u16).wrapping_mul((((name_select + 1) as u16) << 12)),
                );
                assert((w & 0x7fff) <= 0x7fff) by (bit_vector);
            }
            let tile_start_addr = tile_start_word * 2;
            let y_row_start_addr = tile_start_addr.wrapping_add(512 * y_tile);
            let ghost t_seq = self.spec_sprite_tiles(idx);
            let ghost acc0 = tiles@;
            let mut k: u8 = 0;
            let mut hit_cap = false;
            while k < w_tiles
                invariant_except_break
                    *self == *old(self),
                    self.wf(),
                    k <= w_tiles,
                    w_tiles == t_seq.len(),
                    w_tiles <= 8,
                    !hit_cap,
                    tiles@.len() <= 34,
                    tiles_wf(tiles@),
                    tiles@ == acc0 + t_seq.take(k as int),
                    acc0.len() <= 34,
                    -256 <= entry.x <= 255,
                    tile_y_off <= 7,
                    entry.palette <= 7,
                    entry.priority <= 3,
                    forall|m: int|
                        0 <= m < t_seq.len() ==> (#[trigger] t_seq[m]) == (SpriteTile {
                            chr_addr: y_row_start_addr.wrapping_add((32 * (m as u16)) as u16),
                            x: (entry.x + 8 * m) as i16,
                            y_off: tile_y_off,
                            priority: entry.priority,
                            palette: entry.palette,
                        }),
                ensures
                    *self == *old(self),
                    tiles_wf(tiles@),
                    !hit_cap ==> tiles@ == acc0 + t_seq && tiles@.len() <= 34,
                    hit_cap ==> tiles@ == acc0 + t_seq.take(34 - acc0.len() as int)
                        && tiles@.len() == 34 && acc0.len() + t_seq.len() > 34,
                decreases w_tiles - k,
            {
                if tiles.len() < 34 {
                    let tile = SpriteTile {
                        chr_addr: y_row_start_addr.wrapping_add(32 * (k as u16)),
                        x: entry.x + 8 * (k as i16),
                        y_off: tile_y_off,
                        priority: entry.priority,
                        palette: entry.palette,
                    };
                    tiles.push(tile);
                    proof {
                        assert(t_seq.take(k as int + 1) =~= t_seq.take(k as int).push(
                            t_seq[k as int],
                        ));
                    }
                    k += 1;
                } else {
                    hit_cap = true;
                    proof {
                        assert(tiles@ =~= acc0 + t_seq.take(34 - acc0.len() as int));
                    }
                    break;
                }
            }
            proof {
                if k == w_tiles && !hit_cap {
                    assert(t_seq.take(w_tiles as int) =~= t_seq);
                }
            }
            if hit_cap {
                tile_overflow = true;
                break;
            }
        }
        self.render_state.visible_sprite_tiles = tiles;
        self.render_state.sprite_overflow = sprite_overflow;
        self.render_state.tile_overflow = tile_overflow;
    }
}


/// The first of a layer candidate and a fallback color.
pub open spec fn or_color(a: Option<Rgb>, b: Rgb) -> Rgb {
    match a {
        Some(c) => c,
        None => b,
    }
}

impl Ppu {
    /// The sprite-layer candidate at one priority, scanning the cached tile
    /// list from position `i` for a tile that covers the current dot at that
    /// exact priority; a decoded palette index of 0 is transparent and the
    /// scan goes on.
    pub open spec fn spec_sprite_pixel(&self, prio: u8, i: int) -> Option<Rgb>
        decreases self.render_state.visible_sprite_tiles@.len() - i,
    {
        let tiles = self.render_state.visible_sprite_tiles@;
        if i < 0 || i >= tiles.len() {
            None
        } else {
            let t = tiles[i];
            if t.priority == prio && t.x <= self.x as i16 && t.x + 8 > self.x as i16 {
                let rel = self.spec_chr_acc(t.chr_addr, ((self.x as i16) - t.x) as u8, t.y_off, 2);
                if rel == 0 {
                    self.spec_sprite_pixel(prio, i + 1)
                } else {
                    Some(self.spec_lookup_color((128 + t.palette * 16 + rel) as u8))
                }
            } else {
                self.spec_sprite_pixel(prio, i + 1)
            }
        }
    }

    /// The sprite-layer candidate at one priority; `None` when the sprite
    /// layer is disabled in TM.
    pub open spec fn spec_maybe_draw_sprite_pixel(&self, prio: u8) -> Option<Rgb> {
        if self.tm & 0x10 == 0 {
            None
        } else {
            self.spec_sprite_pixel(prio, 0)
        }
    }

    /// Draws the current pixel from the sprite layer at the given priority,
    /// if a cached tile covers it with a non-transparent color.
    pub fn maybe_draw_sprite_pixel(&self, prio: u8) -> (r: Option<Rgb>)
        requires
            self.wf(),
        ensures
            r == self.spec_maybe_draw_sprite_pixel(prio),
    {
        if self.tm & 0x10 == 0 {
            return None;
        }
        let n = self.render_state.visible_sprite_tiles.len();
        let mut i: usize = 0;
        while i < n
            invariant
                self.wf(),
                self.tm & 0x10 != 0,
                n == self.render_state.visible_sprite_tiles@.len(),
                i <= n,
                self.spec_sprite_pixel(prio, i as int) == self.spec_sprite_pixel(prio, 0),
            decreases n - i,
        {
            let tile = self.render_state.visible_sprite_tiles[i];
            if tile.priority == prio {
                if tile.x <= self.x as i16 && tile.x + 8 > self.x as i16 {
                    let x_offset = (self.x as i16) - tile.x;
                    let rel_color = self.read_chr_entry(4, tile.chr_addr, 8, x_offset as u8,
                        tile.y_off);
                    if rel_color != 0 {
                        let abs_color = 128 + tile.palette * 16 + rel_color;
                        return Some(self.lookup_color(abs_color));
                    }
                }
            }
            i += 1;
        }
        None
    }

    /// The background-layer candidate: after the layer's scroll is applied,
    /// the tilemap entry of the crossed tile is fetched (honoring the
    /// independent horizontal and vertical tilemap mirrors), rejected unless
    /// its priority bit matches, and the tile's bitplanes are decoded at the
    /// bit depth the mode gives this layer; index 0 is transparent, any other
    /// resolves through the mode's palette-base formula.
    pub open spec fn spec_lookup_bg_color(&self, bg_num: u8, prio: u8) -> Option<Rgb> {
        if !self.spec_bg_enabled(bg_num) {
            None
        } else {
            let bg = self.spec_bg_settings(bg_num);
            let tsz = bg.tile_size as u16;
            let scrolled_x = vstd::wrapping::u16_specs::wrapping_add(self.x, bg.hscroll);
            let scrolled_y = vstd::wrapping::u16_specs::wrapping_add(self.scanline, bg.vscroll);
            let tile_x = scrolled_x / tsz;
            let tile_y = scrolled_y / tsz;
            let off_x = (scrolled_x % tsz) as u8;
            let off_y = (scrolled_y % tsz) as u8;
            let twa = vstd::wrapping::u16_specs::wrapping_add(
                vstd::wrapping::u16_specs::wrapping_add(
                    vstd::wrapping::u16_specs::wrapping_add(
                        vstd::wrapping::u16_specs::wrapping_add(
                            bg.tilemap_addr << 9,
                            (tile_y & 0x1f) << 5,
                        ),
                        tile_x & 0x1f,
                    ),
                    if bg.tilemap_mirror_v {
                        (tile_y & 0x20) << (if bg.tilemap_mirror_h { 6u16 } else { 5u16 })
                    } else {
                        0u16
                    },
                ),
                if bg.tilemap_mirror_h {
                    (tile_x & 0x20) << 5
                } else {
                    0u16
                },
            );
            let entry = self.spec_tilemap_entry(twa);
            if entry.priority != prio {
                None
            } else {
                let color_count = self.spec_color_count_for_bg(bg_num);
                let bitplane_count: u8 = if color_count == 4 {
                    2
                } else if color_count == 16 {
                    4
                } else {
                    8
                };
                let start = vstd::wrapping::u16_specs::wrapping_add(
                    bg.chr_addr << 1,
                    ((entry.tile_number * 8) * (bitplane_count as u16)) as u16,
                );
                let palette_index = self.spec_chr_acc(start, off_x, off_y, bitplane_count as int / 2);
                if palette_index == 0 {
                    None
                } else {
                    Some(
                        self.spec_lookup_color(
                            (self.spec_palette_base_for_bg_tile(bg_num, entry.palette)
                                + palette_index) as u8,
                        ),
                    )
                }
            }
        }
    }

    /// Looks up the color of the given background layer (1-4) at the current
    /// pixel, considering only tiles with the given priority bit (0-1);
    /// `None` when the layer is disabled or the pixel is transparent.
    pub fn lookup_bg_color(&self, bg_num: u8, prio: u8) -> (r: Option<Rgb>)
        requires
            self.wf(),
            1 <= bg_num <= 4,
            self.spec_bg_mode() != 7,
            Self::bg_in_mode(self.spec_bg_mode(), bg_num),
            self.spec_bg_enabled(bg_num) ==> self.spec_bg_settings(bg_num).tile_size == 8,
        ensures
            r == self.spec_lookup_bg_color(bg_num, prio),
    {
        if !self.bg_enabled(bg_num) {
            return None;
        }
        let bg = self.bg_settings(bg_num);
        let tsz = bg.tile_size as u16;
        let scrolled_x = self.x.wrapping_add(bg.hscroll);
        let scrolled_y = self.scanline.wrapping_add(bg.vscroll);
        let tile_x = scrolled_x / tsz;
        let tile_y = scrolled_y / tsz;
        let off_x = (scrolled_x % tsz) as u8;
        let off_y = (scrolled_y % tsz) as u8;
        let twa = (bg.tilemap_addr << 9).wrapping_add((tile_y & 0x1f) << 5).wrapping_add(
            tile_x & 0x1f,
        ).wrapping_add(
            if bg.tilemap_mirror_v {
                (tile_y & 0x20) << (if bg.tilemap_mirror_h { 6u16 } else { 5u16 })
            } else {
                0u16
            },
        ).wrapping_add(
            if bg.tilemap_mirror_h {
                (tile_x & 0x20) << 5
            } else {
                0u16
            },
        );
        let entry = self.tilemap_entry(twa);
        if entry.priority != prio {
            return None;
        }
        let color_count = self.color_count_for_bg(bg_num);
        let bitplane_count: u8 = if color_count == 4 {
            2
        } else if color_count == 16 {
            4
        } else {
            8
        };
        proof {
            assert(entry.tile_number * 8 <= 0x1ff8);
            assert((entry.tile_number * 8) * (bitplane_count as u16) < 65536) by (nonlinear_arith)
                requires
                    entry.tile_number * 8 <= 0x1ff8,
                    bitplane_count <= 8,
            ;
        }
        let start = (bg.chr_addr << 1).wrapping_add((entry.tile_number * 8) * (bitplane_count
            as u16));
        let palette_index = self.read_chr_entry(bitplane_count, start, 8, off_x, off_y);
        if palette_index == 0 {
            None
        } else {
            let base = self.palette_base_for_bg_tile(bg_num, entry.palette);
            Some(self.lookup_color(base + palette_index))
        }
    }
}


impl Ppu {
    /// The color of the current pixel, resolved over the rebuilt scanline
    /// cache: inside the small debug region a direct color-table lookup;
    /// everywhere else the mode's fixed cascade of sprite and background
    /// layers in descending priority, falling back to the backdrop color.
    pub open spec fn spec_render_pixel(&self) -> Rgb {
        if self.scanline < 64 && self.x < 64 {
            self.spec_lookup_color(
                (((self.scanline >> 2) as u8) * 16 + ((self.x >> 2) as u8)) as u8,
            )
        } else {
            let mode = self.spec_bg_mode();
            if mode == 0 {
                or_color(
                    self.spec_maybe_draw_sprite_pixel(3),
                    or_color(
                        self.spec_lookup_bg_color(1, 1),
                        or_color(
                            self.spec_lookup_bg_color(2, 1),
                            or_color(
                                self.spec_maybe_draw_sprite_pixel(2),
                                or_color(
                                    self.spec_lookup_bg_color(1, 0),
                                    or_color(
                                        self.spec_lookup_bg_color(2, 0),
                                        or_color(
                                            self.spec_maybe_draw_sprite_pixel(1),
                                            or_color(
                                                self.spec_lookup_bg_color(3, 1),
                                                or_color(
                                                    self.spec_lookup_bg_color(4, 1),
                                                    or_color(
                                                        self.spec_maybe_draw_sprite_pixel(0),
                                                        or_color(
                                                            self.spec_lookup_bg_color(3, 0),
                                                            or_color(
                                                                self.spec_lookup_bg_color(4, 0),
                                                                self.spec_backdrop_color(),
                                                            ),
                                                        ),
                                                    ),
                                                ),
                                            ),
                                        ),
                                    ),
                                ),
                            ),
                        ),
                    ),
                )
            } else if mode == 1 {
                let tail = or_color(
                    self.spec_maybe_draw_sprite_pixel(3),
                    or_color(
                        self.spec_lookup_bg_color(1, 1),
                        or_color(
                            self.spec_lookup_bg_color(2, 1),
                            or_color(
                                self.spec_maybe_draw_sprite_pixel(2),
                                or_color(
                                    self.spec_lookup_bg_color(1, 0),
                                    or_color(
                                        self.spec_lookup_bg_color(2, 0),
                                        or_color(
                                            self.spec_maybe_draw_sprite_pixel(1),
                                            or_color(
                                                if self.bgmode & 0x08 == 0 {
                                                    self.spec_lookup_bg_color(3, 1)
                                                } else {
                                                    None
                                                },
                                                or_color(
                                                    self.spec_maybe_draw_sprite_pixel(0),
                                                    or_color(
                                                        self.spec_lookup_bg_color(3, 0),
                                                        self.spec_backdrop_color(),
                                                    ),
                                                ),
                                            ),
                                        ),
                                    ),
                                ),
                            ),
                        ),
                    ),
                );
                if self.bgmode & 0x08 != 0 {
                    or_color(self.spec_lookup_bg_color(3, 1), tail)
                } else {
                    tail
                }
            } else if mode == 6 {
                or_color(
                    self.spec_maybe_draw_sprite_pixel(3),
                    or_color(
                        self.spec_lookup_bg_color(1, 1),
                        or_color(
                            self.spec_maybe_draw_sprite_pixel(2),
                            or_color(
                                self.spec_maybe_draw_sprite_pixel(1),
                                or_color(
                                    self.spec_lookup_bg_color(1, 0),
                                    or_color(
                                        self.spec_maybe_draw_sprite_pixel(0),
                                        self.spec_backdrop_color(),
                                    ),
                                ),
                            ),
                        ),
                    ),
                )
            } else {
                or_color(
                    self.spec_maybe_draw_sprite_pixel(3),
                    or_color(
                        self.spec_lookup_bg_color(1, 1),
                        or_color(
                            self.spec_maybe_draw_sprite_pixel(2),
                            or_color(
                                self.spec_lookup_bg_color(2, 1),
                                or_color(
                                    self.spec_maybe_draw_sprite_pixel(1),
                                    or_color(
                                        self.spec_lookup_bg_color(1, 0),
                                        or_color(
                                            self.spec_maybe_draw_sprite_pixel(0),
                                            or_color(
                                                self.spec_lookup_bg_color(2, 0),
                                                self.spec_backdrop_color(),
                                            ),
                                        ),
                                    ),
                                ),
                            ),
                        ),
                    ),
                )
            }
        }
    }

    /// Every background layer the current mode can consult is either
    /// disabled or configured with 8x8 tiles, the one tile size this
    /// pipeline supports.
    pub open spec fn bgs_renderable(&self) -> bool {
        let mode = self.spec_bg_mode();
        &&& (Self::bg_in_mode(mode, 1) && self.spec_bg_enabled(1) ==> self.spec_bg_settings(
            1,
        ).tile_size == 8)
        &&& (Self::bg_in_mode(mode, 2) && self.spec_bg_enabled(2) ==> self.spec_bg_settings(
            2,
        ).tile_size == 8)
        &&& (Self::bg_in_mode(mode, 3) && self.spec_bg_enabled(3) ==> self.spec_bg_settings(
            3,
        ).tile_size == 8)
        &&& (Self::bg_in_mode(mode, 4) && self.spec_bg_enabled(4) ==> self.spec_bg_settings(
            4,
        ).tile_size == 8)
    }

    /// Main rendering entry point: renders the current pixel and returns its
    /// color, assuming the beam is not in a blanking region. On the first
    /// dot of a scanline the sprite cache is rebuilt first; the returned
    /// color is pinned by [`Ppu::spec_render_pixel`] over the state after
    /// that rebuild.
    pub fn render_pixel(&mut self) -> (rgb: Rgb)
        requires
            old(self).wf(),
            old(self).obj_size_valid(),
            old(self).spec_bg_mode() != 7,
            old(self).bgs_renderable(),
            old(self).x < HBLANK_START_DOT,
            old(self).scanline < VBLANK_START_LINE,
        ensures
            final(self).wf(),
            same_but_render_state(final(self), old(self)),
            old(self).x == 0 ==> final(self).render_state.visible_sprite_tiles@ == old(
                self,
            ).spec_visible_tiles() && final(self).render_state.sprite_overflow == old(
                self,
            ).spec_sprite_overflow() && final(self).render_state.tile_overflow == old(
                self,
            ).spec_tile_overflow(),
            old(self).x != 0 ==> final(self).render_state == old(self).render_state,
            rgb == final(self).spec_render_pixel(),
    {
        if self.x == 0 {
            self.collect_sprite_data_for_scanline();
        }
        if self.scanline < 64 && self.x < 64 {
            let x = self.x >> 2;
            let y = self.scanline >> 2;
            proof {
                let s = self.scanline;
                let d = self.x;
                assert(s < 64 ==> (s >> 2) < 16) by (bit_vector);
                assert(d < 64 ==> (d >> 2) < 16) by (bit_vector);
            }
            return self.lookup_color((y as u8) * 16 + (x as u8));
        }
        let mode = self.bg_mode();
        proof {
            let bm = self.bgmode;
            assert(bm & 0b111 <= 7) by (bit_vector);
        }
        if mode == 0 {
            if let Some(rgb) = self.maybe_draw_sprite_pixel(3) {
                return rgb;
            }
            if let Some(rgb) = self.lookup_bg_color(1, 1) {
                return rgb;
            }
            if let Some(rgb) = self.lookup_bg_color(2, 1) {
                return rgb;
            }
            if let Some(rgb) = self.maybe_draw_sprite_pixel(2) {
                return rgb;
            }
            if let Some(rgb) = self.lookup_bg_color(1, 0) {
                return rgb;
            }
            if let Some(rgb) = self.lookup_bg_color(2, 0) {
                return rgb;
            }
            if let Some(rgb) = self.maybe_draw_sprite_pixel(1) {
                return rgb;
            }
            if let Some(rgb) = self.lookup_bg_color(3, 1) {
                return rgb;
            }
            if let Some(rgb) = self.lookup_bg_color(4, 1) {
                return rgb;
            }
            if let Some(rgb) = self.maybe_draw_sprite_pixel(0) {
                return rgb;
            }
            if let Some(rgb) = self.lookup_bg_color(3, 0) {
                return rgb;
            }
            if let Some(rgb) = self.lookup_bg_color(4, 0) {
                return rgb;
            }
            self.backdrop_color()
        } else if mode == 1 {
            if self.bgmode & 0x08 != 0 {
                if let Some(rgb) = self.lookup_bg_color(3, 1) {
                    return rgb;
                }
            }
            if let Some(rgb) = self.maybe_draw_sprite_pixel(3) {
                return rgb;
            }
            if let Some(rgb) = self.lookup_bg_color(1, 1) {
                return rgb;
            }
            if let Some(rgb) = self.lookup_bg_color(2, 1) {
                return rgb;
            }
            if let Some(rgb) = self.maybe_draw_sprite_pixel(2) {
                return rgb;
            }
            if let Some(rgb) = self.lookup_bg_color(1, 0) {
                return rgb;
            }
            if let Some(rgb) = self.lookup_bg_color(2, 0) {
                return rgb;
            }
            if let Some(rgb) = self.maybe_draw_sprite_pixel(1) {
                return rgb;
            }
            if self.bgmode & 0x08 == 0 {
                if let Some(rgb) = self.lookup_bg_color(3, 1) {
                    return rgb;
                }
            }
            if let Some(rgb) = self.maybe_draw_sprite_pixel(0) {
                return rgb;
            }
            if let Some(rgb) = self.lookup_bg_color(3, 0) {
                return rgb;
            }
            self.backdrop_color()
        } else if mode == 6 {
            if let Some(rgb) = self.maybe_draw_sprite_pixel(3) {
                return rgb;
            }
            if let Some(rgb) = self.lookup_bg_color(1, 1) {
                return rgb;
            }
            if let Some(rgb) = self.maybe_draw_sprite_pixel(2) {
                return rgb;
            }
            if let Some(rgb) = self.maybe_draw_sprite_pixel(1) {
                return rgb;
            }
            if let Some(rgb) = self.lookup_bg_color(1, 0) {
                return rgb;
            }
            if let Some(rgb) = self.maybe_draw_sprite_pixel(0) {
                return rgb;
            }
            self.backdrop_color()
        } else {
            if let Some(rgb) = self.maybe_draw_sprite_pixel(3) {
                return rgb;
            }
            if let Some(rgb) = self.lookup_bg_color(1, 1) {
                return rgb;
            }
            if let Some(rgb) = self.maybe_draw_sprite_pixel(2) {
                return rgb;
            }
            if let Some(rgb) = self.lookup_bg_color(2, 1) {
                return rgb;
            }
            if let Some(rgb) = self.maybe_draw_sprite_pixel(1) {
                return rgb;
            }
            if let Some(rgb) = self.lookup_bg_color(1, 0) {
                return rgb;
            }
            if let Some(rgb) = self.maybe_draw_sprite_pixel(0) {
                return rgb;
            }
            if let Some(rgb) = self.lookup_bg_color(2, 0) {
                return rgb;
            }
            self.backdrop_color()
        }
    }
}

} // verus!
