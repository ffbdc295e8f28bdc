//! Background/window tile fetching: 2-bpp tile rows from VRAM, tile map
//! lookups, palette application and the fixed four-shade RGB ramp.

use vstd::prelude::*;
use crate::memory::{Memory, MemoryView};

verus! {

/// Base address of a tile's 16 bytes.  With unsigned addressing the
/// tiles sit at 0x8000 + index*16; with signed addressing the index is
/// two's complement around 0x9000.
pub open spec fn spec_tile_base(tile_index: u8, signed_mode: bool) -> u16 {
    if signed_mode {
        if tile_index < 0x80 {
            (0x9000 + tile_index * 16) as u16
        } else {
            (0x8000 + tile_index * 16) as u16
        }
    } else {
        (0x8000 + tile_index * 16) as u16
    }
}

/// The 2-bit color id of pixel (x, y) of a tile: bit (7-x) of the
/// row's first byte is the low bit, of its second byte the high bit.
pub open spec fn spec_tile_pixel(
    mem: MemoryView,
    tile_index: u8,
    signed_mode: bool,
    x: u8,
    y: u8,
) -> u8 {
    let line_address = (spec_tile_base(tile_index, signed_mode) + y * 2) as u16;
    let byte1 = mem.spec_read_byte(line_address);
    let byte2 = mem.spec_read_byte((line_address + 1) as u16);
    let bit = (7 - x) as u8;
    (((byte2 >> bit) & 1) * 2 + ((byte1 >> bit) & 1)) as u8
}

/// The tile map entry covering background pixel (x, y): maps are 32x32
/// tiles of 8x8 pixels, at 0x9800 or 0x9C00.
pub open spec fn spec_tile_map_index(mem: MemoryView, x: u8, y: u8, map_select: bool) -> u8 {
    let base: u16 = if map_select {
        0x9C00
    } else {
        0x9800
    };
    mem.spec_read_byte((base + (y / 8) * 32 + x / 8) as u16)
}

/// The 2-bit shade a palette byte assigns to a 2-bit color id.
pub open spec fn spec_apply_palette(color_id: u8, palette: u8) -> u8 {
    (palette >> (color_id * 2)) & 0x03
}

/// The fixed grey ramp: shades 0..3 map to 0xE4, 0xA8, 0x54, 0x00.
pub open spec fn spec_shade_grey(shade: u8) -> u8 {
    if shade == 0 {
        0xE4
    } else if shade == 1 {
        0xA8
    } else if shade == 2 {
        0x54
    } else {
        0x00
    }
}

pub struct TileRenderer;

impl TileRenderer {
    /// One pixel of a tile, fetched straight from VRAM.
    pub fn get_tile_pixel(
        memory: &Memory,
        tile_index: u8,
        tile_data_select: bool,
        x: u8,
        y: u8,
    ) -> (r: u8)
        requires
            memory.wf(),
            x < 8,
            y < 8,
        ensures
            r == spec_tile_pixel(memory@, tile_index, tile_data_select, x, y),
            r < 4,
    {
        let base_address: u16 = if tile_data_select {
            if tile_index < 0x80 {
                0x9000 + tile_index as u16 * 16
            } else {
                0x8000 + tile_index as u16 * 16
            }
        } else {
            0x8000 + tile_index as u16 * 16
        };
        let line_address = base_address + y as u16 * 2;
        let byte1 = memory.read_byte(line_address);
        let byte2 = memory.read_byte(line_address + 1);
        let bit_position = 7 - x;
        let bit1 = (byte1 >> bit_position) & 1;
        let bit2 = (byte2 >> bit_position) & 1;
        proof {
            let b1 = byte1;
            let b2 = byte2;
            let p = bit_position;
            assert((b1 >> p) & 1 <= 1 && (b2 >> p) & 1 <= 1) by (bit_vector);
        }
        bit2 * 2 + bit1
    }

    /// The whole 8x8 tile as 64 color ids in row-major order.
    pub fn get_tile_data(memory: &Memory, tile_index: u8, tile_data_select: bool) -> (r: Vec<u8>)
        requires
            memory.wf(),
        ensures
            r@.len() == 64,
            forall|y: int, x: int|
                0 <= y < 8 && 0 <= x < 8 ==> #[trigger] r@[y * 8 + x] == spec_tile_pixel(
                    memory@,
                    tile_index,
                    tile_data_select,
                    x as u8,
                    y as u8,
                ),
    {
        let mut tile_data: Vec<u8> = Vec::new();
        let mut y: u8 = 0;
        while y < 8
            invariant
                memory.wf(),
                y <= 8,
                tile_data@.len() == y * 8,
                forall|yy: int, xx: int|
                    0 <= yy < y && 0 <= xx < 8 ==> #[trigger] tile_data@[yy * 8 + xx] == spec_tile_pixel(
                        memory@,
                        tile_index,
                        tile_data_select,
                        xx as u8,
                        yy as u8,
                    ),
            decreases 8 - y,
        {
            let mut x: u8 = 0;
            while x < 8
                invariant
                    memory.wf(),
                    y < 8,
                    x <= 8,
                    tile_data@.len() == y * 8 + x,
                    forall|yy: int, xx: int|
                        0 <= yy < y && 0 <= xx < 8 ==> #[trigger] tile_data@[yy * 8 + xx] == spec_tile_pixel(
                            memory@,
                            tile_index,
                            tile_data_select,
                            xx as u8,
                            yy as u8,
                        ),
                    forall|xx: int|
                        0 <= xx < x ==> #[trigger] tile_data@[y * 8 + xx] == spec_tile_pixel(
                            memory@,
                            tile_index,
                            tile_data_select,
                            xx as u8,
                            y as u8,
                        ),
                decreases 8 - x,
            {
                let px = Self::get_tile_pixel(memory, tile_index, tile_data_select, x, y);
                tile_data.push(px);
                x += 1;
            }
            y += 1;
        }
        tile_data
    }

    /// The tile map entry covering background pixel (x, y).
    pub fn get_background_tile_index(memory: &Memory, x: u8, y: u8, tile_map_select: bool) -> (r:
        u8)
        requires
            memory.wf(),
        ensures
            r == spec_tile_map_index(memory@, x, y, tile_map_select),
    {
        let tile_map_base: u16 = if tile_map_select {
            0x9C00
        } else {
            0x9800
        };
        let tile_x = x / 8;
        let tile_y = y / 8;
        let tile_offset = (tile_y as u16) * 32 + tile_x as u16;

        memory.read_byte(tile_map_base + tile_offset)
    }

    /// The tile map entry covering window pixel (x, y).
    pub fn get_window_tile_index(memory: &Memory, x: u8, y: u8, tile_map_select: bool) -> (r: u8)
        requires
            memory.wf(),
        ensures
            r == spec_tile_map_index(memory@, x, y, tile_map_select),
    {
        let tile_map_base: u16 = if tile_map_select {
            0x9C00
        } else {
            0x9800
        };
        let tile_x = x / 8;
        let tile_y = y / 8;
        let tile_offset = (tile_y as u16) * 32 + tile_x as u16;

        memory.read_byte(tile_map_base + tile_offset)
    }

    /// Maps a 2-bit color id through a palette byte to a 2-bit shade.
    pub fn apply_palette(color_id: u8, palette: u8) -> (r: u8)
        requires
            color_id < 4,
        ensures
            r == spec_apply_palette(color_id, palette),
            r < 4,
    {
        let shift = color_id * 2;
        let r = (palette >> shift) & 0x03;
        proof {
            let p = palette;
            let s = shift;
            assert((p >> s) & 0x03 <= 3) by (bit_vector);
        }
        r
    }

    /// The RGB triple of a shade: four greys from white to black; any
    /// other value maps to the magenta error color.
    pub fn get_rgb_color(shade: u8) -> (r: [u8; 3])
        ensures
            shade < 4 ==> r[0] == spec_shade_grey(shade) && r[1] == spec_shade_grey(shade) && r[2]
                == spec_shade_grey(shade),
            shade >= 4 ==> r[0] == 0xFF && r[1] == 0x00 && r[2] == 0xFF,
    {
        if shade == 0 {
            [0xE4, 0xE4, 0xE4]
        } else if shade == 1 {
            [0xA8, 0xA8, 0xA8]
        } else if shade == 2 {
            [0x54, 0x54, 0x54]
        } else if shade == 3 {
            [0x00, 0x00, 0x00]
        } else {
            [0xFF, 0x00, 0xFF]
        }
    }
}

} // verus!
