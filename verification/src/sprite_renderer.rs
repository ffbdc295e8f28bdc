//! Sprite (OBJ) evaluation: reading the 40 four-byte records out of
//! OAM, selecting up to ten sprites per scanline ordered by X, and
//! sampling one sprite pixel with flips and 8x16 tile pairing.

use vstd::prelude::*;
use vstd::wrapping::u8_specs;
use crate::memory::{Memory, MemoryView};

verus! {

#[derive(Debug, Clone, Copy)]
pub struct Sprite {
    pub y: u8,
    pub x: u8,
    pub tile_index: u8,
    pub attributes: u8,
}

/// The OAM record at a given index, as a sprite.
pub open spec fn spec_sprite_at(mem: MemoryView, index: int) -> Sprite {
    Sprite {
        y: mem.oam[index * 4],
        x: mem.oam[index * 4 + 1],
        tile_index: mem.oam[index * 4 + 2],
        attributes: mem.oam[index * 4 + 3],
    }
}

impl Sprite {
    /// On-screen: X in 1..168 and Y in 1..160.
    pub open spec fn spec_is_visible(self) -> bool {
        self.x > 0 && self.x < 168 && self.y > 0 && self.y < 160
    }

    /// The sprite's rows intersect the scanline: screen Y is the OAM Y
    /// minus 16, and the sprite is 8 or 16 rows tall.
    pub open spec fn spec_on_line(self, line: u8, tall: bool) -> bool {
        let top = u8_specs::wrapping_sub(self.y, 16);
        let height: u8 = if tall {
            16
        } else {
            8
        };
        line >= top && line < top + height
    }

    /// Reads the four-byte record `index` out of OAM.
    pub fn from_oam(memory: &Memory, index: usize) -> (r: Sprite)
        requires
            memory.wf(),
            index < 40,
        ensures
            r == spec_sprite_at(memory@, index as int),
    {
        let base_addr = 0xFE00 + (index * 4) as u16;
        Sprite {
            y: memory.read_byte(base_addr),
            x: memory.read_byte(base_addr + 1),
            tile_index: memory.read_byte(base_addr + 2),
            attributes: memory.read_byte(base_addr + 3),
        }
    }

    pub fn is_visible(&self) -> (r: bool)
        ensures
            r == self.spec_is_visible(),
    {
        self.x > 0 && self.x < 168 && self.y > 0 && self.y < 160
    }

    /// OBP1 when attribute bit 4 is set, else OBP0.
    pub fn get_palette_number(&self) -> (r: bool)
        ensures
            r == (self.attributes & 0x10 != 0),
    {
        (self.attributes & 0x10) != 0
    }

    pub fn is_x_flipped(&self) -> (r: bool)
        ensures
            r == (self.attributes & 0x20 != 0),
    {
        (self.attributes & 0x20) != 0
    }

    pub fn is_y_flipped(&self) -> (r: bool)
        ensures
            r == (self.attributes & 0x40 != 0),
    {
        (self.attributes & 0x40) != 0
    }

    /// Clear attribute bit 7: the sprite wins over non-zero background.
    pub fn has_priority(&self) -> (r: bool)
        ensures
            r == (self.attributes & 0x80 == 0),
    {
        (self.attributes & 0x80) == 0
    }
}

/// The color id a sprite contributes at screen pixel (x, y), or None
/// outside the sprite or where its pixel is transparent.
pub open spec fn spec_sprite_pixel(
    sprite: Sprite,
    x: u8,
    y: u8,
    mem: MemoryView,
    tall: bool,
) -> Option<u8> {
    let sprite_x = u8_specs::wrapping_sub(sprite.x, 8);
    let sprite_y = u8_specs::wrapping_sub(sprite.y, 16);
    let height: u8 = if tall {
        16
    } else {
        8
    };
    if x < sprite_x || x >= sprite_x + 8 || y < sprite_y || y >= sprite_y + height {
        None
    } else {
        let px0 = (x - sprite_x) as u8;
        let py0 = (y - sprite_y) as u8;
        let px: u8 = if sprite.attributes & 0x20 != 0 {
            (7 - px0) as u8
        } else {
            px0
        };
        let py: u8 = if sprite.attributes & 0x40 != 0 {
            ((if tall {
                15int
            } else {
                7int
            }) - py0) as u8
        } else {
            py0
        };
        let tile: u8 = if tall {
            if py < 8 {
                sprite.tile_index & 0xFE
            } else {
                sprite.tile_index | 0x01
            }
        } else {
            sprite.tile_index
        };
        let tile_y = py % 8;
        let line_address = (0x8000 + tile * 16 + tile_y * 2) as u16;
        let byte1 = mem.spec_read_byte(line_address);
        let byte2 = mem.spec_read_byte((line_address + 1) as u16);
        let bit = (7 - px) as u8;
        let color_id = ((((byte2 >> bit) & 1) * 2) + ((byte1 >> bit) & 1)) as u8;
        if color_id == 0 {
            None
        } else {
            Some(color_id)
        }
    }
}

/// A sprite that scanline selection may return: some OAM record,
/// visible, and intersecting the line.
pub open spec fn spec_selected_sprite(s: Sprite, mem: MemoryView, line: u8, tall: bool) -> bool {
    &&& exists|j: int| 0 <= j < 40 && s == spec_sprite_at(mem, j)
    &&& s.spec_is_visible()
    &&& s.spec_on_line(line, tall)
}

/// The sprites the scanline scan keeps among the first `n` OAM slots:
/// the visible records intersecting the line, in OAM order, capped at
/// ten.
pub open spec fn spec_line_sprites(mem: MemoryView, line: u8, tall: bool, n: int) -> Seq<Sprite>
    decreases n,
{
    if n <= 0 {
        Seq::empty()
    } else {
        let prefix = spec_line_sprites(mem, line, tall, n - 1);
        let s = spec_sprite_at(mem, n - 1);
        if prefix.len() < 10 && s.spec_is_visible() && s.spec_on_line(line, tall) {
            prefix.push(s)
        } else {
            prefix
        }
    }
}

/// Once ten sprites are selected, scanning further slots adds nothing.
proof fn lemma_line_sprites_capped(mem: MemoryView, line: u8, tall: bool, i: int, n: int)
    requires
        0 <= i <= n,
        spec_line_sprites(mem, line, tall, i).len() >= 10,
    ensures
        spec_line_sprites(mem, line, tall, n) == spec_line_sprites(mem, line, tall, i),
    decreases n - i,
{
    if n > i {
        lemma_line_sprites_capped(mem, line, tall, i, n - 1);
    }
}

pub struct SpriteRenderer;

impl SpriteRenderer {
    /// Scans OAM in order for up to ten visible sprites whose rows
    /// intersect the scanline, then orders them by ascending X (lower X
    /// wins ties during composition).
    pub fn get_sprites_on_line(memory: &Memory, line: u8, sprite_size: bool) -> (r: Vec<Sprite>)
        requires
            memory.wf(),
        ensures
            r@.len() <= 10,
            // Exactly the first ten qualifying OAM records, reordered by X.
            r@.to_multiset() == spec_line_sprites(memory@, line, sprite_size, 40).to_multiset(),
            forall|i: int|
                0 <= i < r@.len() ==> spec_selected_sprite(
                    #[trigger] r@[i],
                    memory@,
                    line,
                    sprite_size,
                ),
            forall|i: int, j: int| 0 <= i < j < r@.len() ==> #[trigger] r@[i].x <= #[trigger] r@[j].x,
    {
        let mut sprites: Vec<Sprite> = Vec::new();
        let sprite_height: u8 = if sprite_size {
            16
        } else {
            8
        };

        let mut i: usize = 0;
        while i < 40 && sprites.len() < 10
            invariant
                memory.wf(),
                i <= 40,
                sprite_height == (if sprite_size { 16u8 } else { 8u8 }),
                sprites@.len() <= 10,
                sprites@ == spec_line_sprites(memory@, line, sprite_size, i as int),
                forall|k: int|
                    0 <= k < sprites@.len() ==> spec_selected_sprite(
                        #[trigger] sprites@[k],
                        memory@,
                        line,
                        sprite_size,
                    ),
            decreases 40 - i,
        {
            let sprite = Sprite::from_oam(memory, i);

            if sprite.is_visible() {
                let sprite_y = sprite.y.wrapping_sub(16);
                if line >= sprite_y && (line as u16) < sprite_y as u16 + sprite_height as u16 {
                    proof {
                        assert(0 <= i < 40 && sprite == spec_sprite_at(memory@, i as int));
                        assert(spec_selected_sprite(sprite, memory@, line, sprite_size));
                    }
                    sprites.push(sprite);
                }
            }
            i += 1;
        }

        proof {
            if sprites@.len() >= 10 {
                lemma_line_sprites_capped(memory@, line, sprite_size, i as int, 40);
            }
            assert(sprites@ == spec_line_sprites(memory@, line, sprite_size, 40));
        }

        // Order by X with a small insertion sort; element-wise facts and
        // the multiset of selected sprites survive the permutation.
        let mut sorted: Vec<Sprite> = sprites;
        let ghost n = sorted@.len();
        let ghost selection = sorted@;
        let mut a: usize = 1;
        while a < sorted.len()
            invariant
                sorted@.len() == n,
                sorted@.len() <= 10,
                sorted@.to_multiset() == selection.to_multiset(),
                forall|k: int|
                    0 <= k < sorted@.len() ==> spec_selected_sprite(
                        #[trigger] sorted@[k],
                        memory@,
                        line,
                        sprite_size,
                    ),
                a >= 1,
                forall|p: int, q: int| 0 <= p < q < a && q < sorted@.len() ==> #[trigger] sorted@[p].x
                    <= #[trigger] sorted@[q].x,
            decreases sorted@.len() - a,
        {
            let mut b: usize = a;
            while b > 0 && sorted[b - 1].x > sorted[b].x
                invariant
                    sorted@.len() == n,
                    sorted@.len() <= 10,
                    sorted@.to_multiset() == selection.to_multiset(),
                    b <= a < sorted@.len(),
                    forall|k: int|
                        0 <= k < sorted@.len() ==> spec_selected_sprite(
                            #[trigger] sorted@[k],
                            memory@,
                            line,
                            sprite_size,
                        ),
                    forall|p: int, q: int|
                        0 <= p < q <= a && q < sorted@.len() && p != b && q != b ==> #[trigger] sorted@[p].x
                            <= #[trigger] sorted@[q].x,
                    forall|q: int| b < q <= a ==> #[trigger] sorted@[q].x > sorted@[b as int].x,
                decreases b,
            {
                let hi = sorted[b];
                let lo = sorted[b - 1];
                let ghost before = sorted@;
                sorted.set(b, lo);
                sorted.set(b - 1, hi);
                proof {
                    broadcast use vstd::seq_lib::to_multiset_update;
                    broadcast use vstd::seq_lib::to_multiset_contains;
                    broadcast use vstd::multiset::group_multiset_axioms;

                    let s1 = before.update(b as int, lo);
                    assert(s1.to_multiset() == before.to_multiset().insert(lo).remove(
                        before[b as int],
                    ));
                    assert(sorted@ == s1.update(b as int - 1, hi));
                    assert(sorted@.to_multiset() == s1.to_multiset().insert(hi).remove(
                        s1[b as int - 1],
                    ));
                    assert(s1[b as int - 1] == lo);
                    assert(before.contains(hi));
                    assert(before.to_multiset().count(hi) > 0);
                    assert(s1.to_multiset().count(lo) > 0);
                    assert(sorted@.to_multiset() =~= before.to_multiset());
                }
                b -= 1;
            }
            a += 1;
        }
        sorted
    }

    /// Samples one sprite pixel at screen coordinates (x, y).
    pub fn get_sprite_pixel(
        sprite: &Sprite,
        x: u8,
        y: u8,
        memory: &Memory,
        sprite_size: bool,
    ) -> (r: Option<u8>)
        requires
            memory.wf(),
        ensures
            r == spec_sprite_pixel(*sprite, x, y, memory@, sprite_size),
            r matches Some(c) ==> 0 < c < 4,
    {
        let sprite_x = sprite.x.wrapping_sub(8);
        let sprite_y = sprite.y.wrapping_sub(16);
        let height: u8 = if sprite_size {
            16
        } else {
            8
        };

        if x < sprite_x || (x as u16) >= sprite_x as u16 + 8 {
            return None;
        }
        if y < sprite_y || (y as u16) >= sprite_y as u16 + height as u16 {
            return None;
        }

        let mut pixel_x = x - sprite_x;
        let mut pixel_y = y - sprite_y;

        if sprite.is_x_flipped() {
            pixel_x = 7 - pixel_x;
        }
        if sprite.is_y_flipped() {
            pixel_y = (if sprite_size {
                15
            } else {
                7
            }) - pixel_y;
        }

        let tile_index: u8 = if sprite_size {
            if pixel_y < 8 {
                sprite.tile_index & 0xFE
            } else {
                sprite.tile_index | 0x01
            }
        } else {
            sprite.tile_index
        };

        let tile_y = pixel_y % 8;
        let base_address = 0x8000 + tile_index as u16 * 16;
        let line_address = base_address + tile_y as u16 * 2;

        let byte1 = memory.read_byte(line_address);
        let byte2 = memory.read_byte(line_address + 1);

        let bit_position = 7 - pixel_x;
        let bit1 = (byte1 >> bit_position) & 1;
        let bit2 = (byte2 >> bit_position) & 1;
        proof {
            let b1 = byte1;
            let b2 = byte2;
            let p = bit_position;
            assert((b1 >> p) & 1 <= 1 && (b2 >> p) & 1 <= 1) by (bit_vector);
        }
        let color_id = bit2 * 2 + bit1;

        if color_id == 0 {
            None
        } else {
            Some(color_id)
        }
    }
}

} // verus!
