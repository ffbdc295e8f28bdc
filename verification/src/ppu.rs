//! The pixel-processing unit: a scanline state machine driven by the
//! cycle counter.  Each of the 144 visible lines passes OAMScan (80
//! cycles), Drawing (172) and HBlank (204); lines 144..154 are VBlank.
//! The position inside the 70,224-cycle frame advances by exactly the
//! cycles fed in, independent of what the CPU does, so the mode
//! schedule of every frame is fixed.

use vstd::prelude::*;
use crate::memory::{Memory, MemoryView};
use crate::sprite_renderer::SpriteRenderer;
use crate::tile_renderer::TileRenderer;

verus! {

pub const SCREEN_WIDTH: usize = 160;

pub const SCREEN_HEIGHT: usize = 144;

pub const VBLANK_INTERRUPT: u8 = 0x01;

pub const LCDC_INTERRUPT: u8 = 0x02;

/// One frame is 154 lines of 456 cycles.
pub const CYCLES_PER_FRAME: u32 = 70224;

#[derive(Debug, Clone, Copy, PartialEq, Eq, Structural)]
pub enum Mode {
    HBlank,
    VBlank,
    OamScan,
    Drawing,
}

/// The mode id kept in STAT bits 1..0.
pub open spec fn spec_mode_bits(m: Mode) -> u8 {
    match m {
        Mode::HBlank => 0,
        Mode::VBlank => 1,
        Mode::OamScan => 2,
        Mode::Drawing => 3,
    }
}

/// How many cycles a mode lasts on one line.
pub open spec fn spec_mode_len(m: Mode) -> u32 {
    match m {
        Mode::OamScan => 80,
        Mode::Drawing => 172,
        Mode::HBlank => 204,
        Mode::VBlank => 456,
    }
}

/// Where a mode starts within its line.
pub open spec fn spec_mode_offset(m: Mode) -> int {
    match m {
        Mode::OamScan => 0,
        Mode::Drawing => 80,
        Mode::HBlank => 252,
        Mode::VBlank => 0,
    }
}

/// A framebuffer pixel as the compositor writes it: an opaque grey of
/// the fixed four-shade ramp.
pub open spec fn spec_grey_pixel(buf: Seq<u8>, p: int) -> bool {
    &&& buf[p] == buf[p + 1] && buf[p + 1] == buf[p + 2]
    &&& (buf[p] == 0xE4 || buf[p] == 0xA8 || buf[p] == 0x54 || buf[p] == 0x00)
    &&& buf[p + 3] == 0xFF
}

pub struct Ppu {
    pub mode: Mode,
    pub cycles: u32,
    pub line: u8,
    pub screen_buffer: Vec<u8>,
    pub lcdc: u8,
    pub stat: u8,
    pub scy: u8,
    pub scx: u8,
    pub ly: u8,
    pub lyc: u8,
    pub bgp: u8,
    pub obp0: u8,
    pub obp1: u8,
    pub wy: u8,
    pub wx: u8,
    pub stat_line: bool,
}

impl Ppu {
    /// The machine sits at a legal frame position: visible lines only
    /// carry the three visible-mode phases, VBlank only lines 144..153,
    /// and the in-mode cycle accumulator is below the phase length.
    pub open spec fn frame_wf(self) -> bool {
        &&& self.screen_buffer.len() == SCREEN_WIDTH * SCREEN_HEIGHT * 4
        &&& self.cycles < spec_mode_len(self.mode)
        &&& (match self.mode {
            Mode::VBlank => 144 <= self.line <= 153,
            _ => self.line < 144,
        })
    }

    /// The dot position inside the 70,224-cycle frame, 0 at the start
    /// of line 0's OAM scan.
    pub open spec fn frame_dot(self) -> int {
        self.line * 456 + spec_mode_offset(self.mode) + self.cycles
    }

    pub fn new() -> (p: Ppu)
        ensures
            p.mode == Mode::OamScan,
            p.cycles == 0,
            p.line == 0,
            p.screen_buffer@ == Seq::new((SCREEN_WIDTH * SCREEN_HEIGHT * 4) as nat, |i: int| 0u8),
            p.lcdc == 0x91,
            p.stat == 0,
            p.scy == 0 && p.scx == 0,
            p.ly == 0 && p.lyc == 0,
            p.bgp == 0xFC,
            p.obp0 == 0xFF && p.obp1 == 0xFF,
            p.wy == 0 && p.wx == 0,
            !p.stat_line,
            p.frame_wf(),
    {
        let screen_buffer = vec![0u8; SCREEN_WIDTH * SCREEN_HEIGHT * 4];
        proof {
            assert(screen_buffer@ =~= Seq::new(
                (SCREEN_WIDTH * SCREEN_HEIGHT * 4) as nat,
                |i: int| 0u8,
            ));
        }
        Ppu {
            mode: Mode::OamScan,
            cycles: 0,
            line: 0,
            screen_buffer,
            lcdc: 0x91,
            stat: 0,
            scy: 0,
            scx: 0,
            ly: 0,
            lyc: 0,
            bgp: 0xFC,
            obp0: 0xFF,
            obp1: 0xFF,
            wy: 0,
            wx: 0,
            stat_line: false,
        }
    }

    /// Advances the scanline machine by one instruction's cycles.
    ///
    /// With the LCD off the machine rests at line 0 in OAMScan and LY
    /// reads 0.  With the LCD on, the frame dot position advances by
    /// exactly the cycles given, modulo one frame, whatever the CPU did
    /// to memory; entering line 144 raises the VBlank interrupt, and the
    /// STAT mirror follows the machine.  Beyond STAT, LY and interrupt
    /// requests, memory is untouched.
    pub fn update(&mut self, cycles: u8, memory: &mut Memory)
        requires
            old(self).frame_wf(),
            old(memory).wf(),
            cycles <= 80,
        ensures
            final(self).frame_wf(),
            final(memory).wf(),
            final(self).screen_buffer@.len() == old(self).screen_buffer@.len(),
            old(memory)@.io[0x40] & 0x80 == 0 ==> ({
                &&& final(self).mode == Mode::OamScan
                &&& final(self).line == 0
                &&& final(self).cycles == 0
                &&& final(self).screen_buffer == old(self).screen_buffer
                &&& final(memory)@ == old(memory)@.spec_write_byte(0xFF44, 0)
            }),
            old(memory)@.io[0x40] & 0x80 != 0 ==> ({
                &&& final(self).frame_dot() == (old(self).frame_dot() + cycles) % (
                CYCLES_PER_FRAME as int)
                &&& final(self).ly == final(self).line
                &&& (old(self).frame_dot() < 65664 && old(self).frame_dot() + cycles >= 65664)
                    ==> final(memory)@.interrupt_flag & VBLANK_INTERRUPT == VBLANK_INTERRUPT
            }),
            // Memory is changed only at the STAT and LY mirrors and by
            // setting interrupt-request bits 0 and 1.
            final(memory)@.vram == old(memory)@.vram,
            final(memory)@.wram == old(memory)@.wram,
            final(memory)@.oam == old(memory)@.oam,
            final(memory)@.hram == old(memory)@.hram,
            final(memory)@.cartridge == old(memory)@.cartridge,
            final(memory)@.boot_rom_enabled == old(memory)@.boot_rom_enabled,
            final(memory)@.interrupt_enable == old(memory)@.interrupt_enable,
            final(memory)@.io.len() == old(memory)@.io.len(),
            forall|i: int|
                0 <= i < old(memory)@.io.len() && i != 0x41 && i != 0x44 ==> final(memory)@.io[i]
                    == old(memory)@.io[i],
            final(memory)@.interrupt_flag & old(memory)@.interrupt_flag == old(
                memory,
            )@.interrupt_flag,
            final(memory)@.interrupt_flag & 0xFC == old(memory)@.interrupt_flag & 0xFC,
    {
        self.lcdc = memory.read_byte(0xFF40);

        if !self.is_lcd_enabled() {
            self.line = 0;
            self.cycles = 0;
            self.mode = Mode::OamScan;
            memory.write_byte(0xFF44, 0);
            proof {
                let fl = old(memory)@.interrupt_flag;
                assert(fl & fl == fl) by (bit_vector);
            }
            return ;
        }

        self.cycles = self.cycles + cycles as u32;

        match self.mode {
            Mode::OamScan => {
                if self.cycles >= 80 {
                    self.cycles = self.cycles - 80;
                    self.mode = Mode::Drawing;
                }
            },
            Mode::Drawing => {
                if self.cycles >= 172 {
                    self.cycles = self.cycles - 172;
                    self.mode = Mode::HBlank;
                    self.render_scanline(memory);
                }
            },
            Mode::HBlank => {
                if self.cycles >= 204 {
                    self.cycles = self.cycles - 204;
                    self.line = self.line + 1;

                    if self.line == 144 {
                        self.mode = Mode::VBlank;
                        memory.request_interrupt(VBLANK_INTERRUPT);
                    } else {
                        self.mode = Mode::OamScan;
                    }
                }
            },
            Mode::VBlank => {
                if self.cycles >= 456 {
                    self.cycles = self.cycles - 456;

                    if self.line < 153 {
                        self.line = self.line + 1;
                    } else {
                        self.line = 0;
                        self.mode = Mode::OamScan;
                    }
                }
            },
        }

        self.sync_registers(memory);
        proof {
            let f0 = old(memory)@.interrupt_flag;
            assert(f0 & f0 == f0 && (f0 | 0x01) & f0 == f0 && (f0 | 0x02) & f0 == f0 && ((f0
                | 0x01) | 0x02) & f0 == f0 && (f0 | 0x01) & 0xFC == f0 & 0xFC && (f0 | 0x02) & 0xFC
                == f0 & 0xFC && ((f0 | 0x01) | 0x02) & 0xFC == f0 & 0xFC && (f0 | 0x01) & 0x01
                == 0x01 && ((f0 | 0x01) | 0x02) & 0x01 == 0x01) by (bit_vector);
            let d0 = old(self).frame_dot();
            let d1 = self.frame_dot();
            if d0 + cycles < CYCLES_PER_FRAME {
                vstd::arithmetic::div_mod::lemma_small_mod((d0 + cycles) as nat, 70224nat);
            } else {
                assert(d1 == d0 + cycles - 70224);
                vstd::arithmetic::div_mod::lemma_mod_sub_multiples_vanish(d0 + cycles, 70224);
                vstd::arithmetic::div_mod::lemma_small_mod((d0 + cycles - 70224) as nat, 70224nat);
            }
        }
    }

    pub fn get_screen_buffer(&self) -> (r: Vec<u8>)
        ensures
            r@ == self.screen_buffer@,
    {
        let r = self.screen_buffer.clone();
        proof {
            assert(r@ =~= self.screen_buffer@);
        }
        r
    }

    fn is_lcd_enabled(&self) -> (r: bool)
        ensures
            r == (self.lcdc & 0x80 != 0),
    {
        (self.lcdc & 0x80) != 0
    }

    /// Composes one visible scanline into the framebuffer: background,
    /// window overlay, then sprites, each pixel mapped through its
    /// palette to the grey ramp.  Only this line's pixels change.
    fn render_scanline(&mut self, memory: &Memory)
        requires
            old(self).screen_buffer@.len() == SCREEN_WIDTH * SCREEN_HEIGHT * 4,
            memory.wf(),
        ensures
            *final(self) == (Ppu { screen_buffer: final(self).screen_buffer, ..*old(self) }),
            final(self).screen_buffer@.len() == old(self).screen_buffer@.len(),
            forall|i: int|
                0 <= i < old(self).screen_buffer@.len() && !(old(self).line * 640 <= i < old(
                    self,
                ).line * 640 + 640) ==> final(self).screen_buffer@[i] == old(
                    self,
                ).screen_buffer@[i],
            old(self).line < 144 ==> forall|k: int|
                0 <= k < 160 ==> #[trigger] spec_grey_pixel(
                    final(self).screen_buffer@,
                    old(self).line * 640 + k * 4,
                ),
    {
        if self.line >= SCREEN_HEIGHT as u8 {
            return ;
        }

        let bg_enabled = (self.lcdc & 0x01) != 0;
        let sprites_enabled = (self.lcdc & 0x02) != 0;
        let sprite_size = (self.lcdc & 0x04) != 0;
        let bg_tile_map = (self.lcdc & 0x08) != 0;
        let bg_tile_data = (self.lcdc & 0x10) == 0;
        let window_enabled = (self.lcdc & 0x20) != 0;
        let window_tile_map = (self.lcdc & 0x40) != 0;

        let sprites = if sprites_enabled {
            SpriteRenderer::get_sprites_on_line(memory, self.line, sprite_size)
        } else {
            Vec::new()
        };

        let line = self.line;
        let mut x: usize = 0;
        while x < SCREEN_WIDTH
            invariant
                memory.wf(),
                line == old(self).line,
                line < 144,
                x <= SCREEN_WIDTH,
                *self == (Ppu { screen_buffer: self.screen_buffer, ..*old(self) }),
                self.screen_buffer@.len() == SCREEN_WIDTH * SCREEN_HEIGHT * 4,
                forall|i: int|
                    0 <= i < self.screen_buffer@.len() && !(line * 640 <= i < line * 640 + 640)
                        ==> self.screen_buffer@[i] == old(self).screen_buffer@[i],
                forall|k: int|
                    0 <= k < x ==> #[trigger] spec_grey_pixel(
                        self.screen_buffer@,
                        line * 640 + k * 4,
                    ),
            decreases SCREEN_WIDTH - x,
        {
            let mut color_id: u8 = 0;
            let mut palette: u8 = self.bgp;

            if bg_enabled {
                let bg_x = (x as u8).wrapping_add(self.scx);
                let bg_y = line.wrapping_add(self.scy);

                let tile_index = TileRenderer::get_background_tile_index(
                    memory,
                    bg_x,
                    bg_y,
                    bg_tile_map,
                );
                color_id = TileRenderer::get_tile_pixel(
                    memory,
                    tile_index,
                    bg_tile_data,
                    bg_x % 8,
                    bg_y % 8,
                );
            }

            if window_enabled && line >= self.wy && x as u8 >= self.wx.saturating_sub(7) {
                let window_x = (x as u8) - self.wx.saturating_sub(7);
                let window_y = line - self.wy;

                let tile_index = TileRenderer::get_window_tile_index(
                    memory,
                    window_x,
                    window_y,
                    window_tile_map,
                );
                color_id = TileRenderer::get_tile_pixel(
                    memory,
                    tile_index,
                    bg_tile_data,
                    window_x % 8,
                    window_y % 8,
                );
            }

            let mut si: usize = 0;
            let mut sprite_found = false;
            while si < sprites.len() && !sprite_found
                invariant
                    memory.wf(),
                    si <= sprites@.len(),
                    color_id < 4,
                decreases sprites@.len() - si,
            {
                let sprite = sprites[si];
                match SpriteRenderer::get_sprite_pixel(&sprite, x as u8, line, memory, sprite_size) {
                    Some(sprite_color) => {
                        if sprite.has_priority() || color_id == 0 {
                            color_id = sprite_color;
                            palette = if sprite.get_palette_number() {
                                self.obp1
                            } else {
                                self.obp0
                            };
                        }
                        sprite_found = true;
                    },
                    None => {},
                }
                si += 1;
            }

            let shade = TileRenderer::apply_palette(color_id, palette);
            let rgb = TileRenderer::get_rgb_color(shade);

            let pixel_offset = (line as usize * SCREEN_WIDTH + x) * 4;
            let ghost buffer_before = self.screen_buffer@;
            self.screen_buffer.set(pixel_offset, rgb[0]);
            self.screen_buffer.set(pixel_offset + 1, rgb[1]);
            self.screen_buffer.set(pixel_offset + 2, rgb[2]);
            self.screen_buffer.set(pixel_offset + 3, 255);
            proof {
                assert forall|k: int|
                    0 <= k < x + 1 implies #[trigger] spec_grey_pixel(
                    self.screen_buffer@,
                    line * 640 + k * 4,
                ) by {
                    let p = line * 640 + k * 4;
                    if k < x {
                        assert(self.screen_buffer@[p] == buffer_before[p]);
                        assert(self.screen_buffer@[p + 1] == buffer_before[p + 1]);
                        assert(self.screen_buffer@[p + 2] == buffer_before[p + 2]);
                        assert(self.screen_buffer@[p + 3] == buffer_before[p + 3]);
                        assert(spec_grey_pixel(buffer_before, p));
                    } else {
                        assert(spec_grey_pixel(self.screen_buffer@, p));
                    }
                }
            }

            x += 1;
        }
    }

    /// Reads the CPU-visible registers, then writes the machine's view
    /// of STAT (mode bits and the LY=LYC coincidence flag on top of the
    /// writable bits) and LY back, raising the STAT interrupt on the
    /// leading edge of any enabled STAT condition.
    fn sync_registers(&mut self, memory: &mut Memory)
        requires
            old(memory).wf(),
        ensures
            final(memory).wf(),
            *final(self) == (Ppu {
                scy: final(self).scy,
                scx: final(self).scx,
                ly: old(self).line,
                lyc: final(self).lyc,
                bgp: final(self).bgp,
                obp0: final(self).obp0,
                obp1: final(self).obp1,
                wy: final(self).wy,
                wx: final(self).wx,
                stat: final(self).stat,
                stat_line: final(self).stat_line,
                ..*old(self)
            }),
            final(memory)@.vram == old(memory)@.vram,
            final(memory)@.wram == old(memory)@.wram,
            final(memory)@.oam == old(memory)@.oam,
            final(memory)@.hram == old(memory)@.hram,
            final(memory)@.cartridge == old(memory)@.cartridge,
            final(memory)@.boot_rom_enabled == old(memory)@.boot_rom_enabled,
            final(memory)@.interrupt_enable == old(memory)@.interrupt_enable,
            final(memory)@.io.len() == old(memory)@.io.len(),
            forall|i: int|
                0 <= i < old(memory)@.io.len() && i != 0x41 && i != 0x44 ==> final(memory)@.io[i]
                    == old(memory)@.io[i],
            final(memory)@.io[0x44] == old(self).line,
            ({
                ||| final(memory)@.interrupt_flag == old(memory)@.interrupt_flag
                ||| final(memory)@.interrupt_flag == (old(memory)@.interrupt_flag
                    | LCDC_INTERRUPT)
            }),
    {
        self.scy = memory.read_byte(0xFF42);
        self.scx = memory.read_byte(0xFF43);
        self.ly = self.line;
        self.lyc = memory.read_byte(0xFF45);
        self.bgp = memory.read_byte(0xFF47);
        self.obp0 = memory.read_byte(0xFF48);
        self.obp1 = memory.read_byte(0xFF49);
        self.wy = memory.read_byte(0xFF4A);
        self.wx = memory.read_byte(0xFF4B);

        let stat_mem = memory.read_byte(0xFF41);
        let coincidence = self.ly == self.lyc;
        let mode_bits: u8 = match self.mode {
            Mode::HBlank => 0,
            Mode::VBlank => 1,
            Mode::OamScan => 2,
            Mode::Drawing => 3,
        };
        let stat = (stat_mem & 0xF8) | (if coincidence {
            0x04
        } else {
            0
        }) | mode_bits;
        self.stat = stat;

        let condition = (coincidence && stat & 0x40 != 0) || (mode_bits == 0 && stat & 0x08 != 0)
            || (mode_bits == 1 && stat & 0x10 != 0) || (mode_bits == 2 && stat & 0x20 != 0);

        if condition && !self.stat_line {
            memory.request_interrupt(LCDC_INTERRUPT);
        }
        self.stat_line = condition;

        memory.write_byte(0xFF41, stat);
        let ly = self.ly;
        memory.write_byte(0xFF44, ly);
    }
}

/// The frame schedule is fixed: the dot position alone determines the
/// mode and the line.  Each of lines 0..144 passes OAMScan for its
/// first 80 dots, Drawing for the next 172 and HBlank for the last 204;
/// the dots from 65664 on (lines 144..154) are VBlank.  `update`
/// guarantees the dot position advances by exactly the cycles fed in,
/// modulo one frame, so any 70,224-cycle window with the LCD enabled
/// visits exactly 144 OAMScan-Drawing-HBlank lines followed by ten
/// VBlank lines, independent of CPU behavior.
pub proof fn lemma_frame_schedule(p: Ppu)
    requires
        p.frame_wf(),
    ensures
        0 <= p.frame_dot() < CYCLES_PER_FRAME,
        p.line == p.frame_dot() / 456,
        p.mode == Mode::VBlank <==> p.frame_dot() >= 65664,
        p.frame_dot() < 65664 ==> ({
            let r = p.frame_dot() % 456;
            &&& (p.mode == Mode::OamScan <==> r < 80)
            &&& (p.mode == Mode::Drawing <==> 80 <= r < 252)
            &&& (p.mode == Mode::HBlank <==> 252 <= r)
        }),
{
    let off = spec_mode_offset(p.mode) + p.cycles;
    assert(0 <= off < 456);
    vstd::arithmetic::div_mod::lemma_fundamental_div_mod_converse(
        p.frame_dot(),
        456,
        p.line as int,
        off,
    );
}

} // verus!
