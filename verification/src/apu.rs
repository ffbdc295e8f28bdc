//! The four-channel audio unit: two square channels (one with sweep), a
//! wave channel and a noise channel, paced by a 512 Hz frame sequencer
//! for length, envelope and sweep clocks.
//!
//! Samples are emitted at 44,100 Hz, one stereo pair per elapsed
//! 4,194,304/44,100 CPU cycles (tracked as an exact fraction).  Each
//! sample is an integer numerator over the fixed denominator 480: a
//! channel contributes 2*output-15 in -15..15, and each side is scaled
//! by its master volume plus one (1..8).  The host divides by 480 to
//! obtain the -1.0..1.0 stereo stream.

use vstd::prelude::*;
use crate::memory::{Memory, MemoryView};

verus! {

/// The four duty waveforms of the square channels.
pub open spec fn spec_duty_pattern(selector: u8) -> u8 {
    if selector == 0 {
        0x01
    } else if selector == 1 {
        0x81
    } else if selector == 2 {
        0x87
    } else {
        0x7E
    }
}

/// A square channel's scaled output for one sample: the volume while
/// the selected duty waveform is high at the (already advanced) duty
/// position, scaled to -15..15.
pub open spec fn spec_square_sample(pre: SquareChannel, post: SquareChannel) -> int {
    if spec_duty_pattern((pre.nr1 >> 6) & 0x03) >> post.duty_position & 1 != 0 {
        pre.current_volume * 2 - 15
    } else {
        -15
    }
}

/// The wave channel's scaled output for one sample: the nibble at the
/// (already advanced) position through the volume shift, or silence
/// with the DAC off.
pub open spec fn spec_wave_sample(pre: WaveChannel, post: WaveChannel) -> int {
    if !pre.dac_enabled {
        0
    } else {
        let b = pre.wave_ram[post.position as int / 2];
        let sample: u8 = if post.position % 2 == 0 {
            b >> 4
        } else {
            b & 0x0F
        };
        (sample >> pre.volume_shift) * 2 - 15
    }
}

/// The noise channel's scaled output for one sample: the volume while
/// bit 0 of the (already advanced) shift register is clear.
pub open spec fn spec_noise_sample(pre: NoiseChannel, post: NoiseChannel) -> int {
    if post.lfsr & 1 == 0 {
        pre.current_volume * 2 - 15
    } else {
        -15
    }
}

/// A square or noise length clock: while the length-enable bit is set a
/// non-zero counter counts down and reaching zero disables the channel.
pub open spec fn spec_length_clocked_square(c: SquareChannel) -> SquareChannel {
    if c.nr4 & 0x40 != 0 && c.length_counter > 0 {
        SquareChannel {
            length_counter: (c.length_counter - 1) as u8,
            enabled: if c.length_counter == 1 {
                false
            } else {
                c.enabled
            },
            ..c
        }
    } else {
        c
    }
}

pub open spec fn spec_length_clocked_wave(c: WaveChannel) -> WaveChannel {
    if c.nr34 & 0x40 != 0 && c.length_counter > 0 {
        WaveChannel {
            length_counter: (c.length_counter - 1) as u16,
            enabled: if c.length_counter == 1 {
                false
            } else {
                c.enabled
            },
            ..c
        }
    } else {
        c
    }
}

pub open spec fn spec_length_clocked_noise(c: NoiseChannel) -> NoiseChannel {
    if c.nr44 & 0x40 != 0 && c.length_counter > 0 {
        NoiseChannel {
            length_counter: (c.length_counter - 1) as u8,
            enabled: if c.length_counter == 1 {
                false
            } else {
                c.enabled
            },
            ..c
        }
    } else {
        c
    }
}

pub struct SquareChannel {
    pub nr0: u8,
    pub nr1: u8,
    pub nr2: u8,
    pub nr3: u8,
    pub nr4: u8,
    pub frequency: u16,
    pub frequency_timer: u16,
    pub duty_position: u8,
    pub length_counter: u8,
    pub envelope_timer: u8,
    pub envelope_period: u8,
    pub current_volume: u8,
    pub sweep_timer: u8,
    pub sweep_period: u8,
    pub sweep_shadow: u16,
    pub sweep_enabled: bool,
    pub has_sweep: bool,
    pub enabled: bool,
}

impl SquareChannel {
    pub open spec fn wf(self) -> bool {
        &&& self.frequency < 2048
        &&& self.current_volume <= 15
        &&& self.duty_position < 8
    }

    pub fn new(has_sweep: bool) -> (c: SquareChannel)
        ensures
            c.has_sweep == has_sweep,
            !c.enabled,
            c.length_counter == 0,
            c.wf(),
    {
        SquareChannel {
            nr0: 0,
            nr1: 0,
            nr2: 0,
            nr3: 0,
            nr4: 0,
            frequency: 0,
            frequency_timer: 0,
            duty_position: 0,
            length_counter: 0,
            envelope_timer: 0,
            envelope_period: 0,
            current_volume: 0,
            sweep_timer: 0,
            sweep_period: 0,
            sweep_shadow: 0,
            sweep_enabled: false,
            has_sweep,
            enabled: false,
        }
    }

    /// Adopts the channel registers from the I/O page; a write turning
    /// on NRx4 bit 7 triggers the channel.
    pub fn sync_registers(&mut self, memory: &Memory)
        requires
            old(self).wf(),
            memory.wf(),
        ensures
            final(self).wf(),
    {
        let base: u16 = if self.has_sweep {
            0xFF10
        } else {
            0xFF15
        };

        if self.has_sweep {
            self.nr0 = memory.read_byte(base);
        }
        self.nr1 = memory.read_byte(base + 1);
        self.nr2 = memory.read_byte(base + 2);
        self.nr3 = memory.read_byte(base + 3);
        let new_nr4 = memory.read_byte(base + 4);

        if (new_nr4 & 0x80) != 0 && (self.nr4 & 0x80) == 0 {
            self.trigger();
        }

        self.nr4 = new_nr4;
        self.frequency = ((self.nr4 as u16 & 0x07) << 8u16) | self.nr3 as u16;
        proof {
            let h = self.nr4;
            let l = self.nr3;
            assert(((h as u16) & 0x07) << 8u16 | (l as u16) < 2048) by (bit_vector);
        }
    }

    /// Channel trigger: enable, reload length (to 64 when expired),
    /// frequency timer and envelope, and latch the sweep unit.
    pub fn trigger(&mut self)
        requires
            old(self).wf(),
        ensures
            final(self).wf(),
            final(self).length_counter == (if old(self).length_counter == 0 {
                64u8
            } else {
                old(self).length_counter
            }),
    {
        self.enabled = true;
        if self.length_counter == 0 {
            self.length_counter = 64;
        }
        self.frequency_timer = (2048 - self.frequency) * 4;
        self.envelope_timer = self.envelope_period;
        self.current_volume = (self.nr2 >> 4u8) & 0x0F;
        proof {
            let v = old(self).nr2;
            assert((v >> 4u8) & 0x0F <= 15) by (bit_vector);
        }

        if self.has_sweep {
            self.sweep_shadow = self.frequency;
            self.sweep_period = (self.nr0 >> 4u8) & 0x07;
            self.sweep_timer = if self.sweep_period != 0 {
                self.sweep_period
            } else {
                8
            };
            self.sweep_enabled = self.sweep_period != 0 || ((self.nr0 >> 3u8) & 0x07) != 0;

            if ((self.nr0 >> 3u8) & 0x07) != 0 {
                self.calculate_sweep();
            }
        }
    }

    /// Advances the waveform by one sample period and returns the
    /// channel output scaled to -15..15: the current volume while the
    /// NR11-selected duty waveform is high, zero while it is low.
    pub fn sample_scaled(&mut self) -> (r: i32)
        requires
            old(self).wf(),
        ensures
            final(self).wf(),
            -15 <= r <= 15,
            r == spec_square_sample(*old(self), *final(self)),
    {
        self.frequency_timer = self.frequency_timer.saturating_sub(1);
        if self.frequency_timer == 0 {
            self.frequency_timer = (2048 - self.frequency) * 4;
            self.duty_position = (self.duty_position + 1) % 8;
        }

        let duty: u8 = if (self.nr1 >> 6u8) & 0x03 == 0 {
            0x01
        } else if (self.nr1 >> 6u8) & 0x03 == 1 {
            0x81
        } else if (self.nr1 >> 6u8) & 0x03 == 2 {
            0x87
        } else {
            0x7E
        };

        let output: u8 = if (duty >> self.duty_position) & 1 != 0 {
            self.current_volume
        } else {
            0
        };

        output as i32 * 2 - 15
    }

    /// Length clock: while NRx4 bit 6 is set a non-zero counter counts
    /// down, and the channel turns off when it reaches zero.
    pub fn clock_length(&mut self)
        ensures
            *final(self) == (if old(self).nr4 & 0x40 != 0 && old(self).length_counter > 0 {
                SquareChannel {
                    length_counter: (old(self).length_counter - 1) as u8,
                    enabled: if old(self).length_counter == 1 {
                        false
                    } else {
                        old(self).enabled
                    },
                    ..*old(self)
                }
            } else {
                *old(self)
            }),
    {
        if (self.nr4 & 0x40) != 0 && self.length_counter > 0 {
            self.length_counter -= 1;
            if self.length_counter == 0 {
                self.enabled = false;
            }
        }
    }

    /// Envelope clock: on expiry of the period timer the volume moves
    /// one step toward 15 or 0 per NRx2 bit 3.
    pub fn clock_envelope(&mut self)
        requires
            old(self).wf(),
        ensures
            final(self).wf(),
            final(self).enabled == old(self).enabled,
            final(self).length_counter == old(self).length_counter,
    {
        if self.envelope_period != 0 {
            if self.envelope_timer > 0 {
                self.envelope_timer -= 1;
            }
            if self.envelope_timer == 0 {
                self.envelope_timer = self.envelope_period;

                if (self.nr2 & 0x08) != 0 {
                    if self.current_volume < 15 {
                        self.current_volume += 1;
                    }
                } else {
                    if self.current_volume > 0 {
                        self.current_volume -= 1;
                    }
                }
            }
        }
    }

    /// Sweep clock: on expiry recompute the frequency from the shadow;
    /// a result above 2047 silences the channel.
    pub fn clock_sweep(&mut self)
        requires
            old(self).wf(),
        ensures
            final(self).wf(),
            *final(self) == (SquareChannel {
                frequency: final(self).frequency,
                sweep_shadow: final(self).sweep_shadow,
                sweep_timer: final(self).sweep_timer,
                enabled: final(self).enabled,
                ..*old(self)
            }),
    {
        if !self.has_sweep || !self.sweep_enabled {
            return ;
        }

        if self.sweep_timer > 0 {
            self.sweep_timer -= 1;
        }

        if self.sweep_timer == 0 {
            self.sweep_timer = if self.sweep_period != 0 {
                self.sweep_period
            } else {
                8
            };

            if self.sweep_enabled && self.sweep_period != 0 {
                let new_freq = self.calculate_sweep();
                if new_freq <= 2047 && ((self.nr0 >> 3u8) & 0x07) != 0 {
                    self.frequency = new_freq;
                    self.sweep_shadow = new_freq;
                    self.calculate_sweep();
                }
            }
        }
    }

    /// One sweep computation: shadow +/- (shadow >> shift); a result
    /// above 2047 disables the channel.
    pub fn calculate_sweep(&mut self) -> (r: u16)
        ensures
            *final(self) == (SquareChannel { enabled: final(self).enabled, ..*old(self) }),
            final(self).enabled == (if r > 2047 {
                false
            } else {
                old(self).enabled
            }),
    {
        let shift = self.nr0 & 0x07;
        proof {
            let v = old(self).nr0;
            assert(v & 0x07 < 8) by (bit_vector);
        }
        let mut new_freq = self.sweep_shadow >> shift;

        if (self.nr0 & 0x08) != 0 {
            new_freq = self.sweep_shadow.wrapping_sub(new_freq);
        } else {
            new_freq = self.sweep_shadow.wrapping_add(new_freq);
        }

        if new_freq > 2047 {
            self.enabled = false;
        }

        new_freq
    }
}

pub struct WaveChannel {
    pub nr30: u8,
    pub nr31: u8,
    pub nr32: u8,
    pub nr33: u8,
    pub nr34: u8,
    pub wave_ram: Vec<u8>,
    pub frequency: u16,
    pub frequency_timer: u16,
    pub position: u8,
    pub length_counter: u16,
    pub volume_shift: u8,
    pub enabled: bool,
    pub dac_enabled: bool,
}

impl WaveChannel {
    pub open spec fn wf(self) -> bool {
        &&& self.frequency < 2048
        &&& self.position < 32
        &&& self.volume_shift <= 4
        &&& self.wave_ram.len() == 16
    }

    pub fn new() -> (c: WaveChannel)
        ensures
            !c.enabled,
            c.length_counter == 0,
            c.wf(),
    {
        WaveChannel {
            nr30: 0,
            nr31: 0,
            nr32: 0,
            nr33: 0,
            nr34: 0,
            wave_ram: vec![0u8; 16],
            frequency: 0,
            frequency_timer: 0,
            position: 0,
            length_counter: 0,
            volume_shift: 0,
            enabled: false,
            dac_enabled: false,
        }
    }

    /// Adopts the channel registers and the 16 bytes of wave pattern
    /// RAM; a write turning on NR34 bit 7 triggers the channel.
    pub fn sync_registers(&mut self, memory: &Memory)
        requires
            old(self).wf(),
            memory.wf(),
        ensures
            final(self).wf(),
    {
        self.nr30 = memory.read_byte(0xFF1A);
        self.nr31 = memory.read_byte(0xFF1B);
        self.nr32 = memory.read_byte(0xFF1C);
        self.nr33 = memory.read_byte(0xFF1D);
        let new_nr34 = memory.read_byte(0xFF1E);

        let mut i: u16 = 0;
        while i < 16
            invariant
                memory.wf(),
                i <= 16,
                self.wave_ram.len() == 16,
                *self == (WaveChannel {
                    nr30: self.nr30,
                    nr31: self.nr31,
                    nr32: self.nr32,
                    nr33: self.nr33,
                    wave_ram: self.wave_ram,
                    ..*old(self)
                }),
            decreases 16 - i,
        {
            let b = memory.read_byte(0xFF30 + i);
            self.wave_ram.set(i as usize, b);
            i += 1;
        }

        self.dac_enabled = (self.nr30 & 0x80) != 0;
        let sel = (self.nr32 >> 5u8) & 0x03;
        proof {
            let v = self.nr32;
            assert((v >> 5u8) & 0x03 < 4) by (bit_vector);
        }
        self.volume_shift = if sel == 0 {
            4
        } else if sel == 1 {
            0
        } else if sel == 2 {
            1
        } else {
            2
        };

        if (new_nr34 & 0x80) != 0 && (self.nr34 & 0x80) == 0 {
            self.trigger();
        }

        self.nr34 = new_nr34;
        self.frequency = ((self.nr34 as u16 & 0x07) << 8u16) | self.nr33 as u16;
        proof {
            let h = self.nr34;
            let l = self.nr33;
            assert(((h as u16) & 0x07) << 8u16 | (l as u16) < 2048) by (bit_vector);
        }
    }

    /// Channel trigger: enabled only while its DAC is on; length
    /// reloads to 256 when expired; the wave restarts at position 0.
    pub fn trigger(&mut self)
        requires
            old(self).wf(),
        ensures
            final(self).wf(),
            final(self).enabled == old(self).dac_enabled,
            final(self).length_counter == (if old(self).length_counter == 0 {
                256u16
            } else {
                old(self).length_counter
            }),
    {
        self.enabled = self.dac_enabled;
        if self.length_counter == 0 {
            self.length_counter = 256;
        }
        self.frequency_timer = (2048 - self.frequency) * 2;
        self.position = 0;
    }

    /// Advances the wave position and returns the current 4-bit sample
    /// through the volume shift, scaled to -15..15 (0 with the DAC off).
    pub fn sample_scaled(&mut self) -> (r: i32)
        requires
            old(self).wf(),
        ensures
            final(self).wf(),
            -15 <= r <= 15,
            r == spec_wave_sample(*old(self), *final(self)),
    {
        if !self.dac_enabled {
            return 0;
        }

        self.frequency_timer = self.frequency_timer.saturating_sub(1);
        if self.frequency_timer == 0 {
            self.frequency_timer = (2048 - self.frequency) * 2;
            self.position = (self.position + 1) % 32;
        }

        let sample_index = self.position / 2;
        let sample: u8 = if self.position % 2 == 0 {
            self.wave_ram[sample_index as usize] >> 4u8
        } else {
            self.wave_ram[sample_index as usize] & 0x0F
        };
        proof {
            let b = self.wave_ram@[self.position as int / 2];
            assert(b >> 4u8 <= 15 && b & 0x0F <= 15) by (bit_vector);
        }

        let output = sample >> self.volume_shift;
        proof {
            let s = sample;
            let sh = self.volume_shift;
            assert(s <= 15 ==> s >> sh <= 15) by (bit_vector);
        }
        output as i32 * 2 - 15
    }

    /// Length clock over the 256-step wave length counter.
    pub fn clock_length(&mut self)
        ensures
            *final(self) == (if old(self).nr34 & 0x40 != 0 && old(self).length_counter > 0 {
                WaveChannel {
                    length_counter: (old(self).length_counter - 1) as u16,
                    enabled: if old(self).length_counter == 1 {
                        false
                    } else {
                        old(self).enabled
                    },
                    ..*old(self)
                }
            } else {
                *old(self)
            }),
    {
        if (self.nr34 & 0x40) != 0 && self.length_counter > 0 {
            self.length_counter -= 1;
            if self.length_counter == 0 {
                self.enabled = false;
            }
        }
    }
}

pub struct NoiseChannel {
    pub nr41: u8,
    pub nr42: u8,
    pub nr43: u8,
    pub nr44: u8,
    pub length_counter: u8,
    pub envelope_timer: u8,
    pub envelope_period: u8,
    pub current_volume: u8,
    pub lfsr: u16,
    pub timer: u32,
    pub enabled: bool,
}

impl NoiseChannel {
    pub open spec fn wf(self) -> bool {
        self.current_volume <= 15
    }

    pub fn new() -> (c: NoiseChannel)
        ensures
            !c.enabled,
            c.lfsr == 0x7FFF,
            c.length_counter == 0,
            c.wf(),
    {
        NoiseChannel {
            nr41: 0,
            nr42: 0,
            nr43: 0,
            nr44: 0,
            length_counter: 0,
            envelope_timer: 0,
            envelope_period: 0,
            current_volume: 0,
            lfsr: 0x7FFF,
            timer: 0,
            enabled: false,
        }
    }

    /// Adopts the channel registers; a write turning on NR44 bit 7
    /// triggers the channel.
    pub fn sync_registers(&mut self, memory: &Memory)
        requires
            old(self).wf(),
            memory.wf(),
        ensures
            final(self).wf(),
    {
        self.nr41 = memory.read_byte(0xFF20);
        self.nr42 = memory.read_byte(0xFF21);
        self.nr43 = memory.read_byte(0xFF22);
        let new_nr44 = memory.read_byte(0xFF23);

        self.envelope_period = self.nr42 & 0x07;

        if (new_nr44 & 0x80) != 0 && (self.nr44 & 0x80) == 0 {
            self.trigger();
        }

        self.nr44 = new_nr44;
    }

    /// Channel trigger: reload length (to 64 when expired), period and
    /// envelope, and reseed the shift register with all ones.
    pub fn trigger(&mut self)
        requires
            old(self).wf(),
        ensures
            final(self).wf(),
            final(self).enabled,
            final(self).lfsr == 0x7FFF,
            final(self).length_counter == (if old(self).length_counter == 0 {
                64u8
            } else {
                old(self).length_counter
            }),
    {
        self.enabled = true;
        if self.length_counter == 0 {
            self.length_counter = 64;
        }
        self.timer = self.get_period();
        self.envelope_timer = self.envelope_period;
        self.current_volume = (self.nr42 >> 4u8) & 0x0F;
        proof {
            let v = old(self).nr42;
            assert((v >> 4u8) & 0x0F <= 15) by (bit_vector);
        }
        self.lfsr = 0x7FFF;
    }

    /// The LFSR step period selected by NR43: a divisor (8, or 16 times
    /// the low three bits) shifted left by the high nibble.
    pub fn get_period(&self) -> (r: u32)
        ensures
            r == ((if self.nr43 & 0x07 == 0 {
                8u32
            } else {
                ((self.nr43 & 0x07) as u32 * 16) as u32
            }) << ((self.nr43 >> 4u8) as u32)),
    {
        let low = self.nr43 & 0x07;
        let divisor: u32 = if low == 0 {
            8
        } else {
            low as u32 * 16
        };
        let shift = (self.nr43 >> 4u8) as u32;
        proof {
            let v = self.nr43;
            assert((v >> 4u8) < 16 && v & 0x07 < 8) by (bit_vector);
        }
        divisor << shift
    }

    /// Advances the 15-bit LFSR on period expiry and returns the
    /// current output scaled to -15..15: volume while bit 0 is clear.
    pub fn sample_scaled(&mut self) -> (r: i32)
        requires
            old(self).wf(),
        ensures
            final(self).wf(),
            -15 <= r <= 15,
            r == spec_noise_sample(*old(self), *final(self)),
    {
        self.timer = self.timer.saturating_sub(1);
        if self.timer == 0 {
            self.timer = self.get_period();

            let bit = (self.lfsr & 1) ^ ((self.lfsr >> 1u16) & 1);
            self.lfsr = (self.lfsr >> 1u16) | (bit << 14u16);

            if (self.nr43 & 0x08) != 0 {
                self.lfsr = (self.lfsr & 0xFFBF) | (bit << 6u16);
            }
        }

        let output: u8 = if (self.lfsr & 1) == 0 {
            self.current_volume
        } else {
            0
        };

        output as i32 * 2 - 15
    }

    /// Length clock over the 64-step noise length counter.
    pub fn clock_length(&mut self)
        ensures
            *final(self) == (if old(self).nr44 & 0x40 != 0 && old(self).length_counter > 0 {
                NoiseChannel {
                    length_counter: (old(self).length_counter - 1) as u8,
                    enabled: if old(self).length_counter == 1 {
                        false
                    } else {
                        old(self).enabled
                    },
                    ..*old(self)
                }
            } else {
                *old(self)
            }),
    {
        if (self.nr44 & 0x40) != 0 && self.length_counter > 0 {
            self.length_counter -= 1;
            if self.length_counter == 0 {
                self.enabled = false;
            }
        }
    }

    /// Envelope clock, as for the square channels.
    pub fn clock_envelope(&mut self)
        requires
            old(self).wf(),
        ensures
            final(self).wf(),
            final(self).enabled == old(self).enabled,
            final(self).length_counter == old(self).length_counter,
    {
        if self.envelope_period != 0 {
            if self.envelope_timer > 0 {
                self.envelope_timer -= 1;
            }
            if self.envelope_timer == 0 {
                self.envelope_timer = self.envelope_period;

                if (self.nr42 & 0x08) != 0 {
                    if self.current_volume < 15 {
                        self.current_volume += 1;
                    }
                } else {
                    if self.current_volume > 0 {
                        self.current_volume -= 1;
                    }
                }
            }
        }
    }
}

pub struct Apu {
    pub channel1: SquareChannel,
    pub channel2: SquareChannel,
    pub channel3: WaveChannel,
    pub channel4: NoiseChannel,
    pub nr50: u8,
    pub nr51: u8,
    pub nr52: u8,
    pub frame_sequencer: u8,
    pub frame_sequencer_counter: u32,
    pub sample_counter: u64,
    pub audio_buffer: Vec<i32>,
    pub enabled: bool,
}

impl Apu {
    /// The channel invariants alone, apart from the pacing counters.
    pub open spec fn channels_wf(self) -> bool {
        &&& self.channel1.wf()
        &&& self.channel2.wf()
        &&& self.channel3.wf()
        &&& self.channel4.wf()
        &&& forall|i: int|
            0 <= i < self.audio_buffer.len() ==> -480 <= #[trigger] self.audio_buffer[i] <= 480
    }

    pub open spec fn wf(self) -> bool {
        &&& self.channels_wf()
        &&& self.frame_sequencer < 8
        &&& self.frame_sequencer_counter < 8192
        &&& self.sample_counter < 4194304
    }

    pub fn new() -> (a: Apu)
        ensures
            !a.enabled,
            a.audio_buffer@.len() == 0,
            a.wf(),
    {
        Apu {
            channel1: SquareChannel::new(true),
            channel2: SquareChannel::new(false),
            channel3: WaveChannel::new(),
            channel4: NoiseChannel::new(),
            nr50: 0,
            nr51: 0,
            nr52: 0,
            frame_sequencer: 0,
            frame_sequencer_counter: 0,
            sample_counter: 0,
            audio_buffer: Vec::new(),
            enabled: false,
        }
    }

    /// Advances the audio unit by one instruction's cycles: while the
    /// unit is on, the frame sequencer steps every 8192 cycles and one
    /// stereo sample is emitted per 4,194,304/44,100 cycles; the sound
    /// registers are then reconciled with the I/O page.
    pub fn update(&mut self, cycles: u8, memory: &mut Memory)
        requires
            old(self).wf(),
            old(memory).wf(),
        ensures
            final(self).wf(),
            final(memory).wf(),
            // Sound register writes stay inside the I/O page.
            final(memory)@.vram == old(memory)@.vram,
            final(memory)@.wram == old(memory)@.wram,
            final(memory)@.oam == old(memory)@.oam,
            final(memory)@.hram == old(memory)@.hram,
            final(memory)@.cartridge == old(memory)@.cartridge,
            final(memory)@.boot_rom_enabled == old(memory)@.boot_rom_enabled,
            final(memory)@.interrupt_enable == old(memory)@.interrupt_enable,
            final(memory)@.interrupt_flag == old(memory)@.interrupt_flag,
            final(memory)@.io.len() == old(memory)@.io.len(),
            forall|i: int|
                0 <= i < old(memory)@.io.len() && !(0x10 <= i < 0x27) ==> final(memory)@.io[i]
                    == old(memory)@.io[i],
            // The buffer only grows, and while the unit is on it grows by
            // one stereo pair per full sample period elapsed; the pacing
            // counters follow their exact arithmetic.
            final(self).audio_buffer@.len() >= old(self).audio_buffer@.len(),
            forall|i: int|
                0 <= i < old(self).audio_buffer@.len() ==> final(self).audio_buffer@[i] == old(
                    self,
                ).audio_buffer@[i],
            old(self).enabled ==> ({
                let paced = old(self).sample_counter + cycles * 44100;
                &&& final(self).sample_counter == paced % 4194304
                &&& final(self).audio_buffer@.len() == old(self).audio_buffer@.len() + 2 * (paced
                    / 4194304)
            }),
            old(self).enabled && (old(memory)@.io[0x26] & 0x80 != 0) ==> ({
                let ticks = old(self).frame_sequencer_counter + cycles;
                final(self).frame_sequencer_counter == (if ticks >= 8192 {
                    ticks - 8192
                } else {
                    ticks
                })
            }),
            !old(self).enabled ==> final(self).audio_buffer == old(self).audio_buffer
                && final(self).sample_counter == old(self).sample_counter,
            // NR52 bit 7 alone decides whether the unit ends up on.
            final(self).enabled == (old(memory)@.io[0x26] & 0x80 != 0),
    {
        if self.enabled {
            self.frame_sequencer_counter = self.frame_sequencer_counter + cycles as u32;
            if self.frame_sequencer_counter >= 8192 {
                self.frame_sequencer_counter = self.frame_sequencer_counter - 8192;
                self.step_frame_sequencer();
            }

            self.sample_counter = self.sample_counter + cycles as u64 * 44100;
            let ghost paced = self.sample_counter as int;
            let ghost seq_counter = self.frame_sequencer_counter;
            let ghost emitted: int = 0;
            while self.sample_counter >= 4194304
                invariant
                    self.frame_sequencer_counter == seq_counter,
                    self.enabled == old(self).enabled,
                    self.nr50 == old(self).nr50,
                    self.nr51 == old(self).nr51,
                    self.channel1.wf(),
                    self.channel2.wf(),
                    self.channel3.wf(),
                    self.channel4.wf(),
                    self.frame_sequencer < 8,
                    self.frame_sequencer_counter < 8192,
                    self.sample_counter < 4194304 + 255 * 44100,
                    emitted >= 0,
                    paced == emitted * 4194304 + self.sample_counter,
                    self.audio_buffer@.len() == old(self).audio_buffer@.len() + 2 * emitted,
                    forall|i: int|
                        0 <= i < self.audio_buffer.len() ==> -480
                            <= #[trigger] self.audio_buffer[i] <= 480,
                    self.audio_buffer@.len() >= old(self).audio_buffer@.len(),
                    forall|i: int|
                        0 <= i < old(self).audio_buffer@.len() ==> self.audio_buffer@[i] == old(
                            self,
                        ).audio_buffer@[i],
                decreases self.sample_counter,
            {
                self.sample_counter = self.sample_counter - 4194304;
                self.generate_sample();
                proof {
                    assert((emitted + 1) * 4194304 == emitted * 4194304 + 4194304)
                        by (nonlinear_arith);
                    emitted = emitted + 1;
                }
            }
            proof {
                vstd::arithmetic::div_mod::lemma_fundamental_div_mod_converse(
                    paced,
                    4194304,
                    emitted,
                    self.sample_counter as int,
                );
            }
        }

        self.sync_registers(memory);
    }

    /// Hands out and clears the accumulated interleaved stereo sample
    /// numerators (left, right, ...; denominator 480).
    pub fn take_audio_scaled(&mut self) -> (r: Vec<i32>)
        requires
            old(self).wf(),
        ensures
            final(self).wf(),
            r@ == old(self).audio_buffer@,
            final(self).audio_buffer@.len() == 0,
            *final(self) == (Apu { audio_buffer: final(self).audio_buffer, ..*old(self) }),
    {
        let mut buffer: Vec<i32> = Vec::new();
        core::mem::swap(&mut buffer, &mut self.audio_buffer);
        buffer
    }

    /// One 512 Hz step: lengths clock on even steps, the sweep on steps
    /// 2 and 6, the envelopes on step 7.
    pub fn step_frame_sequencer(&mut self)
        requires
            old(self).wf(),
        ensures
            final(self).wf(),
            final(self).audio_buffer == old(self).audio_buffer,
            final(self).frame_sequencer == (old(self).frame_sequencer + 1) % 8,
            *final(self) == (Apu {
                channel1: final(self).channel1,
                channel2: final(self).channel2,
                channel3: final(self).channel3,
                channel4: final(self).channel4,
                frame_sequencer: final(self).frame_sequencer,
                ..*old(self)
            }),
            old(self).frame_sequencer == 1 || old(self).frame_sequencer == 3 || old(
                self,
            ).frame_sequencer == 5 ==> ({
                &&& final(self).channel1 == old(self).channel1
                &&& final(self).channel2 == old(self).channel2
                &&& final(self).channel3 == old(self).channel3
                &&& final(self).channel4 == old(self).channel4
            }),
            old(self).frame_sequencer == 0 || old(self).frame_sequencer == 4 ==> ({
                &&& final(self).channel1 == spec_length_clocked_square(old(self).channel1)
                &&& final(self).channel2 == spec_length_clocked_square(old(self).channel2)
                &&& final(self).channel3 == spec_length_clocked_wave(old(self).channel3)
                &&& final(self).channel4 == spec_length_clocked_noise(old(self).channel4)
            }),
            old(self).frame_sequencer == 2 || old(self).frame_sequencer == 6 ==> ({
                // Channel 1 additionally runs its sweep after the length
                // clock; the other channels only clock lengths.
                &&& final(self).channel2 == spec_length_clocked_square(old(self).channel2)
                &&& final(self).channel3 == spec_length_clocked_wave(old(self).channel3)
                &&& final(self).channel4 == spec_length_clocked_noise(old(self).channel4)
                &&& final(self).channel1 == (SquareChannel {
                    frequency: final(self).channel1.frequency,
                    sweep_shadow: final(self).channel1.sweep_shadow,
                    sweep_timer: final(self).channel1.sweep_timer,
                    enabled: final(self).channel1.enabled,
                    ..spec_length_clocked_square(old(self).channel1)
                })
            }),
            old(self).frame_sequencer == 7 ==> ({
                // Envelopes only: lengths, enables and channel 3 rest.
                &&& final(self).channel1.length_counter == old(self).channel1.length_counter
                &&& final(self).channel1.enabled == old(self).channel1.enabled
                &&& final(self).channel2.length_counter == old(self).channel2.length_counter
                &&& final(self).channel2.enabled == old(self).channel2.enabled
                &&& final(self).channel3 == old(self).channel3
                &&& final(self).channel4.length_counter == old(self).channel4.length_counter
                &&& final(self).channel4.enabled == old(self).channel4.enabled
            }),
    {
        if self.frame_sequencer == 0 || self.frame_sequencer == 2 || self.frame_sequencer == 4
            || self.frame_sequencer == 6 {
            self.channel1.clock_length();
            self.channel2.clock_length();
            self.channel3.clock_length();
            self.channel4.clock_length();
        }
        if self.frame_sequencer == 2 || self.frame_sequencer == 6 {
            self.channel1.clock_sweep();
        }
        if self.frame_sequencer == 7 {
            self.channel1.clock_envelope();
            self.channel2.clock_envelope();
            self.channel4.clock_envelope();
        }

        self.frame_sequencer = (self.frame_sequencer + 1) % 8;
    }

    /// Mixes one stereo sample: each enabled channel contributes its
    /// scaled output to the sides NR51 routes it to, and each side is
    /// scaled by its NR50 volume plus one.  Two numerators over 480 are
    /// appended to the buffer.
    #[verifier::rlimit(100)]
    pub fn generate_sample(&mut self)
        requires
            old(self).channels_wf(),
        ensures
            final(self).channels_wf(),
            // The two appended numerators are the NR51-routed mix of the
            // enabled channels' outputs, each side scaled by its NR50
            // volume plus one; a disabled channel rests and adds nothing.
            ({
                let l1: int = if old(self).channel1.enabled && old(self).nr51 & 0x01 != 0 {
                    spec_square_sample(old(self).channel1, final(self).channel1)
                } else {
                    0
                };
                let l2: int = if old(self).channel2.enabled && old(self).nr51 & 0x02 != 0 {
                    spec_square_sample(old(self).channel2, final(self).channel2)
                } else {
                    0
                };
                let l3: int = if old(self).channel3.enabled && old(self).nr51 & 0x04 != 0 {
                    spec_wave_sample(old(self).channel3, final(self).channel3)
                } else {
                    0
                };
                let l4: int = if old(self).channel4.enabled && old(self).nr51 & 0x08 != 0 {
                    spec_noise_sample(old(self).channel4, final(self).channel4)
                } else {
                    0
                };
                let r1: int = if old(self).channel1.enabled && old(self).nr51 & 0x10 != 0 {
                    spec_square_sample(old(self).channel1, final(self).channel1)
                } else {
                    0
                };
                let r2: int = if old(self).channel2.enabled && old(self).nr51 & 0x20 != 0 {
                    spec_square_sample(old(self).channel2, final(self).channel2)
                } else {
                    0
                };
                let r3: int = if old(self).channel3.enabled && old(self).nr51 & 0x40 != 0 {
                    spec_wave_sample(old(self).channel3, final(self).channel3)
                } else {
                    0
                };
                let r4: int = if old(self).channel4.enabled && old(self).nr51 & 0x80 != 0 {
                    spec_noise_sample(old(self).channel4, final(self).channel4)
                } else {
                    0
                };
                let left = (l1 + l2 + l3 + l4) * ((old(self).nr50 & 0x07) + 1);
                let right = (r1 + r2 + r3 + r4) * (((old(self).nr50 >> 4) & 0x07) + 1);
                final(self).audio_buffer@ == old(self).audio_buffer@.push(left as i32).push(
                    right as i32,
                )
            }),
            !old(self).channel1.enabled ==> final(self).channel1 == old(self).channel1,
            !old(self).channel2.enabled ==> final(self).channel2 == old(self).channel2,
            !old(self).channel3.enabled ==> final(self).channel3 == old(self).channel3,
            !old(self).channel4.enabled ==> final(self).channel4 == old(self).channel4,
            final(self).audio_buffer@.len() == old(self).audio_buffer@.len() + 2,
            forall|i: int|
                0 <= i < old(self).audio_buffer@.len() ==> final(self).audio_buffer@[i] == old(
                    self,
                ).audio_buffer@[i],
            final(self).frame_sequencer == old(self).frame_sequencer,
            final(self).frame_sequencer_counter == old(self).frame_sequencer_counter,
            final(self).sample_counter == old(self).sample_counter,
            final(self).nr50 == old(self).nr50 && final(self).nr51 == old(self).nr51,
            final(self).enabled == old(self).enabled,
    {
        let mut left: i32 = 0;
        let mut right: i32 = 0;

        if self.channel1.enabled {
            let sample = self.channel1.sample_scaled();
            if (self.nr51 & 0x10) != 0 {
                right = right + sample;
            }
            if (self.nr51 & 0x01) != 0 {
                left = left + sample;
            }
        }

        if self.channel2.enabled {
            let sample = self.channel2.sample_scaled();
            if (self.nr51 & 0x20) != 0 {
                right = right + sample;
            }
            if (self.nr51 & 0x02) != 0 {
                left = left + sample;
            }
        }

        if self.channel3.enabled {
            let sample = self.channel3.sample_scaled();
            if (self.nr51 & 0x40) != 0 {
                right = right + sample;
            }
            if (self.nr51 & 0x04) != 0 {
                left = left + sample;
            }
        }

        if self.channel4.enabled {
            let sample = self.channel4.sample_scaled();
            if (self.nr51 & 0x80) != 0 {
                right = right + sample;
            }
            if (self.nr51 & 0x08) != 0 {
                left = left + sample;
            }
        }

        let left_vol = (self.nr50 & 0x07) as i32 + 1;
        let right_vol = ((self.nr50 >> 4u8) & 0x07) as i32 + 1;
        proof {
            let v = self.nr50;
            assert((v & 0x07) < 8 && (v >> 4u8) & 0x07 < 8) by (bit_vector);
        }

        proof {
            assert(-60 <= left <= 60 && -60 <= right <= 60);
            assert(-480 <= left * left_vol && left * left_vol <= 480) by (nonlinear_arith)
                requires
                    -60 <= left <= 60,
                    1 <= left_vol <= 8,
            ;
            assert(-480 <= right * right_vol && right * right_vol <= 480) by (nonlinear_arith)
                requires
                    -60 <= right <= 60,
                    1 <= right_vol <= 8,
            ;
        }
        let left_scaled = left * left_vol;
        let right_scaled = right * right_vol;

        self.audio_buffer.push(left_scaled);
        self.audio_buffer.push(right_scaled);
    }

    /// Reconciles with the I/O page: NR52 bit 7 turns the whole unit on
    /// or off (either edge resets the channels); while on, the channels
    /// adopt their registers and NR52's status bits are written back;
    /// while off, the sound registers 0xFF10..0xFF26 read as zero.
    pub fn sync_registers(&mut self, memory: &mut Memory)
        requires
            old(self).wf(),
            old(memory).wf(),
        ensures
            final(self).wf(),
            final(memory).wf(),
            final(self).audio_buffer == old(self).audio_buffer,
            final(self).sample_counter == old(self).sample_counter,
            // An on/off edge resets the channels and the sequencer; a
            // steady state keeps the sequencer counter.
            (old(self).enabled == (old(memory)@.io[0x26] & 0x80 != 0))
                ==> final(self).frame_sequencer_counter == old(self).frame_sequencer_counter,
            // NR52 bit 7 turns the unit on or off; while off, the sound
            // registers read as zero.
            final(self).enabled == (old(memory)@.io[0x26] & 0x80 != 0),
            !final(self).enabled ==> forall|i: int|
                0x10 <= i < 0x27 ==> final(memory)@.io[i] == 0,
            final(memory)@.vram == old(memory)@.vram,
            final(memory)@.wram == old(memory)@.wram,
            final(memory)@.oam == old(memory)@.oam,
            final(memory)@.hram == old(memory)@.hram,
            final(memory)@.cartridge == old(memory)@.cartridge,
            final(memory)@.boot_rom_enabled == old(memory)@.boot_rom_enabled,
            final(memory)@.interrupt_enable == old(memory)@.interrupt_enable,
            final(memory)@.interrupt_flag == old(memory)@.interrupt_flag,
            final(memory)@.io.len() == old(memory)@.io.len(),
            forall|i: int|
                0 <= i < old(memory)@.io.len() && !(0x10 <= i < 0x27) ==> final(memory)@.io[i]
                    == old(memory)@.io[i],
    {
        self.nr50 = memory.read_byte(0xFF24);
        self.nr51 = memory.read_byte(0xFF25);
        let new_nr52 = memory.read_byte(0xFF26);

        if (new_nr52 & 0x80) != 0 && !self.enabled {
            self.enabled = true;
            self.reset();
        } else if (new_nr52 & 0x80) == 0 && self.enabled {
            self.enabled = false;
            self.reset();
        }

        if self.enabled {
            self.channel1.sync_registers(memory);
            self.channel2.sync_registers(memory);
            self.channel3.sync_registers(memory);
            self.channel4.sync_registers(memory);

            let mut status: u8 = 0x80;
            if self.channel1.enabled {
                status |= 0x01;
            }
            if self.channel2.enabled {
                status |= 0x02;
            }
            if self.channel3.enabled {
                status |= 0x04;
            }
            if self.channel4.enabled {
                status |= 0x08;
            }
            memory.write_byte(0xFF26, status);
        } else {
            let mut addr: u16 = 0xFF10;
            while addr <= 0xFF25
                invariant
                    0xFF10 <= addr <= 0xFF26,
                    memory.wf(),
                    forall|i: int| 0x10 <= i < addr - 0xFF00 ==> memory@.io[i] == 0,
                    memory@.vram == old(memory)@.vram,
                    memory@.wram == old(memory)@.wram,
                    memory@.oam == old(memory)@.oam,
                    memory@.hram == old(memory)@.hram,
                    memory@.cartridge == old(memory)@.cartridge,
                    memory@.boot_rom_enabled == old(memory)@.boot_rom_enabled,
                    memory@.interrupt_enable == old(memory)@.interrupt_enable,
                    memory@.interrupt_flag == old(memory)@.interrupt_flag,
                    memory@.io.len() == old(memory)@.io.len(),
                    forall|i: int|
                        0 <= i < old(memory)@.io.len() && !(0x10 <= i < 0x27) ==> memory@.io[i]
                            == old(memory)@.io[i],
                decreases 0xFF26 - addr,
            {
                memory.write_byte(addr, 0);
                addr += 1;
            }
            memory.write_byte(0xFF26, 0);
        }
    }

    /// Returns every channel and the frame sequencer to power-on state;
    /// the sample pacing and buffer are kept.
    pub fn reset(&mut self)
        ensures
            !final(self).channel1.enabled && final(self).channel1.has_sweep,
            !final(self).channel2.enabled && !final(self).channel2.has_sweep,
            !final(self).channel3.enabled,
            !final(self).channel4.enabled,
            final(self).audio_buffer == old(self).audio_buffer,
            final(self).frame_sequencer == 0,
            final(self).frame_sequencer_counter == 0,
            final(self).channel1.wf() && final(self).channel2.wf() && final(self).channel3.wf()
                && final(self).channel4.wf(),
            final(self).sample_counter == old(self).sample_counter,
            final(self).nr50 == old(self).nr50 && final(self).nr51 == old(self).nr51,
            final(self).enabled == old(self).enabled,
    {
        self.channel1 = SquareChannel::new(true);
        self.channel2 = SquareChannel::new(false);
        self.channel3 = WaveChannel::new();
        self.channel4 = NoiseChannel::new();
        self.frame_sequencer = 0;
        self.frame_sequencer_counter = 0;
    }
}

} // verus!
