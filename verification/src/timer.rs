//! The programmable interval timer.  DIV counts every CPU cycle and
//! exposes its high byte at 0xFF04; TIMA ticks at the TAC-selected rate
//! while TAC bit 2 is set, reloading from TMA and raising IF bit 2 on
//! overflow.
//!
//! The timer mirrors its registers into the I/O page after every
//! update.  A memory value that differs from the last value the timer
//! itself wrote is a CPU write and is adopted; for DIV, any CPU write
//! resets the whole 16-bit counter.

use vstd::prelude::*;
use vstd::wrapping::u16_specs;
use crate::memory::{Memory, MemoryView};

verus! {

pub const TIMER_INTERRUPT: u8 = 0x04;

pub struct Timer {
    pub div: u16,
    pub tima: u8,
    pub tma: u8,
    pub tac: u8,
    pub timer_counter: u32,
    pub written_div: u8,
    pub written_tima: u8,
    pub written_tma: u8,
    pub written_tac: u8,
}

/// CPU cycles per TIMA increment, selected by TAC bits 1..0.
pub open spec fn spec_timer_frequency(tac: u8) -> u32 {
    if tac & 0x03 == 0 {
        1024
    } else if tac & 0x03 == 1 {
        16
    } else if tac & 0x03 == 2 {
        64
    } else {
        256
    }
}

/// TIMA after `n` increments, with the reload value `tma`, paired with
/// whether any increment overflowed (which raises the interrupt).
pub open spec fn spec_tick_tima(tima: u8, tma: u8, n: nat) -> (u8, bool)
    decreases n,
{
    if n == 0 {
        (tima, false)
    } else {
        let prev = spec_tick_tima(tima, tma, (n - 1) as nat);
        if prev.0 == 0xFF {
            (tma, true)
        } else {
            ((prev.0 + 1) as u8, prev.1)
        }
    }
}

impl Timer {
    /// The tick remainder always stays below the slowest rate.
    pub open spec fn wf(self) -> bool {
        self.timer_counter < 1024
    }

    pub fn new() -> (t: Timer)
        ensures
            t.div == 0,
            t.tima == 0,
            t.tma == 0,
            t.tac == 0,
            t.timer_counter == 0,
            t.written_div == 0,
            t.written_tima == 0,
            t.written_tma == 0,
            t.written_tac == 0,
            t.wf(),
    {
        Timer {
            div: 0,
            tima: 0,
            tma: 0,
            tac: 0,
            timer_counter: 0,
            written_div: 0,
            written_tima: 0,
            written_tma: 0,
            written_tac: 0,
        }
    }

    /// Advances the timer by one instruction's cycle count: DIV grows by
    /// the cycles; while enabled, TIMA ticks once per elapsed period and
    /// an overflow reloads TMA and raises IF bit 2; finally the register
    /// mirror in the I/O page is reconciled.
    pub fn update(&mut self, cycles: u8, memory: &mut Memory)
        requires
            old(self).wf(),
            old(memory).wf(),
        ensures
            final(self).wf(),
            final(memory).wf(),
            ({
                let div1 = u16_specs::wrapping_add(old(self).div, cycles as u16);
                let enabled = old(self).tac & 0x04 != 0;
                let freq = spec_timer_frequency(old(self).tac);
                let counter1: u32 = if enabled {
                    (old(self).timer_counter + cycles) as u32
                } else {
                    old(self).timer_counter
                };
                let n: nat = if enabled {
                    (counter1 as nat) / (freq as nat)
                } else {
                    0
                };
                let ticked = spec_tick_tima(old(self).tima, old(self).tma, n);
                let mem1 = if enabled && ticked.1 {
                    MemoryView {
                        interrupt_flag: old(memory).interrupt_flag | TIMER_INTERRUPT,
                        ..old(memory)@
                    }
                } else {
                    old(memory)@
                };
                let div2: u16 = if mem1.io[4] != old(self).written_div {
                    0
                } else {
                    div1
                };
                let tima2: u8 = if mem1.io[5] != old(self).written_tima {
                    mem1.io[5]
                } else {
                    ticked.0
                };
                let tma2: u8 = if mem1.io[6] != old(self).written_tma {
                    mem1.io[6]
                } else {
                    old(self).tma
                };
                let tac2: u8 = if mem1.io[7] != old(self).written_tac {
                    mem1.io[7]
                } else {
                    old(self).tac
                };
                &&& final(self).div == div2
                &&& final(self).tima == tima2
                &&& final(self).tma == tma2
                &&& final(self).tac == tac2
                &&& final(self).timer_counter == (if enabled {
                    (counter1 as nat) % (freq as nat)
                } else {
                    counter1 as nat
                })
                &&& final(self).written_div == (div2 >> 8) as u8
                &&& final(self).written_tima == tima2
                &&& final(self).written_tma == tma2
                &&& final(self).written_tac == tac2
                &&& final(memory)@ == mem1.spec_write_byte(0xFF04, (div2 >> 8) as u8)
                    .spec_write_byte(0xFF05, tima2).spec_write_byte(0xFF06, tma2).spec_write_byte(
                    0xFF07,
                    tac2,
                )
            }),
    {
        self.update_divider(cycles);

        if self.is_timer_enabled() {
            let ghost freq_nat = spec_timer_frequency(old(self).tac) as nat;
            self.timer_counter = self.timer_counter + cycles as u32;
            let ghost counter1 = self.timer_counter as nat;

            let frequency = self.get_timer_frequency();
            let ghost mut ticks: nat = 0nat;
            while self.timer_counter >= frequency
                invariant
                    old(self).wf(),
                    old(memory).wf(),
                    memory.wf(),
                    frequency == spec_timer_frequency(old(self).tac),
                    freq_nat == frequency as nat,
                    counter1 == ticks * freq_nat + self.timer_counter,
                    spec_tick_tima(old(self).tima, old(self).tma, ticks).0 == self.tima,
                    memory@ == (if spec_tick_tima(old(self).tima, old(self).tma, ticks).1 {
                        MemoryView {
                            interrupt_flag: old(memory).interrupt_flag | TIMER_INTERRUPT,
                            ..old(memory)@
                        }
                    } else {
                        old(memory)@
                    }),
                    *self == (Timer {
                        div: u16_specs::wrapping_add(old(self).div, cycles as u16),
                        tima: self.tima,
                        timer_counter: self.timer_counter,
                        ..*old(self)
                    }),
                decreases self.timer_counter,
            {
                self.timer_counter = self.timer_counter - frequency;
                self.tima = self.tima.wrapping_add(1);

                if self.tima == 0 {
                    self.tima = self.tma;
                    memory.request_interrupt(TIMER_INTERRUPT);
                    proof {
                        let fl = old(memory).interrupt_flag;
                        assert((fl | 0x04) | 0x04 == fl | 0x04) by (bit_vector);
                    }
                }
                proof {
                    assert((ticks + 1) * freq_nat == ticks * freq_nat + freq_nat)
                        by (nonlinear_arith);
                    ticks = ticks + 1;
                }
            }
            proof {
                vstd::arithmetic::div_mod::lemma_fundamental_div_mod_converse(
                    counter1 as int,
                    freq_nat as int,
                    ticks as int,
                    self.timer_counter as int,
                );
            }
        }

        self.sync_registers(memory);
    }

    fn update_divider(&mut self, cycles: u8)
        ensures
            *final(self) == (Timer {
                div: u16_specs::wrapping_add(old(self).div, cycles as u16),
                ..*old(self)
            }),
    {
        self.div = self.div.wrapping_add(cycles as u16);
    }

    fn is_timer_enabled(&self) -> (r: bool)
        ensures
            r == (self.tac & 0x04 != 0),
    {
        (self.tac & 0x04) != 0
    }

    fn get_timer_frequency(&self) -> (r: u32)
        ensures
            r == spec_timer_frequency(self.tac),
            16 <= r <= 1024,
    {
        let sel = self.tac & 0x03;
        proof {
            let t = self.tac;
            assert(t & 0x03 <= 3) by (bit_vector);
        }
        if sel == 0 {
            1024
        } else if sel == 1 {
            16
        } else if sel == 2 {
            64
        } else {
            256
        }
    }

    /// Reconciles the timer registers with their I/O-page mirror: a
    /// mirror byte that is not what the timer last wrote is a CPU write
    /// and wins (for DIV, any CPU write resets the whole counter); then
    /// the mirror is rewritten from the timer state.
    fn sync_registers(&mut self, memory: &mut Memory)
        requires
            old(memory).wf(),
        ensures
            final(memory).wf(),
            ({
                let io = old(memory)@.io;
                let div2: u16 = if io[4] != old(self).written_div {
                    0
                } else {
                    old(self).div
                };
                let tima2: u8 = if io[5] != old(self).written_tima {
                    io[5]
                } else {
                    old(self).tima
                };
                let tma2: u8 = if io[6] != old(self).written_tma {
                    io[6]
                } else {
                    old(self).tma
                };
                let tac2: u8 = if io[7] != old(self).written_tac {
                    io[7]
                } else {
                    old(self).tac
                };
                &&& *final(self) == (Timer {
                    div: div2,
                    tima: tima2,
                    tma: tma2,
                    tac: tac2,
                    written_div: (div2 >> 8) as u8,
                    written_tima: tima2,
                    written_tma: tma2,
                    written_tac: tac2,
                    ..*old(self)
                })
                &&& final(memory)@ == old(memory)@.spec_write_byte(0xFF04, (div2 >> 8) as u8)
                    .spec_write_byte(0xFF05, tima2).spec_write_byte(0xFF06, tma2).spec_write_byte(
                    0xFF07,
                    tac2,
                )
            }),
    {
        let div_value = memory.read_byte(0xFF04);
        if div_value != self.written_div {
            self.div = 0;
        }

        let tima_value = memory.read_byte(0xFF05);
        if tima_value != self.written_tima {
            self.tima = tima_value;
        }

        let tma_value = memory.read_byte(0xFF06);
        if tma_value != self.written_tma {
            self.tma = tma_value;
        }

        let tac_value = memory.read_byte(0xFF07);
        if tac_value != self.written_tac {
            self.tac = tac_value;
        }

        self.written_div = (self.div >> 8u16) as u8;
        self.written_tima = self.tima;
        self.written_tma = self.tma;
        self.written_tac = self.tac;

        memory.write_byte(0xFF04, (self.div >> 8u16) as u8);
        memory.write_byte(0xFF05, self.tima);
        memory.write_byte(0xFF06, self.tma);
        memory.write_byte(0xFF07, self.tac);
    }
}

} // verus!
