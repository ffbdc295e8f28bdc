//! Core emulation engine for a Game Boy (DMG) system: a Sharp LR35902
//! compatible CPU, a memory/bus controller with cartridge bank switching,
//! a pixel-processing unit, a programmable interval timer and a four
//! channel audio unit, all advancing in lockstep on a shared cycle clock.

pub mod apu;
pub mod boot_rom;
pub mod cartridge;
pub mod cpu;
pub mod debug;
pub mod gameboy;
pub mod joypad;
pub mod memory;
pub mod opcodes;
pub mod opcodes_alu;
pub mod opcodes_cb;
pub mod opcodes_extended;
pub mod ppu;
pub mod registers;
pub mod save_state;
pub mod sprite_renderer;
pub mod tile_renderer;
pub mod timer;

use vstd::prelude::*;
use vstd::wrapping::u32_specs;
use crate::cpu::Cpu;
use crate::debug::CpuState;
use crate::gameboy::{GameBoy, spec_step_instruction};
use crate::memory::MemoryView;
use crate::ppu::CYCLES_PER_FRAME;
use crate::save_state::SaveStateView;

verus! {

/// The host-facing console: a thin shell around the machine aggregate.
pub struct Emulator {
    pub gameboy: GameBoy,
}

impl Emulator {
    pub open spec fn wf(self) -> bool {
        self.gameboy.wf()
    }

    pub fn new() -> (r: Emulator)
        ensures
            r.wf(),
            r.gameboy.cycles == 0,
            r.gameboy.memory@.boot_rom_enabled,
            r.gameboy.memory@.cartridge.rom.len() == 0,
    {
        Emulator { gameboy: GameBoy::new() }
    }

    pub fn load_rom(&mut self, rom_data: &[u8])
        requires
            old(self).wf(),
        ensures
            final(self).wf(),
            final(self).gameboy.memory@.cartridge.rom == rom_data@,
    {
        self.gameboy.load_rom(rom_data);
    }

    /// One machine step; returns the cycles it consumed, which matches
    /// the cycle table of the fetched opcode, and the instruction's
    /// register-file effect survives into the new state.
    pub fn step(&mut self) -> (c: u8)
        requires
            old(self).wf(),
        ensures
            final(self).wf(),
            4 <= c <= 24,
            final(self).gameboy.cycles == u32_specs::wrapping_add(
                old(self).gameboy.cycles,
                c as u32,
            ),
            old(self).gameboy.cpu.halt ==> c == 4,
            !old(self).gameboy.cpu.halt && crate::opcodes::spec_is_implemented(
                old(self).gameboy.memory@.spec_read_byte(old(self).gameboy.cpu.registers.pc),
            ) ==> ({
                let op = old(self).gameboy.memory@.spec_read_byte(
                    old(self).gameboy.cpu.registers.pc,
                );
                &&& c == crate::opcodes::spec_cycles(
                    op,
                    old(self).gameboy.cpu.registers.spec_flag_z(),
                    old(self).gameboy.cpu.registers.spec_flag_c(),
                    old(self).gameboy.memory@.spec_read_byte(
                        vstd::wrapping::u16_specs::wrapping_add(
                            old(self).gameboy.cpu.registers.pc,
                            1,
                        ),
                    ),
                )
                &&& final(self).gameboy.cpu.cycles == u32_specs::wrapping_add(
                    old(self).gameboy.cpu.cycles,
                    c as u32,
                )
                &&& exists|mid: Cpu, mid_mem: MemoryView|
                    {
                        &&& #[trigger] spec_step_instruction(old(self).gameboy, op, mid, mid_mem)
                        &&& final(self).gameboy.cpu.registers.a == mid.registers.a
                        &&& final(self).gameboy.cpu.registers.b == mid.registers.b
                        &&& final(self).gameboy.cpu.registers.c == mid.registers.c
                        &&& final(self).gameboy.cpu.registers.d == mid.registers.d
                        &&& final(self).gameboy.cpu.registers.e == mid.registers.e
                        &&& final(self).gameboy.cpu.registers.h == mid.registers.h
                        &&& final(self).gameboy.cpu.registers.l == mid.registers.l
                        &&& final(self).gameboy.cpu.registers.f == mid.registers.f
                    }
            }),
    {
        self.gameboy.step()
    }

    /// Runs whole steps totalling one frame; the excess carries over
    /// and the frame counter comes down by exactly one frame.
    pub fn run_frame(&mut self)
        requires
            old(self).wf(),
        ensures
            final(self).wf(),
            exists|elapsed: u32|
                #![auto]
                CYCLES_PER_FRAME <= elapsed < CYCLES_PER_FRAME + 24 && final(self).gameboy.cycles
                    == u32_specs::wrapping_sub(
                    u32_specs::wrapping_add(old(self).gameboy.cycles, elapsed),
                    CYCLES_PER_FRAME,
                ),
    {
        self.gameboy.run_frame();
    }

    pub fn get_screen_buffer(&self) -> (r: Vec<u8>)
        ensures
            r@ == self.gameboy.ppu.screen_buffer@,
    {
        self.gameboy.get_screen_buffer()
    }

    pub fn key_down(&mut self, key: u8)
        requires
            old(self).wf(),
        ensures
            final(self).wf(),
            final(self).gameboy.joypad == crate::joypad::spec_after_key_down(
                old(self).gameboy.joypad,
                key,
            ),
            final(self).gameboy.memory@ == (MemoryView {
                io: old(self).gameboy.memory@.io.update(
                    0,
                    final(self).gameboy.joypad.spec_register_value(
                        old(self).gameboy.memory@.io[0],
                    ),
                ),
                ..old(self).gameboy.memory@
            }),
    {
        self.gameboy.key_down(key);
    }

    pub fn key_up(&mut self, key: u8)
        requires
            old(self).wf(),
        ensures
            final(self).wf(),
            final(self).gameboy.joypad == crate::joypad::spec_after_key_up(
                old(self).gameboy.joypad,
                key,
            ),
            final(self).gameboy.memory@ == (MemoryView {
                io: old(self).gameboy.memory@.io.update(
                    0,
                    final(self).gameboy.joypad.spec_register_value(
                        old(self).gameboy.memory@.io[0],
                    ),
                ),
                ..old(self).gameboy.memory@
            }),
    {
        self.gameboy.key_up(key);
    }

    pub fn get_cpu_state(&self) -> (r: CpuState)
        ensures
            r.a == self.gameboy.cpu.registers.a,
            r.b == self.gameboy.cpu.registers.b,
            r.c == self.gameboy.cpu.registers.c,
            r.d == self.gameboy.cpu.registers.d,
            r.e == self.gameboy.cpu.registers.e,
            r.h == self.gameboy.cpu.registers.h,
            r.l == self.gameboy.cpu.registers.l,
            r.f == self.gameboy.cpu.registers.f,
            r.sp == self.gameboy.cpu.registers.sp,
            r.pc == self.gameboy.cpu.registers.pc,
            r.ime == self.gameboy.cpu.ime,
            r.halt == self.gameboy.cpu.halt,
    {
        self.gameboy.get_cpu_state()
    }

    pub fn read_memory(&self, address: u16) -> (r: u8)
        requires
            self.wf(),
        ensures
            r == self.gameboy.memory@.spec_read_byte(address),
    {
        self.gameboy.read_memory(address)
    }

    pub fn write_memory(&mut self, address: u16, value: u8)
        requires
            old(self).wf(),
        ensures
            final(self).wf(),
            final(self).gameboy.memory@ == old(self).gameboy.memory@.spec_write_byte(
                address,
                value,
            ),
    {
        self.gameboy.write_memory(address, value);
    }

    /// The stereo sample numerators accumulated since the last call
    /// (interleaved left, right); the host divides by 480 for the
    /// -1.0..1.0 stream.
    pub fn take_audio_scaled(&mut self) -> (r: Vec<i32>)
        requires
            old(self).wf(),
        ensures
            final(self).wf(),
            r@ == old(self).gameboy.apu.audio_buffer@,
    {
        self.gameboy.take_audio_scaled()
    }

    /// The whole observable machine state as a textual blob.
    pub fn get_save_state(&self) -> (r: Vec<u8>)
        requires
            self.wf(),
        ensures
            r@ == crate::gameboy::spec_machine_obs(self.gameboy).spec_encoding(),
    {
        self.gameboy.get_save_state()
    }

    /// Restores a save-state blob; false on a malformed blob, which
    /// leaves the machine untouched.  A well-formed blob restores
    /// exactly the observable state it recorded.
    pub fn load_save_state(&mut self, state: &[u8]) -> (r: bool)
        requires
            old(self).wf(),
        ensures
            final(self).wf(),
            !r ==> *final(self) == *old(self),
            (exists|v: SaveStateView| v.wf() && state@ == #[trigger] v.spec_encoding()) ==> r,
            // A blob that is no snapshot's encoding is refused.
            r ==> exists|v: SaveStateView| v.wf() && state@ == #[trigger] v.spec_encoding(),
            r ==> forall|v: SaveStateView|
                v.wf() && state@ == #[trigger] v.spec_encoding() ==> ({
                    &&& final(self).gameboy.cpu.registers.a == v.a
                    &&& final(self).gameboy.cpu.registers.f == v.f
                    &&& final(self).gameboy.cpu.registers.b == v.b
                    &&& final(self).gameboy.cpu.registers.c == v.c
                    &&& final(self).gameboy.cpu.registers.d == v.d
                    &&& final(self).gameboy.cpu.registers.e == v.e
                    &&& final(self).gameboy.cpu.registers.h == v.h
                    &&& final(self).gameboy.cpu.registers.l == v.l
                    &&& final(self).gameboy.cpu.registers.sp == v.sp
                    &&& final(self).gameboy.cpu.registers.pc == v.pc
                    &&& final(self).gameboy.cpu.ime == v.ime
                    &&& final(self).gameboy.cpu.halt == v.halt
                    &&& final(self).gameboy.memory@.vram == v.vram
                    &&& final(self).gameboy.memory@.wram == v.wram
                    &&& final(self).gameboy.memory@.oam == v.oam
                    &&& final(self).gameboy.memory@.io == v.io
                    &&& final(self).gameboy.memory@.hram == v.hram
                    &&& final(self).gameboy.memory@.interrupt_enable == v.interrupt_enable
                    &&& final(self).gameboy.memory@.interrupt_flag == v.interrupt_flag
                    &&& final(self).gameboy.memory@.boot_rom_enabled == v.boot_rom_enabled
                    &&& final(self).gameboy.memory@.cartridge.rom_bank == v.rom_bank
                    &&& final(self).gameboy.memory@.cartridge.ram_bank == v.ram_bank
                    &&& final(self).gameboy.memory@.cartridge.ram_enabled == v.ram_enabled
                    &&& (v.cartridge_ram matches Some(ram) ==> (ram.len() == old(
                        self,
                    ).gameboy.memory@.cartridge.ram.len()
                        ==> final(self).gameboy.memory@.cartridge.ram == ram))
                    &&& final(self).gameboy.cycles == v.cycles
                }),
            final(self).gameboy.memory@.cartridge.rom == old(self).gameboy.memory@.cartridge.rom,
    {
        match self.gameboy.load_save_state(state) {
            Ok(_) => true,
            Err(_) => false,
        }
    }

    /// The battery-backed cartridge RAM, as raw bytes.
    pub fn get_save_data(&self) -> (r: Vec<u8>)
        ensures
            r@ == self.gameboy.memory@.cartridge.ram,
    {
        self.gameboy.get_save_data()
    }

    /// Restores battery-backed RAM; a size mismatch is ignored.
    pub fn load_save_data(&mut self, data: &[u8])
        requires
            old(self).wf(),
        ensures
            final(self).wf(),
            data@.len() == old(self).gameboy.memory@.cartridge.ram.len()
                ==> final(self).gameboy.memory@.cartridge.ram == data@,
    {
        self.gameboy.load_save_data(data);
    }
}

} // verus!
