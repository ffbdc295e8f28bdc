//! The console aggregate: CPU, bus, PPU, timer, joypad and APU advance
//! in lockstep on a shared cycle clock.  Each step runs one CPU
//! instruction, hands its cycle count to the timer, PPU and APU in that
//! order, then offers pending interrupts to the CPU; one frame is
//! 70,224 cycles.

use vstd::prelude::*;
use vstd::wrapping::u32_specs;
use crate::apu::Apu;
use crate::save_state::{SaveState, SaveStateError, SaveStateView, CpuSaveState, MemorySaveState};
use crate::cpu::Cpu;
use crate::debug::CpuState;
use crate::joypad::Joypad;
use crate::memory::Memory;
use crate::ppu::{Ppu, CYCLES_PER_FRAME};
use crate::timer::Timer;

verus! {

pub struct GameBoy {
    pub cpu: Cpu,
    pub memory: Memory,
    pub ppu: Ppu,
    pub timer: Timer,
    pub joypad: Joypad,
    pub apu: Apu,
    pub cycles: u32,
}

/// The CPU as one instruction sees it: PC past the opcode byte and a
/// pending EI already committed (EI takes effect one instruction late).
pub open spec fn spec_pre_instruction(g: GameBoy, op: u8) -> Cpu {
    Cpu {
        registers: crate::registers::Registers {
            pc: vstd::wrapping::u16_specs::wrapping_add(g.cpu.registers.pc, 1),
            ..g.cpu.registers
        },
        ime: if g.cpu.ime_pending && op != 0xFB {
            true
        } else {
            g.cpu.ime
        },
        ime_pending: if g.cpu.ime_pending && op != 0xFB {
            false
        } else {
            g.cpu.ime_pending
        },
        ..g.cpu
    }
}

/// One instruction of the console `g`, leaving the CPU `mid` and the
/// bus `mid_mem` (before the timer, PPU, APU and interrupt offer run).
pub open spec fn spec_step_instruction(
    g: GameBoy,
    op: u8,
    mid: Cpu,
    mid_mem: crate::memory::MemoryView,
) -> bool {
    crate::opcodes::spec_instruction_effect(op, spec_pre_instruction(g, op), g.memory@, mid, mid_mem)
}

impl GameBoy {
    pub open spec fn wf(self) -> bool {
        &&& self.memory.wf()
        &&& self.ppu.frame_wf()
        &&& self.timer.wf()
        &&& self.apu.wf()
    }

    /// A console at power-on: fresh subsystems, no cartridge, the boot
    /// overlay enabled and the cycle counter at zero.
    pub fn new() -> (g: GameBoy)
        ensures
            g.wf(),
            g.cycles == 0,
            !g.cpu.halt && !g.cpu.ime,
            g.cpu.registers.pc == 0x0000,
            g.cpu.registers.sp == 0xFFFE,
            g.memory@.boot_rom_enabled,
            g.memory@.cartridge.rom.len() == 0,
            g.memory@.interrupt_enable == 0,
            g.memory@.interrupt_flag == 0,
    {
        GameBoy {
            cpu: Cpu::new(),
            memory: Memory::new(),
            ppu: Ppu::new(),
            timer: Timer::new(),
            joypad: Joypad::new(),
            apu: Apu::new(),
            cycles: 0,
        }
    }

    /// Inserting a ROM replaces the cartridge; everything else stays.
    pub fn load_rom(&mut self, rom_data: &[u8])
        requires
            old(self).wf(),
        ensures
            final(self).wf(),
            *final(self) == (GameBoy { memory: final(self).memory, ..*old(self) }),
            final(self).memory@ == (crate::memory::MemoryView {
                cartridge: final(self).memory@.cartridge,
                ..old(self).memory@
            }),
            final(self).memory@.cartridge.rom == rom_data@,
            final(self).memory@.cartridge.rom_bank == 1,
            final(self).memory@.cartridge.ram_bank == 0,
            !final(self).memory@.cartridge.ram_enabled,
            final(self).memory@.cartridge.ram == Seq::new(
                crate::cartridge::spec_ram_size(rom_data@) as nat,
                |i: int| 0u8,
            ),
            final(self).memory@.cartridge.mbc_type == crate::cartridge::spec_mbc_type(rom_data@),
    {
        self.memory.load_rom(rom_data);
    }

    /// One step of the whole machine, returning the CPU cycles it took:
    /// one instruction per `spec_instruction_effect`, the cycle
    /// bookkeeping, then the timer, PPU and APU advances and the
    /// interrupt offer (which touch I/O state but never the 8-bit
    /// register file).
    #[verifier::rlimit(100)]
    fn step_core(&mut self) -> (c: u8)
        requires
            old(self).wf(),
        ensures
            final(self).wf(),
            4 <= c <= 24,
            final(self).cycles == u32_specs::wrapping_add(old(self).cycles, c as u32),
            old(self).cpu.halt ==> c == 4,
            !old(self).cpu.halt && crate::opcodes::spec_is_implemented(
                old(self).memory@.spec_read_byte(old(self).cpu.registers.pc),
            ) ==> ({
                let op = old(self).memory@.spec_read_byte(old(self).cpu.registers.pc);
                &&& c == crate::opcodes::spec_cycles(
                    op,
                    old(self).cpu.registers.spec_flag_z(),
                    old(self).cpu.registers.spec_flag_c(),
                    old(self).memory@.spec_read_byte(
                        vstd::wrapping::u16_specs::wrapping_add(old(self).cpu.registers.pc, 1),
                    ),
                )
                &&& final(self).cpu.cycles == u32_specs::wrapping_add(
                    old(self).cpu.cycles,
                    c as u32,
                )
                // The instruction's register-file results survive the
                // subsystem advances and a possible interrupt dispatch.
                &&& exists|mid: Cpu, mid_mem: crate::memory::MemoryView|
                    {
                        &&& #[trigger] spec_step_instruction(*old(self), op, mid, mid_mem)
                        &&& final(self).cpu.registers.a == mid.registers.a
                        &&& final(self).cpu.registers.b == mid.registers.b
                        &&& final(self).cpu.registers.c == mid.registers.c
                        &&& final(self).cpu.registers.d == mid.registers.d
                        &&& final(self).cpu.registers.e == mid.registers.e
                        &&& final(self).cpu.registers.h == mid.registers.h
                        &&& final(self).cpu.registers.l == mid.registers.l
                        &&& final(self).cpu.registers.f == mid.registers.f
                    }
            }),
    {
        let cycles = self.cpu.step(&mut self.memory);
        let ghost mid = Cpu { cycles: old(self).cpu.cycles, ..self.cpu };
        let ghost mid_mem = self.memory@;
        self.cycles = self.cycles.wrapping_add(cycles as u32);

        self.timer.update(cycles, &mut self.memory);
        self.ppu.update(cycles, &mut self.memory);
        self.apu.update(cycles, &mut self.memory);

        self.handle_interrupts();
        proof {
            let op = old(self).memory@.spec_read_byte(old(self).cpu.registers.pc);
            if !old(self).cpu.halt && crate::opcodes::spec_is_implemented(op) {
                assert(spec_step_instruction(*old(self), op, mid, mid_mem));
            }
        }
        cycles
    }

    /// Runs one CPU instruction and advances the timer, PPU and APU by
    /// its cycles, then offers pending interrupts to the CPU; returns
    /// the cycles the instruction consumed, which matches the cycle
    /// table of the fetched opcode.
    pub fn step(&mut self) -> (c: u8)
        requires
            old(self).wf(),
        ensures
            final(self).wf(),
            4 <= c <= 24,
            final(self).cycles == u32_specs::wrapping_add(old(self).cycles, c as u32),
            old(self).cpu.halt ==> c == 4,
            !old(self).cpu.halt && crate::opcodes::spec_is_implemented(
                old(self).memory@.spec_read_byte(old(self).cpu.registers.pc),
            ) ==> ({
                let op = old(self).memory@.spec_read_byte(old(self).cpu.registers.pc);
                &&& c == crate::opcodes::spec_cycles(
                    op,
                    old(self).cpu.registers.spec_flag_z(),
                    old(self).cpu.registers.spec_flag_c(),
                    old(self).memory@.spec_read_byte(
                        vstd::wrapping::u16_specs::wrapping_add(old(self).cpu.registers.pc, 1),
                    ),
                )
                &&& final(self).cpu.cycles == u32_specs::wrapping_add(
                    old(self).cpu.cycles,
                    c as u32,
                )
                &&& exists|mid: Cpu, mid_mem: crate::memory::MemoryView|
                    {
                        &&& #[trigger] spec_step_instruction(*old(self), op, mid, mid_mem)
                        &&& final(self).cpu.registers.a == mid.registers.a
                        &&& final(self).cpu.registers.b == mid.registers.b
                        &&& final(self).cpu.registers.c == mid.registers.c
                        &&& final(self).cpu.registers.d == mid.registers.d
                        &&& final(self).cpu.registers.e == mid.registers.e
                        &&& final(self).cpu.registers.h == mid.registers.h
                        &&& final(self).cpu.registers.l == mid.registers.l
                        &&& final(self).cpu.registers.f == mid.registers.f
                    }
            }),
    {
        self.step_core()
    }

    /// Runs whole steps until one frame's 70,224 cycles have elapsed;
    /// the excess beyond the frame carries into the next one, and the
    /// frame counter comes down by exactly one frame.
    pub fn run_frame(&mut self)
        requires
            old(self).wf(),
        ensures
            final(self).wf(),
            exists|elapsed: u32|
                #![auto]
                CYCLES_PER_FRAME <= elapsed < CYCLES_PER_FRAME + 24 && final(self).cycles
                    == u32_specs::wrapping_sub(
                    u32_specs::wrapping_add(old(self).cycles, elapsed),
                    CYCLES_PER_FRAME,
                ),
    {
        let mut elapsed: u32 = 0;
        while elapsed < CYCLES_PER_FRAME
            invariant
                self.wf(),
                elapsed < CYCLES_PER_FRAME + 24,
                self.cycles == u32_specs::wrapping_add(old(self).cycles, elapsed),
            decreases CYCLES_PER_FRAME + 24 - elapsed,
        {
            let c = self.step_core();
            elapsed = elapsed + c as u32;
        }

        self.cycles = self.cycles.wrapping_sub(CYCLES_PER_FRAME);
        proof {
            let done: u32 = elapsed;
            assert(CYCLES_PER_FRAME <= done < CYCLES_PER_FRAME + 24 && self.cycles
                == u32_specs::wrapping_sub(
                u32_specs::wrapping_add(old(self).cycles, done),
                CYCLES_PER_FRAME,
            ));
        }
    }

    /// A snapshot of the 160x144 RGBA framebuffer.
    pub fn get_screen_buffer(&self) -> (r: Vec<u8>)
        ensures
            r@ == self.ppu.screen_buffer@,
    {
        self.ppu.get_screen_buffer()
    }

    /// Latches a button press and refreshes the joypad register mirror
    /// under the select bits the program last wrote there.
    pub fn key_down(&mut self, key: u8)
        requires
            old(self).wf(),
        ensures
            final(self).wf(),
            final(self).joypad == crate::joypad::spec_after_key_down(old(self).joypad, key),
            final(self).memory@ == (crate::memory::MemoryView {
                io: old(self).memory@.io.update(
                    0,
                    final(self).joypad.spec_register_value(old(self).memory@.io[0]),
                ),
                ..old(self).memory@
            }),
            *final(self) == (GameBoy {
                joypad: final(self).joypad,
                memory: final(self).memory,
                ..*old(self)
            }),
    {
        self.joypad.key_down(key);
        let select = self.memory.read_byte(0xFF00);
        let state = self.joypad.get_state(select);
        self.memory.update_joypad(state);
    }

    /// Latches a button release and refreshes the joypad register
    /// mirror under the select bits the program last wrote there.
    pub fn key_up(&mut self, key: u8)
        requires
            old(self).wf(),
        ensures
            final(self).wf(),
            final(self).joypad == crate::joypad::spec_after_key_up(old(self).joypad, key),
            final(self).memory@ == (crate::memory::MemoryView {
                io: old(self).memory@.io.update(
                    0,
                    final(self).joypad.spec_register_value(old(self).memory@.io[0]),
                ),
                ..old(self).memory@
            }),
            *final(self) == (GameBoy {
                joypad: final(self).joypad,
                memory: final(self).memory,
                ..*old(self)
            }),
    {
        self.joypad.key_up(key);
        let select = self.memory.read_byte(0xFF00);
        let state = self.joypad.get_state(select);
        self.memory.update_joypad(state);
    }

    /// Offers `IF & IE & 0x1F` to the CPU when any bit is set.  A
    /// dispatch redirects PC and SP and pushes to memory; the 8-bit
    /// register file and the cycle counter are never touched.
    fn handle_interrupts(&mut self)
        requires
            old(self).wf(),
        ensures
            final(self).wf(),
            *final(self) == (GameBoy {
                cpu: final(self).cpu,
                memory: final(self).memory,
                ..*old(self)
            }),
            final(self).cpu.registers == (crate::registers::Registers {
                pc: final(self).cpu.registers.pc,
                sp: final(self).cpu.registers.sp,
                ..old(self).cpu.registers
            }),
            final(self).cpu.cycles == old(self).cpu.cycles,
    {
        let interrupts = self.memory.get_triggered_interrupts();
        if interrupts != 0 {
            self.cpu.handle_interrupts(interrupts, &mut self.memory);
        }
    }

    pub fn get_cpu_state(&self) -> (r: CpuState)
        ensures
            r.a == self.cpu.registers.a,
            r.b == self.cpu.registers.b,
            r.c == self.cpu.registers.c,
            r.d == self.cpu.registers.d,
            r.e == self.cpu.registers.e,
            r.h == self.cpu.registers.h,
            r.l == self.cpu.registers.l,
            r.f == self.cpu.registers.f,
            r.sp == self.cpu.registers.sp,
            r.pc == self.cpu.registers.pc,
            r.ime == self.cpu.ime,
            r.halt == self.cpu.halt,
    {
        CpuState::from_cpu(&self.cpu)
    }

    /// Debug read of any bus address.
    pub fn read_memory(&self, address: u16) -> (r: u8)
        requires
            self.wf(),
        ensures
            r == self.memory@.spec_read_byte(address),
    {
        self.memory.read_byte(address)
    }

    /// Debug write to any bus address.
    pub fn write_memory(&mut self, address: u16, value: u8)
        requires
            old(self).wf(),
        ensures
            final(self).wf(),
            *final(self) == (GameBoy { memory: final(self).memory, ..*old(self) }),
            final(self).memory@ == old(self).memory@.spec_write_byte(address, value),
    {
        self.memory.write_byte(address, value);
    }

    /// The stereo sample numerators accumulated since the last call
    /// (interleaved left, right; denominator 480).
    pub fn take_audio_scaled(&mut self) -> (r: Vec<i32>)
        requires
            old(self).wf(),
        ensures
            final(self).wf(),
            r@ == old(self).apu.audio_buffer@,
    {
        self.apu.take_audio_scaled()
    }

    /// The battery-backed cartridge RAM, as raw bytes.
    pub fn get_save_data(&self) -> (r: Vec<u8>)
        ensures
            r@ == self.memory@.cartridge.ram,
    {
        self.memory.get_cartridge_ram()
    }

    /// Restores battery-backed RAM; a size mismatch is ignored.
    pub fn load_save_data(&mut self, data: &[u8])
        requires
            old(self).wf(),
        ensures
            final(self).wf(),
            data@.len() == old(self).memory@.cartridge.ram.len() ==> final(self).memory@.cartridge
                == (crate::cartridge::CartridgeView {
                ram: data@,
                ..old(self).memory@.cartridge
            }),
            data@.len() != old(self).memory@.cartridge.ram.len() ==> final(self).memory@ == old(
                self,
            ).memory@,
    {
        self.memory.load_cartridge_ram(data);
    }
}

/// Everything a save state records, read straight off the machine.
pub open spec fn spec_machine_obs(g: GameBoy) -> SaveStateView {
    SaveStateView {
        a: g.cpu.registers.a,
        f: g.cpu.registers.f,
        b: g.cpu.registers.b,
        c: g.cpu.registers.c,
        d: g.cpu.registers.d,
        e: g.cpu.registers.e,
        h: g.cpu.registers.h,
        l: g.cpu.registers.l,
        sp: g.cpu.registers.sp,
        pc: g.cpu.registers.pc,
        ime: g.cpu.ime,
        halt: g.cpu.halt,
        cpu_cycles: g.cpu.cycles,
        vram: g.memory@.vram,
        wram: g.memory@.wram,
        oam: g.memory@.oam,
        io: g.memory@.io,
        hram: g.memory@.hram,
        interrupt_enable: g.memory@.interrupt_enable,
        interrupt_flag: g.memory@.interrupt_flag,
        boot_rom_enabled: g.memory@.boot_rom_enabled,
        cartridge_ram: Some(g.memory@.cartridge.ram),
        rom_bank: g.memory@.cartridge.rom_bank,
        ram_bank: g.memory@.cartridge.ram_bank,
        ram_enabled: g.memory@.cartridge.ram_enabled,
        cycles: g.cycles,
    }
}

impl GameBoy {
    /// Serializes the whole observable machine state as a textual blob.
    pub fn get_save_state(&self) -> (r: Vec<u8>)
        requires
            self.wf(),
        ensures
            r@ == spec_machine_obs(*self).spec_encoding(),
    {
        let mut vram: Vec<u8> = Vec::new();
        vram.extend_from_slice(self.memory.get_vram());
        let mut wram: Vec<u8> = Vec::new();
        wram.extend_from_slice(self.memory.get_wram());
        let mut oam: Vec<u8> = Vec::new();
        oam.extend_from_slice(self.memory.get_oam());
        let mut io: Vec<u8> = Vec::new();
        io.extend_from_slice(self.memory.get_io());
        let mut hram: Vec<u8> = Vec::new();
        hram.extend_from_slice(self.memory.get_hram());
        proof {
            assert(vram@ =~= self.memory@.vram);
            assert(wram@ =~= self.memory@.wram);
            assert(oam@ =~= self.memory@.oam);
            assert(io@ =~= self.memory@.io);
            assert(hram@ =~= self.memory@.hram);
        }

        let save_state = SaveState {
            cpu: CpuSaveState {
                a: self.cpu.registers.a,
                f: self.cpu.registers.f,
                b: self.cpu.registers.b,
                c: self.cpu.registers.c,
                d: self.cpu.registers.d,
                e: self.cpu.registers.e,
                h: self.cpu.registers.h,
                l: self.cpu.registers.l,
                sp: self.cpu.registers.sp,
                pc: self.cpu.registers.pc,
                ime: self.cpu.ime,
                halt: self.cpu.halt,
                cycles: self.cpu.cycles,
            },
            memory: MemorySaveState {
                vram,
                wram,
                oam,
                io,
                hram,
                interrupt_enable: self.memory.read_byte(0xFFFF),
                interrupt_flag: self.memory.read_byte(0xFF0F),
                boot_rom_enabled: self.memory.is_boot_rom_enabled(),
                cartridge_ram: self.memory.get_cartridge_ram_vec(),
                mbc_state: self.memory.get_mbc_state(),
            },
            cycles: self.cycles,
        };
        proof {
            assert(save_state@ == spec_machine_obs(*self));
        }
        save_state.encode()
    }

    /// Restores the machine from a save-state blob.  A malformed blob is
    /// rejected and the machine is left untouched; a well-formed blob
    /// restores exactly the observable state it recorded (the cartridge
    /// RAM only when its size matches the inserted cartridge).
    pub fn load_save_state(&mut self, data: &[u8]) -> (r: Result<(), SaveStateError>)
        requires
            old(self).wf(),
        ensures
            final(self).wf(),
            r is Err ==> *final(self) == *old(self),
            (exists|v: SaveStateView| v.wf() && data@ == #[trigger] v.spec_encoding()) ==> r is Ok,
            // A blob that is no snapshot's encoding is refused.
            r is Ok ==> exists|v: SaveStateView|
                v.wf() && data@ == #[trigger] v.spec_encoding(),
            r is Ok ==> forall|v: SaveStateView|
                v.wf() && data@ == #[trigger] v.spec_encoding() ==> ({
                    &&& final(self).cpu.registers.a == v.a
                    &&& final(self).cpu.registers.f == v.f
                    &&& final(self).cpu.registers.b == v.b
                    &&& final(self).cpu.registers.c == v.c
                    &&& final(self).cpu.registers.d == v.d
                    &&& final(self).cpu.registers.e == v.e
                    &&& final(self).cpu.registers.h == v.h
                    &&& final(self).cpu.registers.l == v.l
                    &&& final(self).cpu.registers.sp == v.sp
                    &&& final(self).cpu.registers.pc == v.pc
                    &&& final(self).cpu.ime == v.ime
                    &&& final(self).cpu.halt == v.halt
                    &&& final(self).cpu.cycles == v.cpu_cycles
                    &&& final(self).memory@.vram == v.vram
                    &&& final(self).memory@.wram == v.wram
                    &&& final(self).memory@.oam == v.oam
                    &&& final(self).memory@.io == v.io
                    &&& final(self).memory@.hram == v.hram
                    &&& final(self).memory@.interrupt_enable == v.interrupt_enable
                    &&& final(self).memory@.interrupt_flag == v.interrupt_flag
                    &&& final(self).memory@.boot_rom_enabled == v.boot_rom_enabled
                    &&& final(self).memory@.cartridge.rom_bank == v.rom_bank
                    &&& final(self).memory@.cartridge.ram_bank == v.ram_bank
                    &&& final(self).memory@.cartridge.ram_enabled == v.ram_enabled
                    &&& (v.cartridge_ram matches Some(ram) ==> (ram.len() == old(
                        self,
                    ).memory@.cartridge.ram.len() ==> final(self).memory@.cartridge.ram == ram))
                    &&& final(self).cycles == v.cycles
                }),
            final(self).memory@.cartridge.rom == old(self).memory@.cartridge.rom,
            final(self).memory@.cartridge.mbc_type == old(self).memory@.cartridge.mbc_type,
            final(self).ppu == old(self).ppu,
            final(self).timer == old(self).timer,
            final(self).joypad == old(self).joypad,
            final(self).apu == old(self).apu,
    {
        let save_state = match SaveState::decode(data) {
            Ok(st) => st,
            Err(e) => {
                return Err(e);
            },
        };

        self.cpu.registers.a = save_state.cpu.a;
        self.cpu.registers.f = save_state.cpu.f;
        self.cpu.registers.b = save_state.cpu.b;
        self.cpu.registers.c = save_state.cpu.c;
        self.cpu.registers.d = save_state.cpu.d;
        self.cpu.registers.e = save_state.cpu.e;
        self.cpu.registers.h = save_state.cpu.h;
        self.cpu.registers.l = save_state.cpu.l;
        self.cpu.registers.sp = save_state.cpu.sp;
        self.cpu.registers.pc = save_state.cpu.pc;
        self.cpu.ime = save_state.cpu.ime;
        self.cpu.ime_pending = false;
        self.cpu.halt = save_state.cpu.halt;
        self.cpu.cycles = save_state.cpu.cycles;

        self.memory.set_vram(save_state.memory.vram.as_slice());
        self.memory.set_wram(save_state.memory.wram.as_slice());
        self.memory.set_oam(save_state.memory.oam.as_slice());
        self.memory.set_io(save_state.memory.io.as_slice());
        self.memory.set_hram(save_state.memory.hram.as_slice());
        self.memory.write_byte(0xFFFF, save_state.memory.interrupt_enable);
        self.memory.write_byte(0xFF0F, save_state.memory.interrupt_flag);
        self.memory.set_boot_rom_enabled(save_state.memory.boot_rom_enabled);
        match &save_state.memory.cartridge_ram {
            Some(ram) => {
                self.memory.load_cartridge_ram(ram.as_slice());
            },
            None => {},
        }
        self.memory.set_mbc_state(&save_state.memory.mbc_state);

        self.cycles = save_state.cycles;

        Ok(())
    }
}

/// With the same cartridge ROM inserted, two consoles whose observable
/// snapshots agree cannot be told apart through the debug interface:
/// every memory read and every CPU-state field agrees.  Together with
/// the save/load contracts, saving, resetting the console, reloading
/// the ROM and loading the blob restores an indistinguishable console.
pub proof fn lemma_save_load_indistinguishable(g1: GameBoy, g2: GameBoy)
    requires
        g1.wf(),
        g2.wf(),
        g2.memory@.cartridge.rom == g1.memory@.cartridge.rom,
        g2.memory@.cartridge.mbc_type == g1.memory@.cartridge.mbc_type,
        spec_machine_obs(g2) == spec_machine_obs(g1),
    ensures
        g2.memory@ == g1.memory@,
        forall|address: u16| g2.memory@.spec_read_byte(address) == g1.memory@.spec_read_byte(
            address,
        ),
        g2.cpu.registers == g1.cpu.registers,
        g2.cpu.ime == g1.cpu.ime,
        g2.cpu.halt == g1.cpu.halt,
        g2.cycles == g1.cycles,
{
    assert(g2.memory@.cartridge == g1.memory@.cartridge);
    assert(g2.memory@ == g1.memory@);
    assert(g2.cpu.registers == g1.cpu.registers);
}

/// Restoring the battery RAM restores 0xA000..0xBFFF across all banks:
/// once the RAM bytes and the banking latches agree, every read of the
/// external-RAM window agrees.
pub proof fn lemma_battery_ram_restores_reads(g1: GameBoy, g2: GameBoy)
    requires
        g2.memory@.cartridge.ram == g1.memory@.cartridge.ram,
        g2.memory@.cartridge.ram_bank == g1.memory@.cartridge.ram_bank,
        g2.memory@.cartridge.ram_enabled == g1.memory@.cartridge.ram_enabled,
    ensures
        forall|address: u16|
            0xA000 <= address < 0xC000 ==> g2.memory@.spec_read_byte(address)
                == g1.memory@.spec_read_byte(address),
{
}

} // verus!
