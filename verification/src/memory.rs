//! The bus / memory controller.  Every 16-bit address is routed to a
//! region: cartridge ROM (with the boot overlay on 0x0000..0x0100),
//! video RAM, cartridge RAM, work RAM and its echo, object attribute
//! memory, the prohibited gap, memory-mapped I/O, high RAM and the
//! interrupt-enable register.

use vstd::prelude::*;
use crate::boot_rom::{boot_rom_byte, spec_boot_rom_byte};
use crate::cartridge::{Cartridge, CartridgeView};
use crate::save_state::MbcSaveState;

verus! {

pub const VRAM_SIZE: usize = 0x2000;

pub const WRAM_SIZE: usize = 0x2000;

pub const OAM_SIZE: usize = 0xA0;

pub const IO_SIZE: usize = 0x80;

pub const HRAM_SIZE: usize = 0x7F;

pub struct Memory {
    pub vram: Vec<u8>,
    pub wram: Vec<u8>,
    pub oam: Vec<u8>,
    pub io: Vec<u8>,
    pub hram: Vec<u8>,
    pub interrupt_enable: u8,
    pub interrupt_flag: u8,
    pub cartridge: Cartridge,
    pub boot_rom_enabled: bool,
}

/// Mathematical model of the bus state.
pub struct MemoryView {
    pub vram: Seq<u8>,
    pub wram: Seq<u8>,
    pub oam: Seq<u8>,
    pub io: Seq<u8>,
    pub hram: Seq<u8>,
    pub interrupt_enable: u8,
    pub interrupt_flag: u8,
    pub cartridge: CartridgeView,
    pub boot_rom_enabled: bool,
}

impl View for Memory {
    type V = MemoryView;

    open spec fn view(&self) -> MemoryView {
        MemoryView {
            vram: self.vram@,
            wram: self.wram@,
            oam: self.oam@,
            io: self.io@,
            hram: self.hram@,
            interrupt_enable: self.interrupt_enable,
            interrupt_flag: self.interrupt_flag,
            cartridge: self.cartridge@,
            boot_rom_enabled: self.boot_rom_enabled,
        }
    }
}

impl MemoryView {
    pub open spec fn wf(self) -> bool {
        &&& self.vram.len() == VRAM_SIZE
        &&& self.wram.len() == WRAM_SIZE
        &&& self.oam.len() == OAM_SIZE
        &&& self.io.len() == IO_SIZE
        &&& self.hram.len() == HRAM_SIZE
        &&& self.cartridge.wf()
    }

    /// Routing of a read, strictly by address range.  The prohibited
    /// region 0xFEA0..0xFF00 never delivers data; the echo region
    /// 0xE000..0xFE00 aliases work RAM.
    pub open spec fn spec_read_byte(self, address: u16) -> u8 {
        if address < 0x100 && self.boot_rom_enabled {
            spec_boot_rom_byte(address)
        } else if address < 0x8000 {
            self.cartridge.spec_read_byte(address)
        } else if address < 0xA000 {
            self.vram[address - 0x8000]
        } else if address < 0xC000 {
            self.cartridge.spec_read_ram((address - 0xA000) as u16)
        } else if address < 0xE000 {
            self.wram[address - 0xC000]
        } else if address < 0xFE00 {
            self.wram[address - 0xE000]
        } else if address < 0xFEA0 {
            self.oam[address - 0xFE00]
        } else if address < 0xFF00 {
            0xFF
        } else if address == 0xFF0F {
            self.interrupt_flag
        } else if address < 0xFF80 {
            self.io[address - 0xFF00]
        } else if address < 0xFFFF {
            self.hram[address - 0xFF80]
        } else {
            self.interrupt_enable
        }
    }

    /// Effect of a write to the I/O page.  0xFF0F is the interrupt
    /// latch; a write to 0xFF46 also copies 160 bytes from page
    /// `value` into OAM; any write to 0xFF50 retires the boot overlay.
    pub open spec fn spec_write_io(self, address: u16, value: u8) -> MemoryView {
        if address == 0xFF0F {
            MemoryView { interrupt_flag: value, ..self }
        } else if address == 0xFF46 {
            MemoryView {
                io: self.io.update(0x46, value),
                oam: Seq::new(
                    OAM_SIZE as nat,
                    |i: int| self.spec_read_byte(((value as int) * 0x100 + i) as u16),
                ),
                ..self
            }
        } else if address == 0xFF50 {
            MemoryView { boot_rom_enabled: false, ..self }
        } else {
            MemoryView { io: self.io.update(address - 0xFF00, value), ..self }
        }
    }

    /// Routing of a write.  Writes into 0x0000..0x8000 are MBC control
    /// commands and never change ROM bytes; writes into the prohibited
    /// region are ignored.
    pub open spec fn spec_write_byte(self, address: u16, value: u8) -> MemoryView {
        if address < 0x8000 {
            MemoryView { cartridge: self.cartridge.spec_write_byte(address, value), ..self }
        } else if address < 0xA000 {
            MemoryView { vram: self.vram.update(address - 0x8000, value), ..self }
        } else if address < 0xC000 {
            MemoryView {
                cartridge: self.cartridge.spec_write_ram((address - 0xA000) as u16, value),
                ..self
            }
        } else if address < 0xE000 {
            MemoryView { wram: self.wram.update(address - 0xC000, value), ..self }
        } else if address < 0xFE00 {
            MemoryView { wram: self.wram.update(address - 0xE000, value), ..self }
        } else if address < 0xFEA0 {
            MemoryView { oam: self.oam.update(address - 0xFE00, value), ..self }
        } else if address < 0xFF00 {
            self
        } else if address < 0xFF80 {
            self.spec_write_io(address, value)
        } else if address < 0xFFFF {
            MemoryView { hram: self.hram.update(address - 0xFF80, value), ..self }
        } else {
            MemoryView { interrupt_enable: value, ..self }
        }
    }

    /// The interrupts that are both requested and enabled.
    pub open spec fn spec_triggered_interrupts(self) -> u8 {
        self.interrupt_enable & self.interrupt_flag & 0x1F
    }
}

impl Memory {
    pub open spec fn wf(self) -> bool {
        self@.wf()
    }

    /// A bus with every RAM region zeroed, no cartridge bytes, the
    /// interrupt latches clear, and the boot overlay enabled.
    pub fn new() -> (m: Memory)
        ensures
            m@.vram == Seq::new(VRAM_SIZE as nat, |i: int| 0u8),
            m@.wram == Seq::new(WRAM_SIZE as nat, |i: int| 0u8),
            m@.oam == Seq::new(OAM_SIZE as nat, |i: int| 0u8),
            m@.io == Seq::new(IO_SIZE as nat, |i: int| 0u8),
            m@.hram == Seq::new(HRAM_SIZE as nat, |i: int| 0u8),
            m@.interrupt_enable == 0,
            m@.interrupt_flag == 0,
            m@.cartridge.rom.len() == 0,
            m@.cartridge.ram.len() == 0,
            m@.cartridge.rom_bank == 1,
            m@.cartridge.ram_bank == 0,
            !m@.cartridge.ram_enabled,
            m@.boot_rom_enabled,
            m.wf(),
    {
        let empty: Vec<u8> = Vec::new();
        let vram = vec![0u8; VRAM_SIZE];
        let wram = vec![0u8; WRAM_SIZE];
        let oam = vec![0u8; OAM_SIZE];
        let io = vec![0u8; IO_SIZE];
        let hram = vec![0u8; HRAM_SIZE];
        proof {
            assert(vram@ =~= Seq::new(VRAM_SIZE as nat, |i: int| 0u8));
            assert(wram@ =~= Seq::new(WRAM_SIZE as nat, |i: int| 0u8));
            assert(oam@ =~= Seq::new(OAM_SIZE as nat, |i: int| 0u8));
            assert(io@ =~= Seq::new(IO_SIZE as nat, |i: int| 0u8));
            assert(hram@ =~= Seq::new(HRAM_SIZE as nat, |i: int| 0u8));
        }
        Memory {
            vram,
            wram,
            oam,
            io,
            hram,
            interrupt_enable: 0,
            interrupt_flag: 0,
            cartridge: Cartridge::new(empty.as_slice()),
            boot_rom_enabled: true,
        }
    }

    /// Inserting a ROM replaces the cartridge; everything else stays.
    pub fn load_rom(&mut self, rom_data: &[u8])
        requires
            old(self).wf(),
        ensures
            final(self)@ == (MemoryView {
                cartridge: final(self)@.cartridge,
                ..old(self)@
            }),
            final(self)@.cartridge.rom == rom_data@,
            final(self)@.cartridge.ram == Seq::new(
                crate::cartridge::spec_ram_size(rom_data@) as nat,
                |i: int| 0u8,
            ),
            final(self)@.cartridge.rom_bank == 1,
            final(self)@.cartridge.ram_bank == 0,
            !final(self)@.cartridge.ram_enabled,
            final(self)@.cartridge.mbc_type == crate::cartridge::spec_mbc_type(rom_data@),
            final(self).wf(),
    {
        self.cartridge = Cartridge::new(rom_data);
    }

    pub fn read_byte(&self, address: u16) -> (r: u8)
        requires
            self.wf(),
        ensures
            r == self@.spec_read_byte(address),
    {
        if address < 0x100 && self.boot_rom_enabled {
            boot_rom_byte(address)
        } else if address < 0x8000 {
            self.cartridge.read_byte(address)
        } else if address < 0xA000 {
            self.vram[(address - 0x8000) as usize]
        } else if address < 0xC000 {
            self.cartridge.read_ram(address - 0xA000)
        } else if address < 0xE000 {
            self.wram[(address - 0xC000) as usize]
        } else if address < 0xFE00 {
            self.wram[(address - 0xE000) as usize]
        } else if address < 0xFEA0 {
            self.oam[(address - 0xFE00) as usize]
        } else if address < 0xFF00 {
            0xFF
        } else if address < 0xFF80 {
            self.read_io(address)
        } else if address < 0xFFFF {
            self.hram[(address - 0xFF80) as usize]
        } else {
            self.interrupt_enable
        }
    }

    pub fn write_byte(&mut self, address: u16, value: u8)
        requires
            old(self).wf(),
        ensures
            final(self)@ == old(self)@.spec_write_byte(address, value),
            final(self).wf(),
    {
        if address < 0x8000 {
            self.cartridge.write_byte(address, value);
        } else if address < 0xA000 {
            self.vram.set((address - 0x8000) as usize, value);
        } else if address < 0xC000 {
            self.cartridge.write_ram(address - 0xA000, value);
        } else if address < 0xE000 {
            self.wram.set((address - 0xC000) as usize, value);
        } else if address < 0xFE00 {
            self.wram.set((address - 0xE000) as usize, value);
        } else if address < 0xFEA0 {
            self.oam.set((address - 0xFE00) as usize, value);
        } else if address < 0xFF00 {
        } else if address < 0xFF80 {
            self.write_io(address, value);
        } else if address < 0xFFFF {
            self.hram.set((address - 0xFF80) as usize, value);
        } else {
            self.interrupt_enable = value;
        }
    }

    fn read_io(&self, address: u16) -> (r: u8)
        requires
            self.wf(),
            0xFF00 <= address < 0xFF80,
        ensures
            r == self@.spec_read_byte(address),
    {
        if address == 0xFF0F {
            self.interrupt_flag
        } else {
            self.io[(address - 0xFF00) as usize]
        }
    }

    fn write_io(&mut self, address: u16, value: u8)
        requires
            old(self).wf(),
            0xFF00 <= address < 0xFF80,
        ensures
            final(self)@ == old(self)@.spec_write_io(address, value),
            final(self).wf(),
    {
        if address == 0xFF0F {
            self.interrupt_flag = value;
        } else if address == 0xFF46 {
            self.run_oam_dma(value);
        } else if address == 0xFF50 {
            self.boot_rom_enabled = false;
        } else {
            self.io.set((address - 0xFF00) as usize, value);
        }
    }

    /// A write of V to the DMA register copies the 160 bytes at
    /// 0xV00..0xV9F into OAM, instantaneously.
    fn run_oam_dma(&mut self, value: u8)
        requires
            old(self).wf(),
        ensures
            final(self)@ == old(self)@.spec_write_io(0xFF46, value),
            final(self).wf(),
    {
        let source_base = (value as u16) << 8;
        proof {
            assert((value as u16) << 8 == value as u16 * 0x100) by (bit_vector);
        }
        let mut copied: Vec<u8> = Vec::new();
        let mut i: u16 = 0;
        while i < OAM_SIZE as u16
            invariant
                self == old(self),
                self.wf(),
                i <= OAM_SIZE,
                source_base == value as int * 0x100,
                copied@.len() == i,
                forall|k: int| 0 <= k < i ==> copied@[k] == self@.spec_read_byte(
                    ((value as int) * 0x100 + k) as u16,
                ),
            decreases OAM_SIZE - i,
        {
            copied.push(self.read_byte(source_base + i));
            i += 1;
        }
        self.io.set(0x46, value);
        let mut j: usize = 0;
        while j < OAM_SIZE
            invariant
                old(self).wf(),
                self.vram == old(self).vram,
                self.wram == old(self).wram,
                self.io@ == old(self).io@.update(0x46, value),
                self.hram == old(self).hram,
                self.interrupt_enable == old(self).interrupt_enable,
                self.interrupt_flag == old(self).interrupt_flag,
                self.cartridge == old(self).cartridge,
                self.boot_rom_enabled == old(self).boot_rom_enabled,
                self.oam@.len() == OAM_SIZE,
                j <= OAM_SIZE,
                copied@.len() == OAM_SIZE,
                forall|k: int| 0 <= k < OAM_SIZE ==> copied@[k] == old(self)@.spec_read_byte(
                    ((value as int) * 0x100 + k) as u16,
                ),
                forall|k: int| 0 <= k < j ==> self.oam@[k] == copied@[k],
                forall|k: int| j <= k < OAM_SIZE ==> self.oam@[k] == old(self).oam@[k],
            decreases OAM_SIZE - j,
        {
            self.oam.set(j, copied[j]);
            j += 1;
        }
        proof {
            assert forall|i: int| 0 <= i < OAM_SIZE implies self.oam@[i] == old(self)@
                .spec_read_byte(((value as int) * 0x100 + i) as u16) by {
                assert(self.oam@[i] == copied@[i]);
            }
            assert(self@.oam =~= Seq::new(
                OAM_SIZE as nat,
                |i: int| old(self)@.spec_read_byte(((value as int) * 0x100 + i) as u16),
            ));
            assert(self@ == old(self)@.spec_write_io(0xFF46, value));
        }
    }

    /// The 5-bit set of interrupts that are both requested in IF and
    /// enabled in IE; bits 5..7 are always zero.
    pub fn get_triggered_interrupts(&self) -> (r: u8)
        ensures
            r == self@.spec_triggered_interrupts(),
            r & 0xE0 == 0,
    {
        let r = self.interrupt_enable & self.interrupt_flag & 0x1F;
        proof {
            let ie = self.interrupt_enable;
            let fl = self.interrupt_flag;
            assert((ie & fl & 0x1F) & 0xE0 == 0) by (bit_vector);
        }
        r
    }

    /// The CPU acknowledges one interrupt by clearing its IF bit.
    pub fn clear_interrupt(&mut self, interrupt: u8)
        ensures
            final(self)@ == (MemoryView {
                interrupt_flag: old(self).interrupt_flag & !interrupt,
                ..old(self)@
            }),
            final(self).wf() == old(self).wf(),
    {
        self.interrupt_flag &= !interrupt;
    }

    /// Any subsystem may latch interrupt requests into IF.
    pub fn request_interrupt(&mut self, interrupt: u8)
        ensures
            final(self)@ == (MemoryView {
                interrupt_flag: old(self).interrupt_flag | interrupt,
                ..old(self)@
            }),
            final(self).wf() == old(self).wf(),
    {
        self.interrupt_flag |= interrupt;
    }

    pub fn update_joypad(&mut self, state: u8)
        requires
            old(self).wf(),
        ensures
            final(self)@ == (MemoryView { io: old(self).io@.update(0, state), ..old(self)@ }),
            final(self).wf(),
    {
        self.io.set(0, state);
    }

    pub fn get_vram(&self) -> (r: &[u8])
        ensures
            r@ == self@.vram,
    {
        self.vram.as_slice()
    }

    pub fn get_wram(&self) -> (r: &[u8])
        ensures
            r@ == self@.wram,
    {
        self.wram.as_slice()
    }

    pub fn get_oam(&self) -> (r: &[u8])
        ensures
            r@ == self@.oam,
    {
        self.oam.as_slice()
    }

    pub fn get_io(&self) -> (r: &[u8])
        ensures
            r@ == self@.io,
    {
        self.io.as_slice()
    }

    pub fn get_hram(&self) -> (r: &[u8])
        ensures
            r@ == self@.hram,
    {
        self.hram.as_slice()
    }

    pub fn is_boot_rom_enabled(&self) -> (r: bool)
        ensures
            r == self@.boot_rom_enabled,
    {
        self.boot_rom_enabled
    }

    /// The cartridge external RAM, exactly as held in memory.
    pub fn get_cartridge_ram(&self) -> (r: Vec<u8>)
        ensures
            r@ == self@.cartridge.ram,
    {
        self.cartridge.get_ram_data()
    }

    pub fn get_cartridge_ram_vec(&self) -> (r: Option<Vec<u8>>)
        ensures
            r matches Some(v) && v@ == self@.cartridge.ram,
    {
        Some(self.cartridge.get_ram_data())
    }

    pub fn get_mbc_state(&self) -> (r: MbcSaveState)
        ensures
            r.rom_bank == self@.cartridge.rom_bank,
            r.ram_bank == self@.cartridge.ram_bank,
            r.ram_enabled == self@.cartridge.ram_enabled,
    {
        self.cartridge.get_mbc_state()
    }

    pub fn set_vram(&mut self, data: &[u8])
        requires
            old(self).wf(),
            data@.len() == VRAM_SIZE,
        ensures
            final(self)@ == (MemoryView { vram: data@, ..old(self)@ }),
            final(self).wf(),
    {
        let mut v: Vec<u8> = Vec::new();
        v.extend_from_slice(data);
        proof {
            assert(v@ =~= data@);
        }
        self.vram = v;
    }

    pub fn set_wram(&mut self, data: &[u8])
        requires
            old(self).wf(),
            data@.len() == WRAM_SIZE,
        ensures
            final(self)@ == (MemoryView { wram: data@, ..old(self)@ }),
            final(self).wf(),
    {
        let mut v: Vec<u8> = Vec::new();
        v.extend_from_slice(data);
        proof {
            assert(v@ =~= data@);
        }
        self.wram = v;
    }

    pub fn set_oam(&mut self, data: &[u8])
        requires
            old(self).wf(),
            data@.len() == OAM_SIZE,
        ensures
            final(self)@ == (MemoryView { oam: data@, ..old(self)@ }),
            final(self).wf(),
    {
        let mut v: Vec<u8> = Vec::new();
        v.extend_from_slice(data);
        proof {
            assert(v@ =~= data@);
        }
        self.oam = v;
    }

    pub fn set_io(&mut self, data: &[u8])
        requires
            old(self).wf(),
            data@.len() == IO_SIZE,
        ensures
            final(self)@ == (MemoryView { io: data@, ..old(self)@ }),
            final(self).wf(),
    {
        let mut v: Vec<u8> = Vec::new();
        v.extend_from_slice(data);
        proof {
            assert(v@ =~= data@);
        }
        self.io = v;
    }

    pub fn set_hram(&mut self, data: &[u8])
        requires
            old(self).wf(),
            data@.len() == HRAM_SIZE,
        ensures
            final(self)@ == (MemoryView { hram: data@, ..old(self)@ }),
            final(self).wf(),
    {
        let mut v: Vec<u8> = Vec::new();
        v.extend_from_slice(data);
        proof {
            assert(v@ =~= data@);
        }
        self.hram = v;
    }

    pub fn set_boot_rom_enabled(&mut self, enabled: bool)
        ensures
            final(self)@ == (MemoryView { boot_rom_enabled: enabled, ..old(self)@ }),
            final(self).wf() == old(self).wf(),
    {
        self.boot_rom_enabled = enabled;
    }

    /// Replaces the cartridge RAM when the sizes match; a mismatch is
    /// ignored so a fresh cartridge is not corrupted.
    pub fn load_cartridge_ram(&mut self, data: &[u8])
        requires
            old(self).wf(),
        ensures
            data@.len() == old(self)@.cartridge.ram.len() ==> final(self)@ == (MemoryView {
                cartridge: CartridgeView { ram: data@, ..old(self)@.cartridge },
                ..old(self)@
            }),
            data@.len() != old(self)@.cartridge.ram.len() ==> final(self)@ == old(self)@,
            final(self).wf(),
    {
        self.cartridge.load_ram_data(data);
    }

    /// Restores the MBC latches.  With no cartridge inserted they land
    /// in the empty cartridge, observable only through save blobs.
    pub fn set_mbc_state(&mut self, state: &MbcSaveState)
        requires
            old(self).wf(),
            state.rom_bank < 0x200,
            state.ram_bank < 0x10,
        ensures
            final(self)@ == (MemoryView {
                cartridge: CartridgeView {
                    rom_bank: state.rom_bank,
                    ram_bank: state.ram_bank,
                    ram_enabled: state.ram_enabled,
                    ..old(self)@.cartridge
                },
                ..old(self)@
            }),
            final(self).wf(),
    {
        self.cartridge.set_mbc_state(state);
    }
}

/// Only five interrupt sources exist: whatever a program writes into
/// IF and IE, the dispatch-visible latch `IF & IE & 0x1F` has zero in
/// bits 5..7.
pub proof fn lemma_triggered_interrupts_are_five_bits(m: MemoryView)
    ensures
        m.spec_triggered_interrupts() & 0xE0 == 0,
        m.spec_triggered_interrupts() < 32,
{
    let ie = m.interrupt_enable;
    let fl = m.interrupt_flag;
    assert((ie & fl & 0x1F) & 0xE0 == 0 && ie & fl & 0x1F < 32) by (bit_vector);
}

} // verus!
