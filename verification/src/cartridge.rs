//! Cartridge: ROM bytes, optional external RAM and the memory bank
//! controller (MBC) latches.  Writes into the ROM address range never
//! change ROM bytes; they are decoded as MBC control commands that
//! select ROM/RAM banks or enable RAM.

use vstd::prelude::*;
use crate::save_state::MbcSaveState;

verus! {

#[derive(Debug, Clone, Copy)]
pub enum MbcType {
    NoMbc,
    Mbc1,
    Mbc3,
    Mbc5,
}

/// Mathematical model of a cartridge.
pub struct CartridgeView {
    pub rom: Seq<u8>,
    pub ram: Seq<u8>,
    pub rom_bank: usize,
    pub ram_bank: usize,
    pub ram_enabled: bool,
    pub mbc_type: MbcType,
}

pub struct Cartridge {
    pub rom: Vec<u8>,
    pub ram: Vec<u8>,
    pub rom_bank: usize,
    pub ram_bank: usize,
    pub ram_enabled: bool,
    pub mbc_type: MbcType,
}

impl View for Cartridge {
    type V = CartridgeView;

    open spec fn view(&self) -> CartridgeView {
        CartridgeView {
            rom: self.rom@,
            ram: self.ram@,
            rom_bank: self.rom_bank,
            ram_bank: self.ram_bank,
            ram_enabled: self.ram_enabled,
            mbc_type: self.mbc_type,
        }
    }
}

/// The MBC kind read from ROM header byte 0x0147; unknown codes fall
/// back to no banking so that bank 0 still reads correctly.
pub open spec fn spec_mbc_type(rom: Seq<u8>) -> MbcType {
    if rom.len() <= 0x147 {
        MbcType::NoMbc
    } else {
        let code = rom[0x147];
        if code == 0x00 {
            MbcType::NoMbc
        } else if 0x01 <= code && code <= 0x03 {
            MbcType::Mbc1
        } else if 0x0F <= code && code <= 0x13 {
            MbcType::Mbc3
        } else if 0x19 <= code && code <= 0x1E {
            MbcType::Mbc5
        } else {
            MbcType::NoMbc
        }
    }
}

/// The external RAM size selected by ROM header byte 0x0149.
pub open spec fn spec_ram_size(rom: Seq<u8>) -> usize {
    if rom.len() <= 0x149 {
        0
    } else {
        let code = rom[0x149];
        if code == 0x01 {
            0x800
        } else if code == 0x02 {
            0x2000
        } else if code == 0x03 {
            0x8000
        } else if code == 0x04 {
            0x20000
        } else if code == 0x05 {
            0x10000
        } else {
            0
        }
    }
}

impl CartridgeView {
    /// Bank indices stay inside the ranges the MBC commands can select,
    /// so bank arithmetic never overflows; external RAM never exceeds
    /// the largest size the header can select (128 KiB).
    pub open spec fn wf(self) -> bool {
        self.rom_bank < 0x200 && self.ram_bank < 0x10 && self.ram.len() <= 0x20000
    }

    /// A read of the ROM address range: 0x0000..0x4000 is bank 0,
    /// 0x4000..0x8000 the switchable bank; out-of-range bytes read 0xFF.
    pub open spec fn spec_read_byte(self, address: u16) -> u8 {
        if address < 0x4000 {
            if (address as int) < self.rom.len() {
                self.rom[address as int]
            } else {
                0xFF
            }
        } else if address < 0x8000 {
            let a = self.rom_bank * 0x4000 + (address - 0x4000);
            if a < self.rom.len() {
                self.rom[a]
            } else {
                0xFF
            }
        } else {
            0xFF
        }
    }

    /// A write into the ROM address range, decoded as an MBC command.
    pub open spec fn spec_write_byte(self, address: u16, value: u8) -> CartridgeView {
        match self.mbc_type {
            MbcType::NoMbc => self,
            MbcType::Mbc1 => {
                if address < 0x2000 {
                    CartridgeView { ram_enabled: value & 0x0F == 0x0A, ..self }
                } else if address < 0x4000 {
                    let bank = (value & 0x1F) as usize;
                    CartridgeView { rom_bank: if bank == 0 { 1 } else { bank }, ..self }
                } else if address < 0x6000 {
                    let bank = (value & 0x03) as usize;
                    CartridgeView { rom_bank: (self.rom_bank & 0x1F) | (bank << 5), ..self }
                } else {
                    self
                }
            },
            MbcType::Mbc3 => {
                if address < 0x2000 {
                    CartridgeView { ram_enabled: value & 0x0F == 0x0A, ..self }
                } else if address < 0x4000 {
                    let bank = (value & 0x7F) as usize;
                    CartridgeView { rom_bank: if bank == 0 { 1 } else { bank }, ..self }
                } else if address < 0x6000 {
                    CartridgeView { ram_bank: (value & 0x03) as usize, ..self }
                } else {
                    self
                }
            },
            MbcType::Mbc5 => {
                if address < 0x2000 {
                    CartridgeView { ram_enabled: value & 0x0F == 0x0A, ..self }
                } else if address < 0x3000 {
                    CartridgeView { rom_bank: (self.rom_bank & 0x100) | (value as usize), ..self }
                } else if address < 0x4000 {
                    CartridgeView {
                        rom_bank: (self.rom_bank & 0xFF) | (((value & 0x01) as usize) << 8),
                        ..self
                    }
                } else if address < 0x6000 {
                    CartridgeView { ram_bank: (value & 0x0F) as usize, ..self }
                } else {
                    self
                }
            },
        }
    }

    /// A read of external RAM at an offset into the 0xA000..0xC000
    /// window, through the selected RAM bank.
    pub open spec fn spec_read_ram(self, address: u16) -> u8 {
        if !self.ram_enabled || self.ram.len() == 0 {
            0xFF
        } else {
            let a = self.ram_bank * 0x2000 + address;
            if a < self.ram.len() {
                self.ram[a]
            } else {
                0xFF
            }
        }
    }

    /// A write of external RAM; ignored while RAM is disabled, absent,
    /// or the banked offset falls outside it.
    pub open spec fn spec_write_ram(self, address: u16, value: u8) -> CartridgeView {
        if !self.ram_enabled || self.ram.len() == 0 {
            self
        } else {
            let a = self.ram_bank * 0x2000 + address;
            if a < self.ram.len() {
                CartridgeView { ram: self.ram.update(a, value), ..self }
            } else {
                self
            }
        }
    }
}

/// A masked byte never exceeds its mask.
pub proof fn lemma_u8_and_bound(v: u8, m: u8)
    ensures
        v & m <= m,
{
    assert(v & m <= m) by (bit_vector);
}

impl Cartridge {
    pub open spec fn wf(self) -> bool {
        self@.wf()
    }

    /// Builds a cartridge from raw ROM bytes, reading the MBC kind from
    /// header byte 0x0147 and the RAM size from 0x0149.
    pub fn new(rom_data: &[u8]) -> (c: Cartridge)
        ensures
            c@.rom == rom_data@,
            c@.ram == Seq::new(spec_ram_size(rom_data@) as nat, |i: int| 0u8),
            c@.rom_bank == 1,
            c@.ram_bank == 0,
            !c@.ram_enabled,
            c@.mbc_type == spec_mbc_type(rom_data@),
            c.wf(),
    {
        let n = rom_data.len();
        let mbc_type = if n > 0x147 {
            let code = rom_data[0x147];
            if code == 0x00 {
                MbcType::NoMbc
            } else if 0x01 <= code && code <= 0x03 {
                MbcType::Mbc1
            } else if 0x0F <= code && code <= 0x13 {
                MbcType::Mbc3
            } else if 0x19 <= code && code <= 0x1E {
                MbcType::Mbc5
            } else {
                MbcType::NoMbc
            }
        } else {
            MbcType::NoMbc
        };

        let ram_size: usize = if n > 0x149 {
            let code = rom_data[0x149];
            if code == 0x01 {
                0x800
            } else if code == 0x02 {
                0x2000
            } else if code == 0x03 {
                0x8000
            } else if code == 0x04 {
                0x20000
            } else if code == 0x05 {
                0x10000
            } else {
                0
            }
        } else {
            0
        };

        let mut rom: Vec<u8> = Vec::new();
        rom.extend_from_slice(rom_data);
        proof {
            assert(rom@ =~= rom_data@);
        }
        let ram: Vec<u8> = vec![0u8; ram_size];
        proof {
            assert(ram@ =~= Seq::new(spec_ram_size(rom_data@) as nat, |i: int| 0u8));
        }

        Cartridge {
            rom,
            ram,
            rom_bank: 1,
            ram_bank: 0,
            ram_enabled: false,
            mbc_type,
        }
    }

    pub fn read_byte(&self, address: u16) -> (r: u8)
        requires
            self.wf(),
        ensures
            r == self@.spec_read_byte(address),
    {
        if address < 0x4000 {
            if (address as usize) < self.rom.len() {
                self.rom[address as usize]
            } else {
                0xFF
            }
        } else if address < 0x8000 {
            let bank_offset = self.rom_bank * 0x4000;
            let addr = bank_offset + (address as usize - 0x4000);
            if addr < self.rom.len() {
                self.rom[addr]
            } else {
                0xFF
            }
        } else {
            0xFF
        }
    }

    /// Decodes a write in 0x0000..0x8000 as an MBC control command.
    /// An MBC1 or MBC3 bank-select of 0 selects bank 1, never 0.
    pub fn write_byte(&mut self, address: u16, value: u8)
        requires
            old(self).wf(),
        ensures
            final(self)@ == old(self)@.spec_write_byte(address, value),
            final(self).wf(),
    {
        match self.mbc_type {
            MbcType::NoMbc => {},
            MbcType::Mbc1 => self.handle_mbc1_write(address, value),
            MbcType::Mbc3 => self.handle_mbc3_write(address, value),
            MbcType::Mbc5 => self.handle_mbc5_write(address, value),
        }
    }

    pub fn read_ram(&self, address: u16) -> (r: u8)
        requires
            self.wf(),
        ensures
            r == self@.spec_read_ram(address),
    {
        if !self.ram_enabled || self.ram.len() == 0 {
            return 0xFF;
        }

        let addr = self.ram_bank * 0x2000 + address as usize;
        if addr < self.ram.len() {
            self.ram[addr]
        } else {
            0xFF
        }
    }

    pub fn write_ram(&mut self, address: u16, value: u8)
        requires
            old(self).wf(),
        ensures
            final(self)@ == old(self)@.spec_write_ram(address, value),
            final(self).wf(),
    {
        if !self.ram_enabled || self.ram.len() == 0 {
            return;
        }

        let addr = self.ram_bank * 0x2000 + address as usize;
        if addr < self.ram.len() {
            self.ram.set(addr, value);
        }
    }

    fn handle_mbc1_write(&mut self, address: u16, value: u8)
        requires
            old(self).wf(),
            old(self).mbc_type is Mbc1,
        ensures
            final(self)@ == old(self)@.spec_write_byte(address, value),
            final(self).wf(),
    {
        if address < 0x2000 {
            self.ram_enabled = (value & 0x0F) == 0x0A;
        } else if address < 0x4000 {
            proof {
                lemma_u8_and_bound(value, 0x1F);
            }
            let bank = (value & 0x1F) as usize;
            self.rom_bank = if bank == 0 { 1 } else { bank };
        } else if address < 0x6000 {
            let bank = (value & 0x03) as usize;
            self.rom_bank = (self.rom_bank & 0x1F) | (bank << 5);
            proof {
                let r = old(self).rom_bank;
                let v = value;
                lemma_u8_and_bound(v, 0x03);
                assert((r & 0x1F) | (((v & 0x03) as usize) << 5) < 0x200) by (bit_vector);
            }
        }
    }

    fn handle_mbc3_write(&mut self, address: u16, value: u8)
        requires
            old(self).wf(),
            old(self).mbc_type is Mbc3,
        ensures
            final(self)@ == old(self)@.spec_write_byte(address, value),
            final(self).wf(),
    {
        if address < 0x2000 {
            self.ram_enabled = (value & 0x0F) == 0x0A;
        } else if address < 0x4000 {
            proof {
                lemma_u8_and_bound(value, 0x7F);
            }
            let bank = (value & 0x7F) as usize;
            self.rom_bank = if bank == 0 { 1 } else { bank };
        } else if address < 0x6000 {
            proof {
                lemma_u8_and_bound(value, 0x03);
            }
            self.ram_bank = (value & 0x03) as usize;
        }
    }

    fn handle_mbc5_write(&mut self, address: u16, value: u8)
        requires
            old(self).wf(),
            old(self).mbc_type is Mbc5,
        ensures
            final(self)@ == old(self)@.spec_write_byte(address, value),
            final(self).wf(),
    {
        if address < 0x2000 {
            self.ram_enabled = (value & 0x0F) == 0x0A;
        } else if address < 0x3000 {
            self.rom_bank = (self.rom_bank & 0x100) | (value as usize);
            proof {
                let r = old(self).rom_bank;
                let v = value;
                assert((r & 0x100) | (v as usize) < 0x200) by (bit_vector);
            }
        } else if address < 0x4000 {
            self.rom_bank = (self.rom_bank & 0xFF) | (((value & 0x01) as usize) << 8);
            proof {
                let r = old(self).rom_bank;
                let v = value;
                assert((r & 0xFF) | (((v & 0x01) as usize) << 8) < 0x200) by (bit_vector);
            }
        } else if address < 0x6000 {
            proof {
                lemma_u8_and_bound(value, 0x0F);
            }
            self.ram_bank = (value & 0x0F) as usize;
        }
    }

    /// A copy of the external RAM, exactly as held in memory.
    pub fn get_ram_data(&self) -> (r: Vec<u8>)
        ensures
            r@ == self@.ram,
    {
        let r = self.ram.clone();
        proof {
            assert(r@ =~= self.ram@);
        }
        r
    }

    /// Replaces the external RAM when the given bytes match its size;
    /// a size mismatch leaves the cartridge untouched.
    pub fn load_ram_data(&mut self, data: &[u8])
        ensures
            data@.len() == old(self)@.ram.len() ==> final(self)@ == (CartridgeView {
                ram: data@,
                ..old(self)@
            }),
            data@.len() != old(self)@.ram.len() ==> final(self)@ == old(self)@,
            final(self).wf() == old(self).wf(),
    {
        if data.len() == self.ram.len() {
            let mut ram: Vec<u8> = Vec::new();
            ram.extend_from_slice(data);
            proof {
                assert(ram@ =~= data@);
            }
            self.ram = ram;
        }
    }

    pub fn get_mbc_state(&self) -> (r: MbcSaveState)
        ensures
            r.rom_bank == self@.rom_bank,
            r.ram_bank == self@.ram_bank,
            r.ram_enabled == self@.ram_enabled,
    {
        MbcSaveState {
            rom_bank: self.rom_bank,
            ram_bank: self.ram_bank,
            ram_enabled: self.ram_enabled,
        }
    }

    pub fn set_mbc_state(&mut self, state: &MbcSaveState)
        requires
            old(self).wf(),
            state.rom_bank < 0x200,
            state.ram_bank < 0x10,
        ensures
            final(self)@ == (CartridgeView {
                rom_bank: state.rom_bank,
                ram_bank: state.ram_bank,
                ram_enabled: state.ram_enabled,
                ..old(self)@
            }),
            final(self).wf(),
    {
        self.rom_bank = state.rom_bank;
        self.ram_bank = state.ram_bank;
        self.ram_enabled = state.ram_enabled;
    }
}

/// An MBC1 ROM-bank select never picks bank zero: writing any value
/// with a zero low five bits into 0x2000..0x4000 selects bank one.
pub proof fn lemma_mbc1_bank_zero_remaps_to_one(c: CartridgeView, address: u16, value: u8)
    requires
        c.mbc_type is Mbc1,
        0x2000 <= address < 0x4000,
    ensures
        c.spec_write_byte(address, value).rom_bank == (if value & 0x1F == 0 {
            1int
        } else {
            (value & 0x1F) as int
        }),
        c.spec_write_byte(address, value).rom_bank != 0,
{
}

} // verus!
