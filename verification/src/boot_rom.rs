//! The embedded 256-byte boot program overlaid on 0x0000..0x0100 at
//! power-on.  It sets up the stack pointer, then retires the overlay by
//! writing 0x01 to 0xFF50 with its last instruction, so that execution
//! continues at the cartridge entry point 0x0100.
//!
//! Layout: 0x00 `LD SP,$FFFE`; 0x03 `LD A,$01`; 0x05 `JP $00FE`;
//! 0xFE `LDH ($50),A`; every other byte is 0x00 (`NOP`).

use vstd::prelude::*;

verus! {

/// The boot program byte at a given offset below 0x100.
pub open spec fn spec_boot_rom_byte(address: u16) -> u8 {
    if address == 0x00 {
        0x31
    } else if address == 0x01 {
        0xFE
    } else if address == 0x02 {
        0xFF
    } else if address == 0x03 {
        0x3E
    } else if address == 0x04 {
        0x01
    } else if address == 0x05 {
        0xC3
    } else if address == 0x06 {
        0xFE
    } else if address == 0xFE {
        0xE0
    } else if address == 0xFF {
        0x50
    } else {
        0x00
    }
}

pub fn boot_rom_byte(address: u16) -> (r: u8)
    ensures
        r == spec_boot_rom_byte(address),
{
    if address == 0x00 {
        0x31
    } else if address == 0x01 {
        0xFE
    } else if address == 0x02 {
        0xFF
    } else if address == 0x03 {
        0x3E
    } else if address == 0x04 {
        0x01
    } else if address == 0x05 {
        0xC3
    } else if address == 0x06 {
        0xFE
    } else if address == 0xFE {
        0xE0
    } else if address == 0xFF {
        0x50
    } else {
        0x00
    }
}

} // verus!
