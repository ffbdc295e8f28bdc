//! Button state tracking.  Buttons are identified by ids 0..8 in the
//! order Right, Left, Up, Down, A, B, Select, Start; a cleared bit in
//! the key masks means "pressed", as on the hardware register.

use vstd::prelude::*;

verus! {

pub struct Joypad {
    pub button_keys: u8,
    pub direction_keys: u8,
}

/// The key's bit inside its nibble: bit 0..3 for Right/A, Left/B,
/// Up/Select, Down/Start.
pub open spec fn spec_key_bit(key: u8) -> u8 {
    if key == 0 || key == 4 {
        0x01
    } else if key == 1 || key == 5 {
        0x02
    } else if key == 2 || key == 6 {
        0x04
    } else {
        0x08
    }
}

/// The joypad after a key goes down: its bit clears in its half; ids
/// above 7 change nothing.
pub open spec fn spec_after_key_down(j: Joypad, key: u8) -> Joypad {
    if key < 4 {
        Joypad { direction_keys: j.direction_keys & !spec_key_bit(key), ..j }
    } else if key < 8 {
        Joypad { button_keys: j.button_keys & !spec_key_bit(key), ..j }
    } else {
        j
    }
}

/// The joypad after a key comes up: its bit sets in its half.
pub open spec fn spec_after_key_up(j: Joypad, key: u8) -> Joypad {
    if key < 4 {
        Joypad { direction_keys: j.direction_keys | spec_key_bit(key), ..j }
    } else if key < 8 {
        Joypad { button_keys: j.button_keys | spec_key_bit(key), ..j }
    } else {
        j
    }
}

impl Joypad {
    /// The joypad register byte under the given select bits, active
    /// low: bits 6..7 read set, bits 4..5 echo the select bits, and the
    /// low nibble carries the selected key lines (and-combined when
    /// both halves are selected, all released when neither is).
    pub open spec fn spec_register_value(self, select: u8) -> u8 {
        let lines: u8 = if select & 0x10 == 0 && select & 0x20 == 0 {
            self.direction_keys & self.button_keys
        } else if select & 0x10 == 0 {
            self.direction_keys
        } else if select & 0x20 == 0 {
            self.button_keys
        } else {
            0x0F
        };
        ((select & 0x30) | 0xC0) | (lines & 0x0F)
    }

    pub fn new() -> (j: Joypad)
        ensures
            j.button_keys == 0x0F,
            j.direction_keys == 0x0F,
    {
        Joypad { button_keys: 0x0F, direction_keys: 0x0F }
    }

    /// Pressing a button clears its bit; ids above 7 do nothing.
    pub fn key_down(&mut self, key: u8)
        ensures
            *final(self) == spec_after_key_down(*old(self), key),
    {
        if key == 0 {
            self.direction_keys &= 0xFE;
        } else if key == 1 {
            self.direction_keys &= 0xFD;
        } else if key == 2 {
            self.direction_keys &= 0xFB;
        } else if key == 3 {
            self.direction_keys &= 0xF7;
        } else if key == 4 {
            self.button_keys &= 0xFE;
        } else if key == 5 {
            self.button_keys &= 0xFD;
        } else if key == 6 {
            self.button_keys &= 0xFB;
        } else if key == 7 {
            self.button_keys &= 0xF7;
        }
        proof {
            assert(!0x01u8 == 0xFE && !0x02u8 == 0xFD && !0x04u8 == 0xFB && !0x08u8 == 0xF7)
                by (bit_vector);
        }
    }

    /// Releasing a button sets its bit; ids above 7 do nothing.
    pub fn key_up(&mut self, key: u8)
        ensures
            *final(self) == spec_after_key_up(*old(self), key),
    {
        if key == 0 {
            self.direction_keys |= 0x01;
        } else if key == 1 {
            self.direction_keys |= 0x02;
        } else if key == 2 {
            self.direction_keys |= 0x04;
        } else if key == 3 {
            self.direction_keys |= 0x08;
        } else if key == 4 {
            self.button_keys |= 0x01;
        } else if key == 5 {
            self.button_keys |= 0x02;
        } else if key == 6 {
            self.button_keys |= 0x04;
        } else if key == 7 {
            self.button_keys |= 0x08;
        }
    }

    /// The byte mirrored into the joypad register for the select bits
    /// currently written there.
    pub fn get_state(&self, select: u8) -> (r: u8)
        ensures
            r == self.spec_register_value(select),
    {
        let lines: u8 = if select & 0x10 == 0 && select & 0x20 == 0 {
            self.direction_keys & self.button_keys
        } else if select & 0x10 == 0 {
            self.direction_keys
        } else if select & 0x20 == 0 {
            self.button_keys
        } else {
            0x0F
        };
        ((select & 0x30) | 0xC0) | (lines & 0x0F)
    }
}

} // verus!
