//! The LR35902-compatible CPU: fetch/decode/execute stepping, the
//! interrupt dispatcher, and the 8-bit arithmetic/logic core with its
//! exact flag semantics.

use vstd::prelude::*;
use vstd::wrapping::{u16_specs, u32_specs};
use crate::memory::{Memory, MemoryView};
use crate::registers::{Registers, word, high_byte, low_byte, spec_apply_flags};

verus! {

#[derive(Clone, Copy)]
pub struct Cpu {
    pub registers: Registers,
    pub ime: bool,
    /// Set by EI: IME turns on only after the next instruction.
    pub ime_pending: bool,
    pub halt: bool,
    pub cycles: u32,
}

/// The interrupt with the lowest set bit wins: its acknowledge mask.
pub open spec fn spec_interrupt_mask(pending: u8) -> u8 {
    if pending & 0x01 != 0 {
        0x01
    } else if pending & 0x02 != 0 {
        0x02
    } else if pending & 0x04 != 0 {
        0x04
    } else if pending & 0x08 != 0 {
        0x08
    } else {
        0x10
    }
}

/// The handler address of the chosen interrupt: 0x40 for VBlank, then
/// 0x48, 0x50, 0x58, 0x60 in priority order.
pub open spec fn spec_interrupt_vector(pending: u8) -> u16 {
    if pending & 0x01 != 0 {
        0x40
    } else if pending & 0x02 != 0 {
        0x48
    } else if pending & 0x04 != 0 {
        0x50
    } else if pending & 0x08 != 0 {
        0x58
    } else {
        0x60
    }
}

/// Memory after the CPU pushed `value` with stack pointer `sp`: the
/// high byte goes to sp-1, the low byte to sp-2.
pub open spec fn spec_push_word(m: MemoryView, sp: u16, value: u16) -> MemoryView {
    m.spec_write_byte(u16_specs::wrapping_sub(sp, 1), high_byte(value)).spec_write_byte(
        u16_specs::wrapping_sub(sp, 2),
        low_byte(value),
    )
}

/// The CPU after one 8-bit ALU operation of `value` into A, in the row
/// order ADD, ADC, SUB, SBC, AND, XOR, OR, CP, with the exact flag
/// semantics of each.
pub open spec fn spec_alu_result(pre: Cpu, op_index: u8, value: u8) -> Cpu {
    let a = pre.registers.a;
    let f = pre.registers.f;
    let cin: int = if f & 0x10 != 0 {
        1
    } else {
        0
    };
    let (result, z, n, h, c): (u8, bool, bool, bool, bool) = if op_index == 0 {
        let sum = a + value;
        let r = (if sum > 0xFF {
            sum - 0x100
        } else {
            sum
        }) as u8;
        (r, r == 0, false, (a & 0xF) + (value & 0xF) > 0xF, sum > 0xFF)
    } else if op_index == 1 {
        let sum = a + value + cin;
        let r = (if sum > 0xFF {
            sum - 0x100
        } else {
            sum
        }) as u8;
        (r, r == 0, false, (a & 0xF) + (value & 0xF) + cin > 0xF, sum > 0xFF)
    } else if op_index == 2 {
        let diff = a - value;
        let r = (if diff < 0 {
            diff + 0x100
        } else {
            diff
        }) as u8;
        (r, r == 0, true, (a & 0xF) < (value & 0xF), diff < 0)
    } else if op_index == 3 {
        let diff = a - value - cin;
        let r = (if diff < 0 {
            diff + 0x100
        } else {
            diff
        }) as u8;
        (r, r == 0, true, (a & 0xF) < (value & 0xF) + cin, diff < 0)
    } else if op_index == 4 {
        let r = a & value;
        (r, r == 0, false, true, false)
    } else if op_index == 5 {
        let r = a ^ value;
        (r, r == 0, false, false, false)
    } else if op_index == 6 {
        let r = a | value;
        (r, r == 0, false, false, false)
    } else {
        let diff = a - value;
        let r = (if diff < 0 {
            diff + 0x100
        } else {
            diff
        }) as u8;
        (r, r == 0, true, (a & 0xF) < (value & 0xF), diff < 0)
    };
    Cpu {
        registers: Registers {
            a: if op_index == 7 {
                a
            } else {
                result
            },
            f: spec_apply_flags(f, z, n, h, c),
            ..pre.registers
        },
        ..pre
    }
}

/// The CPU after the flag writes of an 8-bit increment of `value`:
/// Z from the result, N=0, H on low-nibble carry, C untouched.
pub open spec fn spec_inc_flags(pre: Cpu, value: u8) -> Cpu {
    let r: u8 = if value == 0xFF {
        0
    } else {
        (value + 1) as u8
    };
    Cpu {
        registers: Registers {
            f: spec_apply_flags(
                pre.registers.f,
                r == 0,
                false,
                value & 0xF == 0xF,
                pre.registers.f & 0x10 != 0,
            ),
            ..pre.registers
        },
        ..pre
    }
}

/// The CPU after the flag writes of an 8-bit decrement of `value`:
/// Z from the result, N=1, H on low-nibble borrow, C untouched.
pub open spec fn spec_dec_flags(pre: Cpu, value: u8) -> Cpu {
    let r: u8 = if value == 0 {
        0xFF
    } else {
        (value - 1) as u8
    };
    Cpu {
        registers: Registers {
            f: spec_apply_flags(
                pre.registers.f,
                r == 0,
                true,
                value & 0xF == 0,
                pre.registers.f & 0x10 != 0,
            ),
            ..pre.registers
        },
        ..pre
    }
}

impl Cpu {
    /// Power-on state: interrupts disabled, not halted, and PC at the
    /// boot overlay's first byte; the other registers already hold the
    /// values a reset without a boot ROM specifies.
    pub fn new() -> (c: Cpu)
        ensures
            c.registers.a == 0x01 && c.registers.f == 0xB0,
            c.registers.b == 0x00 && c.registers.c == 0x13,
            c.registers.d == 0x00 && c.registers.e == 0xD8,
            c.registers.h == 0x01 && c.registers.l == 0x4D,
            c.registers.sp == 0xFFFE,
            c.registers.pc == 0x0000,
            !c.ime,
            !c.ime_pending,
            !c.halt,
            c.cycles == 0,
    {
        let mut registers = Registers::new();
        registers.pc = 0x0000;
        Cpu { registers, ime: false, ime_pending: false, halt: false, cycles: 0 }
    }

    /// The no-operation instruction: four cycles, nothing else.
    pub fn nop(&mut self) -> (r: u8)
        ensures
            r == 4,
            *final(self) == *old(self),
    {
        4
    }

    /// Latches HALT: the CPU idles at four cycles per step until an
    /// interrupt is pending.
    pub fn halt(&mut self) -> (r: u8)
        ensures
            r == 4,
            *final(self) == (Cpu { halt: true, ..*old(self) }),
    {
        self.halt = true;
        4
    }

    /// Reads the byte at PC and advances PC by one (wrapping).
    pub fn fetch_byte(&mut self, memory: &Memory) -> (r: u8)
        requires
            memory.wf(),
        ensures
            r == memory@.spec_read_byte(old(self).registers.pc),
            *final(self) == (Cpu {
                registers: Registers {
                    pc: u16_specs::wrapping_add(old(self).registers.pc, 1),
                    ..old(self).registers
                },
                ..*old(self)
            }),
    {
        let byte = memory.read_byte(self.registers.pc);
        self.registers.pc = self.registers.pc.wrapping_add(1);
        byte
    }

    /// Reads the little-endian word at PC and advances PC by two.
    pub fn fetch_word(&mut self, memory: &Memory) -> (r: u16)
        requires
            memory.wf(),
        ensures
            r == word(
                memory@.spec_read_byte(u16_specs::wrapping_add(old(self).registers.pc, 1)),
                memory@.spec_read_byte(old(self).registers.pc),
            ),
            *final(self) == (Cpu {
                registers: Registers {
                    pc: u16_specs::wrapping_add(u16_specs::wrapping_add(old(self).registers.pc, 1), 1),
                    ..old(self).registers
                },
                ..*old(self)
            }),
    {
        let low = self.fetch_byte(memory) as u16;
        let high = self.fetch_byte(memory) as u16;
        let r = (high << 8) | low;
        proof {
            let h = memory@.spec_read_byte(u16_specs::wrapping_add(old(self).registers.pc, 1));
            let l = memory@.spec_read_byte(old(self).registers.pc);
            assert((h as u16) << 8 | (l as u16) == word(h, l));
        }
        r
    }

    /// Decrements SP and stores one byte there.
    pub fn push_byte(&mut self, value: u8, memory: &mut Memory)
        requires
            old(memory).wf(),
        ensures
            final(memory)@ == old(memory)@.spec_write_byte(
                u16_specs::wrapping_sub(old(self).registers.sp, 1),
                value,
            ),
            final(memory).wf(),
            *final(self) == (Cpu {
                registers: Registers {
                    sp: u16_specs::wrapping_sub(old(self).registers.sp, 1),
                    ..old(self).registers
                },
                ..*old(self)
            }),
    {
        self.registers.sp = self.registers.sp.wrapping_sub(1);
        memory.write_byte(self.registers.sp, value);
    }

    /// Pushes a word, high byte first.
    pub fn push_word(&mut self, value: u16, memory: &mut Memory)
        requires
            old(memory).wf(),
        ensures
            final(memory)@ == spec_push_word(old(memory)@, old(self).registers.sp, value),
            final(memory).wf(),
            *final(self) == (Cpu {
                registers: Registers {
                    sp: u16_specs::wrapping_sub(old(self).registers.sp, 2),
                    ..old(self).registers
                },
                ..*old(self)
            }),
    {
        self.push_byte((value >> 8) as u8, memory);
        self.push_byte(value as u8, memory);
        proof {
            let sp = old(self).registers.sp;
            assert(u16_specs::wrapping_sub(u16_specs::wrapping_sub(sp, 1), 1)
                == u16_specs::wrapping_sub(sp, 2));
        }
    }

    /// Loads the byte at SP and increments SP.
    pub fn pop_byte(&mut self, memory: &Memory) -> (r: u8)
        requires
            memory.wf(),
        ensures
            r == memory@.spec_read_byte(old(self).registers.sp),
            *final(self) == (Cpu {
                registers: Registers {
                    sp: u16_specs::wrapping_add(old(self).registers.sp, 1),
                    ..old(self).registers
                },
                ..*old(self)
            }),
    {
        let value = memory.read_byte(self.registers.sp);
        self.registers.sp = self.registers.sp.wrapping_add(1);
        value
    }

    /// Pops a word, low byte first.
    pub fn pop_word(&mut self, memory: &Memory) -> (r: u16)
        requires
            memory.wf(),
        ensures
            r == word(
                memory@.spec_read_byte(u16_specs::wrapping_add(old(self).registers.sp, 1)),
                memory@.spec_read_byte(old(self).registers.sp),
            ),
            *final(self) == (Cpu {
                registers: Registers {
                    sp: u16_specs::wrapping_add(u16_specs::wrapping_add(old(self).registers.sp, 1), 1),
                    ..old(self).registers
                },
                ..*old(self)
            }),
    {
        let low = self.pop_byte(memory) as u16;
        let high = self.pop_byte(memory) as u16;
        let r = (high << 8) | low;
        proof {
            let h = memory@.spec_read_byte(u16_specs::wrapping_add(old(self).registers.sp, 1));
            let l = memory@.spec_read_byte(old(self).registers.sp);
            assert((h as u16) << 8 | (l as u16) == word(h, l));
        }
        r
    }

    /// AND into A: Z from the result, N=0, H=1, C=0.
    pub fn and_a(&mut self, value: u8)
        ensures
            final(self).registers.a == old(self).registers.a & value,
            final(self).registers.spec_flag_z() == (final(self).registers.a == 0),
            !final(self).registers.spec_flag_n(),
            final(self).registers.spec_flag_h(),
            !final(self).registers.spec_flag_c(),
            final(self).registers.f & 0x0F == old(self).registers.f & 0x0F,
            *final(self) == spec_alu_result(*old(self), 4, value),
            *final(self) == (Cpu {
                registers: Registers {
                    a: final(self).registers.a,
                    f: final(self).registers.f,
                    ..old(self).registers
                },
                ..*old(self)
            }),
    {
        self.registers.a &= value;
        let zero = self.registers.a == 0;
        self.registers.set_flag_z(zero);
        self.registers.set_flag_n(false);
        self.registers.set_flag_h(true);
        self.registers.set_flag_c(false);
    }

    /// XOR into A: Z from the result, N=0, H=0, C=0.
    pub fn xor_a(&mut self, value: u8)
        ensures
            final(self).registers.a == old(self).registers.a ^ value,
            final(self).registers.spec_flag_z() == (final(self).registers.a == 0),
            !final(self).registers.spec_flag_n(),
            !final(self).registers.spec_flag_h(),
            !final(self).registers.spec_flag_c(),
            final(self).registers.f & 0x0F == old(self).registers.f & 0x0F,
            *final(self) == spec_alu_result(*old(self), 5, value),
            *final(self) == (Cpu {
                registers: Registers {
                    a: final(self).registers.a,
                    f: final(self).registers.f,
                    ..old(self).registers
                },
                ..*old(self)
            }),
    {
        self.registers.a ^= value;
        let zero = self.registers.a == 0;
        self.registers.set_flag_z(zero);
        self.registers.set_flag_n(false);
        self.registers.set_flag_h(false);
        self.registers.set_flag_c(false);
    }

    /// OR into A: Z from the result, N=0, H=0, C=0.
    pub fn or_a(&mut self, value: u8)
        ensures
            final(self).registers.a == old(self).registers.a | value,
            final(self).registers.spec_flag_z() == (final(self).registers.a == 0),
            !final(self).registers.spec_flag_n(),
            !final(self).registers.spec_flag_h(),
            !final(self).registers.spec_flag_c(),
            final(self).registers.f & 0x0F == old(self).registers.f & 0x0F,
            *final(self) == spec_alu_result(*old(self), 6, value),
            *final(self) == (Cpu {
                registers: Registers {
                    a: final(self).registers.a,
                    f: final(self).registers.f,
                    ..old(self).registers
                },
                ..*old(self)
            }),
    {
        self.registers.a |= value;
        let zero = self.registers.a == 0;
        self.registers.set_flag_z(zero);
        self.registers.set_flag_n(false);
        self.registers.set_flag_h(false);
        self.registers.set_flag_c(false);
    }

    /// Compare A with a value: subtraction flags, A untouched.
    pub fn cp_a(&mut self, value: u8)
        ensures
            final(self).registers.spec_flag_z() == (old(self).registers.a == value),
            final(self).registers.spec_flag_n(),
            final(self).registers.spec_flag_h() == ((old(self).registers.a & 0xF) < (value & 0xF)),
            final(self).registers.spec_flag_c() == (old(self).registers.a < value),
            final(self).registers.f & 0x0F == old(self).registers.f & 0x0F,
            *final(self) == spec_alu_result(*old(self), 7, value),
            *final(self) == (Cpu {
                registers: Registers { f: final(self).registers.f, ..old(self).registers },
                ..*old(self)
            }),
    {
        let a = self.registers.a;
        let result = a.wrapping_sub(value);
        proof {
            assert(vstd::wrapping::u8_specs::wrapping_sub(a, value) == 0 <==> a == value);
        }
        self.registers.set_flag_z(result == 0);
        self.registers.set_flag_n(true);
        self.registers.set_flag_h((a & 0xF) < (value & 0xF));
        self.registers.set_flag_c(a < value);
    }

    /// 8-bit increment: Z from the result, N=0, H on low-nibble carry,
    /// C preserved.
    pub fn inc(&mut self, value: u8) -> (r: u8)
        ensures
            r == (if value == 0xFF { 0 } else { value + 1 }),
            final(self).registers.spec_flag_z() == (r == 0),
            !final(self).registers.spec_flag_n(),
            final(self).registers.spec_flag_h() == ((value & 0xF) == 0xF),
            final(self).registers.spec_flag_c() == old(self).registers.spec_flag_c(),
            final(self).registers.f & 0x0F == old(self).registers.f & 0x0F,
            *final(self) == spec_inc_flags(*old(self), value),
            *final(self) == (Cpu {
                registers: Registers { f: final(self).registers.f, ..old(self).registers },
                ..*old(self)
            }),
    {
        let result = value.wrapping_add(1);
        self.registers.set_flag_z(result == 0);
        self.registers.set_flag_n(false);
        self.registers.set_flag_h((value & 0xF) == 0xF);
        proof {
            crate::registers::lemma_rewrite_flag_noop(self.registers.f);
        }
        result
    }

    /// 8-bit decrement: Z from the result, N=1, H on low-nibble borrow,
    /// C preserved.
    pub fn dec(&mut self, value: u8) -> (r: u8)
        ensures
            r == (if value == 0 { 0xFF } else { value - 1 }),
            final(self).registers.spec_flag_z() == (r == 0),
            final(self).registers.spec_flag_n(),
            final(self).registers.spec_flag_h() == ((value & 0xF) == 0),
            final(self).registers.spec_flag_c() == old(self).registers.spec_flag_c(),
            final(self).registers.f & 0x0F == old(self).registers.f & 0x0F,
            *final(self) == spec_dec_flags(*old(self), value),
            *final(self) == (Cpu {
                registers: Registers { f: final(self).registers.f, ..old(self).registers },
                ..*old(self)
            }),
    {
        let result = value.wrapping_sub(1);
        self.registers.set_flag_z(result == 0);
        self.registers.set_flag_n(true);
        self.registers.set_flag_h((value & 0xF) == 0);
        proof {
            crate::registers::lemma_rewrite_flag_noop(self.registers.f);
        }
        result
    }

    /// ADD into A: Z from the result, N=0, H on low-nibble carry, C on
    /// byte carry.
    pub fn add_a(&mut self, value: u8)
        ensures
            final(self).registers.a == (if old(self).registers.a + value > 0xFF {
                (old(self).registers.a + value - 0x100) as u8
            } else {
                (old(self).registers.a + value) as u8
            }),
            final(self).registers.spec_flag_z() == (final(self).registers.a == 0),
            !final(self).registers.spec_flag_n(),
            final(self).registers.spec_flag_h() == ((old(self).registers.a & 0xF) + (value & 0xF)
                > 0xF),
            final(self).registers.spec_flag_c() == (old(self).registers.a + value > 0xFF),
            final(self).registers.f & 0x0F == old(self).registers.f & 0x0F,
            *final(self) == spec_alu_result(*old(self), 0, value),
            *final(self) == (Cpu {
                registers: Registers {
                    a: final(self).registers.a,
                    f: final(self).registers.f,
                    ..old(self).registers
                },
                ..*old(self)
            }),
    {
        let a = self.registers.a;
        let result = a.wrapping_add(value);
        let carry = (a as u16) + (value as u16) > 0xFF;
        proof {
            crate::cartridge::lemma_u8_and_bound(a, 0xF);
            crate::cartridge::lemma_u8_and_bound(value, 0xF);
        }
        self.registers.set_flag_z(result == 0);
        self.registers.set_flag_n(false);
        self.registers.set_flag_h((a & 0xF) + (value & 0xF) > 0xF);
        self.registers.set_flag_c(carry);
        self.registers.a = result;
    }

    /// ADD with carry-in added to both lane sums.
    pub fn adc_a(&mut self, value: u8)
        ensures
            ({
                let cin: int = if old(self).registers.spec_flag_c() { 1 } else { 0 };
                let sum = old(self).registers.a + value + cin;
                &&& final(self).registers.a == (if sum > 0xFF { (sum - 0x100) as u8 } else { sum as u8 })
                &&& final(self).registers.spec_flag_z() == (final(self).registers.a == 0)
                &&& !final(self).registers.spec_flag_n()
                &&& final(self).registers.spec_flag_h() == ((old(self).registers.a & 0xF) + (
                value & 0xF) + cin > 0xF)
                &&& final(self).registers.spec_flag_c() == (sum > 0xFF)
            }),
            final(self).registers.f & 0x0F == old(self).registers.f & 0x0F,
            *final(self) == spec_alu_result(*old(self), 1, value),
            *final(self) == (Cpu {
                registers: Registers {
                    a: final(self).registers.a,
                    f: final(self).registers.f,
                    ..old(self).registers
                },
                ..*old(self)
            }),
    {
        let a = self.registers.a;
        let carry: u8 = if self.registers.flag_c() { 1 } else { 0 };
        let result = a.wrapping_add(value).wrapping_add(carry);
        proof {
            crate::cartridge::lemma_u8_and_bound(a, 0xF);
            crate::cartridge::lemma_u8_and_bound(value, 0xF);
        }
        let half = (a & 0xF) + (value & 0xF) + carry > 0xF;
        let full = (a as u16) + (value as u16) + (carry as u16) > 0xFF;
        self.registers.set_flag_z(result == 0);
        self.registers.set_flag_n(false);
        self.registers.set_flag_h(half);
        self.registers.set_flag_c(full);
        self.registers.a = result;
    }

    /// SUB from A: Z from the result, N=1, H on low-nibble borrow, C on
    /// byte borrow.
    pub fn sub_a(&mut self, value: u8)
        ensures
            final(self).registers.a == (if old(self).registers.a < value {
                (old(self).registers.a - value + 0x100) as u8
            } else {
                (old(self).registers.a - value) as u8
            }),
            final(self).registers.spec_flag_z() == (old(self).registers.a == value),
            final(self).registers.spec_flag_n(),
            final(self).registers.spec_flag_h() == ((old(self).registers.a & 0xF) < (value & 0xF)),
            final(self).registers.spec_flag_c() == (old(self).registers.a < value),
            final(self).registers.f & 0x0F == old(self).registers.f & 0x0F,
            *final(self) == spec_alu_result(*old(self), 2, value),
            *final(self) == (Cpu {
                registers: Registers {
                    a: final(self).registers.a,
                    f: final(self).registers.f,
                    ..old(self).registers
                },
                ..*old(self)
            }),
    {
        let a = self.registers.a;
        let result = a.wrapping_sub(value);
        let carry = a < value;
        self.registers.set_flag_z(result == 0);
        self.registers.set_flag_n(true);
        self.registers.set_flag_h((a & 0xF) < (value & 0xF));
        self.registers.set_flag_c(carry);
        self.registers.a = result;
    }

    /// SUB with the carry-in subtracted as an extra borrow.
    pub fn sbc_a(&mut self, value: u8)
        ensures
            ({
                let cin: int = if old(self).registers.spec_flag_c() { 1 } else { 0 };
                let diff = old(self).registers.a - value - cin;
                &&& final(self).registers.a == (if diff < 0 { (diff + 0x100) as u8 } else { diff as u8 })
                &&& final(self).registers.spec_flag_z() == (final(self).registers.a == 0)
                &&& final(self).registers.spec_flag_n()
                &&& final(self).registers.spec_flag_h() == ((old(self).registers.a & 0xF) < (value
                & 0xF) + cin)
                &&& final(self).registers.spec_flag_c() == (diff < 0)
            }),
            final(self).registers.f & 0x0F == old(self).registers.f & 0x0F,
            *final(self) == spec_alu_result(*old(self), 3, value),
            *final(self) == (Cpu {
                registers: Registers {
                    a: final(self).registers.a,
                    f: final(self).registers.f,
                    ..old(self).registers
                },
                ..*old(self)
            }),
    {
        let a = self.registers.a;
        let carry: u8 = if self.registers.flag_c() { 1 } else { 0 };
        let result = a.wrapping_sub(value).wrapping_sub(carry);
        proof {
            crate::cartridge::lemma_u8_and_bound(value, 0xF);
        }
        let half = (a & 0xF) < (value & 0xF) + carry;
        let full = (a as u16) < (value as u16) + (carry as u16);
        self.registers.set_flag_z(result == 0);
        self.registers.set_flag_n(true);
        self.registers.set_flag_h(half);
        self.registers.set_flag_c(full);
        self.registers.a = result;
    }

    /// Fetches, decodes and executes one instruction and returns the
    /// machine cycles it consumed, per the tabulated cycle counts; the
    /// instruction's effect on registers and memory is fixed by
    /// `spec_instruction_effect` (over the state with PC past the
    /// opcode, and apart from the cycle counter and a pending-EI
    /// commit).  A halted CPU consumes 4 cycles without fetching.  The
    /// eleven opcode bytes with no instruction are consumed as
    /// four-cycle no-operations (a real DMG locks up on them).
    pub fn step(&mut self, memory: &mut Memory) -> (r: u8)
        requires
            old(memory).wf(),
        ensures
            final(memory).wf(),
            4 <= r <= 24,
            old(self).halt ==> r == 4 && *final(self) == *old(self) && final(memory)@ == old(
                memory,
            )@,
            !old(self).halt && crate::opcodes::spec_is_implemented(
                old(memory)@.spec_read_byte(old(self).registers.pc),
            ) ==> ({
                let op = old(memory)@.spec_read_byte(old(self).registers.pc);
                &&& r == crate::opcodes::spec_cycles(
                    op,
                    old(self).registers.spec_flag_z(),
                    old(self).registers.spec_flag_c(),
                    old(memory)@.spec_read_byte(u16_specs::wrapping_add(old(self).registers.pc, 1)),
                )
                &&& final(self).cycles == u32_specs::wrapping_add(old(self).cycles, r as u32)
                // EI takes effect only here, one instruction later.
                &&& crate::opcodes::spec_instruction_effect(
                    op,
                    (Cpu {
                        registers: Registers {
                            pc: u16_specs::wrapping_add(old(self).registers.pc, 1),
                            ..old(self).registers
                        },
                        ime: if old(self).ime_pending && op != 0xFB {
                            true
                        } else {
                            old(self).ime
                        },
                        ime_pending: if old(self).ime_pending && op != 0xFB {
                            false
                        } else {
                            old(self).ime_pending
                        },
                        ..*old(self)
                    }),
                    old(memory)@,
                    (Cpu { cycles: old(self).cycles, ..*final(self) }),
                    final(memory)@,
                )
                &&& (op == 0xF3 ==> !final(self).ime)
                &&& (op == 0xFB ==> final(self).ime == old(self).ime && final(self).ime_pending)
            }),
            !old(self).halt && !crate::opcodes::spec_is_implemented(
                old(memory)@.spec_read_byte(old(self).registers.pc),
            ) ==> r == 4 && final(memory)@ == old(memory)@ && *final(self) == (Cpu {
                registers: Registers {
                    pc: u16_specs::wrapping_add(old(self).registers.pc, 1),
                    ..old(self).registers
                },
                ..*old(self)
            }),
            old(self).registers.f & 0x0F == 0 ==> final(self).registers.f & 0x0F == 0,
    {
        if self.halt {
            return 4;
        }

        let opcode = self.fetch_byte(memory);
        if !crate::opcodes::is_implemented_opcode(opcode) {
            return 4;
        }

        // EI turns IME on only once the following instruction runs (and
        // that instruction may itself decide otherwise).
        if self.ime_pending && opcode != 0xFB {
            self.ime = true;
            self.ime_pending = false;
        }

        let cycles = crate::opcodes::execute(self, opcode, memory);

        self.cycles = self.cycles.wrapping_add(cycles as u32);
        cycles
    }

    /// Offers the pending interrupt set to the CPU.  A pending interrupt
    /// always clears HALT; with IME set the lowest pending interrupt is
    /// dispatched: IME and its IF bit clear, PC is pushed, and execution
    /// continues at the handler address.
    pub fn handle_interrupts(&mut self, interrupts: u8, memory: &mut Memory)
        requires
            old(memory).wf(),
        ensures
            final(memory).wf(),
            ({
                let pending = interrupts & 0x1F;
                if (!old(self).ime && !old(self).halt) || pending == 0 {
                    *final(self) == *old(self) && final(memory)@ == old(memory)@
                } else if !old(self).ime {
                    *final(self) == (Cpu { halt: false, ..*old(self) }) && final(memory)@ == old(
                        memory,
                    )@
                } else {
                    &&& *final(self) == (Cpu {
                        registers: Registers {
                            pc: spec_interrupt_vector(pending),
                            sp: u16_specs::wrapping_sub(old(self).registers.sp, 2),
                            ..old(self).registers
                        },
                        ime: false,
                        halt: false,
                        ..*old(self)
                    })
                    &&& final(memory)@ == spec_push_word(
                        (MemoryView {
                            interrupt_flag: old(memory).interrupt_flag & !spec_interrupt_mask(
                                pending,
                            ),
                            ..old(memory)@
                        }),
                        old(self).registers.sp,
                        old(self).registers.pc,
                    )
                }
            }),
    {
        if !self.ime && !self.halt {
            return ;
        }

        let pending = interrupts & 0x1F;
        if pending == 0 {
            return ;
        }

        let (mask, vector): (u8, u16) = if pending & 0x01 != 0 {
            (0x01, 0x40)
        } else if pending & 0x02 != 0 {
            (0x02, 0x48)
        } else if pending & 0x04 != 0 {
            (0x04, 0x50)
        } else if pending & 0x08 != 0 {
            (0x08, 0x58)
        } else {
            proof {
                let p = interrupts;
                assert((p & 0x1F) != 0 && (p & 0x1F) & 0x01 == 0 && (p & 0x1F) & 0x02 == 0 && (p
                    & 0x1F) & 0x04 == 0 && (p & 0x1F) & 0x08 == 0 ==> (p & 0x1F) & 0x10 != 0)
                    by (bit_vector);
            }
            (0x10, 0x60)
        };

        self.halt = false;

        if self.ime {
            self.ime = false;
            memory.clear_interrupt(mask);
            let pc = self.registers.pc;
            self.push_word(pc, memory);
            self.registers.pc = vector;
        }
    }
}

} // verus!
