//! The remaining decoder row: loads through BC/DE and the
//! post-increment/decrement HL forms, 16-bit arithmetic, rotates of A,
//! conditional and absolute control flow, RST, DAA and the other
//! accumulator/flag opcodes, the high-page loads, and the SP opcodes.

use vstd::prelude::*;
use vstd::wrapping::u16_specs;
use crate::cpu::Cpu;
use crate::memory::Memory;
use crate::opcodes::{spec_cycles, spec_cond_taken, spec_instruction_effect};
use crate::registers::{word, high_byte, low_byte, spec_apply_flags};

verus! {

/// The opcodes this decoder row handles.
pub open spec fn spec_extended_handles(opcode: u8) -> bool {
    ||| opcode == 0x02 || opcode == 0x12 || opcode == 0x0A || opcode == 0x1A
    ||| opcode == 0x22 || opcode == 0x2A || opcode == 0x32 || opcode == 0x3A
    ||| opcode == 0x09 || opcode == 0x19 || opcode == 0x29 || opcode == 0x39
    ||| opcode == 0x03 || opcode == 0x13 || opcode == 0x23 || opcode == 0x33
    ||| opcode == 0x0B || opcode == 0x1B || opcode == 0x2B || opcode == 0x3B
    ||| opcode == 0x07 || opcode == 0x0F || opcode == 0x17 || opcode == 0x1F
    ||| opcode == 0x20 || opcode == 0x28 || opcode == 0x30 || opcode == 0x38
    ||| opcode == 0xC2 || opcode == 0xCA || opcode == 0xD2 || opcode == 0xDA
    ||| opcode == 0xC4 || opcode == 0xCC || opcode == 0xD4 || opcode == 0xDC
    ||| opcode == 0xC0 || opcode == 0xC8 || opcode == 0xD0 || opcode == 0xD8
    ||| opcode == 0xD9
    ||| opcode == 0xC7 || opcode == 0xCF || opcode == 0xD7 || opcode == 0xDF
    ||| opcode == 0xE7 || opcode == 0xEF || opcode == 0xF7 || opcode == 0xFF
    ||| opcode == 0x27 || opcode == 0x2F || opcode == 0x37 || opcode == 0x3F
    ||| opcode == 0xE0 || opcode == 0xF0 || opcode == 0xE2 || opcode == 0xF2
    ||| opcode == 0xEA || opcode == 0xFA
    ||| opcode == 0xE8 || opcode == 0xF8 || opcode == 0xF9 || opcode == 0x08
    ||| opcode == 0xE9 || opcode == 0x10 || opcode == 0x34 || opcode == 0x35
}

/// The target of a relative jump: PC plus the two's-complement offset.
pub open spec fn spec_relative_target(pc: u16, offset: u8) -> u16 {
    if offset < 0x80 {
        u16_specs::wrapping_add(pc, offset as u16)
    } else {
        u16_specs::wrapping_sub(u16_specs::wrapping_add(pc, offset as u16), 0x100)
    }
}

pub(crate) fn relative_target(pc: u16, offset: u8) -> (r: u16)
    ensures
        r == spec_relative_target(pc, offset),
{
    if offset < 0x80 {
        pc.wrapping_add(offset as u16)
    } else {
        pc.wrapping_add(offset as u16).wrapping_sub(0x100)
    }
}

/// The offset byte of `ADD SP` and `LD HL, SP+n` as a sign-extended
/// 16-bit value.
pub open spec fn spec_signed_offset(offset: u8) -> u16 {
    if offset < 0x80 {
        offset as u16
    } else {
        0xFF00u16 | offset as u16
    }
}

fn sign_extend(offset: u8) -> (r: u16)
    ensures
        r == spec_signed_offset(offset),
        r & 0xF == (offset & 0xF) as u16,
        r & 0xFF == offset as u16,
{
    proof {
        let v = offset;
        assert((0xFF00u16 | v as u16) & 0xF == (v & 0xF) as u16 && (v as u16) & 0xF == (v & 0xF)
            as u16 && (0xFF00u16 | v as u16) & 0xFF == v as u16 && (v as u16) & 0xFF == v as u16)
            by (bit_vector);
    }
    if offset < 0x80 {
        offset as u16
    } else {
        0xFF00 | offset as u16
    }
}

/// `ADD HL, rr`: N=0, H from bit-11 carry, C from bit-15 carry, Z kept.
fn add_hl(cpu: &mut Cpu, rhs: u16)
    ensures
        ({
            let hl = word(old(cpu).registers.h, old(cpu).registers.l);
            let sum = u16_specs::wrapping_add(hl, rhs);
            let f = old(cpu).registers.f;
            *final(cpu) == (Cpu {
                registers: crate::registers::Registers {
                    h: high_byte(sum),
                    l: low_byte(sum),
                    f: spec_apply_flags(
                        f,
                        f & 0x80 != 0,
                        false,
                        (hl & 0xFFF) + (rhs & 0xFFF) > 0xFFF,
                        hl > 0xFFFF - rhs,
                    ),
                    ..old(cpu).registers
                },
                ..*old(cpu)
            })
        }),
        final(cpu).registers.f & 0x0F == old(cpu).registers.f & 0x0F,
{
    let hl = cpu.registers.hl();
    let result = hl.wrapping_add(rhs);
    proof {
        let a = hl;
        let b = rhs;
        assert(a & 0xFFF <= 0xFFF && b & 0xFFF <= 0xFFF) by (bit_vector);
        crate::registers::lemma_rewrite_flag_noop(cpu.registers.f);
    }
    cpu.registers.set_flag_n(false);
    cpu.registers.set_flag_h((hl & 0xFFF) + (rhs & 0xFFF) > 0xFFF);
    cpu.registers.set_flag_c(hl > 0xFFFF - rhs);
    cpu.registers.set_hl(result);
}

/// Runs one opcode of this decoder row, returning its cycle count, or
/// 0 when the opcode belongs to another row.
#[verifier::rlimit(100)]
pub fn execute_extended(cpu: &mut Cpu, opcode: u8, memory: &mut Memory) -> (r: u8)
    requires
        old(memory).wf(),
    ensures
        final(memory).wf(),
        spec_extended_handles(opcode) ==> r == spec_cycles(
            opcode,
            old(cpu).registers.spec_flag_z(),
            old(cpu).registers.spec_flag_c(),
            old(memory)@.spec_read_byte(old(cpu).registers.pc),
        ) && 4 <= r <= 24,
        !spec_extended_handles(opcode) ==> r == 0 && *final(cpu) == *old(cpu) && final(memory)@
            == old(memory)@,
        final(cpu).cycles == old(cpu).cycles,
        old(cpu).registers.f & 0x0F == 0 ==> final(cpu).registers.f & 0x0F == 0,
        spec_extended_handles(opcode) ==> spec_instruction_effect(
            opcode,
            *old(cpu),
            old(memory)@,
            *final(cpu),
            final(memory)@,
        ),
{
    match opcode {
        // Loads through register pairs
        0x02 => {
            let addr = cpu.registers.bc();
            memory.write_byte(addr, cpu.registers.a);
            8
        },
        0x12 => {
            let addr = cpu.registers.de();
            memory.write_byte(addr, cpu.registers.a);
            8
        },
        0x0A => {
            let addr = cpu.registers.bc();
            cpu.registers.a = memory.read_byte(addr);
            8
        },
        0x1A => {
            let addr = cpu.registers.de();
            cpu.registers.a = memory.read_byte(addr);
            8
        },
        // Post-increment / post-decrement loads through HL
        0x22 => {
            let addr = cpu.registers.hl();
            memory.write_byte(addr, cpu.registers.a);
            cpu.registers.set_hl(addr.wrapping_add(1));
            8
        },
        0x2A => {
            let addr = cpu.registers.hl();
            cpu.registers.a = memory.read_byte(addr);
            cpu.registers.set_hl(addr.wrapping_add(1));
            8
        },
        0x32 => {
            let addr = cpu.registers.hl();
            memory.write_byte(addr, cpu.registers.a);
            cpu.registers.set_hl(addr.wrapping_sub(1));
            8
        },
        0x3A => {
            let addr = cpu.registers.hl();
            cpu.registers.a = memory.read_byte(addr);
            cpu.registers.set_hl(addr.wrapping_sub(1));
            8
        },
        // 16-bit addition into HL
        0x09 => {
            let rhs = cpu.registers.bc();
            add_hl(cpu, rhs);
            8
        },
        0x19 => {
            let rhs = cpu.registers.de();
            add_hl(cpu, rhs);
            8
        },
        0x29 => {
            let rhs = cpu.registers.hl();
            add_hl(cpu, rhs);
            8
        },
        0x39 => {
            let rhs = cpu.registers.sp;
            add_hl(cpu, rhs);
            8
        },
        // 16-bit increments and decrements (no flags)
        0x03 => {
            let v = cpu.registers.bc().wrapping_add(1);
            cpu.registers.set_bc(v);
            8
        },
        0x13 => {
            let v = cpu.registers.de().wrapping_add(1);
            cpu.registers.set_de(v);
            8
        },
        0x23 => {
            let v = cpu.registers.hl().wrapping_add(1);
            cpu.registers.set_hl(v);
            8
        },
        0x33 => {
            cpu.registers.sp = cpu.registers.sp.wrapping_add(1);
            8
        },
        0x0B => {
            let v = cpu.registers.bc().wrapping_sub(1);
            cpu.registers.set_bc(v);
            8
        },
        0x1B => {
            let v = cpu.registers.de().wrapping_sub(1);
            cpu.registers.set_de(v);
            8
        },
        0x2B => {
            let v = cpu.registers.hl().wrapping_sub(1);
            cpu.registers.set_hl(v);
            8
        },
        0x3B => {
            cpu.registers.sp = cpu.registers.sp.wrapping_sub(1);
            8
        },
        // Rotates of A (Z forced to zero)
        0x07 => {
            let a = cpu.registers.a;
            let carry = a >> 7u8;
            cpu.registers.a = (a << 1u8) | carry;
            cpu.registers.set_flag_z(false);
            cpu.registers.set_flag_n(false);
            cpu.registers.set_flag_h(false);
            cpu.registers.set_flag_c(carry != 0);
            4
        },
        0x0F => {
            let a = cpu.registers.a;
            let carry = a & 0x01;
            cpu.registers.a = (a >> 1u8) | (carry << 7u8);
            cpu.registers.set_flag_z(false);
            cpu.registers.set_flag_n(false);
            cpu.registers.set_flag_h(false);
            cpu.registers.set_flag_c(carry != 0);
            4
        },
        0x17 => {
            let a = cpu.registers.a;
            let carry = a >> 7u8;
            let old_carry: u8 = if cpu.registers.flag_c() {
                1
            } else {
                0
            };
            cpu.registers.a = (a << 1u8) | old_carry;
            cpu.registers.set_flag_z(false);
            cpu.registers.set_flag_n(false);
            cpu.registers.set_flag_h(false);
            cpu.registers.set_flag_c(carry != 0);
            4
        },
        0x1F => {
            let a = cpu.registers.a;
            let carry = a & 0x01;
            let old_carry: u8 = if cpu.registers.flag_c() {
                0x80
            } else {
                0
            };
            cpu.registers.a = (a >> 1u8) | old_carry;
            cpu.registers.set_flag_z(false);
            cpu.registers.set_flag_n(false);
            cpu.registers.set_flag_h(false);
            cpu.registers.set_flag_c(carry != 0);
            4
        },
        // Conditional relative jumps
        0x20 => {
            let offset = cpu.fetch_byte(memory);
            if !cpu.registers.flag_z() {
                cpu.registers.pc = relative_target(cpu.registers.pc, offset);
                12
            } else {
                8
            }
        },
        0x28 => {
            let offset = cpu.fetch_byte(memory);
            if cpu.registers.flag_z() {
                cpu.registers.pc = relative_target(cpu.registers.pc, offset);
                12
            } else {
                8
            }
        },
        0x30 => {
            let offset = cpu.fetch_byte(memory);
            if !cpu.registers.flag_c() {
                cpu.registers.pc = relative_target(cpu.registers.pc, offset);
                12
            } else {
                8
            }
        },
        0x38 => {
            let offset = cpu.fetch_byte(memory);
            if cpu.registers.flag_c() {
                cpu.registers.pc = relative_target(cpu.registers.pc, offset);
                12
            } else {
                8
            }
        },
        // Conditional absolute jumps
        0xC2 => {
            let addr = cpu.fetch_word(memory);
            if !cpu.registers.flag_z() {
                cpu.registers.pc = addr;
                16
            } else {
                12
            }
        },
        0xCA => {
            let addr = cpu.fetch_word(memory);
            if cpu.registers.flag_z() {
                cpu.registers.pc = addr;
                16
            } else {
                12
            }
        },
        0xD2 => {
            let addr = cpu.fetch_word(memory);
            if !cpu.registers.flag_c() {
                cpu.registers.pc = addr;
                16
            } else {
                12
            }
        },
        0xDA => {
            let addr = cpu.fetch_word(memory);
            if cpu.registers.flag_c() {
                cpu.registers.pc = addr;
                16
            } else {
                12
            }
        },
        // Conditional calls
        0xC4 => {
            let addr = cpu.fetch_word(memory);
            if !cpu.registers.flag_z() {
                let pc = cpu.registers.pc;
                cpu.push_word(pc, memory);
                cpu.registers.pc = addr;
                24
            } else {
                12
            }
        },
        0xCC => {
            let addr = cpu.fetch_word(memory);
            if cpu.registers.flag_z() {
                let pc = cpu.registers.pc;
                cpu.push_word(pc, memory);
                cpu.registers.pc = addr;
                24
            } else {
                12
            }
        },
        0xD4 => {
            let addr = cpu.fetch_word(memory);
            if !cpu.registers.flag_c() {
                let pc = cpu.registers.pc;
                cpu.push_word(pc, memory);
                cpu.registers.pc = addr;
                24
            } else {
                12
            }
        },
        0xDC => {
            let addr = cpu.fetch_word(memory);
            if cpu.registers.flag_c() {
                let pc = cpu.registers.pc;
                cpu.push_word(pc, memory);
                cpu.registers.pc = addr;
                24
            } else {
                12
            }
        },
        // Conditional returns
        0xC0 => {
            if !cpu.registers.flag_z() {
                let addr = cpu.pop_word(memory);
                cpu.registers.pc = addr;
                20
            } else {
                8
            }
        },
        0xC8 => {
            if cpu.registers.flag_z() {
                let addr = cpu.pop_word(memory);
                cpu.registers.pc = addr;
                20
            } else {
                8
            }
        },
        0xD0 => {
            if !cpu.registers.flag_c() {
                let addr = cpu.pop_word(memory);
                cpu.registers.pc = addr;
                20
            } else {
                8
            }
        },
        0xD8 => {
            if cpu.registers.flag_c() {
                let addr = cpu.pop_word(memory);
                cpu.registers.pc = addr;
                20
            } else {
                8
            }
        },
        // Return and enable interrupts
        0xD9 => {
            let addr = cpu.pop_word(memory);
            cpu.registers.pc = addr;
            cpu.ime = true;
            16
        },
        // Restarts
        0xC7 => {
            let pc = cpu.registers.pc;
            cpu.push_word(pc, memory);
            cpu.registers.pc = 0x00;
            16
        },
        0xCF => {
            let pc = cpu.registers.pc;
            cpu.push_word(pc, memory);
            cpu.registers.pc = 0x08;
            16
        },
        0xD7 => {
            let pc = cpu.registers.pc;
            cpu.push_word(pc, memory);
            cpu.registers.pc = 0x10;
            16
        },
        0xDF => {
            let pc = cpu.registers.pc;
            cpu.push_word(pc, memory);
            cpu.registers.pc = 0x18;
            16
        },
        0xE7 => {
            let pc = cpu.registers.pc;
            cpu.push_word(pc, memory);
            cpu.registers.pc = 0x20;
            16
        },
        0xEF => {
            let pc = cpu.registers.pc;
            cpu.push_word(pc, memory);
            cpu.registers.pc = 0x28;
            16
        },
        0xF7 => {
            let pc = cpu.registers.pc;
            cpu.push_word(pc, memory);
            cpu.registers.pc = 0x30;
            16
        },
        0xFF => {
            let pc = cpu.registers.pc;
            cpu.push_word(pc, memory);
            cpu.registers.pc = 0x38;
            16
        },
        // Decimal adjust after addition or subtraction
        0x27 => {
            let mut a = cpu.registers.a;
            let low_adjust: u8 = if cpu.registers.flag_h() || (!cpu.registers.flag_n() && (a
                & 0xF) > 9) {
                0x06
            } else {
                0x00
            };
            let carry_out = cpu.registers.flag_c() || (!cpu.registers.flag_n() && a > 0x99);
            let adjust: u8 = if carry_out {
                low_adjust | 0x60
            } else {
                low_adjust
            };
            if carry_out {
                cpu.registers.set_flag_c(true);
            }

            if cpu.registers.flag_n() {
                a = a.wrapping_sub(adjust);
            } else {
                a = a.wrapping_add(adjust);
            }

            cpu.registers.a = a;
            cpu.registers.set_flag_z(a == 0);
            cpu.registers.set_flag_h(false);
            4
        },
        // Complement A, set carry, complement carry
        0x2F => {
            cpu.registers.a = !cpu.registers.a;
            cpu.registers.set_flag_n(true);
            cpu.registers.set_flag_h(true);
            4
        },
        0x37 => {
            cpu.registers.set_flag_n(false);
            cpu.registers.set_flag_h(false);
            cpu.registers.set_flag_c(true);
            4
        },
        0x3F => {
            let c = cpu.registers.flag_c();
            cpu.registers.set_flag_n(false);
            cpu.registers.set_flag_h(false);
            cpu.registers.set_flag_c(!c);
            4
        },
        // High-page loads
        0xE0 => {
            let n = cpu.fetch_byte(memory);
            let addr = 0xFF00 + n as u16;
            memory.write_byte(addr, cpu.registers.a);
            12
        },
        0xF0 => {
            let n = cpu.fetch_byte(memory);
            let addr = 0xFF00 + n as u16;
            cpu.registers.a = memory.read_byte(addr);
            12
        },
        0xE2 => {
            let addr = 0xFF00 + cpu.registers.c as u16;
            memory.write_byte(addr, cpu.registers.a);
            8
        },
        0xF2 => {
            let addr = 0xFF00 + cpu.registers.c as u16;
            cpu.registers.a = memory.read_byte(addr);
            8
        },
        // Direct-address loads
        0xEA => {
            let addr = cpu.fetch_word(memory);
            memory.write_byte(addr, cpu.registers.a);
            16
        },
        0xFA => {
            let addr = cpu.fetch_word(memory);
            cpu.registers.a = memory.read_byte(addr);
            16
        },
        // SP arithmetic and transfers
        0xE8 => {
            let n = cpu.fetch_byte(memory);
            let offset = sign_extend(n);
            let sp = cpu.registers.sp;
            let result = sp.wrapping_add(offset);
            proof {
                let s = sp;
                assert(s & 0xF <= 0xF && s & 0xFF <= 0xFF) by (bit_vector);
            }
            cpu.registers.set_flag_z(false);
            cpu.registers.set_flag_n(false);
            cpu.registers.set_flag_h((sp & 0xF) + (offset & 0xF) > 0xF);
            cpu.registers.set_flag_c((sp & 0xFF) + (offset & 0xFF) > 0xFF);
            cpu.registers.sp = result;
            16
        },
        0xF8 => {
            let n = cpu.fetch_byte(memory);
            let offset = sign_extend(n);
            let sp = cpu.registers.sp;
            let result = sp.wrapping_add(offset);
            proof {
                let s = sp;
                assert(s & 0xF <= 0xF && s & 0xFF <= 0xFF) by (bit_vector);
            }
            cpu.registers.set_flag_z(false);
            cpu.registers.set_flag_n(false);
            cpu.registers.set_flag_h((sp & 0xF) + (offset & 0xF) > 0xF);
            cpu.registers.set_flag_c((sp & 0xFF) + (offset & 0xFF) > 0xFF);
            cpu.registers.set_hl(result);
            12
        },
        0xF9 => {
            cpu.registers.sp = cpu.registers.hl();
            8
        },
        0x08 => {
            let addr = cpu.fetch_word(memory);
            let sp = cpu.registers.sp;
            memory.write_byte(addr, sp as u8);
            memory.write_byte(addr.wrapping_add(1), (sp >> 8u16) as u8);
            20
        },
        // Jump to HL
        0xE9 => {
            cpu.registers.pc = cpu.registers.hl();
            4
        },
        // STOP: the low-power state is not modeled; the padding byte is
        // consumed and execution goes on.
        0x10 => {
            let _padding = cpu.fetch_byte(memory);
            4
        },
        // Increment / decrement the byte at (HL)
        0x34 => {
            let addr = cpu.registers.hl();
            let value = memory.read_byte(addr);
            let result = cpu.inc(value);
            memory.write_byte(addr, result);
            12
        },
        0x35 => {
            let addr = cpu.registers.hl();
            let value = memory.read_byte(addr);
            let result = cpu.dec(value);
            memory.write_byte(addr, result);
            12
        },
        _ => 0,
    }
}

} // verus!
