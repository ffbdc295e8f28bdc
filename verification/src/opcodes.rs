//! The main opcode decoder: immediate and register loads into A and
//! friends, 16-bit loads, stack and control-flow opcodes, the CB
//! prefix, and delegation to the other decoder rows.  The cycle table
//! `spec_cycles` fixes the cost of every opcode, both branches of each
//! conditional one.

use vstd::prelude::*;
use vstd::wrapping::{u8_specs, u16_specs};
use crate::cpu::{Cpu, spec_push_word, spec_alu_result, spec_inc_flags, spec_dec_flags};
use crate::memory::{Memory, MemoryView};
use crate::opcodes_cb::{spec_cb_cycles, spec_cb_effect, spec_reg_value, spec_set_reg,
    spec_shift_result, spec_shift_carry};
use crate::opcodes_extended::{spec_relative_target, spec_signed_offset};
use crate::registers::{Registers, word, high_byte, low_byte, spec_apply_flags};

verus! {

/// Eleven opcode bytes have no instruction; the decode table is total
/// over all the others.
pub open spec fn spec_is_implemented(opcode: u8) -> bool {
    opcode != 0xD3 && opcode != 0xDB && opcode != 0xDD && opcode != 0xE3 && opcode != 0xE4
        && opcode != 0xEB && opcode != 0xEC && opcode != 0xED && opcode != 0xF4 && opcode != 0xFC
        && opcode != 0xFD
}

/// Whether an opcode byte has an instruction.
pub fn is_implemented_opcode(opcode: u8) -> (r: bool)
    ensures
        r == spec_is_implemented(opcode),
{
    opcode != 0xD3 && opcode != 0xDB && opcode != 0xDD && opcode != 0xE3 && opcode != 0xE4
        && opcode != 0xEB && opcode != 0xEC && opcode != 0xED && opcode != 0xF4 && opcode != 0xFC
        && opcode != 0xFD
}

/// Whether a conditional opcode's condition (NZ, Z, NC, C, selected by
/// bits 4..3) holds for the given Z and C flags.
pub open spec fn spec_cond_taken(opcode: u8, z: bool, c: bool) -> bool {
    let idx = (opcode / 8) % 4;
    if idx == 0 {
        !z
    } else if idx == 1 {
        z
    } else if idx == 2 {
        !c
    } else {
        c
    }
}

/// The tabulated cycle count of one opcode, in T-cycles.  `z` and `c`
/// are the flags at decode time (they pick the branch of a conditional
/// opcode); `next` is the byte after the opcode (it selects the row of
/// a CB-prefixed operation).
pub open spec fn spec_cycles(opcode: u8, z: bool, c: bool, next: u8) -> u8 {
    if opcode == 0xCB {
        spec_cb_cycles(next)
    } else if opcode == 0x20 || opcode == 0x28 || opcode == 0x30 || opcode == 0x38 {
        if spec_cond_taken(opcode, z, c) {
            12
        } else {
            8
        }
    } else if opcode == 0xC2 || opcode == 0xCA || opcode == 0xD2 || opcode == 0xDA {
        if spec_cond_taken(opcode, z, c) {
            16
        } else {
            12
        }
    } else if opcode == 0xC4 || opcode == 0xCC || opcode == 0xD4 || opcode == 0xDC {
        if spec_cond_taken(opcode, z, c) {
            24
        } else {
            12
        }
    } else if opcode == 0xC0 || opcode == 0xC8 || opcode == 0xD0 || opcode == 0xD8 {
        if spec_cond_taken(opcode, z, c) {
            20
        } else {
            8
        }
    } else if 0x40 <= opcode && opcode < 0x80 {
        if opcode == 0x76 {
            4
        } else if opcode % 8 == 6 || opcode < 0x78 && 0x70 <= opcode {
            8
        } else {
            4
        }
    } else if 0x80 <= opcode && opcode < 0xC0 {
        if opcode % 8 == 6 {
            8
        } else {
            4
        }
    } else if opcode == 0x06 || opcode == 0x0E || opcode == 0x16 || opcode == 0x1E || opcode
        == 0x26 || opcode == 0x2E || opcode == 0x3E {
        8
    } else if opcode == 0x36 {
        12
    } else if opcode == 0x01 || opcode == 0x11 || opcode == 0x21 || opcode == 0x31 {
        12
    } else if opcode == 0xF5 || opcode == 0xC5 || opcode == 0xD5 || opcode == 0xE5 {
        16
    } else if opcode == 0xF1 || opcode == 0xC1 || opcode == 0xD1 || opcode == 0xE1 {
        12
    } else if opcode == 0xC3 {
        16
    } else if opcode == 0x18 {
        12
    } else if opcode == 0xCD {
        24
    } else if opcode == 0xC9 || opcode == 0xD9 {
        16
    } else if opcode == 0xC6 || opcode == 0xCE || opcode == 0xD6 || opcode == 0xDE || opcode
        == 0xE6 || opcode == 0xEE || opcode == 0xF6 || opcode == 0xFE {
        8
    } else if opcode == 0x02 || opcode == 0x12 || opcode == 0x0A || opcode == 0x1A || opcode
        == 0x22 || opcode == 0x2A || opcode == 0x32 || opcode == 0x3A {
        8
    } else if opcode == 0x09 || opcode == 0x19 || opcode == 0x29 || opcode == 0x39 {
        8
    } else if opcode == 0x03 || opcode == 0x13 || opcode == 0x23 || opcode == 0x33 || opcode
        == 0x0B || opcode == 0x1B || opcode == 0x2B || opcode == 0x3B {
        8
    } else if opcode == 0xC7 || opcode == 0xCF || opcode == 0xD7 || opcode == 0xDF || opcode
        == 0xE7 || opcode == 0xEF || opcode == 0xF7 || opcode == 0xFF {
        16
    } else if opcode == 0xE0 || opcode == 0xF0 {
        12
    } else if opcode == 0xE2 || opcode == 0xF2 {
        8
    } else if opcode == 0xEA || opcode == 0xFA {
        16
    } else if opcode == 0xE8 {
        16
    } else if opcode == 0xF8 {
        12
    } else if opcode == 0xF9 {
        8
    } else if opcode == 0x08 {
        20
    } else if opcode == 0x34 || opcode == 0x35 {
        12
    } else {
        4
    }
}


/// The CPU after the decimal-adjust instruction: BCD correction of A
/// after an addition or subtraction, using the N, H and C flags.
pub open spec fn spec_daa(pre: Cpu) -> Cpu {
    let a = pre.registers.a;
    let f = pre.registers.f;
    let n = f & 0x40 != 0;
    let adjust1: u8 = if f & 0x20 != 0 || (!n && a & 0xF > 9) {
        0x06
    } else {
        0x00
    };
    let adjust: u8 = if f & 0x10 != 0 || (!n && a > 0x99) {
        adjust1 | 0x60
    } else {
        adjust1
    };
    let f1: u8 = if f & 0x10 != 0 || (!n && a > 0x99) {
        f | 0x10
    } else {
        f
    };
    let a2: u8 = if n {
        u8_specs::wrapping_sub(a, adjust)
    } else {
        u8_specs::wrapping_add(a, adjust)
    };
    let f2: u8 = if a2 == 0 {
        f1 | 0x80
    } else {
        f1 & 0x7F
    };
    Cpu { registers: Registers { a: a2, f: f2 & 0xDF, ..pre.registers }, ..pre }
}

/// The exact effect of one instruction on the CPU and the bus, for
/// every implemented opcode.  `pre` is the CPU with PC already past the
/// opcode byte and `m0` the memory at that point; `post` and `m1` are
/// the states after execution (the CPU cycle counter is bookkeeping on
/// top of this relation and not part of it).
pub open spec fn spec_instruction_effect(
    op: u8,
    pre: Cpu,
    m0: MemoryView,
    post: Cpu,
    m1: MemoryView,
) -> bool {
    let pc = pre.registers.pc;
    let sp = pre.registers.sp;
    let a = pre.registers.a;
    let f = pre.registers.f;
    let hl = word(pre.registers.h, pre.registers.l);
    let bc = word(pre.registers.b, pre.registers.c);
    let de = word(pre.registers.d, pre.registers.e);
    let imm8 = m0.spec_read_byte(pc);
    let pc1 = u16_specs::wrapping_add(pc, 1);
    let pc2 = u16_specs::wrapping_add(pc1, 1);
    let imm16 = word(m0.spec_read_byte(pc1), imm8);
    let taken = spec_cond_taken(op, f & 0x80 != 0, f & 0x10 != 0);
    let cin = f & 0x10 != 0;
    &&& (op == 0x00 ==> post == pre && m1 == m0)
    &&& (op == 0x76 ==> post == (Cpu { halt: true, ..pre }) && m1 == m0)
    &&& (op == 0xF3 ==> post == (Cpu { ime: false, ..pre }) && m1 == m0)
    &&& (op == 0xFB ==> post == (Cpu { ime_pending: true, ..pre }) && m1 == m0)
    &&& (op == 0x10 ==> post == (Cpu {
        registers: Registers { pc: pc1, ..pre.registers },
        ..pre
    }) && m1 == m0)
    // 8-bit immediate loads
    &&& (op == 0x06 || op == 0x0E || op == 0x16 || op == 0x1E || op == 0x26 || op == 0x2E || op
        == 0x3E ==> m1 == m0 && post == (Cpu {
        registers: Registers {
            pc: pc1,
            ..spec_set_reg(pre, ((op - 0x06) / 8) as u8, imm8).registers
        },
        ..pre
    }))
    &&& (op == 0x36 ==> post == (Cpu { registers: Registers { pc: pc1, ..pre.registers }, ..pre })
        && m1 == m0.spec_write_byte(hl, imm8))
    // The LD quarter: moves between the eight operands
    &&& (0x40 <= op < 0x80 && op != 0x76 && !(0x70 <= op < 0x78) ==> m1 == m0 && post
        == spec_set_reg(pre, ((op - 0x40) / 8) as u8, spec_reg_value(pre, m0, (op % 8) as u8)))
    &&& (0x70 <= op < 0x78 && op != 0x76 ==> post == pre && m1 == m0.spec_write_byte(
        hl,
        spec_reg_value(pre, m0, (op % 8) as u8),
    ))
    // The ALU quarter and its immediate forms
    &&& (0x80 <= op < 0xC0 ==> m1 == m0 && post == spec_alu_result(
        pre,
        ((op - 0x80) / 8) as u8,
        spec_reg_value(pre, m0, (op % 8) as u8),
    ))
    &&& (op == 0xC6 || op == 0xCE || op == 0xD6 || op == 0xDE || op == 0xE6 || op == 0xEE || op
        == 0xF6 || op == 0xFE ==> m1 == m0 && post == spec_alu_result(
        (Cpu { registers: Registers { pc: pc1, ..pre.registers }, ..pre }),
        ((op - 0xC0) / 8) as u8,
        imm8,
    ))
    // 8-bit increments and decrements
    &&& (op < 0x40 && op % 8 == 4 && op != 0x34 ==> m1 == m0 && post == ({
        let idx = (op / 8) as u8;
        let v = spec_reg_value(pre, m0, idx);
        let r: u8 = if v == 0xFF {
            0
        } else {
            (v + 1) as u8
        };
        spec_set_reg(spec_inc_flags(pre, v), idx, r)
    }))
    &&& (op < 0x40 && op % 8 == 5 && op != 0x35 ==> m1 == m0 && post == ({
        let idx = (op / 8) as u8;
        let v = spec_reg_value(pre, m0, idx);
        let r: u8 = if v == 0 {
            0xFF
        } else {
            (v - 1) as u8
        };
        spec_set_reg(spec_dec_flags(pre, v), idx, r)
    }))
    &&& (op == 0x34 ==> ({
        let v = m0.spec_read_byte(hl);
        let r: u8 = if v == 0xFF {
            0
        } else {
            (v + 1) as u8
        };
        post == spec_inc_flags(pre, v) && m1 == m0.spec_write_byte(hl, r)
    }))
    &&& (op == 0x35 ==> ({
        let v = m0.spec_read_byte(hl);
        let r: u8 = if v == 0 {
            0xFF
        } else {
            (v - 1) as u8
        };
        post == spec_dec_flags(pre, v) && m1 == m0.spec_write_byte(hl, r)
    }))
    // 16-bit immediate loads
    &&& (op == 0x01 ==> m1 == m0 && post == (Cpu {
        registers: Registers {
            b: high_byte(imm16),
            c: low_byte(imm16),
            pc: pc2,
            ..pre.registers
        },
        ..pre
    }))
    &&& (op == 0x11 ==> m1 == m0 && post == (Cpu {
        registers: Registers {
            d: high_byte(imm16),
            e: low_byte(imm16),
            pc: pc2,
            ..pre.registers
        },
        ..pre
    }))
    &&& (op == 0x21 ==> m1 == m0 && post == (Cpu {
        registers: Registers {
            h: high_byte(imm16),
            l: low_byte(imm16),
            pc: pc2,
            ..pre.registers
        },
        ..pre
    }))
    &&& (op == 0x31 ==> m1 == m0 && post == (Cpu {
        registers: Registers { sp: imm16, pc: pc2, ..pre.registers },
        ..pre
    }))
    // Stack pushes and pops
    &&& (op == 0xC5 ==> m1 == spec_push_word(m0, sp, bc) && post == (Cpu {
        registers: Registers { sp: u16_specs::wrapping_sub(sp, 2), ..pre.registers },
        ..pre
    }))
    &&& (op == 0xD5 ==> m1 == spec_push_word(m0, sp, de) && post == (Cpu {
        registers: Registers { sp: u16_specs::wrapping_sub(sp, 2), ..pre.registers },
        ..pre
    }))
    &&& (op == 0xE5 ==> m1 == spec_push_word(m0, sp, hl) && post == (Cpu {
        registers: Registers { sp: u16_specs::wrapping_sub(sp, 2), ..pre.registers },
        ..pre
    }))
    &&& (op == 0xF5 ==> m1 == spec_push_word(m0, sp, word(a, f)) && post == (Cpu {
        registers: Registers { sp: u16_specs::wrapping_sub(sp, 2), ..pre.registers },
        ..pre
    }))
    &&& (op == 0xC1 ==> m1 == m0 && post == (Cpu {
        registers: Registers {
            b: m0.spec_read_byte(u16_specs::wrapping_add(sp, 1)),
            c: m0.spec_read_byte(sp),
            sp: u16_specs::wrapping_add(u16_specs::wrapping_add(sp, 1), 1),
            ..pre.registers
        },
        ..pre
    }))
    &&& (op == 0xD1 ==> m1 == m0 && post == (Cpu {
        registers: Registers {
            d: m0.spec_read_byte(u16_specs::wrapping_add(sp, 1)),
            e: m0.spec_read_byte(sp),
            sp: u16_specs::wrapping_add(u16_specs::wrapping_add(sp, 1), 1),
            ..pre.registers
        },
        ..pre
    }))
    &&& (op == 0xE1 ==> m1 == m0 && post == (Cpu {
        registers: Registers {
            h: m0.spec_read_byte(u16_specs::wrapping_add(sp, 1)),
            l: m0.spec_read_byte(sp),
            sp: u16_specs::wrapping_add(u16_specs::wrapping_add(sp, 1), 1),
            ..pre.registers
        },
        ..pre
    }))
    &&& (op == 0xF1 ==> m1 == m0 && post == (Cpu {
        registers: Registers {
            a: m0.spec_read_byte(u16_specs::wrapping_add(sp, 1)),
            f: m0.spec_read_byte(sp) & 0xF0,
            sp: u16_specs::wrapping_add(u16_specs::wrapping_add(sp, 1), 1),
            ..pre.registers
        },
        ..pre
    }))
    // Unconditional control flow
    &&& (op == 0xC3 ==> m1 == m0 && post == (Cpu {
        registers: Registers { pc: imm16, ..pre.registers },
        ..pre
    }))
    &&& (op == 0x18 ==> m1 == m0 && post == (Cpu {
        registers: Registers { pc: spec_relative_target(pc1, imm8), ..pre.registers },
        ..pre
    }))
    &&& (op == 0xCD ==> m1 == spec_push_word(m0, sp, pc2) && post == (Cpu {
        registers: Registers {
            pc: imm16,
            sp: u16_specs::wrapping_sub(sp, 2),
            ..pre.registers
        },
        ..pre
    }))
    &&& (op == 0xC9 ==> m1 == m0 && post == (Cpu {
        registers: Registers {
            pc: word(m0.spec_read_byte(u16_specs::wrapping_add(sp, 1)), m0.spec_read_byte(sp)),
            sp: u16_specs::wrapping_add(u16_specs::wrapping_add(sp, 1), 1),
            ..pre.registers
        },
        ..pre
    }))
    &&& (op == 0xD9 ==> m1 == m0 && post == (Cpu {
        registers: Registers {
            pc: word(m0.spec_read_byte(u16_specs::wrapping_add(sp, 1)), m0.spec_read_byte(sp)),
            sp: u16_specs::wrapping_add(u16_specs::wrapping_add(sp, 1), 1),
            ..pre.registers
        },
        ime: true,
        ..pre
    }))
    &&& (op == 0xC7 || op == 0xCF || op == 0xD7 || op == 0xDF || op == 0xE7 || op == 0xEF || op
        == 0xF7 || op == 0xFF ==> m1 == spec_push_word(m0, sp, pc) && post == (Cpu {
        registers: Registers {
            pc: (op - 0xC7) as u16,
            sp: u16_specs::wrapping_sub(sp, 2),
            ..pre.registers
        },
        ..pre
    }))
    // Conditional control flow, both branches
    &&& (op == 0x20 || op == 0x28 || op == 0x30 || op == 0x38 ==> m1 == m0 && post == (Cpu {
        registers: Registers {
            pc: if taken {
                spec_relative_target(pc1, imm8)
            } else {
                pc1
            },
            ..pre.registers
        },
        ..pre
    }))
    &&& (op == 0xC2 || op == 0xCA || op == 0xD2 || op == 0xDA ==> m1 == m0 && post == (Cpu {
        registers: Registers {
            pc: if taken {
                imm16
            } else {
                pc2
            },
            ..pre.registers
        },
        ..pre
    }))
    &&& (op == 0xC4 || op == 0xCC || op == 0xD4 || op == 0xDC ==> (if taken {
        m1 == spec_push_word(m0, sp, pc2) && post == (Cpu {
            registers: Registers {
                pc: imm16,
                sp: u16_specs::wrapping_sub(sp, 2),
                ..pre.registers
            },
            ..pre
        })
    } else {
        m1 == m0 && post == (Cpu { registers: Registers { pc: pc2, ..pre.registers }, ..pre })
    }))
    &&& (op == 0xC0 || op == 0xC8 || op == 0xD0 || op == 0xD8 ==> m1 == m0 && (if taken {
        post == (Cpu {
            registers: Registers {
                pc: word(
                    m0.spec_read_byte(u16_specs::wrapping_add(sp, 1)),
                    m0.spec_read_byte(sp),
                ),
                sp: u16_specs::wrapping_add(u16_specs::wrapping_add(sp, 1), 1),
                ..pre.registers
            },
            ..pre
        })
    } else {
        post == pre
    }))
    // Loads through register pairs, with post-increment/decrement HL
    &&& (op == 0x02 ==> post == pre && m1 == m0.spec_write_byte(bc, a))
    &&& (op == 0x12 ==> post == pre && m1 == m0.spec_write_byte(de, a))
    &&& (op == 0x0A ==> m1 == m0 && post == (Cpu {
        registers: Registers { a: m0.spec_read_byte(bc), ..pre.registers },
        ..pre
    }))
    &&& (op == 0x1A ==> m1 == m0 && post == (Cpu {
        registers: Registers { a: m0.spec_read_byte(de), ..pre.registers },
        ..pre
    }))
    &&& (op == 0x22 ==> m1 == m0.spec_write_byte(hl, a) && post == (Cpu {
        registers: Registers {
            h: high_byte(u16_specs::wrapping_add(hl, 1)),
            l: low_byte(u16_specs::wrapping_add(hl, 1)),
            ..pre.registers
        },
        ..pre
    }))
    &&& (op == 0x2A ==> m1 == m0 && post == (Cpu {
        registers: Registers {
            a: m0.spec_read_byte(hl),
            h: high_byte(u16_specs::wrapping_add(hl, 1)),
            l: low_byte(u16_specs::wrapping_add(hl, 1)),
            ..pre.registers
        },
        ..pre
    }))
    &&& (op == 0x32 ==> m1 == m0.spec_write_byte(hl, a) && post == (Cpu {
        registers: Registers {
            h: high_byte(u16_specs::wrapping_sub(hl, 1)),
            l: low_byte(u16_specs::wrapping_sub(hl, 1)),
            ..pre.registers
        },
        ..pre
    }))
    &&& (op == 0x3A ==> m1 == m0 && post == (Cpu {
        registers: Registers {
            a: m0.spec_read_byte(hl),
            h: high_byte(u16_specs::wrapping_sub(hl, 1)),
            l: low_byte(u16_specs::wrapping_sub(hl, 1)),
            ..pre.registers
        },
        ..pre
    }))
    // 16-bit arithmetic
    &&& (op == 0x09 || op == 0x19 || op == 0x29 || op == 0x39 ==> ({
        let rhs: u16 = if op == 0x09 {
            bc
        } else if op == 0x19 {
            de
        } else if op == 0x29 {
            hl
        } else {
            sp
        };
        let sum = u16_specs::wrapping_add(hl, rhs);
        m1 == m0 && post == (Cpu {
            registers: Registers {
                h: high_byte(sum),
                l: low_byte(sum),
                f: spec_apply_flags(
                    f,
                    f & 0x80 != 0,
                    false,
                    (hl & 0xFFF) + (rhs & 0xFFF) > 0xFFF,
                    hl > 0xFFFF - rhs,
                ),
                ..pre.registers
            },
            ..pre
        })
    }))
    &&& (op == 0x03 ==> m1 == m0 && post == (Cpu {
        registers: Registers {
            b: high_byte(u16_specs::wrapping_add(bc, 1)),
            c: low_byte(u16_specs::wrapping_add(bc, 1)),
            ..pre.registers
        },
        ..pre
    }))
    &&& (op == 0x13 ==> m1 == m0 && post == (Cpu {
        registers: Registers {
            d: high_byte(u16_specs::wrapping_add(de, 1)),
            e: low_byte(u16_specs::wrapping_add(de, 1)),
            ..pre.registers
        },
        ..pre
    }))
    &&& (op == 0x23 ==> m1 == m0 && post == (Cpu {
        registers: Registers {
            h: high_byte(u16_specs::wrapping_add(hl, 1)),
            l: low_byte(u16_specs::wrapping_add(hl, 1)),
            ..pre.registers
        },
        ..pre
    }))
    &&& (op == 0x33 ==> m1 == m0 && post == (Cpu {
        registers: Registers { sp: u16_specs::wrapping_add(sp, 1), ..pre.registers },
        ..pre
    }))
    &&& (op == 0x0B ==> m1 == m0 && post == (Cpu {
        registers: Registers {
            b: high_byte(u16_specs::wrapping_sub(bc, 1)),
            c: low_byte(u16_specs::wrapping_sub(bc, 1)),
            ..pre.registers
        },
        ..pre
    }))
    &&& (op == 0x1B ==> m1 == m0 && post == (Cpu {
        registers: Registers {
            d: high_byte(u16_specs::wrapping_sub(de, 1)),
            e: low_byte(u16_specs::wrapping_sub(de, 1)),
            ..pre.registers
        },
        ..pre
    }))
    &&& (op == 0x2B ==> m1 == m0 && post == (Cpu {
        registers: Registers {
            h: high_byte(u16_specs::wrapping_sub(hl, 1)),
            l: low_byte(u16_specs::wrapping_sub(hl, 1)),
            ..pre.registers
        },
        ..pre
    }))
    &&& (op == 0x3B ==> m1 == m0 && post == (Cpu {
        registers: Registers { sp: u16_specs::wrapping_sub(sp, 1), ..pre.registers },
        ..pre
    }))
    // Rotates of A force Z to zero
    &&& (op == 0x07 || op == 0x0F || op == 0x17 || op == 0x1F ==> ({
        let row: u8 = ((op / 8) % 8) as u8;
        m1 == m0 && post == (Cpu {
            registers: Registers {
                a: spec_shift_result(row, a, cin),
                f: spec_apply_flags(f, false, false, false, spec_shift_carry(row, a)),
                ..pre.registers
            },
            ..pre
        })
    }))
    // Accumulator/flag opcodes
    &&& (op == 0x27 ==> m1 == m0 && post == spec_daa(pre))
    &&& (op == 0x2F ==> m1 == m0 && post == (Cpu {
        registers: Registers { a: !a, f: (f | 0x40) | 0x20, ..pre.registers },
        ..pre
    }))
    &&& (op == 0x37 ==> m1 == m0 && post == (Cpu {
        registers: Registers { f: ((f & 0xBF) & 0xDF) | 0x10, ..pre.registers },
        ..pre
    }))
    &&& (op == 0x3F ==> m1 == m0 && post == (Cpu {
        registers: Registers {
            f: if cin {
                ((f & 0xBF) & 0xDF) & 0xEF
            } else {
                ((f & 0xBF) & 0xDF) | 0x10
            },
            ..pre.registers
        },
        ..pre
    }))
    // High-page and direct-address loads
    &&& (op == 0xE0 ==> m1 == m0.spec_write_byte((0xFF00 + imm8) as u16, a) && post == (Cpu {
        registers: Registers { pc: pc1, ..pre.registers },
        ..pre
    }))
    &&& (op == 0xF0 ==> m1 == m0 && post == (Cpu {
        registers: Registers {
            a: m0.spec_read_byte((0xFF00 + imm8) as u16),
            pc: pc1,
            ..pre.registers
        },
        ..pre
    }))
    &&& (op == 0xE2 ==> post == pre && m1 == m0.spec_write_byte(
        (0xFF00 + pre.registers.c) as u16,
        a,
    ))
    &&& (op == 0xF2 ==> m1 == m0 && post == (Cpu {
        registers: Registers {
            a: m0.spec_read_byte((0xFF00 + pre.registers.c) as u16),
            ..pre.registers
        },
        ..pre
    }))
    &&& (op == 0xEA ==> m1 == m0.spec_write_byte(imm16, a) && post == (Cpu {
        registers: Registers { pc: pc2, ..pre.registers },
        ..pre
    }))
    &&& (op == 0xFA ==> m1 == m0 && post == (Cpu {
        registers: Registers { a: m0.spec_read_byte(imm16), pc: pc2, ..pre.registers },
        ..pre
    }))
    // SP arithmetic and transfers
    &&& (op == 0xE8 ==> ({
        let off = spec_signed_offset(imm8);
        let res = u16_specs::wrapping_add(sp, off);
        m1 == m0 && post == (Cpu {
            registers: Registers {
                sp: res,
                pc: pc1,
                f: spec_apply_flags(
                    f,
                    false,
                    false,
                    (sp & 0xF) + (off & 0xF) > 0xF,
                    (sp & 0xFF) + (off & 0xFF) > 0xFF,
                ),
                ..pre.registers
            },
            ..pre
        })
    }))
    &&& (op == 0xF8 ==> ({
        let off = spec_signed_offset(imm8);
        let res = u16_specs::wrapping_add(sp, off);
        m1 == m0 && post == (Cpu {
            registers: Registers {
                h: high_byte(res),
                l: low_byte(res),
                pc: pc1,
                f: spec_apply_flags(
                    f,
                    false,
                    false,
                    (sp & 0xF) + (off & 0xF) > 0xF,
                    (sp & 0xFF) + (off & 0xFF) > 0xFF,
                ),
                ..pre.registers
            },
            ..pre
        })
    }))
    &&& (op == 0xF9 ==> m1 == m0 && post == (Cpu {
        registers: Registers { sp: hl, ..pre.registers },
        ..pre
    }))
    &&& (op == 0x08 ==> post == (Cpu { registers: Registers { pc: pc2, ..pre.registers }, ..pre })
        && m1 == m0.spec_write_byte(imm16, low_byte(sp)).spec_write_byte(
        u16_specs::wrapping_add(imm16, 1),
        high_byte(sp),
    ))
    &&& (op == 0xE9 ==> m1 == m0 && post == (Cpu {
        registers: Registers { pc: hl, ..pre.registers },
        ..pre
    }))
    // The CB prefix: the next byte selects the operation
    &&& (op == 0xCB ==> spec_cb_effect(
        imm8,
        (Cpu { registers: Registers { pc: pc1, ..pre.registers }, ..pre }),
        m0,
        post,
        m1,
    ))
}

/// Decodes and runs one opcode (PC already points past it) and returns
/// its cycle count, which always matches the table `spec_cycles`; the
/// instruction's exact effect on the CPU and the bus is fixed by
/// `spec_instruction_effect`.
#[verifier::rlimit(100)]
pub fn execute(cpu: &mut Cpu, opcode: u8, memory: &mut Memory) -> (r: u8)
    requires
        old(memory).wf(),
        spec_is_implemented(opcode),
    ensures
        final(memory).wf(),
        r == spec_cycles(
            opcode,
            old(cpu).registers.spec_flag_z(),
            old(cpu).registers.spec_flag_c(),
            old(memory)@.spec_read_byte(old(cpu).registers.pc),
        ),
        4 <= r <= 24,
        final(cpu).cycles == old(cpu).cycles,
        old(cpu).registers.f & 0x0F == 0 ==> final(cpu).registers.f & 0x0F == 0,
        spec_instruction_effect(opcode, *old(cpu), old(memory)@, *final(cpu), final(memory)@),
{
    match opcode {
        // 8-bit immediate loads
        0x06 => {
            let v = cpu.fetch_byte(memory);
            cpu.registers.b = v;
            8
        },
        0x0E => {
            let v = cpu.fetch_byte(memory);
            cpu.registers.c = v;
            8
        },
        0x16 => {
            let v = cpu.fetch_byte(memory);
            cpu.registers.d = v;
            8
        },
        0x1E => {
            let v = cpu.fetch_byte(memory);
            cpu.registers.e = v;
            8
        },
        0x26 => {
            let v = cpu.fetch_byte(memory);
            cpu.registers.h = v;
            8
        },
        0x2E => {
            let v = cpu.fetch_byte(memory);
            cpu.registers.l = v;
            8
        },
        0x3E => {
            let v = cpu.fetch_byte(memory);
            cpu.registers.a = v;
            8
        },
        // Loads into and out of A
        0x7F => {
            4
        },
        0x78 => {
            cpu.registers.a = cpu.registers.b;
            4
        },
        0x79 => {
            cpu.registers.a = cpu.registers.c;
            4
        },
        0x7A => {
            cpu.registers.a = cpu.registers.d;
            4
        },
        0x7B => {
            cpu.registers.a = cpu.registers.e;
            4
        },
        0x7C => {
            cpu.registers.a = cpu.registers.h;
            4
        },
        0x7D => {
            cpu.registers.a = cpu.registers.l;
            4
        },
        0x47 => {
            cpu.registers.b = cpu.registers.a;
            4
        },
        0x4F => {
            cpu.registers.c = cpu.registers.a;
            4
        },
        0x57 => {
            cpu.registers.d = cpu.registers.a;
            4
        },
        0x5F => {
            cpu.registers.e = cpu.registers.a;
            4
        },
        0x67 => {
            cpu.registers.h = cpu.registers.a;
            4
        },
        0x6F => {
            cpu.registers.l = cpu.registers.a;
            4
        },
        // LD A, (HL) and LD (HL), A
        0x7E => {
            let addr = cpu.registers.hl();
            cpu.registers.a = memory.read_byte(addr);
            8
        },
        0x77 => {
            let addr = cpu.registers.hl();
            memory.write_byte(addr, cpu.registers.a);
            8
        },
        // 16-bit immediate loads
        0x01 => {
            let v = cpu.fetch_word(memory);
            cpu.registers.set_bc(v);
            12
        },
        0x11 => {
            let v = cpu.fetch_word(memory);
            cpu.registers.set_de(v);
            12
        },
        0x21 => {
            let v = cpu.fetch_word(memory);
            cpu.registers.set_hl(v);
            12
        },
        0x31 => {
            let v = cpu.fetch_word(memory);
            cpu.registers.sp = v;
            12
        },
        // Stack pushes and pops
        0xF5 => {
            let v = cpu.registers.af();
            cpu.push_word(v, memory);
            16
        },
        0xC5 => {
            let v = cpu.registers.bc();
            cpu.push_word(v, memory);
            16
        },
        0xD5 => {
            let v = cpu.registers.de();
            cpu.push_word(v, memory);
            16
        },
        0xE5 => {
            let v = cpu.registers.hl();
            cpu.push_word(v, memory);
            16
        },
        0xF1 => {
            let v = cpu.pop_word(memory);
            cpu.registers.set_af(v);
            proof {
                crate::registers::lemma_bytes_word(
                    old(memory)@.spec_read_byte(u16_specs::wrapping_add(old(cpu).registers.sp, 1)),
                    old(memory)@.spec_read_byte(old(cpu).registers.sp),
                );
            }
            12
        },
        0xC1 => {
            let v = cpu.pop_word(memory);
            cpu.registers.set_bc(v);
            proof {
                crate::registers::lemma_bytes_word(
                    old(memory)@.spec_read_byte(u16_specs::wrapping_add(old(cpu).registers.sp, 1)),
                    old(memory)@.spec_read_byte(old(cpu).registers.sp),
                );
            }
            12
        },
        0xD1 => {
            let v = cpu.pop_word(memory);
            cpu.registers.set_de(v);
            proof {
                crate::registers::lemma_bytes_word(
                    old(memory)@.spec_read_byte(u16_specs::wrapping_add(old(cpu).registers.sp, 1)),
                    old(memory)@.spec_read_byte(old(cpu).registers.sp),
                );
            }
            12
        },
        0xE1 => {
            let v = cpu.pop_word(memory);
            cpu.registers.set_hl(v);
            proof {
                crate::registers::lemma_bytes_word(
                    old(memory)@.spec_read_byte(u16_specs::wrapping_add(old(cpu).registers.sp, 1)),
                    old(memory)@.spec_read_byte(old(cpu).registers.sp),
                );
            }
            12
        },
        // Unconditional control flow
        0xC3 => {
            let addr = cpu.fetch_word(memory);
            cpu.registers.pc = addr;
            16
        },
        0x18 => {
            let offset = cpu.fetch_byte(memory);
            cpu.registers.pc = crate::opcodes_extended::relative_target(cpu.registers.pc, offset);
            12
        },
        0xCD => {
            let addr = cpu.fetch_word(memory);
            let pc = cpu.registers.pc;
            cpu.push_word(pc, memory);
            cpu.registers.pc = addr;
            24
        },
        0xC9 => {
            let addr = cpu.pop_word(memory);
            cpu.registers.pc = addr;
            16
        },
        // ALU on A itself and compare-immediate
        0xA7 => {
            let v = cpu.registers.a;
            cpu.and_a(v);
            4
        },
        0xAF => {
            let v = cpu.registers.a;
            cpu.xor_a(v);
            4
        },
        0xB7 => {
            let v = cpu.registers.a;
            cpu.or_a(v);
            4
        },
        0xFE => {
            let n = cpu.fetch_byte(memory);
            cpu.cp_a(n);
            8
        },
        // 8-bit increments and decrements
        0x3C => {
            let v = cpu.registers.a;
            let r = cpu.inc(v);
            cpu.registers.a = r;
            4
        },
        0x04 => {
            let v = cpu.registers.b;
            let r = cpu.inc(v);
            cpu.registers.b = r;
            4
        },
        0x0C => {
            let v = cpu.registers.c;
            let r = cpu.inc(v);
            cpu.registers.c = r;
            4
        },
        0x14 => {
            let v = cpu.registers.d;
            let r = cpu.inc(v);
            cpu.registers.d = r;
            4
        },
        0x1C => {
            let v = cpu.registers.e;
            let r = cpu.inc(v);
            cpu.registers.e = r;
            4
        },
        0x24 => {
            let v = cpu.registers.h;
            let r = cpu.inc(v);
            cpu.registers.h = r;
            4
        },
        0x2C => {
            let v = cpu.registers.l;
            let r = cpu.inc(v);
            cpu.registers.l = r;
            4
        },
        0x3D => {
            let v = cpu.registers.a;
            let r = cpu.dec(v);
            cpu.registers.a = r;
            4
        },
        0x05 => {
            let v = cpu.registers.b;
            let r = cpu.dec(v);
            cpu.registers.b = r;
            4
        },
        0x0D => {
            let v = cpu.registers.c;
            let r = cpu.dec(v);
            cpu.registers.c = r;
            4
        },
        0x15 => {
            let v = cpu.registers.d;
            let r = cpu.dec(v);
            cpu.registers.d = r;
            4
        },
        0x1D => {
            let v = cpu.registers.e;
            let r = cpu.dec(v);
            cpu.registers.e = r;
            4
        },
        0x25 => {
            let v = cpu.registers.h;
            let r = cpu.dec(v);
            cpu.registers.h = r;
            4
        },
        0x2D => {
            let v = cpu.registers.l;
            let r = cpu.dec(v);
            cpu.registers.l = r;
            4
        },
        // Control state
        0x00 => 4,
        0x76 => {
            cpu.halt = true;
            4
        },
        0xF3 => {
            cpu.ime = false;
            4
        },
        0xFB => {
            cpu.ime_pending = true;
            4
        },
        // CB prefix: the next byte selects the operation
        0xCB => {
            let cb_opcode = cpu.fetch_byte(memory);
            crate::opcodes_cb::execute_cb(cpu, cb_opcode, memory)
        },
        _ => {
            let cycles = crate::opcodes_alu::execute_alu(cpu, opcode, memory);
            if cycles != 0 {
                return cycles;
            }
            let cycles = crate::opcodes_extended::execute_extended(cpu, opcode, memory);
            proof {
                assert(cycles != 0);
            }
            cycles
        },
    }
}

/// `POP AF; PUSH AF` leaves memory unchanged and clears the low nibble
/// of F.  This composes the two opcodes' effects as `execute` states
/// them: with SP and SP+1 inside work RAM and the byte under SP already
/// carrying a clear low nibble, the push writes back the very bytes the
/// pop read (F filtered to its high nibble), and the popped F has a
/// zero low nibble.
pub proof fn lemma_pop_af_push_af(m: crate::memory::MemoryView, sp: u16)
    requires
        m.wf(),
        0xC000 <= sp,
        sp + 1 < 0xE000,
        m.spec_read_byte(sp) & 0x0F == 0,
    ensures
        ({
            let a = m.spec_read_byte(u16_specs::wrapping_add(sp, 1));
            let f = m.spec_read_byte(sp) & 0xF0;
            &&& spec_push_word(
                m,
                u16_specs::wrapping_add(u16_specs::wrapping_add(sp, 1), 1),
                word(a, f),
            ) == m
            &&& f & 0x0F == 0
        }),
{
    let a = m.spec_read_byte((sp + 1) as u16);
    let f0 = m.spec_read_byte(sp);
    let f = f0 & 0xF0;
    proof_pop_push_helper(f0);
    crate::registers::lemma_bytes_word(a, f);
    let m1 = m.spec_write_byte((sp + 1) as u16, a);
    assert(m1.wram =~= m.wram);
    assert(m1 == m);
    let m2 = m1.spec_write_byte(sp, f);
    assert(m2.wram =~= m.wram);
    assert(m2 == m);
}

/// The low nibble of a byte with a clear low nibble survives masking to
/// the high nibble, and the masked byte is the byte itself.
proof fn proof_pop_push_helper(f0: u8)
    requires
        f0 & 0x0F == 0,
    ensures
        f0 & 0xF0 == f0,
        (f0 & 0xF0) & 0x0F == 0,
{
    assert(f0 & 0x0F == 0 ==> f0 & 0xF0 == f0 && (f0 & 0xF0) & 0x0F == 0) by (bit_vector);
}

/// `LD (HL+), A; LD A, (HL-)` returns HL and A to their initial values
/// and leaves the touched byte equal to A.  This composes the two
/// opcodes' effects as `execute` states them: the store writes A at HL
/// and the load reads back at HL+1, so the law asks that HL sit in work
/// RAM and that the byte after HL already equal A.
pub proof fn lemma_ld_hli_a_then_ld_a_hld(m: crate::memory::MemoryView, hl: u16, a: u8)
    requires
        m.wf(),
        0xC000 <= hl,
        hl + 1 < 0xE000,
        m.spec_read_byte(u16_specs::wrapping_add(hl, 1)) == a,
    ensures
        ({
            let m1 = m.spec_write_byte(hl, a);
            let hl1 = u16_specs::wrapping_add(hl, 1);
            &&& m1.spec_read_byte(hl1) == a
            &&& u16_specs::wrapping_sub(hl1, 1) == hl
            &&& m1.spec_read_byte(hl) == a
        }),
{
}

} // verus!
