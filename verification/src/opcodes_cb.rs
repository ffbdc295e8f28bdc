//! CB-prefixed opcodes: rotates, shifts, nibble swap, and the single-bit
//! test/reset/set family, each over the eight addressable operands
//! {B, C, D, E, H, L, (HL), A}.

use vstd::prelude::*;
use crate::cpu::Cpu;
use crate::memory::{Memory, MemoryView};
use crate::registers::{Registers, word, spec_apply_flags};

verus! {

/// The operand selected by the low three opcode bits: registers B, C,
/// D, E, H, L, the byte at (HL), then A.
pub open spec fn spec_reg_value(cpu: Cpu, mem: MemoryView, index: u8) -> u8 {
    if index == 0 {
        cpu.registers.b
    } else if index == 1 {
        cpu.registers.c
    } else if index == 2 {
        cpu.registers.d
    } else if index == 3 {
        cpu.registers.e
    } else if index == 4 {
        cpu.registers.h
    } else if index == 5 {
        cpu.registers.l
    } else if index == 6 {
        mem.spec_read_byte(word(cpu.registers.h, cpu.registers.l))
    } else {
        cpu.registers.a
    }
}

/// The CPU after storing to a register operand (indices other than 6).
pub open spec fn spec_set_reg(cpu: Cpu, index: u8, value: u8) -> Cpu {
    if index == 0 {
        Cpu { registers: Registers { b: value, ..cpu.registers }, ..cpu }
    } else if index == 1 {
        Cpu { registers: Registers { c: value, ..cpu.registers }, ..cpu }
    } else if index == 2 {
        Cpu { registers: Registers { d: value, ..cpu.registers }, ..cpu }
    } else if index == 3 {
        Cpu { registers: Registers { e: value, ..cpu.registers }, ..cpu }
    } else if index == 4 {
        Cpu { registers: Registers { h: value, ..cpu.registers }, ..cpu }
    } else if index == 5 {
        Cpu { registers: Registers { l: value, ..cpu.registers }, ..cpu }
    } else if index == 6 {
        cpu
    } else {
        Cpu { registers: Registers { a: value, ..cpu.registers }, ..cpu }
    }
}

/// The result of the rotate/shift/swap rows 0..8 (RLC, RRC, RL, RR,
/// SLA, SRA, SWAP, SRL) on one operand byte.
pub open spec fn spec_shift_result(row: u8, value: u8, carry_in: bool) -> u8 {
    if row == 0 {
        (value << 1) | (value >> 7)
    } else if row == 1 {
        (value >> 1) | ((value & 1) << 7)
    } else if row == 2 {
        (value << 1) | (if carry_in {
            1
        } else {
            0
        })
    } else if row == 3 {
        (value >> 1) | (if carry_in {
            0x80
        } else {
            0
        })
    } else if row == 4 {
        value << 1
    } else if row == 5 {
        (value >> 1) | (value & 0x80)
    } else if row == 6 {
        ((value & 0x0F) << 4) | ((value & 0xF0) >> 4)
    } else {
        value >> 1
    }
}

/// The carry each rotate/shift row produces: the bit shifted out, and
/// none for SWAP.
pub open spec fn spec_shift_carry(row: u8, value: u8) -> bool {
    if row == 0 || row == 2 || row == 4 {
        value >> 7 != 0
    } else if row == 6 {
        false
    } else {
        value & 1 != 0
    }
}

/// The exact effect of one CB-prefixed opcode: `pre` has PC past the CB
/// operand byte.  Rows below 0x40 rotate or shift the operand and set
/// Z from the result and C to the shifted-out bit; BIT tests one bit
/// into Z with H set and C kept; RES and SET rewrite one bit and leave
/// the flags alone.
pub open spec fn spec_cb_effect(cb: u8, pre: Cpu, m0: MemoryView, post: Cpu, m1: MemoryView) -> bool {
    let idx = (cb % 8) as u8;
    let row = ((cb / 8) % 8) as u8;
    let v = spec_reg_value(pre, m0, idx);
    let hl = word(pre.registers.h, pre.registers.l);
    if cb < 0x40 {
        let r = spec_shift_result(row, v, pre.registers.f & 0x10 != 0);
        let f2 = spec_apply_flags(pre.registers.f, r == 0, false, false, spec_shift_carry(row, v));
        if idx == 6 {
            post == (Cpu { registers: Registers { f: f2, ..pre.registers }, ..pre }) && m1
                == m0.spec_write_byte(hl, r)
        } else {
            post == (Cpu {
                registers: Registers { f: f2, ..spec_set_reg(pre, idx, r).registers },
                ..pre
            }) && m1 == m0
        }
    } else if cb < 0x80 {
        let f2 = spec_apply_flags(
            pre.registers.f,
            v & (1u8 << row) == 0,
            false,
            true,
            pre.registers.f & 0x10 != 0,
        );
        post == (Cpu { registers: Registers { f: f2, ..pre.registers }, ..pre }) && m1 == m0
    } else if cb < 0xC0 {
        let r = v & !(1u8 << row);
        if idx == 6 {
            post == pre && m1 == m0.spec_write_byte(hl, r)
        } else {
            post == spec_set_reg(pre, idx, r) && m1 == m0
        }
    } else {
        let r = v | (1u8 << row);
        if idx == 6 {
            post == pre && m1 == m0.spec_write_byte(hl, r)
        } else {
            post == spec_set_reg(pre, idx, r) && m1 == m0
        }
    }
}

/// Cycle counts of CB-prefixed opcodes, prefix fetch included: 8 on a
/// register operand, 16 on (HL), except BIT on (HL) at 12.
pub open spec fn spec_cb_cycles(opcode: u8) -> u8 {
    if opcode % 8 == 6 {
        if 0x40 <= opcode && opcode < 0x80 {
            12
        } else {
            16
        }
    } else {
        8
    }
}

pub(crate) fn get_reg_value(cpu: &Cpu, index: u8, memory: &Memory) -> (r: u8)
    requires
        memory.wf(),
        index < 8,
    ensures
        r == spec_reg_value(*cpu, memory@, index),
{
    if index == 0 {
        cpu.registers.b
    } else if index == 1 {
        cpu.registers.c
    } else if index == 2 {
        cpu.registers.d
    } else if index == 3 {
        cpu.registers.e
    } else if index == 4 {
        cpu.registers.h
    } else if index == 5 {
        cpu.registers.l
    } else if index == 6 {
        memory.read_byte(cpu.registers.hl())
    } else {
        cpu.registers.a
    }
}

pub(crate) fn set_reg_value(cpu: &mut Cpu, index: u8, value: u8, memory: &mut Memory)
    requires
        old(memory).wf(),
        index < 8,
    ensures
        final(memory).wf(),
        index == 6 ==> *final(cpu) == *old(cpu) && final(memory)@ == old(memory)@.spec_write_byte(
            word(old(cpu).registers.h, old(cpu).registers.l),
            value,
        ),
        index != 6 ==> final(memory)@ == old(memory)@ && *final(cpu) == spec_set_reg(
            *old(cpu),
            index,
            value,
        ),
{
    if index == 0 {
        cpu.registers.b = value;
    } else if index == 1 {
        cpu.registers.c = value;
    } else if index == 2 {
        cpu.registers.d = value;
    } else if index == 3 {
        cpu.registers.e = value;
    } else if index == 4 {
        cpu.registers.h = value;
    } else if index == 5 {
        cpu.registers.l = value;
    } else if index == 6 {
        let addr = cpu.registers.hl();
        memory.write_byte(addr, value);
    } else {
        cpu.registers.a = value;
    }
}

fn get_cycles(index: u8) -> (r: u8)
    ensures
        r == (if index == 6 { 16u8 } else { 8u8 }),
{
    if index == 6 {
        16
    } else {
        8
    }
}

fn get_bit_cycles(index: u8) -> (r: u8)
    ensures
        r == (if index == 6 { 12u8 } else { 8u8 }),
{
    if index == 6 {
        12
    } else {
        8
    }
}

/// Decodes and runs one CB-prefixed opcode, returning its cycle count.
pub fn execute_cb(cpu: &mut Cpu, opcode: u8, memory: &mut Memory) -> (r: u8)
    requires
        old(memory).wf(),
    ensures
        final(memory).wf(),
        r == spec_cb_cycles(opcode),
        spec_cb_effect(opcode, *old(cpu), old(memory)@, *final(cpu), final(memory)@),
        final(cpu).cycles == old(cpu).cycles,
        final(cpu).ime == old(cpu).ime,
        final(cpu).halt == old(cpu).halt,
        old(cpu).registers.f & 0x0F == 0 ==> final(cpu).registers.f & 0x0F == 0,
{
    let reg_index = opcode % 8;
    let bit_index = (opcode / 8) % 8;
    let op_type = opcode / 64;

    proof {
        assert(opcode % 8 == (opcode % 64) % 8) by (nonlinear_arith);
        assert((opcode / 64 == 0 <==> opcode < 0x40) && (opcode / 64 == 1 <==> 0x40 <= opcode
            && opcode < 0x80) && (opcode / 64 == 2 <==> 0x80 <= opcode && opcode < 0xC0) && (opcode
            / 64 == 3 <==> 0xC0 <= opcode)) by (nonlinear_arith);
    }

    if op_type == 0 {
        if bit_index == 0 {
            rlc_reg(cpu, reg_index, memory)
        } else if bit_index == 1 {
            rrc_reg(cpu, reg_index, memory)
        } else if bit_index == 2 {
            rl_reg(cpu, reg_index, memory)
        } else if bit_index == 3 {
            rr_reg(cpu, reg_index, memory)
        } else if bit_index == 4 {
            sla_reg(cpu, reg_index, memory)
        } else if bit_index == 5 {
            sra_reg(cpu, reg_index, memory)
        } else if bit_index == 6 {
            swap_reg(cpu, reg_index, memory)
        } else {
            srl_reg(cpu, reg_index, memory)
        }
    } else if op_type == 1 {
        bit_reg(cpu, bit_index, reg_index, memory)
    } else if op_type == 2 {
        res_reg(cpu, bit_index, reg_index, memory)
    } else {
        set_reg(cpu, bit_index, reg_index, memory)
    }
}

/// Rotate left circular: bit 7 re-enters at bit 0 and lands in C.
fn rlc_reg(cpu: &mut Cpu, index: u8, memory: &mut Memory) -> (r: u8)
    requires
        old(memory).wf(),
        index < 8,
    ensures
        final(memory).wf(),
        r == (if index == 6 { 16u8 } else { 8u8 }),
        ({
            let v = spec_reg_value(*old(cpu), old(memory)@, index);
            let res = spec_shift_result(0, v, old(cpu).registers.f & 0x10 != 0);
            let f2 = spec_apply_flags(
                old(cpu).registers.f,
                res == 0,
                false,
                false,
                spec_shift_carry(0, v),
            );
            &&& (index == 6 ==> *final(cpu) == (Cpu {
                registers: Registers { f: f2, ..old(cpu).registers },
                ..*old(cpu)
            }) && final(memory)@ == old(memory)@.spec_write_byte(
                word(old(cpu).registers.h, old(cpu).registers.l),
                res,
            ))
            &&& (index != 6 ==> final(memory)@ == old(memory)@ && *final(cpu) == (Cpu {
                registers: Registers { f: f2, ..spec_set_reg(*old(cpu), index, res).registers },
                ..*old(cpu)
            }))
        }),
        old(cpu).registers.f & 0x0F == 0 ==> final(cpu).registers.f & 0x0F == 0,
{
    let value = get_reg_value(cpu, index, memory);
    let carry = value >> 7u8;
    let result = (value << 1u8) | carry;

    set_reg_value(cpu, index, result, memory);

    cpu.registers.set_flag_z(result == 0);
    cpu.registers.set_flag_n(false);
    cpu.registers.set_flag_h(false);
    cpu.registers.set_flag_c(carry != 0);

    get_cycles(index)
}

/// Rotate right circular: bit 0 re-enters at bit 7 and lands in C.
fn rrc_reg(cpu: &mut Cpu, index: u8, memory: &mut Memory) -> (r: u8)
    requires
        old(memory).wf(),
        index < 8,
    ensures
        final(memory).wf(),
        r == (if index == 6 { 16u8 } else { 8u8 }),
        ({
            let v = spec_reg_value(*old(cpu), old(memory)@, index);
            let res = spec_shift_result(1, v, old(cpu).registers.f & 0x10 != 0);
            let f2 = spec_apply_flags(
                old(cpu).registers.f,
                res == 0,
                false,
                false,
                spec_shift_carry(1, v),
            );
            &&& (index == 6 ==> *final(cpu) == (Cpu {
                registers: Registers { f: f2, ..old(cpu).registers },
                ..*old(cpu)
            }) && final(memory)@ == old(memory)@.spec_write_byte(
                word(old(cpu).registers.h, old(cpu).registers.l),
                res,
            ))
            &&& (index != 6 ==> final(memory)@ == old(memory)@ && *final(cpu) == (Cpu {
                registers: Registers { f: f2, ..spec_set_reg(*old(cpu), index, res).registers },
                ..*old(cpu)
            }))
        }),
        old(cpu).registers.f & 0x0F == 0 ==> final(cpu).registers.f & 0x0F == 0,
{
    let value = get_reg_value(cpu, index, memory);
    let carry = value & 0x01;
    let result = (value >> 1u8) | (carry << 7u8);

    set_reg_value(cpu, index, result, memory);

    cpu.registers.set_flag_z(result == 0);
    cpu.registers.set_flag_n(false);
    cpu.registers.set_flag_h(false);
    cpu.registers.set_flag_c(carry != 0);

    get_cycles(index)
}

/// Rotate left through the carry flag.
fn rl_reg(cpu: &mut Cpu, index: u8, memory: &mut Memory) -> (r: u8)
    requires
        old(memory).wf(),
        index < 8,
    ensures
        final(memory).wf(),
        r == (if index == 6 { 16u8 } else { 8u8 }),
        ({
            let v = spec_reg_value(*old(cpu), old(memory)@, index);
            let res = spec_shift_result(2, v, old(cpu).registers.f & 0x10 != 0);
            let f2 = spec_apply_flags(
                old(cpu).registers.f,
                res == 0,
                false,
                false,
                spec_shift_carry(2, v),
            );
            &&& (index == 6 ==> *final(cpu) == (Cpu {
                registers: Registers { f: f2, ..old(cpu).registers },
                ..*old(cpu)
            }) && final(memory)@ == old(memory)@.spec_write_byte(
                word(old(cpu).registers.h, old(cpu).registers.l),
                res,
            ))
            &&& (index != 6 ==> final(memory)@ == old(memory)@ && *final(cpu) == (Cpu {
                registers: Registers { f: f2, ..spec_set_reg(*old(cpu), index, res).registers },
                ..*old(cpu)
            }))
        }),
        old(cpu).registers.f & 0x0F == 0 ==> final(cpu).registers.f & 0x0F == 0,
{
    let value = get_reg_value(cpu, index, memory);
    let old_carry: u8 = if cpu.registers.flag_c() {
        1
    } else {
        0
    };
    let new_carry = value >> 7u8;
    let result = (value << 1u8) | old_carry;

    set_reg_value(cpu, index, result, memory);

    cpu.registers.set_flag_z(result == 0);
    cpu.registers.set_flag_n(false);
    cpu.registers.set_flag_h(false);
    cpu.registers.set_flag_c(new_carry != 0);

    get_cycles(index)
}

/// Rotate right through the carry flag.
fn rr_reg(cpu: &mut Cpu, index: u8, memory: &mut Memory) -> (r: u8)
    requires
        old(memory).wf(),
        index < 8,
    ensures
        final(memory).wf(),
        r == (if index == 6 { 16u8 } else { 8u8 }),
        ({
            let v = spec_reg_value(*old(cpu), old(memory)@, index);
            let res = spec_shift_result(3, v, old(cpu).registers.f & 0x10 != 0);
            let f2 = spec_apply_flags(
                old(cpu).registers.f,
                res == 0,
                false,
                false,
                spec_shift_carry(3, v),
            );
            &&& (index == 6 ==> *final(cpu) == (Cpu {
                registers: Registers { f: f2, ..old(cpu).registers },
                ..*old(cpu)
            }) && final(memory)@ == old(memory)@.spec_write_byte(
                word(old(cpu).registers.h, old(cpu).registers.l),
                res,
            ))
            &&& (index != 6 ==> final(memory)@ == old(memory)@ && *final(cpu) == (Cpu {
                registers: Registers { f: f2, ..spec_set_reg(*old(cpu), index, res).registers },
                ..*old(cpu)
            }))
        }),
        old(cpu).registers.f & 0x0F == 0 ==> final(cpu).registers.f & 0x0F == 0,
{
    let value = get_reg_value(cpu, index, memory);
    let old_carry: u8 = if cpu.registers.flag_c() {
        0x80
    } else {
        0
    };
    let new_carry = value & 0x01;
    let result = (value >> 1u8) | old_carry;

    set_reg_value(cpu, index, result, memory);

    cpu.registers.set_flag_z(result == 0);
    cpu.registers.set_flag_n(false);
    cpu.registers.set_flag_h(false);
    cpu.registers.set_flag_c(new_carry != 0);

    get_cycles(index)
}

/// Shift left arithmetic: bit 7 goes to C, bit 0 becomes zero.
fn sla_reg(cpu: &mut Cpu, index: u8, memory: &mut Memory) -> (r: u8)
    requires
        old(memory).wf(),
        index < 8,
    ensures
        final(memory).wf(),
        r == (if index == 6 { 16u8 } else { 8u8 }),
        ({
            let v = spec_reg_value(*old(cpu), old(memory)@, index);
            let res = spec_shift_result(4, v, old(cpu).registers.f & 0x10 != 0);
            let f2 = spec_apply_flags(
                old(cpu).registers.f,
                res == 0,
                false,
                false,
                spec_shift_carry(4, v),
            );
            &&& (index == 6 ==> *final(cpu) == (Cpu {
                registers: Registers { f: f2, ..old(cpu).registers },
                ..*old(cpu)
            }) && final(memory)@ == old(memory)@.spec_write_byte(
                word(old(cpu).registers.h, old(cpu).registers.l),
                res,
            ))
            &&& (index != 6 ==> final(memory)@ == old(memory)@ && *final(cpu) == (Cpu {
                registers: Registers { f: f2, ..spec_set_reg(*old(cpu), index, res).registers },
                ..*old(cpu)
            }))
        }),
        old(cpu).registers.f & 0x0F == 0 ==> final(cpu).registers.f & 0x0F == 0,
{
    let value = get_reg_value(cpu, index, memory);
    let carry = value >> 7u8;
    let result = value << 1u8;

    set_reg_value(cpu, index, result, memory);

    cpu.registers.set_flag_z(result == 0);
    cpu.registers.set_flag_n(false);
    cpu.registers.set_flag_h(false);
    cpu.registers.set_flag_c(carry != 0);

    get_cycles(index)
}

/// Shift right arithmetic: the sign bit is kept, bit 0 goes to C.
fn sra_reg(cpu: &mut Cpu, index: u8, memory: &mut Memory) -> (r: u8)
    requires
        old(memory).wf(),
        index < 8,
    ensures
        final(memory).wf(),
        r == (if index == 6 { 16u8 } else { 8u8 }),
        ({
            let v = spec_reg_value(*old(cpu), old(memory)@, index);
            let res = spec_shift_result(5, v, old(cpu).registers.f & 0x10 != 0);
            let f2 = spec_apply_flags(
                old(cpu).registers.f,
                res == 0,
                false,
                false,
                spec_shift_carry(5, v),
            );
            &&& (index == 6 ==> *final(cpu) == (Cpu {
                registers: Registers { f: f2, ..old(cpu).registers },
                ..*old(cpu)
            }) && final(memory)@ == old(memory)@.spec_write_byte(
                word(old(cpu).registers.h, old(cpu).registers.l),
                res,
            ))
            &&& (index != 6 ==> final(memory)@ == old(memory)@ && *final(cpu) == (Cpu {
                registers: Registers { f: f2, ..spec_set_reg(*old(cpu), index, res).registers },
                ..*old(cpu)
            }))
        }),
        old(cpu).registers.f & 0x0F == 0 ==> final(cpu).registers.f & 0x0F == 0,
{
    let value = get_reg_value(cpu, index, memory);
    let carry = value & 0x01;
    let result = (value >> 1u8) | (value & 0x80);

    set_reg_value(cpu, index, result, memory);

    cpu.registers.set_flag_z(result == 0);
    cpu.registers.set_flag_n(false);
    cpu.registers.set_flag_h(false);
    cpu.registers.set_flag_c(carry != 0);

    get_cycles(index)
}

/// Swap the two nibbles; all of N, H, C clear.
fn swap_reg(cpu: &mut Cpu, index: u8, memory: &mut Memory) -> (r: u8)
    requires
        old(memory).wf(),
        index < 8,
    ensures
        final(memory).wf(),
        r == (if index == 6 { 16u8 } else { 8u8 }),
        ({
            let v = spec_reg_value(*old(cpu), old(memory)@, index);
            let res = spec_shift_result(6, v, old(cpu).registers.f & 0x10 != 0);
            let f2 = spec_apply_flags(
                old(cpu).registers.f,
                res == 0,
                false,
                false,
                spec_shift_carry(6, v),
            );
            &&& (index == 6 ==> *final(cpu) == (Cpu {
                registers: Registers { f: f2, ..old(cpu).registers },
                ..*old(cpu)
            }) && final(memory)@ == old(memory)@.spec_write_byte(
                word(old(cpu).registers.h, old(cpu).registers.l),
                res,
            ))
            &&& (index != 6 ==> final(memory)@ == old(memory)@ && *final(cpu) == (Cpu {
                registers: Registers { f: f2, ..spec_set_reg(*old(cpu), index, res).registers },
                ..*old(cpu)
            }))
        }),
        old(cpu).registers.f & 0x0F == 0 ==> final(cpu).registers.f & 0x0F == 0,
{
    let value = get_reg_value(cpu, index, memory);
    let result = ((value & 0x0F) << 4u8) | ((value & 0xF0) >> 4u8);

    set_reg_value(cpu, index, result, memory);

    cpu.registers.set_flag_z(result == 0);
    cpu.registers.set_flag_n(false);
    cpu.registers.set_flag_h(false);
    cpu.registers.set_flag_c(false);

    get_cycles(index)
}

/// Shift right logical: bit 7 becomes zero, bit 0 goes to C.
fn srl_reg(cpu: &mut Cpu, index: u8, memory: &mut Memory) -> (r: u8)
    requires
        old(memory).wf(),
        index < 8,
    ensures
        final(memory).wf(),
        r == (if index == 6 { 16u8 } else { 8u8 }),
        ({
            let v = spec_reg_value(*old(cpu), old(memory)@, index);
            let res = spec_shift_result(7, v, old(cpu).registers.f & 0x10 != 0);
            let f2 = spec_apply_flags(
                old(cpu).registers.f,
                res == 0,
                false,
                false,
                spec_shift_carry(7, v),
            );
            &&& (index == 6 ==> *final(cpu) == (Cpu {
                registers: Registers { f: f2, ..old(cpu).registers },
                ..*old(cpu)
            }) && final(memory)@ == old(memory)@.spec_write_byte(
                word(old(cpu).registers.h, old(cpu).registers.l),
                res,
            ))
            &&& (index != 6 ==> final(memory)@ == old(memory)@ && *final(cpu) == (Cpu {
                registers: Registers { f: f2, ..spec_set_reg(*old(cpu), index, res).registers },
                ..*old(cpu)
            }))
        }),
        old(cpu).registers.f & 0x0F == 0 ==> final(cpu).registers.f & 0x0F == 0,
{
    let value = get_reg_value(cpu, index, memory);
    let carry = value & 0x01;
    let result = value >> 1u8;

    set_reg_value(cpu, index, result, memory);

    cpu.registers.set_flag_z(result == 0);
    cpu.registers.set_flag_n(false);
    cpu.registers.set_flag_h(false);
    cpu.registers.set_flag_c(carry != 0);

    get_cycles(index)
}

/// Test one bit: Z is the complement of the bit, N=0, H=1, C preserved.
fn bit_reg(cpu: &mut Cpu, bit: u8, index: u8, memory: &Memory) -> (r: u8)
    requires
        memory.wf(),
        bit < 8,
        index < 8,
    ensures
        r == (if index == 6 { 12u8 } else { 8u8 }),
        *final(cpu) == (Cpu {
            registers: Registers {
                f: spec_apply_flags(
                    old(cpu).registers.f,
                    spec_reg_value(*old(cpu), memory@, index) & (1u8 << bit) == 0,
                    false,
                    true,
                    old(cpu).registers.f & 0x10 != 0,
                ),
                ..old(cpu).registers
            },
            ..*old(cpu)
        }),
        old(cpu).registers.f & 0x0F == 0 ==> final(cpu).registers.f & 0x0F == 0,
{
    let value = get_reg_value(cpu, index, memory);
    let bit_mask = 1u8 << bit;

    cpu.registers.set_flag_z((value & bit_mask) == 0);
    cpu.registers.set_flag_n(false);
    cpu.registers.set_flag_h(true);
    proof {
        crate::registers::lemma_rewrite_flag_noop(cpu.registers.f);
    }

    get_bit_cycles(index)
}

/// Clear one bit of the operand; flags untouched.
fn res_reg(cpu: &mut Cpu, bit: u8, index: u8, memory: &mut Memory) -> (r: u8)
    requires
        old(memory).wf(),
        bit < 8,
        index < 8,
    ensures
        final(memory).wf(),
        r == (if index == 6 { 16u8 } else { 8u8 }),
        ({
            let res = spec_reg_value(*old(cpu), old(memory)@, index) & !(1u8 << bit);
            &&& (index == 6 ==> *final(cpu) == *old(cpu) && final(memory)@ == old(
                memory,
            )@.spec_write_byte(word(old(cpu).registers.h, old(cpu).registers.l), res))
            &&& (index != 6 ==> final(memory)@ == old(memory)@ && *final(cpu) == spec_set_reg(
                *old(cpu),
                index,
                res,
            ))
        }),
    {
    let value = get_reg_value(cpu, index, memory);
    let bit_mask = !(1u8 << bit);
    let result = value & bit_mask;

    set_reg_value(cpu, index, result, memory);

    get_cycles(index)
}

/// Set one bit of the operand; flags untouched.
fn set_reg(cpu: &mut Cpu, bit: u8, index: u8, memory: &mut Memory) -> (r: u8)
    requires
        old(memory).wf(),
        bit < 8,
        index < 8,
    ensures
        final(memory).wf(),
        r == (if index == 6 { 16u8 } else { 8u8 }),
        ({
            let res = spec_reg_value(*old(cpu), old(memory)@, index) | (1u8 << bit);
            &&& (index == 6 ==> *final(cpu) == *old(cpu) && final(memory)@ == old(
                memory,
            )@.spec_write_byte(word(old(cpu).registers.h, old(cpu).registers.l), res))
            &&& (index != 6 ==> final(memory)@ == old(memory)@ && *final(cpu) == spec_set_reg(
                *old(cpu),
                index,
                res,
            ))
        }),
{
    let value = get_reg_value(cpu, index, memory);
    let bit_mask = 1u8 << bit;
    let result = value | bit_mask;

    set_reg_value(cpu, index, result, memory);

    get_cycles(index)
}

} // verus!
