//! The register-indexed decoder rows: the `LD r, r'` quarter of the
//! opcode map (less the loads into A, which sit in the main decoder),
//! stores to (HL), and the eight-operation 8-bit ALU quarter with its
//! immediate forms.

use vstd::prelude::*;
use crate::cpu::{Cpu, spec_alu_result};
use crate::memory::Memory;
use crate::opcodes::{spec_cycles, spec_instruction_effect};
use crate::opcodes_cb::{get_reg_value, set_reg_value};

verus! {

/// The opcodes this decoder row handles.  `LD r, r'` rows 0x40..0x70
/// except sources A (column 7); stores 0x70..0x76; `LD (HL), n`; the
/// ALU quarter 0x80..0xC0 except `AND/XOR/OR A`; and the ALU immediates
/// except `CP n`.
pub open spec fn spec_alu_handles(opcode: u8) -> bool {
    ||| (0x40 <= opcode && opcode < 0x70 && opcode % 8 != 7)
    ||| (0x70 <= opcode && opcode < 0x76)
    ||| opcode == 0x36
    ||| (0x80 <= opcode && opcode < 0xC0 && opcode != 0xA7 && opcode != 0xAF && opcode != 0xB7)
    ||| opcode == 0xC6 || opcode == 0xCE || opcode == 0xD6 || opcode == 0xDE || opcode == 0xE6
        || opcode == 0xEE || opcode == 0xF6
}

/// Applies ALU operation `op_index` (ADD, ADC, SUB, SBC, AND, XOR, OR,
/// CP in row order) of `value` into A.
fn apply_alu(cpu: &mut Cpu, op_index: u8, value: u8)
    requires
        op_index < 8,
    ensures
        *final(cpu) == spec_alu_result(*old(cpu), op_index, value),
        final(cpu).registers.f & 0x0F == old(cpu).registers.f & 0x0F,
{
    if op_index == 0 {
        cpu.add_a(value);
    } else if op_index == 1 {
        cpu.adc_a(value);
    } else if op_index == 2 {
        cpu.sub_a(value);
    } else if op_index == 3 {
        cpu.sbc_a(value);
    } else if op_index == 4 {
        cpu.and_a(value);
    } else if op_index == 5 {
        cpu.xor_a(value);
    } else if op_index == 6 {
        cpu.or_a(value);
    } else {
        cpu.cp_a(value);
    }
}

/// Runs one opcode of this decoder row, returning its cycle count, or
/// 0 when the opcode belongs to another row.
pub fn execute_alu(cpu: &mut Cpu, opcode: u8, memory: &mut Memory) -> (r: u8)
    requires
        old(memory).wf(),
    ensures
        final(memory).wf(),
        spec_alu_handles(opcode) ==> r == spec_cycles(
            opcode,
            old(cpu).registers.spec_flag_z(),
            old(cpu).registers.spec_flag_c(),
            old(memory)@.spec_read_byte(old(cpu).registers.pc),
        ) && 4 <= r <= 24,
        !spec_alu_handles(opcode) ==> r == 0 && *final(cpu) == *old(cpu) && final(memory)@ == old(
            memory,
        )@,
        final(cpu).cycles == old(cpu).cycles,
        final(cpu).ime == old(cpu).ime,
        final(cpu).halt == old(cpu).halt,
        old(cpu).registers.f & 0x0F == 0 ==> final(cpu).registers.f & 0x0F == 0,
        spec_alu_handles(opcode) ==> spec_instruction_effect(
            opcode,
            *old(cpu),
            old(memory)@,
            *final(cpu),
            final(memory)@,
        ),
{
    if 0x40 <= opcode && opcode < 0x70 && opcode % 8 != 7 {
        // LD r, r': destination from bits 5..3, source from bits 2..0.
        let value = get_reg_value(cpu, opcode % 8, memory);
        set_reg_value(cpu, (opcode - 0x40) / 8, value, memory);
        if opcode % 8 == 6 {
            8
        } else {
            4
        }
    } else if 0x70 <= opcode && opcode < 0x76 {
        // LD (HL), r for sources B..L.
        let value = get_reg_value(cpu, opcode % 8, memory);
        let addr = cpu.registers.hl();
        memory.write_byte(addr, value);
        8
    } else if opcode == 0x36 {
        // LD (HL), n
        let addr = cpu.registers.hl();
        let value = cpu.fetch_byte(memory);
        memory.write_byte(addr, value);
        12
    } else if 0x80 <= opcode && opcode < 0xC0 && opcode != 0xA7 && opcode != 0xAF && opcode
        != 0xB7 {
        // The ALU quarter: operation from bits 5..3, operand from 2..0.
        let value = get_reg_value(cpu, opcode % 8, memory);
        apply_alu(cpu, (opcode - 0x80) / 8, value);
        if opcode % 8 == 6 {
            8
        } else {
            4
        }
    } else if opcode == 0xC6 || opcode == 0xCE || opcode == 0xD6 || opcode == 0xDE || opcode
        == 0xE6 || opcode == 0xEE || opcode == 0xF6 {
        // ALU with an immediate operand.
        let n = cpu.fetch_byte(memory);
        apply_alu(cpu, (opcode - 0xC0) / 8, n);
        8
    } else {
        0
    }
}

} // verus!
