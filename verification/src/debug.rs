//! A plain snapshot of the CPU registers for the debug interface.

use vstd::prelude::*;
use crate::cpu::Cpu;
use crate::registers::word;

verus! {

#[derive(Debug, Clone)]
pub struct CpuState {
    pub a: u8,
    pub b: u8,
    pub c: u8,
    pub d: u8,
    pub e: u8,
    pub h: u8,
    pub l: u8,
    pub f: u8,
    pub sp: u16,
    pub pc: u16,
    pub ime: bool,
    pub halt: bool,
}

impl CpuState {
    /// Copies every register, IME and the HALT latch out of the CPU.
    pub fn from_cpu(cpu: &Cpu) -> (r: CpuState)
        ensures
            r.a == cpu.registers.a,
            r.b == cpu.registers.b,
            r.c == cpu.registers.c,
            r.d == cpu.registers.d,
            r.e == cpu.registers.e,
            r.h == cpu.registers.h,
            r.l == cpu.registers.l,
            r.f == cpu.registers.f,
            r.sp == cpu.registers.sp,
            r.pc == cpu.registers.pc,
            r.ime == cpu.ime,
            r.halt == cpu.halt,
    {
        CpuState {
            a: cpu.registers.a,
            b: cpu.registers.b,
            c: cpu.registers.c,
            d: cpu.registers.d,
            e: cpu.registers.e,
            h: cpu.registers.h,
            l: cpu.registers.l,
            f: cpu.registers.f,
            sp: cpu.registers.sp,
            pc: cpu.registers.pc,
            ime: cpu.ime,
            halt: cpu.halt,
        }
    }

    pub fn af(&self) -> (r: u16)
        ensures
            r == word(self.a, self.f),
    {
        (self.a as u16) << 8 | self.f as u16
    }

    pub fn bc(&self) -> (r: u16)
        ensures
            r == word(self.b, self.c),
    {
        (self.b as u16) << 8 | self.c as u16
    }

    pub fn de(&self) -> (r: u16)
        ensures
            r == word(self.d, self.e),
    {
        (self.d as u16) << 8 | self.e as u16
    }

    pub fn hl(&self) -> (r: u16)
        ensures
            r == word(self.h, self.l),
    {
        (self.h as u16) << 8 | self.l as u16
    }

    pub fn flag_z(&self) -> (r: bool)
        ensures
            r == (self.f & 0x80 != 0),
    {
        (self.f & 0x80) != 0
    }

    pub fn flag_n(&self) -> (r: bool)
        ensures
            r == (self.f & 0x40 != 0),
    {
        (self.f & 0x40) != 0
    }

    pub fn flag_h(&self) -> (r: bool)
        ensures
            r == (self.f & 0x20 != 0),
    {
        (self.f & 0x20) != 0
    }

    pub fn flag_c(&self) -> (r: bool)
        ensures
            r == (self.f & 0x10 != 0),
    {
        (self.f & 0x10) != 0
    }
}

} // verus!
