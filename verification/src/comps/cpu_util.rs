//! Register access by name.
use vstd::prelude::*;
use crate::comps::bus::{bus_read, bus_read_spec, bus_write, bus_write_spec};
use crate::comps::cpu::{hi, lemma_flags_byte, lo, lo_spec, word, CPUContext};
use crate::comps::emu::{machine, EmulatorContext, Machine};
use crate::comps::instructions::{is_reg, RegType};

verus! {

/// Whether `rt` can stand where a byte operand is expected: a byte register,
/// or HL for the byte that HL points to.
pub open spec fn is_reg8(rt: RegType) -> bool {
    rt == RegType::A || rt == RegType::F || rt == RegType::B || rt == RegType::C || rt
        == RegType::D || rt == RegType::E || rt == RegType::H || rt == RegType::L || rt
        == RegType::HL
}

/// The byte operand `rt`: the register, or for HL the byte at the address in
/// HL.
pub open spec fn read_reg8_spec(m: Machine, rt: RegType) -> u8 {
    if rt == RegType::HL {
        bus_read_spec(m, m.cpu.registers.read(RegType::HL))
    } else {
        m.cpu.registers.read(rt) as u8
    }
}

/// The machine after `val` is stored in byte operand `rt`.
pub open spec fn set_reg8_spec(m: Machine, rt: RegType, val: u8) -> Machine {
    if rt == RegType::HL {
        bus_write_spec(m, m.cpu.registers.read(RegType::HL), val)
    } else {
        Machine { cpu: m.cpu.with_registers(m.cpu.registers.write(rt, val as u16)), ..m }
    }
}

impl CPUContext {
    pub fn read_reg8(&self, emu: &EmulatorContext, rt: RegType) -> (r: u8)
        requires
            emu.wf(),
            is_reg8(rt),
        ensures
            r == read_reg8_spec(machine(self, emu), rt),
    {
        match rt {
            RegType::A => self.registers.a,
            RegType::F => self.registers.f,
            RegType::B => self.registers.b,
            RegType::C => self.registers.c,
            RegType::D => self.registers.d,
            RegType::E => self.registers.e,
            RegType::H => self.registers.h,
            RegType::L => self.registers.l,
            _ => {
                let address: u16 = self.read_reg(Some(RegType::HL));
                bus_read(self, emu, address)
            },
        }
    }

    pub fn read_reg(&self, rt: Option<RegType>) -> (r: u16)
        requires
            is_reg(rt),
        ensures
            r == self.registers.read(rt.unwrap()),
    {
        match rt.unwrap() {
            RegType::A => self.registers.a as u16,
            RegType::F => self.registers.f as u16,
            RegType::B => self.registers.b as u16,
            RegType::C => self.registers.c as u16,
            RegType::D => self.registers.d as u16,
            RegType::E => self.registers.e as u16,
            RegType::H => self.registers.h as u16,
            RegType::L => self.registers.l as u16,
            RegType::AF => word(self.registers.a, self.registers.f),
            RegType::BC => word(self.registers.b, self.registers.c),
            RegType::DE => word(self.registers.d, self.registers.e),
            RegType::HL => word(self.registers.h, self.registers.l),
            RegType::PC => self.registers.pc,
            _ => self.registers.sp,
        }
    }

    pub fn set_reg8(&mut self, emu: &mut EmulatorContext, rt: RegType, val: u8)
        requires
            old(emu).wf(),
            is_reg8(rt),
        ensures
            machine(final(self), final(emu)) == set_reg8_spec(machine(old(self), old(emu)), rt, val),
            final(emu).wf(),
            final(emu).ticks == old(emu).ticks,
            rt != RegType::F ==> final(self).registers.f == old(self).registers.f,
            *final(self) == (CPUContext {
                registers: final(self).registers,
                int_flags: final(self).int_flags,
                ie_register: final(self).ie_register,
                ..*old(self)
            }),
    {
        match rt {
            RegType::A => self.registers.a = val,
            RegType::F => self.registers.f = val,
            RegType::B => self.registers.b = val,
            RegType::C => self.registers.c = val,
            RegType::D => self.registers.d = val,
            RegType::E => self.registers.e = val,
            RegType::H => self.registers.h = val,
            RegType::L => self.registers.l = val,
            _ => {
                let address: u16 = self.read_reg(Some(RegType::HL));
                bus_write(self, emu, address, val);
            },
        }
    }

    pub fn set_reg(&mut self, rt: Option<RegType>, val: u16)
        requires
            is_reg(rt),
        ensures
            *final(self) == old(self).with_registers(old(self).registers.write(rt.unwrap(), val)),
            rt != Some(RegType::F) && rt != Some(RegType::AF) ==> final(self).registers.f == old(
                self,
            ).registers.f,
            rt == Some(RegType::AF) ==> final(self).registers.f & 0x0F == 0,
    {
        proof {
            lemma_flags_byte(lo_spec(val));
        }
        match rt.unwrap() {
            RegType::A => self.registers.a = lo(val),
            RegType::F => self.registers.f = lo(val),
            RegType::B => self.registers.b = lo(val),
            RegType::C => self.registers.c = lo(val),
            RegType::D => self.registers.d = lo(val),
            RegType::E => self.registers.e = lo(val),
            RegType::H => self.registers.h = lo(val),
            RegType::L => self.registers.l = lo(val),
            RegType::AF => {
                self.registers.a = hi(val);
                self.registers.f = lo(val) & 0xF0;
            },
            RegType::BC => {
                self.registers.b = hi(val);
                self.registers.c = lo(val);
            },
            RegType::DE => {
                self.registers.d = hi(val);
                self.registers.e = lo(val);
            },
            RegType::HL => {
                self.registers.h = hi(val);
                self.registers.l = lo(val);
            },
            RegType::PC => self.registers.pc = val,
            _ => self.registers.sp = val,
        }
    }

    pub fn get_int_flags(&self) -> (r: u8)
        ensures
            r == self.int_flags,
    {
        self.int_flags
    }

    pub fn set_int_flags(&mut self, value: u8)
        ensures
            *final(self) == (CPUContext { int_flags: value, ..*old(self) }),
    {
        self.int_flags = value;
    }
}

} // verus!
