//! The stack: it grows downwards, and a word goes on it high byte first.
use vstd::prelude::*;
use crate::comps::bus::{bus_read, bus_read_spec, bus_write, bus_write_spec, lemma_bus_read_cpu};
use crate::comps::cpu::{hi, hi_spec, lo, lo_spec, word, word_spec, CPUContext, Registers};
use crate::comps::emu::{machine, EmulatorContext, Machine};

verus! {

impl CPUContext {
    /// This CPU with another stack pointer.
    pub open spec fn with_sp(self, sp: u16) -> CPUContext {
        self.with_registers(Registers { sp, ..self.registers })
    }

    /// This CPU with another program counter.
    pub open spec fn with_pc(self, pc: u16) -> CPUContext {
        self.with_registers(Registers { pc, ..self.registers })
    }
}

/// The machine after `data` is pushed: SP moves down by one, then the byte
/// is written where it points.
pub open spec fn stack_push_spec(m: Machine, data: u8) -> Machine {
    let sp = m.cpu.registers.sp.wrapping_sub(1);
    bus_write_spec(Machine { cpu: m.cpu.with_sp(sp), ..m }, sp, data)
}

/// The machine after the word `data` is pushed, high byte first.
pub open spec fn stack_push16_spec(m: Machine, data: u16) -> Machine {
    stack_push_spec(stack_push_spec(m, hi_spec(data)), lo_spec(data))
}

/// The byte on top of the stack.
pub open spec fn stack_top(m: Machine) -> u8 {
    bus_read_spec(m, m.cpu.registers.sp)
}

/// The word on top of the stack: its low byte is the top byte.
pub open spec fn stack_top16(m: Machine) -> u16 {
    word_spec(bus_read_spec(m, m.cpu.registers.sp.wrapping_add(1)), stack_top(m))
}

pub fn stack_push(cpu: &mut CPUContext, emu: &mut EmulatorContext, data: u8)
    requires
        old(emu).wf(),
    ensures
        machine(final(cpu), final(emu)) == stack_push_spec(machine(old(cpu), old(emu)), data),
        final(emu).wf(),
        final(emu).ticks == old(emu).ticks,
        final(cpu).registers == old(cpu).with_sp(old(cpu).registers.sp.wrapping_sub(1)).registers,
        *final(cpu) == (CPUContext {
            int_flags: final(cpu).int_flags,
            ie_register: final(cpu).ie_register,
            ..old(cpu).with_sp(old(cpu).registers.sp.wrapping_sub(1))
        }),
{
    cpu.registers.sp = cpu.registers.sp.wrapping_sub(1);
    bus_write(cpu, emu, cpu.registers.sp, data);
}

pub fn stack_push16(cpu: &mut CPUContext, emu: &mut EmulatorContext, data: u16)
    requires
        old(emu).wf(),
    ensures
        machine(final(cpu), final(emu)) == stack_push16_spec(machine(old(cpu), old(emu)), data),
        final(emu).wf(),
        final(emu).ticks == old(emu).ticks,
        final(cpu).registers == old(cpu).with_sp(old(cpu).registers.sp.wrapping_sub(2)).registers,
        *final(cpu) == (CPUContext {
            int_flags: final(cpu).int_flags,
            ie_register: final(cpu).ie_register,
            ..old(cpu).with_sp(old(cpu).registers.sp.wrapping_sub(2))
        }),
{
    stack_push(cpu, emu, hi(data));
    stack_push(cpu, emu, lo(data));
}

pub fn stack_pop(cpu: &mut CPUContext, emu: &EmulatorContext) -> (r: u8)
    requires
        emu.wf(),
    ensures
        r == stack_top(machine(old(cpu), emu)),
        *final(cpu) == old(cpu).with_sp(old(cpu).registers.sp.wrapping_add(1)),
{
    let value: u8 = bus_read(cpu, emu, cpu.registers.sp);
    cpu.registers.sp = cpu.registers.sp.wrapping_add(1);
    value
}

pub fn stack_pop16(cpu: &mut CPUContext, emu: &EmulatorContext) -> (r: u16)
    requires
        emu.wf(),
    ensures
        r == stack_top16(machine(old(cpu), emu)),
        *final(cpu) == old(cpu).with_sp(old(cpu).registers.sp.wrapping_add(2)),
{
    let lo: u8 = stack_pop(cpu, emu);
    proof {
        lemma_bus_read_cpu(machine(cpu, emu), machine(old(cpu), emu), cpu.registers.sp);
    }
    let hi: u8 = stack_pop(cpu, emu);
    word(hi, lo)
}

} // verus!
