//! The I/O page: serial stub, timer, interrupt flags and display registers.
use vstd::prelude::*;
use crate::comps::common::between;
use crate::comps::cpu::CPUContext;
use crate::comps::dma::DMAContext;
use crate::comps::emu::{machine, EmulatorContext, EmulatorView, Machine};
use crate::comps::timer::{timer_read, timer_write};

verus! {

/// What a read of I/O address `address` returns; an address no device
/// answers reads as zero.
pub open spec fn io_read_spec(m: Machine, address: u16) -> u8 {
    if address == 0xFF01 {
        m.emu.serial_data[0]
    } else if address == 0xFF02 {
        m.emu.serial_data[1]
    } else if 0xFF04 <= address <= 0xFF07 {
        m.emu.timer.read_spec(address)
    } else if address == 0xFF0F {
        m.cpu.int_flags
    } else if 0xFF40 <= address <= 0xFF4B {
        m.emu.lcd.read_spec(address)
    } else {
        0
    }
}

/// The machine after a write of `value` to I/O address `address`; an
/// address no device answers swallows the write. A write to `$FF46` also
/// arms the DMA engine.
pub open spec fn io_write_spec(m: Machine, address: u16, value: u8) -> Machine {
    if address == 0xFF01 {
        Machine {
            emu: EmulatorView {
                serial_data: vstd::array::spec_array_update(m.emu.serial_data, 0, value),
                ..m.emu
            },
            ..m
        }
    } else if address == 0xFF02 {
        Machine {
            emu: EmulatorView {
                serial_data: vstd::array::spec_array_update(m.emu.serial_data, 1, value),
                ..m.emu
            },
            ..m
        }
    } else if 0xFF04 <= address <= 0xFF07 {
        Machine {
            emu: EmulatorView { timer: m.emu.timer.write_spec(address, value), ..m.emu },
            ..m
        }
    } else if address == 0xFF0F {
        Machine { cpu: CPUContext { int_flags: value, ..m.cpu }, ..m }
    } else if 0xFF40 <= address <= 0xFF4B {
        Machine {
            emu: EmulatorView {
                lcd: m.emu.lcd.write_spec(address, value),
                dma: if address == 0xFF46 {
                    DMAContext::started(value)
                } else {
                    m.emu.dma
                },
                ..m.emu
            },
            ..m
        }
    } else {
        m
    }
}

pub fn io_read(cpu: &CPUContext, emu: &EmulatorContext, address: u16) -> (r: u8)
    ensures
        r == io_read_spec(machine(cpu, emu), address),
{
    if address == 0xFF01 {
        emu.serial_data[0]
    } else if address == 0xFF02 {
        emu.serial_data[1]
    } else if between(address, 0xFF04, 0xFF07) {
        timer_read(&emu.timer, address)
    } else if address == 0xFF0F {
        cpu.get_int_flags()
    } else if between(address, 0xFF40, 0xFF4B) {
        emu.lcd.read(address)
    } else {
        0
    }
}

pub fn io_write(cpu: &mut CPUContext, emu: &mut EmulatorContext, address: u16, value: u8)
    requires
        old(emu).wf(),
    ensures
        machine(final(cpu), final(emu)) == io_write_spec(machine(old(cpu), old(emu)), address, value),
        final(emu).wf(),
        final(emu).ticks == old(emu).ticks,
        *final(cpu) == (CPUContext { int_flags: final(cpu).int_flags, ..*old(cpu) }),
{
    if address == 0xFF01 {
        emu.serial_data[0] = value;
    } else if address == 0xFF02 {
        emu.serial_data[1] = value;
    } else if between(address, 0xFF04, 0xFF07) {
        timer_write(&mut emu.timer, address, value);
    } else if address == 0xFF0F {
        cpu.set_int_flags(value);
    } else if between(address, 0xFF40, 0xFF4B) {
        emu.lcd.write(&mut emu.dma, address, value);
    }
}

} // verus!
