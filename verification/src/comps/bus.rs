//! The address decoder: which device answers which address.
use vstd::prelude::*;
use crate::comps::cpu::{hi, hi_spec, lo, lo_spec, word, word_spec, CPUContext};
use crate::comps::emu::{machine, EmulatorContext, EmulatorView, Machine};
use crate::comps::io::{io_read, io_read_spec, io_write, io_write_spec};

verus! {

/// What a read of `address` returns.
#[verifier::opaque]
pub open spec fn bus_read_spec(m: Machine, address: u16) -> u8 {
    if address < 0x8000 {
        m.emu.cart.read_spec(address)
    } else if address < 0xA000 {
        m.emu.ppu.vram_read_spec(address)
    } else if address < 0xC000 {
        m.emu.cart.read_spec(address)
    } else if address < 0xE000 {
        m.emu.ram.wram_read_spec(address)
    } else if address < 0xFE00 {
        0
    } else if address < 0xFEA0 {
        if m.emu.dma.active {
            0xFF
        } else {
            m.emu.ppu.oam_read_spec(address)
        }
    } else if address < 0xFF00 {
        0
    } else if address < 0xFF80 {
        io_read_spec(m, address)
    } else if address == 0xFFFF {
        m.cpu.ie_register
    } else {
        m.emu.ram.hram_read_spec(address)
    }
}

/// The machine after a write of `value` to `address`. The echo and unusable
/// regions swallow writes, and so does the object attribute memory during a
/// DMA transfer.
#[verifier::opaque]
pub open spec fn bus_write_spec(m: Machine, address: u16, value: u8) -> Machine {
    if address < 0x8000 {
        Machine { emu: EmulatorView { cart: m.emu.cart.write_spec(address, value), ..m.emu }, ..m }
    } else if address < 0xA000 {
        Machine { emu: EmulatorView { ppu: m.emu.ppu.vram_write_spec(address, value), ..m.emu }, ..m }
    } else if address < 0xC000 {
        Machine { emu: EmulatorView { cart: m.emu.cart.write_spec(address, value), ..m.emu }, ..m }
    } else if address < 0xE000 {
        Machine { emu: EmulatorView { ram: m.emu.ram.wram_write_spec(address, value), ..m.emu }, ..m }
    } else if address < 0xFE00 {
        m
    } else if address < 0xFEA0 {
        if m.emu.dma.active {
            m
        } else {
            Machine {
                emu: EmulatorView { ppu: m.emu.ppu.oam_write_spec(address, value), ..m.emu },
                ..m
            }
        }
    } else if address < 0xFF00 {
        m
    } else if address < 0xFF80 {
        io_write_spec(m, address, value)
    } else if address == 0xFFFF {
        Machine { cpu: CPUContext { ie_register: value, ..m.cpu }, ..m }
    } else {
        Machine { emu: EmulatorView { ram: m.emu.ram.hram_write_spec(address, value), ..m.emu }, ..m }
    }
}

/// The word read at `address`: low byte first, the high byte from the
/// address after it.
pub open spec fn bus_read16_spec(m: Machine, address: u16) -> u16 {
    word_spec(bus_read_spec(m, address.wrapping_add(1)), bus_read_spec(m, address))
}

/// The machine after `value` is written at `address`: the high byte goes to
/// the address after it, then the low byte to `address`.
pub open spec fn bus_write16_spec(m: Machine, address: u16, value: u16) -> Machine {
    bus_write_spec(
        bus_write_spec(m, address.wrapping_add(1), hi_spec(value)),
        address,
        lo_spec(value),
    )
}

/// Whether `address` lies in video RAM, work RAM or high RAM.
pub open spec fn ram_address(address: u16) -> bool {
    (0x8000 <= address < 0xA000) || (0xC000 <= address < 0xE000) || (0xFF80 <= address < 0xFFFF)
}

/// Whether a byte written to `address` can be read back: the address lies
/// in RAM, or in the object attribute memory while no DMA transfer runs.
pub open spec fn writable(m: Machine, address: u16) -> bool {
    ram_address(address) || (0xFE00 <= address < 0xFEA0 && !m.emu.dma.active)
}

/// A byte written to a writable address is the byte read back from it.
pub proof fn lemma_write_then_read(m: Machine, address: u16, value: u8)
    requires
        writable(m, address),
    ensures
        bus_read_spec(bus_write_spec(m, address, value), address) == value,
{
    reveal(bus_read_spec);
    reveal(bus_write_spec);
}

/// A write to a writable address leaves the CPU, the cartridge, the timer,
/// the display registers and the DMA engine alone, and every other writable
/// address reads as before.
pub proof fn lemma_write_elsewhere(m: Machine, address: u16, value: u8, other: u16)
    requires
        writable(m, address),
        other != address,
    ensures
        bus_write_spec(m, address, value).cpu == m.cpu,
        bus_write_spec(m, address, value).emu.dma == m.emu.dma,
        bus_write_spec(m, address, value).emu.ticks == m.emu.ticks,
        writable(m, other) ==> bus_read_spec(bus_write_spec(m, address, value), other)
            == bus_read_spec(m, other),
{
    reveal(bus_read_spec);
    reveal(bus_write_spec);
    if 0xFE00 <= address < 0xFEA0 && 0xFE00 <= other < 0xFEA0 && !m.emu.dma.active {
        let a = address - 0xFE00;
        let b = other - 0xFE00;
        let after = m.emu.ppu.oam_write_spec(address, value);
        if a / 4 == b / 4 {
            assert(a % 4 != b % 4);
        }
        assert(after.oam_read_spec(other) == m.emu.ppu.oam_read_spec(other));
    }
}

/// A word written to two writable addresses is the word read back from
/// them.
pub proof fn lemma_write16_then_read16(m: Machine, address: u16, value: u16)
    requires
        writable(m, address),
        writable(m, address.wrapping_add(1)),
    ensures
        bus_read16_spec(bus_write16_spec(m, address, value), address) == value,
{
    let next = address.wrapping_add(1);
    let m1 = bus_write_spec(m, next, hi_spec(value));
    lemma_write_then_read(m, next, hi_spec(value));
    lemma_write_elsewhere(m, next, hi_spec(value), address);
    lemma_write_then_read(m1, address, lo_spec(value));
    lemma_write_elsewhere(m1, address, lo_spec(value), next);
}

/// Of the CPU, a write changes at most the interrupt-enable and
/// interrupt-flag bytes, and it leaves the dot counter alone.
pub proof fn lemma_write_keeps_cpu(m: Machine, address: u16, value: u8)
    ensures
        bus_write_spec(m, address, value).cpu == (CPUContext {
            int_flags: bus_write_spec(m, address, value).cpu.int_flags,
            ie_register: bus_write_spec(m, address, value).cpu.ie_register,
            ..m.cpu
        }),
        bus_write_spec(m, address, value).emu.ticks == m.emu.ticks,
{
    reveal(bus_write_spec);
}

/// Of the CPU, a read sees only the interrupt-enable and interrupt-flag
/// bytes.
pub proof fn lemma_bus_read_cpu(m1: Machine, m2: Machine, address: u16)
    requires
        m1.emu == m2.emu,
        m1.cpu.ie_register == m2.cpu.ie_register,
        m1.cpu.int_flags == m2.cpu.int_flags,
    ensures
        bus_read_spec(m1, address) == bus_read_spec(m2, address),
{
    reveal(bus_read_spec);
}

pub fn bus_read(cpu: &CPUContext, emu: &EmulatorContext, address: u16) -> (r: u8)
    requires
        emu.wf(),
    ensures
        r == bus_read_spec(machine(cpu, emu), address),
{
    proof {
        reveal(bus_read_spec);
    }
    if address < 0x8000 {
        emu.cart.read(address)
    } else if address < 0xA000 {
        emu.ppu.vram_read(address)
    } else if address < 0xC000 {
        emu.cart.read(address)
    } else if address < 0xE000 {
        emu.ram.wram_read(address)
    } else if address < 0xFE00 {
        0
    } else if address < 0xFEA0 {
        if emu.dma.transferring() {
            return 0xFF;
        }
        emu.ppu.oam_read(address)
    } else if address < 0xFF00 {
        0
    } else if address < 0xFF80 {
        io_read(cpu, emu, address)
    } else if address == 0xFFFF {
        cpu.get_ie_reg()
    } else {
        emu.ram.hram_read(address)
    }
}

pub fn bus_write(cpu: &mut CPUContext, emu: &mut EmulatorContext, address: u16, value: u8)
    requires
        old(emu).wf(),
    ensures
        machine(final(cpu), final(emu)) == bus_write_spec(machine(old(cpu), old(emu)), address, value),
        final(emu).wf(),
        final(emu).ticks == old(emu).ticks,
        final(cpu).registers == old(cpu).registers,
        *final(cpu) == (CPUContext {
            int_flags: final(cpu).int_flags,
            ie_register: final(cpu).ie_register,
            ..*old(cpu)
        }),
{
    proof {
        reveal(bus_write_spec);
    }
    if address < 0x8000 {
        emu.cart.write(address, value);
    } else if address < 0xA000 {
        emu.ppu.vram_write(address, value);
    } else if address < 0xC000 {
        emu.cart.write(address, value);
    } else if address < 0xE000 {
        emu.ram.wram_write(address, value);
    } else if address < 0xFE00 {
    } else if address < 0xFEA0 {
        if emu.dma.transferring() {
            return ;
        }
        emu.ppu.oam_write(address, value);
    } else if address < 0xFF00 {
    } else if address < 0xFF80 {
        io_write(cpu, emu, address, value);
    } else if address == 0xFFFF {
        cpu.set_ie_reg(value);
    } else {
        emu.ram.hram_write(address, value);
    }
}

pub fn bus_read16(cpu: &CPUContext, emu: &EmulatorContext, address: u16) -> (r: u16)
    requires
        emu.wf(),
    ensures
        r == bus_read16_spec(machine(cpu, emu), address),
{
    let lo: u8 = bus_read(cpu, emu, address);
    let hi: u8 = bus_read(cpu, emu, address.wrapping_add(1));
    word(hi, lo)
}

pub fn bus_write16(cpu: &mut CPUContext, emu: &mut EmulatorContext, address: u16, value: u16)
    requires
        old(emu).wf(),
    ensures
        machine(final(cpu), final(emu)) == bus_write16_spec(
            machine(old(cpu), old(emu)),
            address,
            value,
        ),
        final(emu).wf(),
        final(emu).ticks == old(emu).ticks,
        final(cpu).registers == old(cpu).registers,
        *final(cpu) == (CPUContext {
            int_flags: final(cpu).int_flags,
            ie_register: final(cpu).ie_register,
            ..*old(cpu)
        }),
{
    bus_write(cpu, emu, address.wrapping_add(1), hi(value));
    bus_write(cpu, emu, address, lo(value));
}

} // verus!
