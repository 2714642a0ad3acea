//! The five interrupt lines and their dispatch.
use vstd::prelude::*;
use crate::comps::cpu::CPUContext;
use crate::comps::emu::{machine, retired, EmulatorContext, Machine};
use crate::comps::stack::{stack_push16, stack_push16_spec};

verus! {

/// An interrupt line, in priority order.
#[derive(Clone, Copy, PartialEq, Eq, Structural, Debug)]
pub enum InterruptType {
    VBlank,
    LCDStat,
    Timer,
    Serial,
    Joypad,
}

impl InterruptType {
    /// The bit this line occupies in the interrupt-flag and interrupt-enable
    /// bytes.
    pub open spec fn mask_spec(self) -> u8 {
        match self {
            InterruptType::VBlank => 0x01,
            InterruptType::LCDStat => 0x02,
            InterruptType::Timer => 0x04,
            InterruptType::Serial => 0x08,
            InterruptType::Joypad => 0x10,
        }
    }

    /// The address the CPU jumps to when it services this line.
    pub open spec fn vector_spec(self) -> u16 {
        match self {
            InterruptType::VBlank => 0x40,
            InterruptType::LCDStat => 0x48,
            InterruptType::Timer => 0x50,
            InterruptType::Serial => 0x58,
            InterruptType::Joypad => 0x60,
        }
    }

    #[verifier::when_used_as_spec(mask_spec)]
    pub fn mask(self) -> (r: u8)
        ensures
            r == self.mask_spec(),
    {
        match self {
            InterruptType::VBlank => 0x01,
            InterruptType::LCDStat => 0x02,
            InterruptType::Timer => 0x04,
            InterruptType::Serial => 0x08,
            InterruptType::Joypad => 0x10,
        }
    }

    #[verifier::when_used_as_spec(vector_spec)]
    pub fn vector(self) -> (r: u16)
        ensures
            r == self.vector_spec(),
    {
        match self {
            InterruptType::VBlank => 0x40,
            InterruptType::LCDStat => 0x48,
            InterruptType::Timer => 0x50,
            InterruptType::Serial => 0x58,
            InterruptType::Joypad => 0x60,
        }
    }
}

/// Whether line `it` is both pending and enabled.
pub open spec fn pending(cpu: CPUContext, it: InterruptType) -> bool {
    cpu.int_flags & it.mask_spec() != 0 && cpu.ie_register & it.mask_spec() != 0
}

/// The line that is serviced next: the first in priority order that is
/// pending and enabled.
pub open spec fn first_pending(cpu: CPUContext) -> Option<InterruptType> {
    if pending(cpu, InterruptType::VBlank) {
        Some(InterruptType::VBlank)
    } else if pending(cpu, InterruptType::LCDStat) {
        Some(InterruptType::LCDStat)
    } else if pending(cpu, InterruptType::Timer) {
        Some(InterruptType::Timer)
    } else if pending(cpu, InterruptType::Serial) {
        Some(InterruptType::Serial)
    } else if pending(cpu, InterruptType::Joypad) {
        Some(InterruptType::Joypad)
    } else {
        None
    }
}

/// The machine cycles that servicing takes: five if a line is serviced.
pub open spec fn interrupt_cycles(cpu: CPUContext) -> nat {
    if first_pending(cpu) is Some {
        5
    } else {
        0
    }
}

/// The machine after PC is pushed and set to `address`.
#[verifier::opaque]
pub open spec fn int_handle_spec(m: Machine, address: u16) -> Machine {
    let pushed = stack_push16_spec(m, m.cpu.registers.pc);
    Machine { cpu: pushed.cpu.with_pc(address), ..pushed }
}

/// The machine after line `it` is serviced through `address`: PC is pushed,
/// the line's flag is cleared, interrupts are disabled, a halt ends, PC is
/// `address`, and five machine cycles pass.
#[verifier::opaque]
pub open spec fn service_spec(m: Machine, address: u16, it: InterruptType) -> Machine {
    let h = int_handle_spec(m, address);
    Machine {
        cpu: CPUContext {
            int_flags: h.cpu.int_flags & !it.mask_spec(),
            halted: false,
            int_master_enabled: false,
            ..h.cpu
        },
        ..h
    }.cycles_spec(5)
}

/// The machine after the interrupt that is serviced next, if there is one,
/// has been serviced through its vector.
pub open spec fn handle_interrupts_spec(m: Machine) -> Machine {
    match first_pending(m.cpu) {
        Some(it) => service_spec(m, it.vector_spec(), it),
        None => m,
    }
}

/// Services line `it` through `address` if it is pending and enabled, and
/// says whether it was.
pub fn int_check(cpu: &mut CPUContext, emu: &mut EmulatorContext, address: u16, it: InterruptType) -> (r:
    bool)
    requires
        old(emu).wf(),
    ensures
        r == pending(*old(cpu), it),
        machine(final(cpu), final(emu)) == if r {
            service_spec(machine(old(cpu), old(emu)), address, it)
        } else {
            machine(old(cpu), old(emu))
        },
        retired(
            machine(old(cpu), old(emu)),
            machine(final(cpu), final(emu)),
            if r {
                5
            } else {
                0
            },
        ),
        !r ==> *final(cpu) == *old(cpu),
{
    proof {
        reveal(service_spec);
    }
    if cpu.int_flags & it.mask() != 0 && cpu.get_ie_reg() & it.mask() != 0 {
        int_handle(cpu, emu, address);
        cpu.int_flags = cpu.int_flags & !it.mask();
        cpu.halted = false;
        cpu.int_master_enabled = false;
        emu.cycles(cpu, 5);
        return true;
    }
    false
}

pub fn int_handle(cpu: &mut CPUContext, emu: &mut EmulatorContext, address: u16)
    requires
        old(emu).wf(),
    ensures
        machine(final(cpu), final(emu)) == int_handle_spec(machine(old(cpu), old(emu)), address),
        retired(machine(old(cpu), old(emu)), machine(final(cpu), final(emu)), 0),
{
    proof {
        reveal(int_handle_spec);
    }
    stack_push16(cpu, emu, cpu.registers.pc);
    cpu.registers.pc = address;
}

pub fn handle_interrupts(cpu: &mut CPUContext, emu: &mut EmulatorContext)
    requires
        old(emu).wf(),
    ensures
        machine(final(cpu), final(emu)) == handle_interrupts_spec(machine(old(cpu), old(emu))),
        retired(
            machine(old(cpu), old(emu)),
            machine(final(cpu), final(emu)),
            interrupt_cycles(*old(cpu)),
        ),
{
    if int_check(cpu, emu, InterruptType::VBlank.vector(), InterruptType::VBlank) {
    } else if int_check(cpu, emu, InterruptType::LCDStat.vector(), InterruptType::LCDStat) {
    } else if int_check(cpu, emu, InterruptType::Timer.vector(), InterruptType::Timer) {
    } else if int_check(cpu, emu, InterruptType::Serial.vector(), InterruptType::Serial) {
    } else if int_check(cpu, emu, InterruptType::Joypad.vector(), InterruptType::Joypad) {
    }
}

} // verus!
