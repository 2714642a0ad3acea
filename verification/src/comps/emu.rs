//! The board around the CPU, and the clock pump that keeps timer, picture
//! unit and DMA engine in step with it.
use vstd::prelude::*;
use crate::comps::bus::{bus_read, bus_read_spec};
use crate::comps::cart::{CartContext, CartView, IMAGE_MIN};
use crate::comps::cpu::{only_interrupts_differ, CPUContext};
use crate::comps::dma::DMAContext;
use crate::comps::interrupts::InterruptType;
use crate::comps::lcd::LCDContext;
use crate::comps::ppu::{PPUContext, PPUView, VideoState, FIFO_LIMIT};
use crate::comps::ppu_sm::{lemma_tick_frame, tick_spec};
use crate::comps::ram::RAMContext;
use crate::comps::timer::{timer_tick, TimerContext};

verus! {

/// Every device the CPU reaches over the bus, the dot counter, and the run
/// flags of the session.
#[derive(Debug)]
pub struct EmulatorContext {
    pub running: bool,
    pub paused: bool,
    pub die: bool,
    pub ticks: u64,
    pub cart: CartContext,
    pub ram: RAMContext,
    pub ppu: PPUContext,
    pub lcd: LCDContext,
    pub timer: TimerContext,
    pub dma: DMAContext,
    pub serial_data: [u8; 2],
}

/// The model of the board.
pub struct EmulatorView {
    pub running: bool,
    pub paused: bool,
    pub die: bool,
    pub ticks: u64,
    pub cart: CartView,
    pub ram: RAMContext,
    pub ppu: PPUView,
    pub lcd: LCDContext,
    pub timer: TimerContext,
    pub dma: DMAContext,
    pub serial_data: [u8; 2],
}

/// The whole machine: the CPU and the board.
pub struct Machine {
    pub cpu: CPUContext,
    pub emu: EmulatorView,
}

impl View for EmulatorContext {
    type V = EmulatorView;

    open spec fn view(&self) -> EmulatorView {
        EmulatorView {
            running: self.running,
            paused: self.paused,
            die: self.die,
            ticks: self.ticks,
            cart: self.cart@,
            ram: self.ram,
            ppu: self.ppu@,
            lcd: self.lcd,
            timer: self.timer,
            dma: self.dma,
            serial_data: self.serial_data,
        }
    }
}

/// The dot counter after `cycles` more machine cycles of four dots each.
pub open spec fn ticks_after(ticks: u64, cycles: nat) -> u64 {
    ((ticks + 4 * cycles) % 0x1_0000_0000_0000_0000) as u64
}

/// Machine cycles add up on the dot counter.
pub proof fn lemma_ticks_add(ticks: u64, a: nat, b: nat)
    ensures
        ticks_after(ticks_after(ticks, a), b) == ticks_after(ticks, a + b),
{
    let m = 0x1_0000_0000_0000_0000int;
    let x: int = ticks + 4 * a;
    let y: int = 4 * (b as int);
    vstd::arithmetic::div_mod::lemma_add_mod_noop(x, y, m);
    vstd::arithmetic::div_mod::lemma_mod_twice(x, m);
    vstd::arithmetic::div_mod::lemma_add_mod_noop(x % m, y, m);
}

/// What every part of an instruction keeps: the board stays well formed,
/// exactly `cycles` machine cycles pass, and a flag byte whose low nibble
/// was zero has it zero still.
pub open spec fn retired(before: Machine, after: Machine, cycles: nat) -> bool {
    &&& after.wf()
    &&& after.emu.ticks == ticks_after(before.emu.ticks, cycles)
    &&& before.cpu.registers.f & 0x0F == 0 ==> after.cpu.registers.f & 0x0F == 0
}

/// The machine made of `cpu` and `emu`.
pub open spec fn machine(cpu: &CPUContext, emu: &EmulatorContext) -> Machine {
    Machine { cpu: *cpu, emu: emu@ }
}

impl EmulatorView {
    /// The cartridge covers its part of the address space, the pixel queue
    /// is within its bound, and a running DMA transfer has bytes left.
    pub open spec fn wf(self) -> bool {
        &&& self.cart.wf()
        &&& self.ppu.wf()
        &&& self.dma.wf()
    }
}

impl Machine {
    pub open spec fn wf(self) -> bool {
        self.emu.wf()
    }

    /// The machine one dot later: the dot counter, then the timer, then the
    /// picture unit.
    #[verifier::opaque]
    pub open spec fn dot_spec(self) -> Machine {
        let timed = if self.emu.timer.overflows() {
            self.cpu.with_interrupt(InterruptType::Timer)
        } else {
            self.cpu
        };
        let v = tick_spec(VideoState { ppu: self.emu.ppu, lcd: self.emu.lcd, cpu: timed });
        Machine {
            cpu: v.cpu,
            emu: EmulatorView {
                ticks: self.emu.ticks.wrapping_add(1),
                timer: self.emu.timer.tick_spec(),
                ppu: v.ppu,
                lcd: v.lcd,
                ..self.emu
            },
        }
    }

    /// The machine after the DMA engine's share of a machine cycle: when the
    /// engine copies, the byte the bus shows at its source address goes to
    /// the object attribute memory.
    #[verifier::opaque]
    pub open spec fn dma_spec(self) -> Machine {
        let dma = self.emu.dma;
        Machine {
            emu: EmulatorView {
                dma: dma.tick_spec(),
                ppu: if dma.copies() {
                    self.emu.ppu.oam_write_spec(
                        dma.byte as u16,
                        bus_read_spec(self, dma.source_spec()),
                    )
                } else {
                    self.emu.ppu
                },
                ..self.emu
            },
            ..self
        }
    }

    /// The machine four dots later.
    pub open spec fn four_dots_spec(self) -> Machine {
        self.dot_spec().dot_spec().dot_spec().dot_spec()
    }

    /// The machine one machine cycle later: four dots, then the DMA engine.
    pub open spec fn cycle_spec(self) -> Machine {
        self.four_dots_spec().dma_spec()
    }

    /// The machine `n` machine cycles later.
    #[verifier::opaque]
    pub open spec fn cycles_spec(self, n: nat) -> Machine
        decreases n,
    {
        if n == 0 {
            self
        } else {
            self.cycle_spec().cycles_spec((n - 1) as nat)
        }
    }
}

/// Whether `after` has the memories of `before` other than the object
/// attribute memory, and its CPU but for the pending interrupts.
pub open spec fn same_memory(before: Machine, after: Machine) -> bool {
    &&& after.emu.cart == before.emu.cart
    &&& after.emu.ram == before.emu.ram
    &&& after.emu.ppu.vram == before.emu.ppu.vram
    &&& after.emu.serial_data == before.emu.serial_data
    &&& only_interrupts_differ(before.cpu, after.cpu)
}

/// A dot leaves the memories, the DMA engine and the CPU's registers alone.
pub proof fn lemma_dot_frame(m: Machine)
    ensures
        same_memory(m, m.dot_spec()),
        m.dot_spec().emu.ppu.oam_ram == m.emu.ppu.oam_ram,
        m.dot_spec().emu.dma == m.emu.dma,
{
    reveal(Machine::dot_spec);
    let timed = if m.emu.timer.overflows() {
        m.cpu.with_interrupt(InterruptType::Timer)
    } else {
        m.cpu
    };
    lemma_tick_frame(VideoState { ppu: m.emu.ppu, lcd: m.emu.lcd, cpu: timed });
}

/// A machine cycle leaves the memories other than the object attribute
/// memory and the CPU's registers alone, and advances the DMA engine by one
/// step; the object attribute memory changes only by the byte the engine
/// copies.
pub proof fn lemma_cycle_frame(m: Machine)
    ensures
        same_memory(m, m.cycle_spec()),
        m.cycle_spec().emu.dma == m.emu.dma.tick_spec(),
        m.cycle_spec().emu.ppu.oam_ram == m.four_dots_spec().dma_spec().emu.ppu.oam_ram,
        same_memory(m, m.four_dots_spec()),
        m.four_dots_spec().emu.dma == m.emu.dma,
        m.four_dots_spec().emu.ppu.oam_ram == m.emu.ppu.oam_ram,
        !m.emu.dma.copies() ==> m.cycle_spec().emu.ppu.oam_ram == m.emu.ppu.oam_ram,
{
    reveal(Machine::dma_spec);
    let d1 = m.dot_spec();
    let d2 = d1.dot_spec();
    let d3 = d2.dot_spec();
    lemma_dot_frame(m);
    lemma_dot_frame(d1);
    lemma_dot_frame(d2);
    lemma_dot_frame(d3);
}

/// Machine cycles leave the memories other than the object attribute
/// memory and the CPU's registers alone; while the DMA engine is idle they
/// leave it and the object attribute memory alone too.
pub proof fn lemma_cycles_frame(m: Machine, n: nat)
    ensures
        same_memory(m, m.cycles_spec(n)),
        !m.emu.dma.active ==> m.cycles_spec(n).emu.dma == m.emu.dma && m.cycles_spec(
            n,
        ).emu.ppu.oam_ram == m.emu.ppu.oam_ram,
    decreases n,
{
    reveal_with_fuel(Machine::cycles_spec, 2);
    if n > 0 {
        lemma_cycle_frame(m);
        lemma_cycles_frame(m.cycle_spec(), (n - 1) as nat);
    }
}

impl EmulatorContext {
    pub open spec fn wf(&self) -> bool {
        self@.wf()
    }

    /// Tells whether the board is well formed.
    pub fn is_wf(&self) -> (r: bool)
        ensures
            r == self.wf(),
    {
        self.cart.rom_data.len() >= IMAGE_MIN && self.ppu.pfc.pixel_fifo.len() <= FIFO_LIMIT && (
        !self.dma.active || self.dma.byte < 0xA0)
    }

    /// A board around `cart` as the boot sequence leaves it.
    pub fn new(cart: CartContext) -> (emu: EmulatorContext)
        requires
            cart.wf(),
        ensures
            emu.wf(),
            emu.cart == cart,
            emu.running,
            !emu.paused,
            !emu.die,
            emu.ticks == 0,
            emu.timer == TimerContext::power_on(),
            emu.dma == DMAContext::idle(),
            emu.serial_data[0] == 0 && emu.serial_data[1] == 0,
            emu.lcd == LCDContext::power_on(),
            emu.ram.zeroed(),
            emu.ppu@.power_on(),
    {
        EmulatorContext {
            running: true,
            paused: false,
            die: false,
            ticks: 0,
            cart,
            ram: RAMContext::new(),
            ppu: PPUContext::new(),
            lcd: LCDContext::new(),
            timer: TimerContext::new(),
            dma: DMAContext::new(),
            serial_data: [0, 0],
        }
    }

    /// Advances the board by one dot.
    pub fn dot(&mut self, cpu: &mut CPUContext)
        requires
            old(self).wf(),
        ensures
            machine(final(cpu), final(self)) == machine(old(cpu), old(self)).dot_spec(),
            final(self).wf(),
            final(self).ticks == old(self).ticks.wrapping_add(1),
            only_interrupts_differ(*old(cpu), *final(cpu)),
    {
        proof {
            reveal(Machine::dot_spec);
        }
        self.ticks = self.ticks.wrapping_add(1);
        timer_tick(&mut self.timer, cpu);
        self.ppu.tick(cpu, &mut self.lcd);
    }

    /// Lets the DMA engine take its share of a machine cycle.
    pub fn dma_tick(&mut self, cpu: &CPUContext)
        requires
            old(self).wf(),
        ensures
            machine(cpu, final(self)) == machine(cpu, old(self)).dma_spec(),
            final(self).wf(),
            final(self).ticks == old(self).ticks,
    {
        proof {
            reveal(Machine::dma_spec);
        }
        let data: u8 = bus_read(cpu, self, self.dma.source());
        self.dma.tick(data, &mut self.ppu);
    }

    /// Advances the board by `cpu_cycles` machine cycles.
    pub fn cycles(&mut self, cpu: &mut CPUContext, cpu_cycles: u8)
        requires
            old(self).wf(),
        ensures
            machine(final(cpu), final(self)) == machine(old(cpu), old(self)).cycles_spec(
                cpu_cycles as nat,
            ),
            final(self).wf(),
            final(self).ticks == ticks_after(old(self).ticks, cpu_cycles as nat),
            only_interrupts_differ(*old(cpu), *final(cpu)),
    {
        proof {
            reveal_with_fuel(Machine::cycles_spec, 2);
        }
        let ghost start = machine(cpu, self);
        let mut i: u8 = 0;
        while i < cpu_cycles
            invariant
                i <= cpu_cycles,
                self.wf(),
                machine(cpu, self).cycles_spec((cpu_cycles - i) as nat) == start.cycles_spec(
                    cpu_cycles as nat,
                ),
                self.ticks == ticks_after(start.emu.ticks, i as nat),
                only_interrupts_differ(start.cpu, *cpu),
            decreases cpu_cycles - i,
        {
            self.dot(cpu);
            self.dot(cpu);
            self.dot(cpu);
            self.dot(cpu);
            self.dma_tick(cpu);
            i += 1;
            proof {
                reveal_with_fuel(Machine::cycles_spec, 2);
            }
        }
    }
}

} // verus!
