//! The divider and the programmable counter it clocks.
use vstd::prelude::*;
use crate::comps::common::bit_spec;
use crate::comps::cpu::CPUContext;
use crate::comps::interrupts::InterruptType;

verus! {

/// The timer's four registers. Only the high byte of `div` can be read.
#[derive(Clone, Copy, PartialEq, Eq, Structural, Debug)]
pub struct TimerContext {
    pub div: u16,
    pub tima: u8,
    pub tma: u8,
    pub tac: u8,
}

/// How many dots lie between two falls of the divider bit that `tac`
/// selects: bit 9, 3, 5 or 7 for select 0, 1, 2 or 3.
pub open spec fn period_spec(tac: u8) -> int {
    match tac % 4 {
        0 => 1024,
        1 => 16,
        2 => 64,
        _ => 256,
    }
}

impl TimerContext {
    /// Whether the next increment of the divider makes the selected bit fall.
    pub open spec fn edge(self) -> bool {
        (self.div + 1) % period_spec(self.tac) == 0
    }

    /// Whether the counter is switched on (bit 2 of the control register).
    pub open spec fn enabled(self) -> bool {
        bit_spec(self.tac, 2)
    }

    /// Whether the next dot advances the counter.
    pub open spec fn clocked(self) -> bool {
        self.edge() && self.enabled()
    }

    /// Whether the next dot overflows the counter and so raises the timer
    /// interrupt.
    pub open spec fn overflows(self) -> bool {
        self.clocked() && self.tima == 0xFF
    }

    /// The timer one dot later.
    pub open spec fn tick_spec(self) -> TimerContext {
        TimerContext {
            div: if self.div == 0xFFFF {
                0
            } else {
                (self.div + 1) as u16
            },
            tima: if !self.clocked() {
                self.tima
            } else if self.tima == 0xFF {
                self.tma
            } else {
                (self.tima + 1) as u8
            },
            tma: self.tma,
            tac: self.tac,
        }
    }

    /// The timer after a write of `value` to register `address`.
    pub open spec fn write_spec(self, address: u16, value: u8) -> TimerContext {
        if address == 0xFF04 {
            TimerContext { div: 0, ..self }
        } else if address == 0xFF05 {
            TimerContext { tima: value, ..self }
        } else if address == 0xFF06 {
            TimerContext { tma: value, ..self }
        } else {
            TimerContext { tac: value, ..self }
        }
    }

    /// What a read of register `address` returns.
    pub open spec fn read_spec(self, address: u16) -> u8 {
        if address == 0xFF04 {
            (self.div / 256) as u8
        } else if address == 0xFF05 {
            self.tima
        } else if address == 0xFF06 {
            self.tma
        } else {
            self.tac
        }
    }

    /// The timer `n` dots later.
    pub open spec fn run(self, n: nat) -> TimerContext
        decreases n,
    {
        if n == 0 {
            self
        } else {
            self.tick_spec().run((n - 1) as nat)
        }
    }

    /// How often the selected divider bit falls during the next `n` dots.
    pub open spec fn edges(self, n: nat) -> nat
        decreases n,
    {
        if n == 0 {
            0
        } else {
            (if self.edge() {
                1nat
            } else {
                0nat
            }) + self.tick_spec().edges((n - 1) as nat)
        }
    }

    /// How often the counter overflows, each time raising the timer
    /// interrupt, during the next `n` dots.
    pub open spec fn interrupts(self, n: nat) -> nat
        decreases n,
    {
        if n == 0 {
            0
        } else {
            (if self.overflows() {
                1nat
            } else {
                0nat
            }) + self.tick_spec().interrupts((n - 1) as nat)
        }
    }

    /// The timer as the boot sequence leaves it.
    pub open spec fn power_on() -> TimerContext {
        TimerContext { div: 0xAC00, tima: 0, tma: 0, tac: 0 }
    }

    pub fn new() -> (t: TimerContext)
        ensures
            t == TimerContext::power_on(),
    {
        TimerContext { div: 0xAC00, tima: 0, tma: 0, tac: 0 }
    }
}

proof fn lemma_edge_bits(prev: u16, tac: u8)
    ensures
        tac & 3 == tac % 4,
        (tac & 4 != 0) == bit_spec(tac, 2),
        (prev & 0x200 != 0 && prev.wrapping_add(1) & 0x200 == 0) == ((prev + 1) % 1024 == 0),
        (prev & 0x08 != 0 && prev.wrapping_add(1) & 0x08 == 0) == ((prev + 1) % 16 == 0),
        (prev & 0x20 != 0 && prev.wrapping_add(1) & 0x20 == 0) == ((prev + 1) % 64 == 0),
        (prev & 0x80 != 0 && prev.wrapping_add(1) & 0x80 == 0) == ((prev + 1) % 256 == 0),
{
    let next: u16 = if prev == 0xFFFF {
        0
    } else {
        (prev + 1) as u16
    };
    assert(next == prev.wrapping_add(1));
    assert(tac & 3 == tac % 4) by (bit_vector);
    assert((tac & 4 != 0) == (tac & (1u8 << 2u8) != 0)) by (bit_vector);
    assert((prev & 0x200 != 0 && next & 0x200 == 0) == (prev % 1024 == 1023)) by (bit_vector)
        requires
            next == if prev == 0xFFFFu16 {
                0u16
            } else {
                (prev + 1) as u16
            },
    ;
    assert((prev & 0x08 != 0 && next & 0x08 == 0) == (prev % 16 == 15)) by (bit_vector)
        requires
            next == if prev == 0xFFFFu16 {
                0u16
            } else {
                (prev + 1) as u16
            },
    ;
    assert((prev & 0x20 != 0 && next & 0x20 == 0) == (prev % 64 == 63)) by (bit_vector)
        requires
            next == if prev == 0xFFFFu16 {
                0u16
            } else {
                (prev + 1) as u16
            },
    ;
    assert((prev & 0x80 != 0 && next & 0x80 == 0) == (prev % 256 == 255)) by (bit_vector)
        requires
            next == if prev == 0xFFFFu16 {
                0u16
            } else {
                (prev + 1) as u16
            },
    ;
}

/// Advances the timer by one dot and raises the timer interrupt on `cpu`
/// when the counter overflows.
pub fn timer_tick(timer: &mut TimerContext, cpu: &mut CPUContext)
    ensures
        *final(timer) == old(timer).tick_spec(),
        *final(cpu) == if old(timer).overflows() {
            old(cpu).with_interrupt(InterruptType::Timer)
        } else {
            *old(cpu)
        },
{
    let prev_div: u16 = timer.div;
    timer.div = timer.div.wrapping_add(1);
    proof {
        lemma_edge_bits(prev_div, timer.tac);
    }
    let select: u8 = timer.tac & 0b11;
    let timer_update: bool = if select == 0b00 {
        (prev_div & 0x200 != 0) && (timer.div & 0x200 == 0)
    } else if select == 0b01 {
        (prev_div & 0x08 != 0) && (timer.div & 0x08 == 0)
    } else if select == 0b10 {
        (prev_div & 0x20 != 0) && (timer.div & 0x20 == 0)
    } else {
        (prev_div & 0x80 != 0) && (timer.div & 0x80 == 0)
    };
    if timer_update && timer.tac & 0x04 != 0 {
        match timer.tima.checked_add(1) {
            Some(result) => timer.tima = result,
            None => {
                timer.tima = timer.tma;
                cpu.request_interrupt(InterruptType::Timer);
            },
        }
    }
}

pub fn timer_write(timer: &mut TimerContext, address: u16, value: u8)
    requires
        0xFF04 <= address <= 0xFF07,
    ensures
        *final(timer) == old(timer).write_spec(address, value),
{
    if address == 0xFF04 {
        timer.div = 0;
    } else if address == 0xFF05 {
        timer.tima = value;
    } else if address == 0xFF06 {
        timer.tma = value;
    } else {
        timer.tac = value;
    }
}

pub fn timer_read(timer: &TimerContext, address: u16) -> (r: u8)
    requires
        0xFF04 <= address <= 0xFF07,
    ensures
        r == timer.read_spec(address),
{
    if address == 0xFF04 {
        (timer.div / 256) as u8
    } else if address == 0xFF05 {
        timer.tima
    } else if address == 0xFF06 {
        timer.tma
    } else {
        timer.tac
    }
}

/// The counter value and the number of overflows once a counter that stands
/// at `tima` and reloads from `tma` has been advanced `count` times.
pub open spec fn counted(tima: u8, tma: u8, count: nat) -> (int, int) {
    let total = tima + count;
    let span = 256 - tma;
    if total < 256 {
        (total, 0)
    } else {
        (tma + (total - 256) % span, 1 + (total - 256) / span)
    }
}

proof fn lemma_counted_step(tima: u8, tma: u8, count: nat)
    ensures
        tima < 0xFF ==> counted(tima, tma, count + 1) == counted((tima + 1) as u8, tma, count),
        tima == 0xFF ==> counted(tima, tma, count + 1) == (
            counted(tma, tma, count).0,
            counted(tma, tma, count).1 + 1,
        ),
{
    let span = 256 - tma;
    if tima == 0xFF {
        let c = count as int;
        if tma + c < 256 {
            assert(c % span == c && c / span == 0) by (nonlinear_arith)
                requires
                    0 <= c < span,
            ;
        } else {
            assert(c % span == (c - span) % span && c / span == 1 + (c - span) / span)
                by (nonlinear_arith)
                requires
                    0 < span <= c,
            ;
        }
    }
}

/// With the counter switched on, the dots at which the selected divider bit
/// falls are exactly the dots at which the counter advances: after `n` dots
/// in which the bit fell `N` times, the counter and the number of timer
/// interrupts raised are those of `N` advances. The divider and the two
/// configuration registers are not otherwise involved.
pub proof fn lemma_timer_run(t: TimerContext, n: nat)
    requires
        t.enabled(),
    ensures
        t.run(n).tima == counted(t.tima, t.tma, t.edges(n)).0,
        t.interrupts(n) == counted(t.tima, t.tma, t.edges(n)).1,
        t.run(n).tma == t.tma,
        t.run(n).tac == t.tac,
    decreases n,
{
    if n > 0 {
        let t1 = t.tick_spec();
        lemma_timer_run(t1, (n - 1) as nat);
        if t.edge() {
            lemma_counted_step(t.tima, t.tma, t1.edges((n - 1) as nat));
        }
    }
}

/// A counter that never reloads to anything but zero advances by the number
/// of falls modulo 256, and one that starts at its reload value raises one
/// interrupt for every `256 - tma` falls.
pub proof fn lemma_timer_counts(t: TimerContext, n: nat)
    requires
        t.enabled(),
    ensures
        t.tma == 0 ==> t.run(n).tima == (t.tima + t.edges(n)) % 256,
        t.tma == 0 ==> t.interrupts(n) == (t.tima + t.edges(n)) / 256,
        t.tima == t.tma ==> t.interrupts(n) == t.edges(n) / ((256 - t.tma) as nat),
        t.tima == t.tma ==> t.run(n).tima == t.tma + t.edges(n) % ((256 - t.tma) as nat),
{
    lemma_timer_run(t, n);
    let count = t.edges(n) as int;
    let span = 256 - t.tma;
    if t.tma == 0 {
        let total = t.tima + count;
        if total < 256 {
            assert(total % 256 == total && total / 256 == 0);
        } else {
            assert(total % 256 == (total - 256) % 256 && total / 256 == 1 + (total - 256) / 256);
        }
    }
    if t.tima == t.tma {
        if count < span {
            assert(count % span == count && count / span == 0) by (nonlinear_arith)
                requires
                    0 <= count < span,
            ;
        } else {
            assert(count % span == (count - span) % span && count / span == 1 + (count - span)
                / span) by (nonlinear_arith)
                requires
                    0 < span <= count,
            ;
        }
    }
}

} // verus!
