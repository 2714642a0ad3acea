//! The cadence of the picture unit: where it stands at every dot of a
//! frame.
use vstd::prelude::*;
use crate::comps::lcd::{lemma_mode_bits, LCDContext, LCDMode};
use crate::comps::ppu::{FetchState, PPUView, VideoState};
use crate::comps::emu::Machine;
use crate::comps::interrupts::InterruptType;
use crate::comps::ppu_sm::tick_spec;

verus! {

/// How many pixels the scroll register hides at the left of a line.
pub open spec fn scroll_offset(lcd: LCDContext) -> int {
    (lcd.scroll_x % 8) as int
}

/// The fetcher's next step at position `r` of a round.
pub open spec fn fetch_phase(r: int) -> FetchState {
    if r < 2 {
        FetchState::TILE
    } else if r < 4 {
        FetchState::DATA0
    } else if r < 6 {
        FetchState::DATA1
    } else if r < 8 {
        FetchState::SLEEP
    } else {
        FetchState::PUSH
    }
}

/// The pipeline at position `r` of round `j` of a line's pixel transfer,
/// that is at dot `80 + 10 j + r`, before the last pixel is out. A round is
/// the ten dots the fetcher takes for a tile. The fetcher has started a tile
/// in every round and never waited: the queue, whatever it held when the
/// transfer began, is down to eight pixels again by the end of each round.
/// Every tile fetched so far is in the queue or has left it, `line_x` counts
/// the pixels that have left, and those right of the scroll offset were
/// drawn.
pub open spec fn transfer_at(ppu: PPUView, lcd: LCDContext, j: int, r: int) -> bool {
    let s = scroll_offset(lcd);
    let e = ppu.pfc.line_x as int;
    let q = ppu.pfc.pixel_fifo.len() as int;
    &&& 0 <= j <= 22
    &&& 0 <= r < 10
    &&& ppu.line_ticks == 80 + 10 * j + r
    &&& ppu.pfc.cur_fetch_state == fetch_phase(r)
    &&& ppu.pfc.fetch_x == 8 * j + if r >= 2 {
        8int
    } else {
        0int
    }
    &&& q <= 8 || q + r <= 16
    &&& e + q >= 8 * j
    &&& e < 160 + s
    &&& ppu.pfc.pushed_x == if e >= s {
        e - s
    } else {
        0
    }
}

/// The picture unit at dot `t` of line `ly`, with a pixel queue within its
/// bound. A visible line scans objects for 80 dots, transfers pixels until
/// 160 are drawn, and then waits in horizontal blank; lines 144 to 153 are
/// vertical blank. At the first dot of a line this asks no more than the
/// line, the dot and the mode.
pub open spec fn at_dot(ppu: PPUView, lcd: LCDContext, ly: int, t: int) -> bool {
    let mode = lcd.status_mode_spec();
    &&& 0 <= ly < 154
    &&& 0 <= t < 456
    &&& lcd.line_y == ly
    &&& ppu.line_ticks == t
    &&& ppu.wf()
    &&& if ly >= 144 {
        mode == LCDMode::VBlank
    } else if t < 80 {
        mode == LCDMode::OAM
    } else if mode == LCDMode::XFER {
        transfer_at(ppu, lcd, (t - 80) / 10, (t - 80) % 10)
    } else {
        mode == LCDMode::HBlank && ppu.pfc.pushed_x == 160
    }
}

/// What `at_dot` asks at the first dot of a line: the line, the dot, the
/// mode (object scan on a visible line, vertical blank below), and a queue
/// within its bound, whatever it holds.
pub proof fn lemma_line_start(ppu: PPUView, lcd: LCDContext, ly: int)
    requires
        0 <= ly < 154,
        lcd.line_y == ly,
        ppu.line_ticks == 0,
        ppu.wf(),
        lcd.status_mode_spec() == if ly < 144 {
            LCDMode::OAM
        } else {
            LCDMode::VBlank
        },
    ensures
        at_dot(ppu, lcd, ly, 0),
{
}

/// The line after `ly`.
pub open spec fn next_line(ly: int) -> int {
    if ly == 153 {
        0
    } else {
        ly + 1
    }
}

/// The state `n` dots after `v`, with nothing but the picture unit acting.
pub open spec fn ticks_spec(v: VideoState, n: nat) -> VideoState
    decreases n,
{
    if n == 0 {
        v
    } else {
        ticks_spec(tick_spec(v), (n - 1) as nat)
    }
}

/// What the status register's mode bits do: see `lemma_mode_bits`.
proof fn lemma_status(lcd: LCDContext, mode: LCDMode, b: bool)
    ensures
        lcd.with_mode(mode).status_mode_spec() == mode,
        lcd.with_line_y_compare(b).status_mode_spec() == lcd.status_mode_spec(),
        lcd.with_mode(mode).with_line_y_compare(b).status_mode_spec() == mode,
{
    lemma_mode_bits(lcd.status, mode.bits_spec());
    lemma_mode_bits(lcd.with_mode(mode).status, 0);
    assert(mode.bits_spec() <= 3);
    assert(mode.bits_spec() & 3 == mode.bits_spec()) by {
        crate::comps::lcd::lemma_low_two_bits();
    }
}

proof fn lemma_transfer_dot(v: VideoState, j: int, r: int)
    requires
        v.lcd.status_mode_spec() == LCDMode::XFER,
        v.ppu.wf(),
        transfer_at(v.ppu, v.lcd, j, r),
    ensures
        ({
            let w = tick_spec(v);
            let j2 = if r == 9 {
                j + 1
            } else {
                j
            };
            let r2 = if r == 9 {
                0
            } else {
                r + 1
            };
            &&& w.lcd.line_y == v.lcd.line_y
            &&& w.lcd.scroll_x == v.lcd.scroll_x
            &&& w.ppu.current_frame == v.ppu.current_frame
            &&& w.ppu.line_ticks == v.ppu.line_ticks + 1
            &&& w.ppu.wf()
            &&& if w.lcd.status_mode_spec() == LCDMode::HBlank {
                w.ppu.pfc.pushed_x == 160
            } else {
                &&& w.lcd.status_mode_spec() == LCDMode::XFER
                &&& transfer_at(w.ppu, w.lcd, j2, r2)
            }
        }),
{
    reveal(tick_spec);
    lemma_status(v.lcd, LCDMode::HBlank, false);
    let t = v.ppu.line_ticks + 1;
    assert(t % 2 == 0 <==> (r == 1 || r == 3 || r == 5 || r == 7 || r == 9));
}

/// One dot on: the picture unit stands at the next dot of the line, or at
/// the first dot of the next line. The frame counter advances exactly at
/// the end of line 143.
pub proof fn lemma_dot(v: VideoState, ly: int, t: int)
    requires
        at_dot(v.ppu, v.lcd, ly, t),
    ensures
        ({
            let w = tick_spec(v);
            &&& w.lcd.scroll_x == v.lcd.scroll_x
            &&& t < 455 ==> at_dot(w.ppu, w.lcd, ly, t + 1)
            &&& t == 455 ==> at_dot(w.ppu, w.lcd, next_line(ly), 0)
            &&& w.ppu.current_frame == if ly == 143 && t == 455 {
                v.ppu.current_frame.wrapping_add(1)
            } else {
                v.ppu.current_frame
            }
            &&& ly < 144 && t == 455 ==> v.ppu.pfc.pushed_x == 160
        }),
{
    let mode = v.lcd.status_mode_spec();
    if ly < 144 && t >= 80 && mode == LCDMode::XFER {
        let j = (t - 80) / 10;
        let r = (t - 80) % 10;
        lemma_transfer_dot(v, j, r);
    } else {
        reveal(tick_spec);
        lemma_status(v.lcd, LCDMode::XFER, false);
        lemma_status(v.lcd, LCDMode::OAM, false);
        lemma_status(v.lcd, LCDMode::VBlank, false);
        lemma_status(v.lcd, LCDMode::OAM, true);
        lemma_status(v.lcd, LCDMode::VBlank, true);
        let stepped = LCDContext { line_y: v.lcd.line_y.wrapping_add(1), ..v.lcd };
        lemma_status(stepped, LCDMode::OAM, true);
        lemma_status(stepped, LCDMode::OAM, false);
        lemma_status(stepped, LCDMode::VBlank, true);
        lemma_status(stepped, LCDMode::VBlank, false);
        lemma_status(stepped.with_line_y_compare(true), LCDMode::OAM, true);
        lemma_status(stepped.with_line_y_compare(false), LCDMode::OAM, true);
        lemma_status(stepped.with_line_y_compare(true), LCDMode::VBlank, true);
        lemma_status(stepped.with_line_y_compare(false), LCDMode::VBlank, true);
    }
}

/// A picture unit that has just been switched on stands at the first dot
/// of line 0.
pub proof fn lemma_power_on(ppu: PPUView)
    requires
        ppu.power_on(),
    ensures
        at_dot(ppu, LCDContext::power_on(), 0, 0),
{
    crate::comps::lcd::lemma_low_two_bits();
}

/// Dots add up.
pub proof fn lemma_ticks_split(v: VideoState, a: nat, b: nat)
    ensures
        ticks_spec(v, a + b) == ticks_spec(ticks_spec(v, a), b),
    decreases a,
{
    if a > 0 {
        lemma_ticks_split(tick_spec(v), (a - 1) as nat, b);
    }
}

/// While a line lasts, `n` dots on the picture unit stands `n` dots further
/// in the line, and the frame counter stays.
pub proof fn lemma_dots(v: VideoState, ly: int, t: int, n: nat)
    requires
        at_dot(v.ppu, v.lcd, ly, t),
        t + n < 456,
    ensures
        at_dot(ticks_spec(v, n).ppu, ticks_spec(v, n).lcd, ly, t + n),
        ticks_spec(v, n).ppu.current_frame == v.ppu.current_frame,
    decreases n,
{
    if n > 0 {
        lemma_dot(v, ly, t);
        lemma_dots(tick_spec(v), ly, t + 1, (n - 1) as nat);
    }
}

/// From the pixel transfer on, a visible line has drawn at most 160 pixels.
pub proof fn lemma_at_most_160(ppu: PPUView, lcd: LCDContext, ly: int, t: int)
    requires
        at_dot(ppu, lcd, ly, t),
        ly < 144,
        80 <= t,
    ensures
        ppu.pfc.pushed_x <= 160,
{
}

/// Every line takes 456 dots: from the first dot of line `ly` the picture
/// unit reaches the first dot of the next line after exactly 456 dots, and
/// no earlier. A visible line has drawn exactly 160 pixels when it ends. The
/// frame counter advances when line 143 ends.
pub proof fn lemma_scanline(v: VideoState, ly: int)
    requires
        at_dot(v.ppu, v.lcd, ly, 0),
    ensures
        at_dot(ticks_spec(v, 456).ppu, ticks_spec(v, 456).lcd, next_line(ly), 0),
        forall|n: nat| n < 456 ==> at_dot(
            (#[trigger] ticks_spec(v, n)).ppu,
            ticks_spec(v, n).lcd,
            ly,
            n as int,
        ),
        ly < 144 ==> ticks_spec(v, 455).ppu.pfc.pushed_x == 160,
        ticks_spec(v, 456).ppu.current_frame == if ly == 143 {
            v.ppu.current_frame.wrapping_add(1)
        } else {
            v.ppu.current_frame
        },
{
    lemma_dots(v, ly, 0, 455);
    lemma_dot(ticks_spec(v, 455), ly, 455);
    lemma_ticks_split(v, 455, 1);
    assert(ticks_spec(ticks_spec(v, 455), 1) == tick_spec(ticks_spec(v, 455))) by {
        reveal_with_fuel(ticks_spec, 2);
    }
    assert forall|n: nat| n < 456 implies at_dot(
        (#[trigger] ticks_spec(v, n)).ppu,
        ticks_spec(v, n).lcd,
        ly,
        n as int,
    ) by {
        lemma_dots(v, ly, 0, n);
    }
}

/// Every line, visible or in vertical blank, lasts exactly 456 dots,
/// whatever the pixel queue holds when the line begins: from the first dot
/// of line `ly` the line counter stays and the dot counter counts up for
/// 455 dots, and the 456th dot starts the next line. A visible line has
/// drawn exactly 160 pixels by then.
pub proof fn lemma_line_lasts_456_dots(v: VideoState, ly: int)
    requires
        0 <= ly < 154,
        v.lcd.line_y == ly,
        v.ppu.line_ticks == 0,
        v.ppu.wf(),
        v.lcd.status_mode_spec() == if ly < 144 {
            LCDMode::OAM
        } else {
            LCDMode::VBlank
        },
    ensures
        forall|k: nat|
            k < 456 ==> (#[trigger] ticks_spec(v, k)).lcd.line_y == ly && ticks_spec(
                v,
                k,
            ).ppu.line_ticks == k,
        ticks_spec(v, 456).lcd.line_y == next_line(ly),
        ticks_spec(v, 456).ppu.line_ticks == 0,
        ly < 144 ==> ticks_spec(v, 455).ppu.pfc.pushed_x == 160,
{
    lemma_line_start(v.ppu, v.lcd, ly);
    lemma_scanline(v, ly);
}

/// `k` lines on from the first dot of line `ly`, within one frame.
pub proof fn lemma_scanlines(v: VideoState, ly: int, k: nat)
    requires
        at_dot(v.ppu, v.lcd, ly, 0),
        ly + k <= 154,
    ensures
        at_dot(
            ticks_spec(v, 456 * k).ppu,
            ticks_spec(v, 456 * k).lcd,
            if ly + k == 154 {
                0
            } else {
                ly + k
            },
            0,
        ),
        ticks_spec(v, 456 * k).ppu.current_frame == if ly <= 143 && 143 < ly + k {
            v.ppu.current_frame.wrapping_add(1)
        } else {
            v.ppu.current_frame
        },
    decreases k,
{
    if k > 0 {
        lemma_scanline(v, ly);
        lemma_ticks_split(v, 456, (456 * (k - 1)) as nat);
        assert(456 + 456 * (k - 1) == 456 * k);
        if ly + 1 < 154 {
            lemma_scanlines(ticks_spec(v, 456), ly + 1, (k - 1) as nat);
        } else {
            assert(k == 1);
        }
    }
}

/// A frame takes 154 lines: 70224 dots after the first dot of line 0 the
/// picture unit stands at the first dot of line 0 again, in object scan,
/// and the frame counter has advanced by one.
pub proof fn lemma_frame(v: VideoState)
    requires
        at_dot(v.ppu, v.lcd, 0, 0),
    ensures
        at_dot(ticks_spec(v, 70224).ppu, ticks_spec(v, 70224).lcd, 0, 0),
        ticks_spec(v, 70224).lcd.status_mode_spec() == LCDMode::OAM,
        ticks_spec(v, 70224).ppu.current_frame == v.ppu.current_frame.wrapping_add(1),
{
    lemma_scanlines(v, 0, 154);
}

/// A dot of the whole machine moves the picture unit as `lemma_dot` says,
/// whatever the timer does to the CPU.
pub proof fn lemma_machine_dot(m: Machine, ly: int, t: int)
    requires
        at_dot(m.emu.ppu, m.emu.lcd, ly, t),
    ensures
        t < 455 ==> at_dot(m.dot_spec().emu.ppu, m.dot_spec().emu.lcd, ly, t + 1),
        t == 455 ==> at_dot(m.dot_spec().emu.ppu, m.dot_spec().emu.lcd, next_line(ly), 0),
        m.dot_spec().emu.ppu.current_frame == if ly == 143 && t == 455 {
            m.emu.ppu.current_frame.wrapping_add(1)
        } else {
            m.emu.ppu.current_frame
        },
{
    reveal(Machine::dot_spec);
    let timed = if m.emu.timer.overflows() {
        m.cpu.with_interrupt(InterruptType::Timer)
    } else {
        m.cpu
    };
    lemma_dot(VideoState { ppu: m.emu.ppu, lcd: m.emu.lcd, cpu: timed }, ly, t);
}

/// A machine cycle moves the picture unit four dots on; the DMA engine does
/// not disturb it. `t` is a multiple of four, as it is at every machine
/// cycle that follows a line's first dot.
pub proof fn lemma_machine_cycle(m: Machine, ly: int, t: int)
    requires
        at_dot(m.emu.ppu, m.emu.lcd, ly, t),
        t % 4 == 0,
    ensures
        t < 452 ==> at_dot(m.cycle_spec().emu.ppu, m.cycle_spec().emu.lcd, ly, t + 4),
        t == 452 ==> at_dot(m.cycle_spec().emu.ppu, m.cycle_spec().emu.lcd, next_line(ly), 0),
        m.cycle_spec().emu.ppu.current_frame == if ly == 143 && t == 452 {
            m.emu.ppu.current_frame.wrapping_add(1)
        } else {
            m.emu.ppu.current_frame
        },
{
    reveal(Machine::dma_spec);
    let d1 = m.dot_spec();
    let d2 = d1.dot_spec();
    let d3 = d2.dot_spec();
    lemma_machine_dot(m, ly, t);
    lemma_machine_dot(d1, ly, t + 1);
    lemma_machine_dot(d2, ly, t + 2);
    lemma_machine_dot(d3, ly, t + 3);
}

/// Machine cycles add up.
pub proof fn lemma_cycles_split(m: Machine, a: nat, b: nat)
    ensures
        m.cycles_spec(a + b) == m.cycles_spec(a).cycles_spec(b),
    decreases a,
{
    reveal_with_fuel(Machine::cycles_spec, 2);
    if a > 0 {
        lemma_cycles_split(m.cycle_spec(), (a - 1) as nat, b);
    }
}

/// While a line lasts, `n` machine cycles on the picture unit stands `4 n`
/// dots further in the line.
pub proof fn lemma_machine_cycles(m: Machine, ly: int, t: int, n: nat)
    requires
        at_dot(m.emu.ppu, m.emu.lcd, ly, t),
        t % 4 == 0,
        t + 4 * n < 456,
    ensures
        at_dot(m.cycles_spec(n).emu.ppu, m.cycles_spec(n).emu.lcd, ly, t + 4 * n),
        m.cycles_spec(n).emu.ppu.current_frame == m.emu.ppu.current_frame,
    decreases n,
{
    reveal_with_fuel(Machine::cycles_spec, 2);
    if n > 0 {
        lemma_machine_cycle(m, ly, t);
        lemma_machine_cycles(m.cycle_spec(), ly, t + 4, (n - 1) as nat);
    }
}

/// Every line takes 114 machine cycles, whatever else the machine does in
/// them short of a write to the display registers.
pub proof fn lemma_machine_scanline(m: Machine, ly: int)
    requires
        at_dot(m.emu.ppu, m.emu.lcd, ly, 0),
    ensures
        at_dot(m.cycles_spec(114).emu.ppu, m.cycles_spec(114).emu.lcd, next_line(ly), 0),
        m.cycles_spec(114).emu.ppu.current_frame == if ly == 143 {
            m.emu.ppu.current_frame.wrapping_add(1)
        } else {
            m.emu.ppu.current_frame
        },
{
    reveal_with_fuel(Machine::cycles_spec, 2);
    lemma_machine_cycles(m, ly, 0, 113);
    lemma_machine_cycle(m.cycles_spec(113), ly, 452);
    lemma_cycles_split(m, 113, 1);
}

/// `k` lines on from the first dot of line `ly`, within one frame.
pub proof fn lemma_machine_scanlines(m: Machine, ly: int, k: nat)
    requires
        at_dot(m.emu.ppu, m.emu.lcd, ly, 0),
        ly + k <= 154,
    ensures
        at_dot(
            m.cycles_spec(114 * k).emu.ppu,
            m.cycles_spec(114 * k).emu.lcd,
            if ly + k == 154 {
                0
            } else {
                ly + k
            },
            0,
        ),
        m.cycles_spec(114 * k).emu.ppu.current_frame == if ly <= 143 && 143 < ly + k {
            m.emu.ppu.current_frame.wrapping_add(1)
        } else {
            m.emu.ppu.current_frame
        },
    decreases k,
{
    reveal_with_fuel(Machine::cycles_spec, 1);
    if k > 0 {
        lemma_machine_scanline(m, ly);
        lemma_cycles_split(m, 114, (114 * (k - 1)) as nat);
        assert(114 + 114 * (k - 1) == 114 * k);
        if ly + 1 < 154 {
            lemma_machine_scanlines(m.cycles_spec(114), ly + 1, (k - 1) as nat);
        } else {
            assert(k == 1);
        }
    }
}

/// From the first dot of line 0 the machine is back there, in object scan,
/// after the 17556 machine cycles (70224 dots) of a frame, and the frame
/// counter has advanced by one.
pub proof fn lemma_machine_frame(m: Machine)
    requires
        at_dot(m.emu.ppu, m.emu.lcd, 0, 0),
    ensures
        at_dot(m.cycles_spec(17556).emu.ppu, m.cycles_spec(17556).emu.lcd, 0, 0),
        m.cycles_spec(17556).emu.lcd.status_mode_spec() == LCDMode::OAM,
        m.cycles_spec(17556).emu.ppu.current_frame == m.emu.ppu.current_frame.wrapping_add(1),
{
    lemma_machine_scanlines(m, 0, 154);
}

} // verus!
