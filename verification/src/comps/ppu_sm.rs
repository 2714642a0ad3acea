//! The scanline state machine: object scan, pixel transfer, horizontal and
//! vertical blank.
use vstd::prelude::*;
use crate::comps::cpu::{only_interrupts_differ, CPUContext};
use crate::comps::interrupts::InterruptType;
use crate::comps::lcd::{LCDContext, LCDMode, StatusSource};
use crate::comps::ppu::{
    video,
    FetchState,
    PPUContext,
    PPUView,
    PixelFIFOView,
    VideoState,
    LINES_PER_FRAME,
    TICKS_PER_LINE,
    X_RES,
    Y_RES,
};
use crate::comps::ppu_pipeline::{fifo_reset_spec, pipeline_process_spec};

verus! {

/// The state after the line counter has advanced: the coincidence bit
/// follows the comparison with LYC, and a coincidence raises the status
/// interrupt if that source is enabled.
pub open spec fn increment_line_y_spec(v: VideoState) -> VideoState {
    let line_y = v.lcd.line_y.wrapping_add(1);
    let lcd = LCDContext { line_y, ..v.lcd };
    if line_y == lcd.line_y_compare {
        let hit = lcd.with_line_y_compare(true);
        VideoState {
            lcd: hit,
            cpu: if hit.status_stat_int_spec(StatusSource::LYC) {
                v.cpu.with_interrupt(InterruptType::LCDStat)
            } else {
                v.cpu
            },
            ..v
        }
    } else {
        VideoState { lcd: lcd.with_line_y_compare(false), ..v }
    }
}

/// One dot of the object scan: at dot 80 the pipeline is reset and pixel
/// transfer begins.
pub open spec fn mode_oam_spec(v: VideoState) -> VideoState {
    if v.ppu.line_ticks >= 80 {
        VideoState {
            lcd: v.lcd.with_mode(LCDMode::XFER),
            ppu: PPUView {
                pfc: PixelFIFOView {
                    cur_fetch_state: FetchState::TILE,
                    line_x: 0,
                    fetch_x: 0,
                    pushed_x: 0,
                    fifo_x: 0,
                    ..v.ppu.pfc
                },
                ..v.ppu
            },
            ..v
        }
    } else {
        v
    }
}

/// One dot of pixel transfer: the pipeline runs, and once 160 pixels are
/// out the queue is emptied and horizontal blank begins.
pub open spec fn mode_xfer_spec(v: VideoState) -> VideoState {
    let ppu = pipeline_process_spec(v.ppu, v.lcd);
    if ppu.pfc.pushed_x >= X_RES {
        let lcd = v.lcd.with_mode(LCDMode::HBlank);
        VideoState {
            ppu: fifo_reset_spec(ppu),
            lcd,
            cpu: if lcd.status_stat_int_spec(StatusSource::HBlank) {
                v.cpu.with_interrupt(InterruptType::LCDStat)
            } else {
                v.cpu
            },
        }
    } else {
        VideoState { ppu, ..v }
    }
}

/// One dot of horizontal blank: at dot 456 the line ends. After line 143
/// vertical blank begins, its interrupt is raised and the frame is counted;
/// otherwise the next line's object scan begins.
pub open spec fn mode_hblank_spec(v: VideoState) -> VideoState {
    if v.ppu.line_ticks >= TICKS_PER_LINE {
        let w = increment_line_y_spec(v);
        if w.lcd.line_y >= Y_RES {
            let lcd = w.lcd.with_mode(LCDMode::VBlank);
            let cpu = w.cpu.with_interrupt(InterruptType::VBlank);
            VideoState {
                lcd,
                cpu: if lcd.status_stat_int_spec(StatusSource::VBlank) {
                    cpu.with_interrupt(InterruptType::LCDStat)
                } else {
                    cpu
                },
                ppu: PPUView {
                    current_frame: w.ppu.current_frame.wrapping_add(1),
                    line_ticks: 0,
                    ..w.ppu
                },
            }
        } else {
            VideoState {
                lcd: w.lcd.with_mode(LCDMode::OAM),
                ppu: PPUView { line_ticks: 0, ..w.ppu },
                ..w
            }
        }
    } else {
        v
    }
}

/// One dot of vertical blank: at dot 456 the line ends, and after line 153
/// the counter returns to line 0 and object scan begins.
pub open spec fn mode_vblank_spec(v: VideoState) -> VideoState {
    if v.ppu.line_ticks >= TICKS_PER_LINE {
        let w = increment_line_y_spec(v);
        let ppu = PPUView { line_ticks: 0, ..w.ppu };
        if w.lcd.line_y >= LINES_PER_FRAME {
            VideoState {
                lcd: LCDContext { line_y: 0, ..w.lcd.with_mode(LCDMode::OAM) },
                ppu,
                ..w
            }
        } else {
            VideoState { ppu, ..w }
        }
    } else {
        v
    }
}

/// One dot of the picture unit: the dot counter advances, then the current
/// mode acts.
#[verifier::opaque]
pub open spec fn tick_spec(v: VideoState) -> VideoState {
    let w = VideoState {
        ppu: PPUView { line_ticks: v.ppu.line_ticks.wrapping_add(1), ..v.ppu },
        ..v
    };
    match w.lcd.status_mode_spec() {
        LCDMode::OAM => mode_oam_spec(w),
        LCDMode::XFER => mode_xfer_spec(w),
        LCDMode::VBlank => mode_vblank_spec(w),
        LCDMode::HBlank => mode_hblank_spec(w),
    }
}

/// A dot of the picture unit leaves the video RAM and the object attribute
/// memory alone, and of the CPU it changes at most the pending interrupts.
pub proof fn lemma_tick_frame(v: VideoState)
    ensures
        tick_spec(v).ppu.vram == v.ppu.vram,
        tick_spec(v).ppu.oam_ram == v.ppu.oam_ram,
        only_interrupts_differ(v.cpu, tick_spec(v).cpu),
{
    reveal(tick_spec);
}

impl PPUContext {
    pub fn increment_line_y(&mut self, lcd: &mut LCDContext, cpu: &mut CPUContext)
        ensures
            video(final(self), final(lcd), final(cpu)) == increment_line_y_spec(
                video(old(self), old(lcd), old(cpu)),
            ),
            final(self)@ == old(self)@,
            only_interrupts_differ(*old(cpu), *final(cpu)),
    {
        lcd.line_y = lcd.line_y.wrapping_add(1);
        if lcd.line_y == lcd.line_y_compare {
            lcd.status_line_y_compare_set(true);
            if lcd.status_stat_int(StatusSource::LYC) {
                cpu.request_interrupt(InterruptType::LCDStat);
            }
        } else {
            lcd.status_line_y_compare_set(false);
        }
    }

    pub fn mode_oam(&mut self, lcd: &mut LCDContext)
        ensures
            forall|cpu: CPUContext| #[trigger]
                mode_oam_spec(video(old(self), old(lcd), &cpu)) == video(
                    final(self),
                    final(lcd),
                    &cpu,
                ),
            final(self)@.pfc.pixel_fifo == old(self)@.pfc.pixel_fifo,
    {
        if 80 <= self.line_ticks {
            lcd.status_mode_set(LCDMode::XFER);
            self.pfc.cur_fetch_state = FetchState::TILE;
            self.pfc.line_x = 0;
            self.pfc.fetch_x = 0;
            self.pfc.pushed_x = 0;
            self.pfc.fifo_x = 0;
        }
    }

    pub fn mode_xfer(&mut self, cpu: &mut CPUContext, lcd: &mut LCDContext)
        requires
            old(self).wf(),
        ensures
            video(final(self), final(lcd), final(cpu)) == mode_xfer_spec(
                video(old(self), old(lcd), old(cpu)),
            ),
            final(self).wf(),
            only_interrupts_differ(*old(cpu), *final(cpu)),
    {
        self.pipeline_process(lcd);
        if X_RES <= self.pfc.pushed_x {
            self.pipeline_fifo_reset();
            lcd.status_mode_set(LCDMode::HBlank);
            if lcd.status_stat_int(StatusSource::HBlank) {
                cpu.request_interrupt(InterruptType::LCDStat);
            }
        }
    }

    pub fn mode_hblank(&mut self, cpu: &mut CPUContext, lcd: &mut LCDContext)
        ensures
            video(final(self), final(lcd), final(cpu)) == mode_hblank_spec(
                video(old(self), old(lcd), old(cpu)),
            ),
            final(self)@.pfc == old(self)@.pfc,
            only_interrupts_differ(*old(cpu), *final(cpu)),
    {
        if TICKS_PER_LINE <= self.line_ticks {
            self.increment_line_y(lcd, cpu);
            if Y_RES <= lcd.line_y {
                lcd.status_mode_set(LCDMode::VBlank);
                cpu.request_interrupt(InterruptType::VBlank);
                if lcd.status_stat_int(StatusSource::VBlank) {
                    cpu.request_interrupt(InterruptType::LCDStat);
                }
                self.current_frame = self.current_frame.wrapping_add(1);
            } else {
                lcd.status_mode_set(LCDMode::OAM);
            }
            self.line_ticks = 0;
        }
    }

    pub fn mode_vblank(&mut self, cpu: &mut CPUContext, lcd: &mut LCDContext)
        ensures
            video(final(self), final(lcd), final(cpu)) == mode_vblank_spec(
                video(old(self), old(lcd), old(cpu)),
            ),
            final(self)@.pfc == old(self)@.pfc,
            only_interrupts_differ(*old(cpu), *final(cpu)),
    {
        if TICKS_PER_LINE <= self.line_ticks {
            self.increment_line_y(lcd, cpu);
            if LINES_PER_FRAME <= lcd.line_y {
                lcd.status_mode_set(LCDMode::OAM);
                lcd.line_y = 0;
            }
            self.line_ticks = 0;
        }
    }

    /// Advances the picture unit by one dot.
    pub fn tick(&mut self, cpu: &mut CPUContext, lcd: &mut LCDContext)
        requires
            old(self).wf(),
        ensures
            video(final(self), final(lcd), final(cpu)) == tick_spec(
                video(old(self), old(lcd), old(cpu)),
            ),
            final(self).wf(),
            only_interrupts_differ(*old(cpu), *final(cpu)),
    {
        proof {
            reveal(tick_spec);
        }
        self.line_ticks = self.line_ticks.wrapping_add(1);
        match lcd.status_mode() {
            LCDMode::OAM => {
                let ghost w = video(self, lcd, cpu);
                self.mode_oam(lcd);
                assert(video(self, lcd, cpu) == mode_oam_spec(w));
            },
            LCDMode::XFER => self.mode_xfer(cpu, lcd),
            LCDMode::VBlank => self.mode_vblank(cpu, lcd),
            LCDMode::HBlank => self.mode_hblank(cpu, lcd),
        }
    }
}

} // verus!
