use gbemu::comps::bus::{bus_read, bus_write};
use gbemu::comps::cart::CartContext;
use gbemu::comps::cpu::CPUContext;
use gbemu::comps::emu::EmulatorContext;
use gbemu::comps::interrupts::{handle_interrupts, int_handle, InterruptType};
use gbemu::comps::pacing::{frame_delay, FramePacer};
use gbemu::comps::stack::{stack_pop, stack_pop16, stack_push, stack_push16};
use gbemu::comps::timer::{timer_read, timer_tick, timer_write, TimerContext};

fn machine_with(program: &[u8]) -> (CPUContext, EmulatorContext) {
    let mut rom = vec![0u8; 0x10000];
    for (i, b) in program.iter().enumerate() {
        rom[0x100 + i] = *b;
    }
    let cart = CartContext::new(rom).unwrap();
    (CPUContext::new(), EmulatorContext::new(cart))
}

fn step(cpu: &mut CPUContext, emu: &mut EmulatorContext) -> u64 {
    assert!(cpu.can_step(emu));
    let before = emu.ticks;
    cpu.step(emu);
    (emu.ticks - before) / 4
}

#[test]
fn interrupt_masks_and_vectors() {
    let all = [
        (InterruptType::VBlank, 0x01u8, 0x40u16),
        (InterruptType::LCDStat, 0x02, 0x48),
        (InterruptType::Timer, 0x04, 0x50),
        (InterruptType::Serial, 0x08, 0x58),
        (InterruptType::Joypad, 0x10, 0x60),
    ];
    for (it, mask, vector) in all {
        assert_eq!(it.mask(), mask);
        assert_eq!(it.vector(), vector);
        let mut cpu = CPUContext::new();
        cpu.request_interrupt(it);
        assert_eq!(cpu.get_int_flags(), mask);
    }
}

#[test]
fn interrupts_are_serviced_in_priority_order() {
    let order = [(0x01u8, 0x40u16), (0x02, 0x48), (0x04, 0x50), (0x08, 0x58), (0x10, 0x60)];
    let (mut cpu, mut emu) = machine_with(&[]);
    cpu.registers.sp = 0xDFFE;
    cpu.set_int_flags(0x1F);
    cpu.set_ie_reg(0x1F);
    let mut pending = 0x1Fu8;
    for (mask, vector) in order {
        cpu.registers.pc = 0x1234;
        cpu.int_master_enabled = true;
        cpu.halted = true;
        let before = emu.ticks;
        handle_interrupts(&mut cpu, &mut emu);
        pending &= !mask;
        assert_eq!(cpu.registers.pc, vector);
        assert_eq!(cpu.get_int_flags() & 0x1F, pending);
        assert!(!cpu.int_master_enabled);
        assert!(!cpu.halted);
        assert_eq!(emu.ticks - before, 20);
        assert_eq!(stack_pop16(&mut cpu, &emu), 0x1234);
    }
    let before = emu.ticks;
    cpu.registers.pc = 0x4321;
    handle_interrupts(&mut cpu, &mut emu);
    assert_eq!(cpu.registers.pc, 0x4321);
    assert_eq!(emu.ticks, before);
}

#[test]
fn pending_but_disabled_interrupt_is_not_serviced() {
    let (mut cpu, mut emu) = machine_with(&[]);
    cpu.registers.sp = 0xDFFE;
    cpu.set_int_flags(0x04);
    cpu.set_ie_reg(0x1B);
    cpu.registers.pc = 0x0200;
    handle_interrupts(&mut cpu, &mut emu);
    assert_eq!(cpu.registers.pc, 0x0200);
    assert_eq!(cpu.get_int_flags(), 0x04);
    assert_eq!(cpu.registers.sp, 0xDFFE);
}

#[test]
fn int_handle_pushes_pc() {
    let (mut cpu, mut emu) = machine_with(&[]);
    cpu.registers.sp = 0xDFFE;
    cpu.registers.pc = 0xABCD;
    int_handle(&mut cpu, &mut emu, 0x50);
    assert_eq!(cpu.registers.pc, 0x50);
    assert_eq!(cpu.registers.sp, 0xDFFC);
    assert_eq!(bus_read(&cpu, &emu, 0xDFFD), 0xAB);
    assert_eq!(bus_read(&cpu, &emu, 0xDFFC), 0xCD);
}

#[test]
fn ei_takes_effect_after_the_next_instruction() {
    let (mut cpu, mut emu) = machine_with(&[0xFB, 0x00, 0x00]);
    cpu.registers.sp = 0xDFFE;
    cpu.set_ie_reg(0x04);
    cpu.set_int_flags(0x04);
    assert_eq!(step(&mut cpu, &mut emu), 1);
    assert!(cpu.int_master_enabled);
    assert_eq!(cpu.registers.pc, 0x0101);
    assert_eq!(step(&mut cpu, &mut emu), 1 + 5);
    assert_eq!(cpu.registers.pc, 0x0050);
    assert!(!cpu.int_master_enabled);
    assert!(!cpu.enabling_ime);
    assert_eq!(cpu.get_int_flags() & 0x04, 0);
    assert_eq!(bus_read(&cpu, &emu, 0xDFFD), 0x01);
    assert_eq!(bus_read(&cpu, &emu, 0xDFFC), 0x02);
}

#[test]
fn di_disables_at_once_and_reti_enables_at_once() {
    let (mut cpu, mut emu) = machine_with(&[0xF3, 0xD9]);
    cpu.registers.sp = 0xDFFC;
    bus_write(&mut cpu, &mut emu, 0xDFFC, 0x00);
    bus_write(&mut cpu, &mut emu, 0xDFFD, 0x02);
    cpu.int_master_enabled = true;
    cpu.set_ie_reg(0x01);
    cpu.set_int_flags(0x01);
    step(&mut cpu, &mut emu);
    assert!(!cpu.int_master_enabled);
    assert_eq!(cpu.registers.pc, 0x0101);
    assert_eq!(cpu.get_int_flags(), 0x01);
    // RETI returns to $0200 and the waiting interrupt is serviced right away.
    assert_eq!(step(&mut cpu, &mut emu), 4 + 5);
    assert_eq!(cpu.registers.pc, 0x0040);
    assert_eq!(bus_read(&cpu, &emu, 0xDFFD), 0x02);
    assert_eq!(bus_read(&cpu, &emu, 0xDFFC), 0x00);
    assert!(!cpu.int_master_enabled);
}

#[test]
fn halt_ends_when_an_interrupt_is_pending() {
    let (mut cpu, mut emu) = machine_with(&[0x76, 0x3C]);
    cpu.registers.a = 0;
    step(&mut cpu, &mut emu);
    assert!(cpu.halted);
    for _ in 0..5 {
        assert_eq!(step(&mut cpu, &mut emu), 1);
        assert!(cpu.halted);
        assert_eq!(cpu.registers.pc, 0x0101);
    }
    cpu.request_interrupt(InterruptType::Joypad);
    assert_eq!(step(&mut cpu, &mut emu), 1);
    assert!(!cpu.halted);
    step(&mut cpu, &mut emu);
    assert_eq!(cpu.registers.a, 1);
}

#[test]
fn stack_grows_down_high_byte_first() {
    let (mut cpu, mut emu) = machine_with(&[]);
    cpu.registers.sp = 0xD000;
    stack_push(&mut cpu, &mut emu, 0x11);
    assert_eq!(cpu.registers.sp, 0xCFFF);
    assert_eq!(bus_read(&cpu, &emu, 0xCFFF), 0x11);
    stack_push16(&mut cpu, &mut emu, 0xA1B2);
    assert_eq!(cpu.registers.sp, 0xCFFD);
    assert_eq!(bus_read(&cpu, &emu, 0xCFFE), 0xA1);
    assert_eq!(bus_read(&cpu, &emu, 0xCFFD), 0xB2);
    assert_eq!(stack_pop(&mut cpu, &emu), 0xB2);
    assert_eq!(stack_pop(&mut cpu, &emu), 0xA1);
    assert_eq!(stack_pop(&mut cpu, &emu), 0x11);
    assert_eq!(cpu.registers.sp, 0xD000);
    cpu.registers.sp = 0x0000;
    stack_push(&mut cpu, &mut emu, 0x01);
    assert_eq!(cpu.registers.sp, 0xFFFF);
    assert_eq!(cpu.get_ie_reg(), 0x01);
}

#[test]
fn timer_registers() {
    let mut timer = TimerContext::new();
    assert_eq!(timer.div, 0xAC00);
    assert_eq!(timer_read(&timer, 0xFF04), 0xAC);
    timer_write(&mut timer, 0xFF05, 0x11);
    timer_write(&mut timer, 0xFF06, 0x22);
    timer_write(&mut timer, 0xFF07, 0x07);
    assert_eq!(timer_read(&timer, 0xFF05), 0x11);
    assert_eq!(timer_read(&timer, 0xFF06), 0x22);
    assert_eq!(timer_read(&timer, 0xFF07), 0x07);
    timer_write(&mut timer, 0xFF04, 0x99);
    assert_eq!(timer.div, 0);
    assert_eq!(timer_read(&timer, 0xFF04), 0);
}

#[test]
fn timer_counts_the_falls_of_the_selected_bit() {
    for (select, period) in [(0u8, 1024u32), (1, 16), (2, 64), (3, 256)] {
        let mut cpu = CPUContext::new();
        let mut timer = TimerContext { div: 0, tima: 0, tma: 0, tac: 0x04 | select };
        for dot in 1..=(3 * period) {
            timer_tick(&mut timer, &mut cpu);
            assert_eq!(timer.tima as u32, dot / period, "select {} dot {}", select, dot);
        }
        assert_eq!(cpu.int_flags, 0);
        let mut off = TimerContext { div: 0, tima: 0, tma: 0, tac: select };
        for _ in 0..(3 * period) {
            timer_tick(&mut off, &mut cpu);
        }
        assert_eq!(off.tima, 0);
        assert_eq!(off.div as u32, 3 * period);
    }
}

#[test]
fn timer_reloads_and_interrupts_once_per_span() {
    let mut cpu = CPUContext::new();
    let mut timer = TimerContext { div: 0, tima: 0xF0, tma: 0xF0, tac: 0x05 };
    let mut interrupts = 0;
    let falls = 100u32;
    for _ in 0..(falls * 16) {
        cpu.int_flags = 0;
        timer_tick(&mut timer, &mut cpu);
        if cpu.int_flags & 0x04 != 0 {
            interrupts += 1;
        }
    }
    assert_eq!(interrupts, falls / 16);
    assert_eq!(timer.tima as u32, 0xF0 + falls % 16);
    assert_eq!(timer.tma, 0xF0);
}

#[test]
fn divider_wraps_and_clocks_on_the_wrap() {
    let mut cpu = CPUContext::new();
    let mut timer = TimerContext { div: 0xFFFF, tima: 5, tma: 0, tac: 0x04 };
    timer_tick(&mut timer, &mut cpu);
    assert_eq!(timer.div, 0);
    assert_eq!(timer.tima, 6);
}

#[test]
fn clock_pump_runs_four_dots_per_machine_cycle() {
    let (mut cpu, mut emu) = machine_with(&[]);
    emu.timer.div = 0;
    emu.cycles(&mut cpu, 3);
    assert_eq!(emu.ticks, 12);
    assert_eq!(emu.timer.div, 12);
    assert_eq!(emu.ppu.line_ticks, 12);
    emu.cycles(&mut cpu, 0);
    assert_eq!(emu.ticks, 12);
    emu.dot(&mut cpu);
    assert_eq!(emu.ticks, 13);
    assert_eq!(emu.ppu.line_ticks, 13);
    emu.ticks = u64::MAX - 1;
    emu.cycles(&mut cpu, 1);
    assert_eq!(emu.ticks, 2);
}

#[test]
fn frame_delay_is_what_is_left_of_sixteen_milliseconds() {
    assert_eq!(frame_delay(0), 16);
    assert_eq!(frame_delay(1), 15);
    assert_eq!(frame_delay(15), 1);
    assert_eq!(frame_delay(16), 0);
    assert_eq!(frame_delay(17), 0);
    assert_eq!(frame_delay(u32::MAX), 0);
}

#[test]
fn pacer_counts_frames_and_reports_once_a_second() {
    let mut pacer = FramePacer::new();
    assert_eq!(pacer, FramePacer { prev_frame_time: 0, start_timer: 0, frame_count: 0 });
    let mut now = 0u32;
    for frame in 0..62u32 {
        now += 5;
        let (delay, fps) = pacer.frame_ended(now);
        assert_eq!(delay, 11);
        assert_eq!(fps, None);
        assert_eq!(pacer.frame_count, frame + 1);
        now += delay;
        pacer.resumed(now);
        assert_eq!(pacer.prev_frame_time, now);
    }
    assert_eq!(now, 992);
    now += 8;
    let (delay, fps) = pacer.frame_ended(now);
    assert_eq!(delay, 8);
    assert_eq!(fps, Some(62));
    assert_eq!(pacer.start_timer, 1000);
    assert_eq!(pacer.frame_count, 1);
    pacer.resumed(1008);
    let (delay, fps) = pacer.frame_ended(1040);
    assert_eq!((delay, fps), (0, None));
    assert_eq!(pacer.frame_count, 2);
}
