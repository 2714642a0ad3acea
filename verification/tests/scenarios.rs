use gbemu::comps::bus::{bus_read, bus_write};
use gbemu::comps::cart::CartContext;
use gbemu::comps::cpu::CPUContext;
use gbemu::comps::emu::EmulatorContext;
use gbemu::comps::lcd::LCDMode;
use gbemu::comps::timer::timer_tick;

fn machine_with(program: &[u8]) -> (CPUContext, EmulatorContext) {
    let mut rom = vec![0u8; 0x10000];
    for (i, b) in program.iter().enumerate() {
        rom[0x100 + i] = *b;
    }
    let cart = CartContext::new(rom).unwrap();
    (CPUContext::new(), EmulatorContext::new(cart))
}

fn step(cpu: &mut CPUContext, emu: &mut EmulatorContext) {
    assert!(cpu.can_step(emu));
    cpu.step(emu);
}

#[test]
fn bcd_sanity() {
    let (mut cpu, mut emu) = machine_with(&[0xC6, 0x27, 0x27]);
    cpu.registers.a = 0x15;
    step(&mut cpu, &mut emu);
    assert_eq!(cpu.registers.a, 0x3C);
    step(&mut cpu, &mut emu);
    assert_eq!(cpu.registers.a, 0x42);
    assert!(!cpu.flag_z());
    assert!(!cpu.flag_n());
    assert!(!cpu.flag_h());
    assert!(!cpu.flag_c());
    assert_eq!(cpu.registers.f & 0x0F, 0);
}

#[test]
fn half_carry_on_inc() {
    for carry in [false, true] {
        let (mut cpu, mut emu) = machine_with(&[0x3C]);
        cpu.registers.a = 0x0F;
        cpu.set_flags(None, None, None, Some(carry));
        step(&mut cpu, &mut emu);
        assert_eq!(cpu.registers.a, 0x10);
        assert!(!cpu.flag_z());
        assert!(!cpu.flag_n());
        assert!(cpu.flag_h());
        assert_eq!(cpu.flag_c(), carry);
    }
}

#[test]
fn stack_lifo() {
    let (mut cpu, mut emu) = machine_with(&[0xC5, 0xD1]);
    cpu.registers.sp = 0xFFFE;
    cpu.registers.b = 0x12;
    cpu.registers.c = 0x34;
    step(&mut cpu, &mut emu);
    assert_eq!(cpu.registers.sp, 0xFFFC);
    assert_eq!(bus_read(&cpu, &emu, 0xFFFD), 0x12);
    assert_eq!(bus_read(&cpu, &emu, 0xFFFC), 0x34);
    step(&mut cpu, &mut emu);
    assert_eq!(cpu.registers.d, 0x12);
    assert_eq!(cpu.registers.e, 0x34);
    assert_eq!(cpu.registers.sp, 0xFFFE);
}

#[test]
fn dma_lockout() {
    let (mut cpu, mut emu) = machine_with(&[0x3E, 0xC0, 0xE0, 0x46]);
    for i in 0..160u16 {
        bus_write(&mut cpu, &mut emu, 0xC000 + i, (i as u8) ^ 0x5A);
    }
    bus_write(&mut cpu, &mut emu, 0xFE00, 0x77);
    assert_eq!(bus_read(&cpu, &emu, 0xFE00), 0x77);
    step(&mut cpu, &mut emu);
    assert_eq!(cpu.registers.a, 0xC0);
    step(&mut cpu, &mut emu);
    // The write to $FF46 is followed by the last machine cycle of LDH.
    assert!(emu.dma.transferring());
    let mut cycles = 1;
    while cycles < 162 {
        for a in [0xFE00u16, 0xFE50, 0xFE9F] {
            assert_eq!(bus_read(&cpu, &emu, a), 0xFF);
        }
        emu.cycles(&mut cpu, 1);
        cycles += 1;
    }
    assert!(!emu.dma.transferring());
    assert_eq!(bus_read(&cpu, &emu, 0xFE00), bus_read(&cpu, &emu, 0xC000));
    for i in 0..160u16 {
        assert_eq!(bus_read(&cpu, &emu, 0xFE00 + i), (i as u8) ^ 0x5A);
    }
}

#[test]
fn timer_interrupt() {
    let (mut cpu, mut emu) = machine_with(&[]);
    emu.timer.div = 0;
    emu.timer.tac = 0x05;
    emu.timer.tima = 0xFF;
    emu.timer.tma = 0x23;
    for _ in 0..15 {
        timer_tick(&mut emu.timer, &mut cpu);
    }
    assert_eq!(emu.timer.tima, 0xFF);
    assert_eq!(cpu.int_flags & 0x04, 0);
    timer_tick(&mut emu.timer, &mut cpu);
    assert_eq!(emu.timer.tima, 0x23);
    assert_eq!(cpu.int_flags & 0x04, 0x04);
    assert_eq!(emu.timer.div, 16);
}

#[test]
fn ppu_frame_cadence() {
    let (mut cpu, mut emu) = machine_with(&[]);
    assert_eq!(emu.lcd.line_y, 0);
    assert_eq!(emu.lcd.status_mode(), LCDMode::OAM);
    let frame = emu.ppu.current_frame;
    let mut lines = 0u32;
    let mut last_ly = emu.lcd.line_y;
    for dot in 0..70224u32 {
        emu.dot(&mut cpu);
        if emu.lcd.line_y != last_ly {
            lines += 1;
            last_ly = emu.lcd.line_y;
            assert_eq!((dot + 1) % 456, 0);
        }
        if dot + 1 < 70224 {
            assert!(!(emu.lcd.line_y == 0 && emu.lcd.status_mode() == LCDMode::OAM) || dot < 456);
        }
    }
    assert_eq!(lines, 154);
    assert_eq!(emu.lcd.line_y, 0);
    assert_eq!(emu.lcd.status_mode(), LCDMode::OAM);
    assert_eq!(emu.ppu.current_frame, frame.wrapping_add(1));
    assert_eq!(emu.ppu.line_ticks, 0);
    assert_eq!(cpu.int_flags & 0x01, 0x01);
}
