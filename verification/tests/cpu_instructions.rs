use gbemu::comps::bus::{bus_read, bus_write};
use gbemu::comps::cart::CartContext;
use gbemu::comps::cpu::CPUContext;
use gbemu::comps::cpu_cb::decode_reg;
use gbemu::comps::emu::EmulatorContext;
use gbemu::comps::instructions::{inst_by_opcode, AddrMode, CondType, InstType, RegType};

fn machine_with(program: &[u8]) -> (CPUContext, EmulatorContext) {
    let mut rom = vec![0u8; 0x10000];
    for (i, b) in program.iter().enumerate() {
        rom[0x100 + i] = *b;
    }
    let cart = CartContext::new(rom).unwrap();
    (CPUContext::new(), EmulatorContext::new(cart))
}

fn step(cpu: &mut CPUContext, emu: &mut EmulatorContext) -> u64 {
    assert!(cpu.can_step(emu));
    let before = emu.ticks;
    cpu.step(emu);
    assert_eq!(cpu.registers.f & 0x0F, 0);
    let dots = emu.ticks - before;
    assert_eq!(dots % 4, 0);
    dots / 4
}

fn flags(cpu: &CPUContext) -> (bool, bool, bool, bool) {
    (cpu.flag_z(), cpu.flag_n(), cpu.flag_h(), cpu.flag_c())
}

fn cycles_of(program: &[u8], f: u8) -> u64 {
    let (mut cpu, mut emu) = machine_with(program);
    cpu.registers.f = f;
    cpu.registers.h = 0xC0;
    cpu.registers.l = 0x10;
    cpu.registers.sp = 0xDFF0;
    step(&mut cpu, &mut emu)
}

#[test]
fn power_on_state() {
    let cpu = CPUContext::new();
    assert_eq!(cpu.registers.pc, 0x100);
    assert_eq!(cpu.registers.sp, 0xFFFE);
    assert_eq!(cpu.registers.a, 0x01);
    assert_eq!(cpu.registers.f, 0xB0);
    assert_eq!(cpu.registers.c, 0x13);
    assert_eq!(cpu.registers.e, 0xD8);
    assert_eq!(cpu.registers.h, 0x01);
    assert_eq!(cpu.registers.l, 0x4D);
    assert!(!cpu.int_master_enabled);
    assert!(!cpu.halted);
    assert_eq!(flags(&cpu), (true, false, true, true));
}

#[test]
fn opcode_table_entries() {
    let nop = inst_by_opcode(0x00);
    assert_eq!(nop.inst_type, InstType::NOP);
    assert_eq!(nop.mode, AddrMode::IMP);
    let ld = inst_by_opcode(0x01);
    assert_eq!(ld.inst_type, InstType::LD);
    assert_eq!(ld.mode, AddrMode::RxD16);
    assert_eq!(ld.reg1, Some(RegType::BC));
    let jr = inst_by_opcode(0x28);
    assert_eq!(jr.inst_type, InstType::JR);
    assert_eq!(jr.cond, CondType::Z);
    let rst = inst_by_opcode(0xEF);
    assert_eq!(rst.inst_type, InstType::RST);
    assert_eq!(rst.param, Some(0x28));
    let halt = inst_by_opcode(0x76);
    assert_eq!(halt.inst_type, InstType::HALT);
    let ld_hl_b = inst_by_opcode(0x70);
    assert_eq!(ld_hl_b.mode, AddrMode::MRxR);
    assert_eq!(ld_hl_b.reg1, Some(RegType::HL));
    assert_eq!(ld_hl_b.reg2, Some(RegType::B));
    let cp = inst_by_opcode(0xBE);
    assert_eq!(cp.inst_type, InstType::CP);
    assert_eq!(cp.mode, AddrMode::RxMR);
    let mut undefined = 0;
    for op in 0..=255u8 {
        if inst_by_opcode(op).inst_type == InstType::NONE {
            undefined += 1;
            assert!(!inst_by_opcode(op).is_executable());
        }
    }
    assert_eq!(undefined, 11);
    assert!(!inst_by_opcode(0x10).is_executable());
    assert!(inst_by_opcode(0xE9).is_executable());
}

#[test]
fn undefined_opcode_cannot_step() {
    for op in [0xD3u8, 0xDB, 0xDD, 0xE3, 0xE4, 0xEB, 0xEC, 0xED, 0xF4, 0xFC, 0xFD, 0x10] {
        let (mut cpu, emu) = machine_with(&[op]);
        assert!(!cpu.can_step(&emu));
        cpu.halted = true;
        assert!(cpu.can_step(&emu));
    }
}

#[test]
fn register_pairs_pack_high_byte_first() {
    let mut cpu = CPUContext::new();
    cpu.set_reg(Some(RegType::BC), 0x1234);
    assert_eq!(cpu.registers.b, 0x12);
    assert_eq!(cpu.registers.c, 0x34);
    assert_eq!(cpu.read_reg(Some(RegType::BC)), 0x1234);
    cpu.set_reg(Some(RegType::A), 0xABCD);
    assert_eq!(cpu.registers.a, 0xCD);
    assert_eq!(cpu.read_reg(Some(RegType::A)), 0x00CD);
    cpu.set_reg(Some(RegType::SP), 0xBEEF);
    assert_eq!(cpu.read_reg(Some(RegType::SP)), 0xBEEF);
    cpu.set_reg(Some(RegType::HL), 0xC123);
    assert_eq!((cpu.registers.h, cpu.registers.l), (0xC1, 0x23));
    cpu.set_reg(Some(RegType::DE), 0x0FF0);
    assert_eq!(cpu.read_reg(Some(RegType::DE)), 0x0FF0);
    cpu.set_reg(Some(RegType::PC), 0x4000);
    assert_eq!(cpu.registers.pc, 0x4000);
}

#[test]
fn set_flags_keeps_unnamed_flags() {
    let mut cpu = CPUContext::new();
    cpu.registers.f = 0x00;
    cpu.set_flags(Some(true), None, None, Some(true));
    assert_eq!(cpu.registers.f, 0x90);
    cpu.set_flags(None, Some(true), Some(true), None);
    assert_eq!(cpu.registers.f, 0xF0);
    cpu.set_flags(Some(false), None, Some(false), None);
    assert_eq!(cpu.registers.f, 0x50);
}

#[test]
fn decode_reg_order() {
    let expected = [
        RegType::B,
        RegType::C,
        RegType::D,
        RegType::E,
        RegType::H,
        RegType::L,
        RegType::HL,
        RegType::A,
    ];
    for (i, rt) in expected.iter().enumerate() {
        assert_eq!(decode_reg(i as u8), *rt);
    }
    assert_eq!(decode_reg(8), RegType::NONE);
    assert_eq!(decode_reg(0xFF), RegType::NONE);
}

#[test]
fn documented_cycle_counts() {
    // (program, flags, machine cycles)
    let z = 0x80u8;
    let c = 0x10u8;
    let cases: Vec<(Vec<u8>, u8, u64)> = vec![
        (vec![0x00], 0, 1),
        (vec![0x01, 0x34, 0x12], 0, 3),
        (vec![0x02], 0, 2),
        (vec![0x03], 0, 2),
        (vec![0x04], 0, 1),
        (vec![0x05], 0, 1),
        (vec![0x06, 0x12], 0, 2),
        (vec![0x07], 0, 1),
        (vec![0x08, 0x00, 0xC0], 0, 5),
        (vec![0x09], 0, 2),
        (vec![0x0A], 0, 2),
        (vec![0x0B], 0, 2),
        (vec![0x18, 0x02], 0, 3),
        (vec![0x20, 0x02], 0, 3),
        (vec![0x20, 0x02], z, 2),
        (vec![0x28, 0x02], z, 3),
        (vec![0x28, 0x02], 0, 2),
        (vec![0x30, 0x02], c, 2),
        (vec![0x38, 0x02], c, 3),
        (vec![0x22], 0, 2),
        (vec![0x2A], 0, 2),
        (vec![0x32], 0, 2),
        (vec![0x3A], 0, 2),
        (vec![0x27], 0, 1),
        (vec![0x34], 0, 3),
        (vec![0x35], 0, 3),
        (vec![0x36, 0x55], 0, 3),
        (vec![0x41], 0, 1),
        (vec![0x46], 0, 2),
        (vec![0x70], 0, 2),
        (vec![0x76], 0, 1),
        (vec![0x80], 0, 1),
        (vec![0x86], 0, 2),
        (vec![0x96], 0, 2),
        (vec![0xBE], 0, 2),
        (vec![0xC0], 0, 5),
        (vec![0xC0], z, 2),
        (vec![0xC8], z, 5),
        (vec![0xC1], 0, 3),
        (vec![0xC2, 0x00, 0x02], 0, 4),
        (vec![0xC2, 0x00, 0x02], z, 3),
        (vec![0xC3, 0x00, 0x02], 0, 4),
        (vec![0xC4, 0x00, 0x02], 0, 6),
        (vec![0xC4, 0x00, 0x02], z, 3),
        (vec![0xC5], 0, 4),
        (vec![0xC6, 0x01], 0, 2),
        (vec![0xC7], 0, 4),
        (vec![0xC9], 0, 4),
        (vec![0xCD, 0x00, 0x02], 0, 6),
        (vec![0xD9], 0, 4),
        (vec![0xE0, 0x80], 0, 3),
        (vec![0xE2], 0, 2),
        (vec![0xE8, 0x01], 0, 4),
        (vec![0xEA, 0x00, 0xC0], 0, 4),
        (vec![0xF0, 0x80], 0, 3),
        (vec![0xF2], 0, 2),
        (vec![0xF3], 0, 1),
        (vec![0xF8, 0x01], 0, 3),
        (vec![0xF9], 0, 2),
        (vec![0xFA, 0x00, 0xC0], 0, 4),
        (vec![0xFB], 0, 1),
        (vec![0xFE, 0x01], 0, 2),
        (vec![0xCB, 0x00], 0, 2),
        (vec![0xCB, 0x37], 0, 2),
        (vec![0xCB, 0x41], 0, 2),
        (vec![0xCB, 0x06], 0, 4),
        (vec![0xCB, 0x86], 0, 4),
        (vec![0xCB, 0xC6], 0, 4),
    ];
    for (program, f, expected) in cases {
        assert_eq!(cycles_of(&program, f), expected, "program {:02X?} flags {:02X}", program, f);
    }
}

#[test]
fn jump_hl_and_bit_hl_spend_a_cycle_more_than_documented() {
    assert_eq!(cycles_of(&[0xE9], 0), 2);
    assert_eq!(cycles_of(&[0xCB, 0x46], 0), 4);
    assert_eq!(cycles_of(&[0xCB, 0x7E], 0), 4);
}

#[test]
fn jump_hl_goes_to_hl() {
    let (mut cpu, mut emu) = machine_with(&[0xE9]);
    cpu.registers.h = 0x12;
    cpu.registers.l = 0x34;
    step(&mut cpu, &mut emu);
    assert_eq!(cpu.registers.pc, 0x1234);
}

#[test]
fn add_sets_half_carry_and_carry() {
    let (mut cpu, mut emu) = machine_with(&[0xC6, 0x01, 0xC6, 0xF0, 0xC6, 0x10]);
    cpu.registers.a = 0x0F;
    cpu.registers.f = 0;
    step(&mut cpu, &mut emu);
    assert_eq!(cpu.registers.a, 0x10);
    assert_eq!(flags(&cpu), (false, false, true, false));
    step(&mut cpu, &mut emu);
    assert_eq!(cpu.registers.a, 0x00);
    assert_eq!(flags(&cpu), (true, false, false, true));
    step(&mut cpu, &mut emu);
    assert_eq!(cpu.registers.a, 0x10);
    assert_eq!(flags(&cpu), (false, false, false, false));
}

#[test]
fn add_hl_leaves_z_and_carries_at_bits_11_and_15() {
    let (mut cpu, mut emu) = machine_with(&[0x09, 0x09]);
    cpu.registers.h = 0x0F;
    cpu.registers.l = 0xFF;
    cpu.registers.b = 0x00;
    cpu.registers.c = 0x01;
    cpu.registers.f = 0x80;
    step(&mut cpu, &mut emu);
    assert_eq!((cpu.registers.h, cpu.registers.l), (0x10, 0x00));
    assert_eq!(flags(&cpu), (true, false, true, false));
    cpu.registers.h = 0xFF;
    cpu.registers.l = 0xFF;
    cpu.registers.f = 0x00;
    step(&mut cpu, &mut emu);
    assert_eq!((cpu.registers.h, cpu.registers.l), (0x00, 0x00));
    assert_eq!(flags(&cpu), (false, false, true, true));
}

#[test]
fn add_sp_takes_a_signed_byte() {
    let (mut cpu, mut emu) = machine_with(&[0xE8, 0xFF, 0xE8, 0x01]);
    cpu.registers.sp = 0xD000;
    cpu.registers.f = 0xF0;
    step(&mut cpu, &mut emu);
    assert_eq!(cpu.registers.sp, 0xCFFF);
    assert_eq!(flags(&cpu), (false, false, false, false));
    cpu.registers.sp = 0xC0FF;
    step(&mut cpu, &mut emu);
    assert_eq!(cpu.registers.sp, 0xC100);
    assert_eq!(flags(&cpu), (false, false, true, true));
}

#[test]
fn ld_hl_sp_offset() {
    let (mut cpu, mut emu) = machine_with(&[0xF8, 0x02, 0xF8, 0xFE]);
    cpu.registers.sp = 0xC0FF;
    cpu.registers.f = 0xF0;
    step(&mut cpu, &mut emu);
    assert_eq!((cpu.registers.h, cpu.registers.l), (0xC1, 0x01));
    assert_eq!(cpu.registers.sp, 0xC0FF);
    assert_eq!(flags(&cpu), (false, false, true, true));
    cpu.registers.sp = 0xC000;
    step(&mut cpu, &mut emu);
    assert_eq!((cpu.registers.h, cpu.registers.l), (0xBF, 0xFE));
    assert_eq!(flags(&cpu), (false, false, false, false));
}

#[test]
fn ld_sp_hl_and_ld_a16_sp() {
    let (mut cpu, mut emu) = machine_with(&[0xF9, 0x08, 0x00, 0xC0]);
    cpu.registers.h = 0xDF;
    cpu.registers.l = 0xF0;
    step(&mut cpu, &mut emu);
    assert_eq!(cpu.registers.sp, 0xDFF0);
    step(&mut cpu, &mut emu);
    assert_eq!(bus_read(&cpu, &emu, 0xC000), 0xF0);
    assert_eq!(bus_read(&cpu, &emu, 0xC001), 0xDF);
}

#[test]
fn adc_and_sbc_use_the_carry() {
    let (mut cpu, mut emu) = machine_with(&[0xCE, 0x0F, 0xDE, 0x0F, 0xDE, 0xFF]);
    cpu.registers.a = 0xF0;
    cpu.registers.f = 0x10;
    step(&mut cpu, &mut emu);
    assert_eq!(cpu.registers.a, 0x00);
    assert_eq!(flags(&cpu), (true, false, true, true));
    step(&mut cpu, &mut emu);
    assert_eq!(cpu.registers.a, 0xF0);
    assert_eq!(flags(&cpu), (false, true, true, true));
    cpu.registers.a = 0x00;
    cpu.registers.f = 0x10;
    step(&mut cpu, &mut emu);
    assert_eq!(cpu.registers.a, 0x00);
    assert_eq!(flags(&cpu), (true, true, true, true));
}

#[test]
fn sub_and_cp_set_borrows() {
    let (mut cpu, mut emu) = machine_with(&[0xD6, 0x01, 0xFE, 0x10, 0xFE, 0x0F, 0xD6, 0x0F]);
    cpu.registers.a = 0x10;
    cpu.registers.f = 0;
    step(&mut cpu, &mut emu);
    assert_eq!(cpu.registers.a, 0x0F);
    assert_eq!(flags(&cpu), (false, true, true, false));
    step(&mut cpu, &mut emu);
    assert_eq!(cpu.registers.a, 0x0F);
    assert_eq!(flags(&cpu), (false, true, false, true));
    step(&mut cpu, &mut emu);
    assert_eq!(flags(&cpu), (true, true, false, false));
    step(&mut cpu, &mut emu);
    assert_eq!(cpu.registers.a, 0x00);
    assert_eq!(flags(&cpu), (true, true, false, false));
}

#[test]
fn logic_operations() {
    let (mut cpu, mut emu) = machine_with(&[0xE6, 0x0F, 0xF6, 0xF0, 0xEE, 0xFF, 0xEE, 0x00, 0x2F]);
    cpu.registers.a = 0x3C;
    cpu.registers.f = 0x10;
    step(&mut cpu, &mut emu);
    assert_eq!(cpu.registers.a, 0x0C);
    assert_eq!(flags(&cpu), (false, false, true, false));
    step(&mut cpu, &mut emu);
    assert_eq!(cpu.registers.a, 0xFC);
    assert_eq!(flags(&cpu), (false, false, false, false));
    step(&mut cpu, &mut emu);
    assert_eq!(cpu.registers.a, 0x03);
    cpu.registers.a = 0x00;
    step(&mut cpu, &mut emu);
    assert_eq!(flags(&cpu), (true, false, false, false));
    step(&mut cpu, &mut emu);
    assert_eq!(cpu.registers.a, 0xFF);
    assert_eq!(flags(&cpu), (true, true, true, false));
}

#[test]
fn accumulator_rotates() {
    let (mut cpu, mut emu) = machine_with(&[0x07, 0x0F, 0x17, 0x1F]);
    cpu.registers.a = 0x85;
    cpu.registers.f = 0x80;
    step(&mut cpu, &mut emu);
    assert_eq!(cpu.registers.a, 0x0B);
    assert_eq!(flags(&cpu), (false, false, false, true));
    step(&mut cpu, &mut emu);
    assert_eq!(cpu.registers.a, 0x85);
    assert_eq!(flags(&cpu), (false, false, false, true));
    step(&mut cpu, &mut emu);
    assert_eq!(cpu.registers.a, 0x0B);
    assert_eq!(flags(&cpu), (false, false, false, true));
    step(&mut cpu, &mut emu);
    assert_eq!(cpu.registers.a, 0x85);
    assert_eq!(flags(&cpu), (false, false, false, true));
}

#[test]
fn scf_ccf_and_daa_after_subtraction() {
    let (mut cpu, mut emu) = machine_with(&[0x37, 0x3F, 0x3F, 0xD6, 0x05, 0x27]);
    cpu.registers.f = 0xE0;
    step(&mut cpu, &mut emu);
    assert_eq!(flags(&cpu), (true, false, false, true));
    step(&mut cpu, &mut emu);
    assert_eq!(flags(&cpu), (true, false, false, false));
    step(&mut cpu, &mut emu);
    assert_eq!(flags(&cpu), (true, false, false, true));
    cpu.registers.a = 0x42;
    step(&mut cpu, &mut emu);
    assert_eq!(cpu.registers.a, 0x3D);
    step(&mut cpu, &mut emu);
    assert_eq!(cpu.registers.a, 0x37);
    assert_eq!(flags(&cpu), (false, true, false, false));
}

#[test]
fn daa_carries_into_the_hundreds() {
    let (mut cpu, mut emu) = machine_with(&[0xC6, 0x99, 0x27]);
    cpu.registers.a = 0x99;
    cpu.registers.f = 0;
    step(&mut cpu, &mut emu);
    assert_eq!(cpu.registers.a, 0x32);
    assert_eq!(flags(&cpu), (false, false, true, true));
    step(&mut cpu, &mut emu);
    assert_eq!(cpu.registers.a, 0x98);
    assert_eq!(flags(&cpu), (false, false, false, true));
}

#[test]
fn inc_and_dec_of_bytes_words_and_memory() {
    let (mut cpu, mut emu) = machine_with(&[0x05, 0x03, 0x0B, 0x34, 0x35, 0x35, 0x3C]);
    cpu.registers.b = 0x10;
    cpu.registers.f = 0x10;
    step(&mut cpu, &mut emu);
    assert_eq!(cpu.registers.b, 0x0F);
    assert_eq!(flags(&cpu), (false, true, true, true));
    cpu.registers.b = 0xFF;
    cpu.registers.c = 0xFF;
    cpu.registers.f = 0x00;
    step(&mut cpu, &mut emu);
    assert_eq!((cpu.registers.b, cpu.registers.c), (0x00, 0x00));
    assert_eq!(cpu.registers.f, 0x00);
    step(&mut cpu, &mut emu);
    assert_eq!((cpu.registers.b, cpu.registers.c), (0xFF, 0xFF));
    assert_eq!(cpu.registers.f, 0x00);
    cpu.registers.h = 0xC0;
    cpu.registers.l = 0x00;
    bus_write(&mut cpu, &mut emu, 0xC000, 0xFF);
    step(&mut cpu, &mut emu);
    assert_eq!(bus_read(&cpu, &emu, 0xC000), 0x00);
    assert_eq!(flags(&cpu), (true, false, true, false));
    step(&mut cpu, &mut emu);
    assert_eq!(bus_read(&cpu, &emu, 0xC000), 0xFF);
    assert_eq!(flags(&cpu), (false, true, true, false));
    bus_write(&mut cpu, &mut emu, 0xC000, 0x01);
    step(&mut cpu, &mut emu);
    assert_eq!(bus_read(&cpu, &emu, 0xC000), 0x00);
    assert_eq!(flags(&cpu), (true, true, false, false));
    cpu.registers.a = 0xFF;
    step(&mut cpu, &mut emu);
    assert_eq!(cpu.registers.a, 0x00);
    assert_eq!(flags(&cpu), (true, false, true, false));
}

#[test]
fn loads_through_registers_and_memory() {
    let (mut cpu, mut emu) = machine_with(&[
        0x21, 0x00, 0xC0, // LD HL,$C000
        0x36, 0x5A, // LD (HL),$5A
        0x46, // LD B,(HL)
        0x22, // LD (HL+),A
        0x3A, // LD A,(HL-)
        0x2A, // LD A,(HL+)
        0x32, // LD (HL-),A
        0x78, // LD A,B
        0xEA, 0x10, 0xC0, // LD ($C010),A
        0xFA, 0x00, 0xC0, // LD A,($C000)
        0x12, // LD (DE),A
        0x0A, // LD A,(BC)
    ]);
    cpu.registers.a = 0x77;
    step(&mut cpu, &mut emu);
    assert_eq!((cpu.registers.h, cpu.registers.l), (0xC0, 0x00));
    step(&mut cpu, &mut emu);
    assert_eq!(bus_read(&cpu, &emu, 0xC000), 0x5A);
    step(&mut cpu, &mut emu);
    assert_eq!(cpu.registers.b, 0x5A);
    step(&mut cpu, &mut emu);
    assert_eq!(bus_read(&cpu, &emu, 0xC000), 0x77);
    assert_eq!((cpu.registers.h, cpu.registers.l), (0xC0, 0x01));
    bus_write(&mut cpu, &mut emu, 0xC001, 0x99);
    step(&mut cpu, &mut emu);
    assert_eq!(cpu.registers.a, 0x99);
    assert_eq!((cpu.registers.h, cpu.registers.l), (0xC0, 0x00));
    step(&mut cpu, &mut emu);
    assert_eq!(cpu.registers.a, 0x77);
    assert_eq!((cpu.registers.h, cpu.registers.l), (0xC0, 0x01));
    step(&mut cpu, &mut emu);
    assert_eq!(bus_read(&cpu, &emu, 0xC001), 0x77);
    assert_eq!((cpu.registers.h, cpu.registers.l), (0xC0, 0x00));
    step(&mut cpu, &mut emu);
    assert_eq!(cpu.registers.a, 0x5A);
    step(&mut cpu, &mut emu);
    assert_eq!(bus_read(&cpu, &emu, 0xC010), 0x5A);
    step(&mut cpu, &mut emu);
    assert_eq!(cpu.registers.a, 0x77);
    cpu.registers.d = 0xC0;
    cpu.registers.e = 0x20;
    step(&mut cpu, &mut emu);
    assert_eq!(bus_read(&cpu, &emu, 0xC020), 0x77);
    cpu.registers.b = 0xC0;
    cpu.registers.c = 0x10;
    step(&mut cpu, &mut emu);
    assert_eq!(cpu.registers.a, 0x5A);
}

#[test]
fn high_page_loads() {
    let (mut cpu, mut emu) = machine_with(&[0xE0, 0x80, 0xF0, 0x81, 0xE2, 0xF2]);
    cpu.registers.a = 0x42;
    step(&mut cpu, &mut emu);
    assert_eq!(bus_read(&cpu, &emu, 0xFF80), 0x42);
    bus_write(&mut cpu, &mut emu, 0xFF81, 0x24);
    step(&mut cpu, &mut emu);
    assert_eq!(cpu.registers.a, 0x24);
    cpu.registers.c = 0x90;
    step(&mut cpu, &mut emu);
    assert_eq!(bus_read(&cpu, &emu, 0xFF90), 0x24);
    bus_write(&mut cpu, &mut emu, 0xFF91, 0x66);
    cpu.registers.c = 0x91;
    step(&mut cpu, &mut emu);
    assert_eq!(cpu.registers.a, 0x66);
}

#[test]
fn push_pop_restores_each_pair() {
    for (push, pop) in [(0xC5u8, 0xC1u8), (0xD5, 0xD1), (0xE5, 0xE1), (0xF5, 0xF1)] {
        let (mut cpu, mut emu) = machine_with(&[push, 0x01, 0, 0, 0x11, 0, 0, 0x21, 0, 0, pop]);
        cpu.registers.sp = 0xDFFE;
        cpu.registers.a = 0xA1;
        cpu.registers.f = 0xF0;
        cpu.registers.b = 0xB1;
        cpu.registers.c = 0xC1;
        cpu.registers.d = 0xD1;
        cpu.registers.e = 0xE1;
        cpu.registers.h = 0x81;
        cpu.registers.l = 0x91;
        let saved = cpu.registers;
        step(&mut cpu, &mut emu);
        step(&mut cpu, &mut emu);
        step(&mut cpu, &mut emu);
        step(&mut cpu, &mut emu);
        if push == 0xF5 {
            cpu.registers.a = 0;
            cpu.registers.f = 0;
        }
        step(&mut cpu, &mut emu);
        assert_eq!(cpu.registers.sp, 0xDFFE);
        match pop {
            0xC1 => assert_eq!((cpu.registers.b, cpu.registers.c), (saved.b, saved.c)),
            0xD1 => assert_eq!((cpu.registers.d, cpu.registers.e), (saved.d, saved.e)),
            0xE1 => assert_eq!((cpu.registers.h, cpu.registers.l), (saved.h, saved.l)),
            _ => assert_eq!((cpu.registers.a, cpu.registers.f), (saved.a, saved.f)),
        }
    }
}

#[test]
fn pop_af_masks_the_low_nibble() {
    let (mut cpu, mut emu) = machine_with(&[0xC5, 0xF1]);
    cpu.registers.sp = 0xDFFE;
    cpu.registers.b = 0x12;
    cpu.registers.c = 0xFF;
    step(&mut cpu, &mut emu);
    step(&mut cpu, &mut emu);
    assert_eq!(cpu.registers.a, 0x12);
    assert_eq!(cpu.registers.f, 0xF0);
}

#[test]
fn call_then_ret_returns_after_the_call() {
    let mut program = vec![0u8; 0x200];
    program[0] = 0xCD; // CALL $0150
    program[1] = 0x50;
    program[2] = 0x01;
    program[0x50] = 0xC9; // RET
    let (mut cpu, mut emu) = machine_with(&program);
    cpu.registers.sp = 0xDFFE;
    step(&mut cpu, &mut emu);
    assert_eq!(cpu.registers.pc, 0x0150);
    assert_eq!(cpu.registers.sp, 0xDFFC);
    assert_eq!(bus_read(&cpu, &emu, 0xDFFD), 0x01);
    assert_eq!(bus_read(&cpu, &emu, 0xDFFC), 0x03);
    step(&mut cpu, &mut emu);
    assert_eq!(cpu.registers.pc, 0x0103);
    assert_eq!(cpu.registers.sp, 0xDFFE);
}

#[test]
fn conditional_call_and_ret() {
    let mut program = vec![0u8; 0x200];
    program[0] = 0xCC; // CALL Z,$0150
    program[1] = 0x50;
    program[2] = 0x01;
    program[3] = 0xC4; // CALL NZ,$0150
    program[4] = 0x50;
    program[5] = 0x01;
    program[0x50] = 0xC8; // RET Z
    program[0x51] = 0xD0; // RET NC
    let (mut cpu, mut emu) = machine_with(&program);
    cpu.registers.sp = 0xDFFE;
    cpu.registers.f = 0x00;
    step(&mut cpu, &mut emu);
    assert_eq!(cpu.registers.pc, 0x0103);
    assert_eq!(cpu.registers.sp, 0xDFFE);
    step(&mut cpu, &mut emu);
    assert_eq!(cpu.registers.pc, 0x0150);
    step(&mut cpu, &mut emu);
    assert_eq!(cpu.registers.pc, 0x0151);
    step(&mut cpu, &mut emu);
    assert_eq!(cpu.registers.pc, 0x0106);
    assert_eq!(cpu.registers.sp, 0xDFFE);
}

#[test]
fn relative_jumps_go_both_ways() {
    let (mut cpu, mut emu) = machine_with(&[0x18, 0x02, 0x00, 0x00, 0x18, 0xFC, 0x38, 0x10]);
    step(&mut cpu, &mut emu);
    assert_eq!(cpu.registers.pc, 0x0104);
    step(&mut cpu, &mut emu);
    assert_eq!(cpu.registers.pc, 0x0102);
    cpu.registers.pc = 0x0106;
    cpu.registers.f = 0x00;
    step(&mut cpu, &mut emu);
    assert_eq!(cpu.registers.pc, 0x0108);
}

#[test]
fn restart_pushes_pc_and_jumps_to_its_vector() {
    for (op, vector) in [
        (0xC7u8, 0x00u16),
        (0xCF, 0x08),
        (0xD7, 0x10),
        (0xDF, 0x18),
        (0xE7, 0x20),
        (0xEF, 0x28),
        (0xF7, 0x30),
        (0xFF, 0x38),
    ] {
        let (mut cpu, mut emu) = machine_with(&[op]);
        cpu.registers.sp = 0xDFFE;
        step(&mut cpu, &mut emu);
        assert_eq!(cpu.registers.pc, vector);
        assert_eq!(bus_read(&cpu, &emu, 0xDFFD), 0x01);
        assert_eq!(bus_read(&cpu, &emu, 0xDFFC), 0x01);
    }
}

#[test]
fn set_then_bit_and_res_then_bit() {
    for r in 0..8u8 {
        for n in 0..8u8 {
            let set = 0xC0 + n * 8 + r;
            let res = 0x80 + n * 8 + r;
            let bit = 0x40 + n * 8 + r;
            let (mut cpu, mut emu) = machine_with(&[0xCB, set, 0xCB, bit, 0xCB, res, 0xCB, bit]);
            cpu.registers.h = 0xC0;
            cpu.registers.l = 0x80;
            cpu.registers.f = 0x10;
            step(&mut cpu, &mut emu);
            step(&mut cpu, &mut emu);
            assert_eq!(flags(&cpu), (false, false, true, true));
            step(&mut cpu, &mut emu);
            step(&mut cpu, &mut emu);
            assert_eq!(flags(&cpu), (true, false, true, true));
        }
    }
}

#[test]
fn prefixed_rotates_and_shifts() {
    // (operation on B, value, carry in, result, carry out)
    let cases: [(u8, u8, bool, u8, bool); 10] = [
        (0x00, 0x85, false, 0x0B, true),
        (0x08, 0x01, false, 0x80, true),
        (0x10, 0x80, false, 0x00, true),
        (0x10, 0x01, true, 0x03, false),
        (0x18, 0x01, false, 0x00, true),
        (0x18, 0x02, true, 0x81, false),
        (0x20, 0xC1, false, 0x82, true),
        (0x28, 0x81, false, 0xC0, true),
        (0x30, 0xA5, true, 0x5A, false),
        (0x38, 0x81, false, 0x40, true),
    ];
    for (op, value, carry_in, result, carry_out) in cases {
        let (mut cpu, mut emu) = machine_with(&[0xCB, op]);
        cpu.registers.b = value;
        cpu.registers.f = if carry_in { 0xF0 } else { 0xE0 };
        step(&mut cpu, &mut emu);
        assert_eq!(cpu.registers.b, result, "operation {:02X}", op);
        assert_eq!(flags(&cpu), (result == 0, false, false, carry_out), "operation {:02X}", op);
    }
}

#[test]
fn prefixed_operation_on_memory() {
    let (mut cpu, mut emu) = machine_with(&[0xCB, 0x36, 0xCB, 0xFE, 0xCB, 0x86]);
    cpu.registers.h = 0xC1;
    cpu.registers.l = 0x00;
    bus_write(&mut cpu, &mut emu, 0xC100, 0x1F);
    step(&mut cpu, &mut emu);
    assert_eq!(bus_read(&cpu, &emu, 0xC100), 0xF1);
    step(&mut cpu, &mut emu);
    assert_eq!(bus_read(&cpu, &emu, 0xC100), 0xF1);
    step(&mut cpu, &mut emu);
    assert_eq!(bus_read(&cpu, &emu, 0xC100), 0xF0);
}

#[test]
fn countdown_loop_runs_to_zero() {
    // LD B,5; LD A,0; loop: ADD A,B; DEC B; JR NZ,loop; HALT
    let (mut cpu, mut emu) = machine_with(&[0x06, 0x05, 0x3E, 0x00, 0x80, 0x05, 0x20, 0xFC, 0x76]);
    let mut cycles = 0;
    let mut steps = 0;
    while !cpu.halted {
        cycles += step(&mut cpu, &mut emu);
        steps += 1;
        assert!(steps < 100);
    }
    assert_eq!(cpu.registers.a, 15);
    assert_eq!(cpu.registers.b, 0);
    assert_eq!(cpu.registers.pc, 0x0109);
    assert_eq!(steps, 2 + 5 * 3 + 1);
    assert_eq!(cycles, 2 + 2 + 5 * (1 + 1) + 4 * 3 + 2 + 1);
    assert_eq!(emu.ticks, 4 * cycles);
}

#[test]
fn program_counter_and_stack_pointer_wrap() {
    let mut rom = vec![0u8; 0x10000];
    rom[0] = 0x3C;
    let cart = CartContext::new(rom).unwrap();
    let mut cpu = CPUContext::new();
    let mut emu = EmulatorContext::new(cart);
    cpu.registers.pc = 0xFFFF;
    cpu.set_ie_reg(0x00);
    // The opcode at $FFFF is the interrupt-enable byte: NOP.
    step(&mut cpu, &mut emu);
    assert_eq!(cpu.registers.pc, 0x0000);
    cpu.registers.a = 7;
    step(&mut cpu, &mut emu);
    assert_eq!(cpu.registers.a, 8);
    assert_eq!(cpu.registers.pc, 0x0001);
}

#[test]
fn a_write_to_af_leaves_the_low_nibble_of_f_zero() {
    let mut cpu = CPUContext::new();
    cpu.registers.b = 0x55;
    cpu.registers.sp = 0xCAFE;
    cpu.set_reg(Some(RegType::AF), 0x12FF);
    assert_eq!(cpu.registers.a, 0x12);
    assert_eq!(cpu.registers.f, 0xF0);
    assert_eq!(cpu.read_reg(Some(RegType::AF)), 0x12F0);
    cpu.set_reg(Some(RegType::AF), 0xAB0F);
    assert_eq!((cpu.registers.a, cpu.registers.f), (0xAB, 0x00));
    cpu.set_reg(Some(RegType::AF), 0x00A5);
    assert_eq!((cpu.registers.a, cpu.registers.f), (0x00, 0xA0));
    assert_eq!(cpu.registers.b, 0x55);
    assert_eq!(cpu.registers.sp, 0xCAFE);
    assert_eq!(cpu.registers.pc, 0x100);
}

#[test]
fn branches_not_taken_leave_sp_and_the_stack_alone() {
    // (program, flags that fail the condition, length, machine cycles)
    let cases: [(&[u8], u8, u16, u64); 4] = [
        (&[0x20, 0x10], 0x80, 2, 2),
        (&[0xCA, 0x00, 0x02], 0x00, 3, 3),
        (&[0xDC, 0x00, 0x02], 0x00, 3, 3),
        (&[0xD0], 0x10, 1, 2),
    ];
    for (program, f, length, cycles) in cases {
        let (mut cpu, mut emu) = machine_with(program);
        cpu.registers.f = f;
        cpu.registers.sp = 0xD000;
        bus_write(&mut cpu, &mut emu, 0xCFFF, 0x11);
        bus_write(&mut cpu, &mut emu, 0xCFFE, 0x22);
        bus_write(&mut cpu, &mut emu, 0xD000, 0x33);
        let before = cpu.registers;
        assert_eq!(step(&mut cpu, &mut emu), cycles);
        assert_eq!(cpu.registers.pc, 0x0100 + length);
        assert_eq!(cpu.registers.sp, 0xD000);
        assert_eq!((cpu.registers.a, cpu.registers.f), (before.a, before.f));
        assert_eq!(bus_read(&cpu, &emu, 0xCFFF), 0x11);
        assert_eq!(bus_read(&cpu, &emu, 0xCFFE), 0x22);
        assert_eq!(bus_read(&cpu, &emu, 0xD000), 0x33);
    }
}

#[test]
fn branches_taken_reach_their_targets() {
    // JR Z,+$10 taken
    let (mut cpu, mut emu) = machine_with(&[0x28, 0x10]);
    cpu.registers.f = 0x80;
    assert_eq!(step(&mut cpu, &mut emu), 3);
    assert_eq!(cpu.registers.pc, 0x0112);
    // JP C,$1234 taken
    let (mut cpu, mut emu) = machine_with(&[0xDA, 0x34, 0x12]);
    cpu.registers.f = 0x10;
    cpu.registers.sp = 0xD000;
    assert_eq!(step(&mut cpu, &mut emu), 4);
    assert_eq!(cpu.registers.pc, 0x1234);
    assert_eq!(cpu.registers.sp, 0xD000);
    // CALL NC,$1234 taken
    let (mut cpu, mut emu) = machine_with(&[0xD4, 0x34, 0x12]);
    cpu.registers.f = 0x00;
    cpu.registers.sp = 0xD000;
    assert_eq!(step(&mut cpu, &mut emu), 6);
    assert_eq!(cpu.registers.pc, 0x1234);
    assert_eq!(cpu.registers.sp, 0xCFFE);
    assert_eq!(bus_read(&cpu, &emu, 0xCFFF), 0x01);
    assert_eq!(bus_read(&cpu, &emu, 0xCFFE), 0x03);
    // RET NZ taken, then RET
    let (mut cpu, mut emu) = machine_with(&[0xC0]);
    cpu.registers.f = 0x00;
    cpu.registers.sp = 0xCFFE;
    bus_write(&mut cpu, &mut emu, 0xCFFE, 0x00);
    bus_write(&mut cpu, &mut emu, 0xCFFF, 0x01);
    assert_eq!(step(&mut cpu, &mut emu), 5);
    assert_eq!(cpu.registers.pc, 0x0100);
    assert_eq!(cpu.registers.sp, 0xD000);
    let (mut cpu, mut emu) = machine_with(&[0xC9]);
    cpu.registers.sp = 0xCFFE;
    bus_write(&mut cpu, &mut emu, 0xCFFE, 0x78);
    bus_write(&mut cpu, &mut emu, 0xCFFF, 0x56);
    assert_eq!(step(&mut cpu, &mut emu), 4);
    assert_eq!(cpu.registers.pc, 0x5678);
    assert_eq!(cpu.registers.sp, 0xD000);
}
