//! What each operation does to the machine.
use vstd::prelude::*;
use crate::comps::bus::{bus_read, bus_read_spec, bus_write, bus_write16, bus_write16_spec, bus_write_spec};
use crate::comps::cpu::{hi, hi_spec, lo, lo_spec, word, word_spec, CPUContext};
use crate::comps::cpu_fetch::{high_page, high_page_spec};
use crate::comps::emu::{machine, retired, EmulatorContext, Machine};
use crate::comps::instructions::{AddrMode, CondType, InstType, RegType};
use crate::comps::stack::{
    stack_pop,
    stack_push,
    stack_push16,
    stack_push16_spec,
    stack_push_spec,
    stack_top,
};

verus! {

/// The byte operand of an arithmetic or logic operation: the low byte of
/// what was fetched.
pub open spec fn operand(cpu: CPUContext) -> u8 {
    lo_spec(cpu.fetched_data)
}

/// One if the carry flag is set, else zero.
pub open spec fn carry_in(cpu: CPUContext) -> u8 {
    if cpu.flag_c_spec() {
        1
    } else {
        0
    }
}

/// This CPU with another accumulator.
pub open spec fn with_a(cpu: CPUContext, a: u8) -> CPUContext {
    cpu.with_reg(RegType::A, a as u16)
}

/// RLCA: the accumulator turns left by one bit; the bit that leaves on the
/// left comes back on the right and is the new carry.
pub open spec fn rlca_spec(cpu: CPUContext) -> CPUContext {
    let a = cpu.registers.a;
    with_a(cpu, (a << 1) | (a >> 7)).with_flags(
        Some(false),
        Some(false),
        Some(false),
        Some(a >> 7 != 0),
    )
}

/// RRCA: the accumulator turns right by one bit; the bit that leaves on the
/// right comes back on the left and is the new carry.
pub open spec fn rrca_spec(cpu: CPUContext) -> CPUContext {
    let a = cpu.registers.a;
    with_a(cpu, (a >> 1) | ((a & 1) << 7)).with_flags(
        Some(false),
        Some(false),
        Some(false),
        Some(a & 1 != 0),
    )
}

/// RLA: the accumulator turns left through the carry.
pub open spec fn rla_spec(cpu: CPUContext) -> CPUContext {
    let a = cpu.registers.a;
    with_a(cpu, (a << 1) | carry_in(cpu)).with_flags(
        Some(false),
        Some(false),
        Some(false),
        Some(a >> 7 != 0),
    )
}

/// RRA: the accumulator turns right through the carry.
pub open spec fn rra_spec(cpu: CPUContext) -> CPUContext {
    let a = cpu.registers.a;
    with_a(cpu, (a >> 1) | (carry_in(cpu) << 7)).with_flags(
        Some(false),
        Some(false),
        Some(false),
        Some(a & 1 != 0),
    )
}

/// What DAA adds to the accumulator after an addition, or takes from it
/// after a subtraction: 6 for a low digit out of range or a half carry,
/// `$60` for a value out of range or a carry.
pub open spec fn daa_adjust(cpu: CPUContext) -> u8 {
    let a = cpu.registers.a;
    let low: u8 = if cpu.flag_h_spec() || (!cpu.flag_n_spec() && a % 16 > 9) {
        6
    } else {
        0
    };
    if daa_carry(cpu) {
        (low + 0x60) as u8
    } else {
        low
    }
}

/// The carry DAA leaves.
pub open spec fn daa_carry(cpu: CPUContext) -> bool {
    cpu.flag_c_spec() || (!cpu.flag_n_spec() && cpu.registers.a > 0x99)
}

/// DAA: the accumulator is corrected to two decimal digits.
pub open spec fn daa_spec(cpu: CPUContext) -> CPUContext {
    let a = cpu.registers.a;
    let r = if cpu.flag_n_spec() {
        a.wrapping_sub(daa_adjust(cpu))
    } else {
        a.wrapping_add(daa_adjust(cpu))
    };
    with_a(cpu, r).with_flags(Some(r == 0), None, Some(false), Some(daa_carry(cpu)))
}

/// CPL: the accumulator is complemented.
pub open spec fn cpl_spec(cpu: CPUContext) -> CPUContext {
    with_a(cpu, !cpu.registers.a).with_flags(None, Some(true), Some(true), None)
}

pub open spec fn scf_spec(cpu: CPUContext) -> CPUContext {
    cpu.with_flags(None, Some(false), Some(false), Some(true))
}

pub open spec fn ccf_spec(cpu: CPUContext) -> CPUContext {
    cpu.with_flags(None, Some(false), Some(false), Some(!cpu.flag_c_spec()))
}

/// ADC: the operand and the carry are added to the accumulator.
pub open spec fn adc_spec(cpu: CPUContext) -> CPUContext {
    let a = cpu.registers.a;
    let u = cpu.fetched_data;
    let c = carry_in(cpu);
    let r = ((a + u + c) % 256) as u8;
    with_a(cpu, r).with_flags(
        Some(r == 0),
        Some(false),
        Some(a % 16 + u % 16 + c > 0xF),
        Some(a + u + c > 0xFF),
    )
}

/// SUB: the operand is taken from the destination register.
pub open spec fn sub_spec(cpu: CPUContext) -> CPUContext {
    let rt = cpu.cur_inst.reg1.unwrap();
    let r = cpu.registers.read(rt);
    let u = cpu.fetched_data;
    let val = r.wrapping_sub(u);
    cpu.with_reg(rt, val).with_flags(Some(val == 0), Some(true), Some(r % 16 < u % 16), Some(r < u))
}

/// SBC: the operand and the carry are taken from the destination register.
pub open spec fn sbc_spec(cpu: CPUContext) -> CPUContext {
    let rt = cpu.cur_inst.reg1.unwrap();
    let r = cpu.registers.read(rt);
    let u = cpu.fetched_data;
    let c = carry_in(cpu);
    let val = r.wrapping_sub(((u + c) % 256) as u16);
    cpu.with_reg(rt, val).with_flags(
        Some(val == 0),
        Some(true),
        Some(r % 16 < u % 16 + c),
        Some(r < u + c),
    )
}

pub open spec fn and_spec(cpu: CPUContext) -> CPUContext {
    let r = cpu.registers.a & operand(cpu);
    with_a(cpu, r).with_flags(Some(r == 0), Some(false), Some(true), Some(false))
}

pub open spec fn xor_spec(cpu: CPUContext) -> CPUContext {
    let r = cpu.registers.a ^ operand(cpu);
    with_a(cpu, r).with_flags(Some(r == 0), Some(false), Some(false), Some(false))
}

pub open spec fn or_spec(cpu: CPUContext) -> CPUContext {
    let r = cpu.registers.a | operand(cpu);
    with_a(cpu, r).with_flags(Some(r == 0), Some(false), Some(false), Some(false))
}

/// CP: the flags of a subtraction from the accumulator, which stays.
pub open spec fn cp_spec(cpu: CPUContext) -> CPUContext {
    let a = cpu.registers.a;
    let u = cpu.fetched_data;
    cpu.with_flags(Some(a == u), Some(true), Some(a % 16 < u % 16), Some(a < u))
}

pub open spec fn halt_spec(cpu: CPUContext) -> CPUContext {
    CPUContext { halted: true, ..cpu }
}

pub open spec fn di_spec(cpu: CPUContext) -> CPUContext {
    CPUContext { int_master_enabled: false, ..cpu }
}

pub open spec fn ei_spec(cpu: CPUContext) -> CPUContext {
    CPUContext { enabling_ime: true, ..cpu }
}

/// Whether the condition of the current instruction holds.
pub open spec fn check_cond_spec(cpu: CPUContext) -> bool {
    match cpu.cur_inst.cond {
        CondType::NONE => true,
        CondType::C => cpu.flag_c_spec(),
        CondType::NC => !cpu.flag_c_spec(),
        CondType::Z => cpu.flag_z_spec(),
        CondType::NZ => !cpu.flag_z_spec(),
    }
}

/// The address `offset` bytes from `base`, the offset read as a signed byte.
pub open spec fn relative_spec(base: u16, offset: u8) -> u16 {
    if offset < 0x80 {
        base.wrapping_add(offset as u16)
    } else {
        base.wrapping_sub((0x100 - offset) as u16)
    }
}

pub fn relative(base: u16, offset: u8) -> (r: u16)
    ensures
        r == relative_spec(base, offset),
{
    if offset < 0x80 {
        base.wrapping_add(offset as u16)
    } else {
        base.wrapping_sub(0x100 - offset as u16)
    }
}

pub fn proc_nop(cpu: &mut CPUContext)
    ensures
        *final(cpu) == *old(cpu),
{
}

pub fn proc_rlca(cpu: &mut CPUContext)
    ensures
        *final(cpu) == rlca_spec(*old(cpu)),
        final(cpu).registers.f & 0x0F == old(cpu).registers.f & 0x0F,
{
    let u: u8 = cpu.registers.a;
    let c: u8 = u >> 7;
    cpu.registers.a = (u << 1) | c;
    cpu.set_flags(Some(false), Some(false), Some(false), Some(c != 0));
}

pub fn proc_rrca(cpu: &mut CPUContext)
    ensures
        *final(cpu) == rrca_spec(*old(cpu)),
        final(cpu).registers.f & 0x0F == old(cpu).registers.f & 0x0F,
{
    let u: u8 = cpu.registers.a;
    let b: u8 = u & 1;
    cpu.registers.a = (u >> 1) | (b << 7);
    cpu.set_flags(Some(false), Some(false), Some(false), Some(b != 0));
}

pub fn proc_rla(cpu: &mut CPUContext)
    ensures
        *final(cpu) == rla_spec(*old(cpu)),
        final(cpu).registers.f & 0x0F == old(cpu).registers.f & 0x0F,
{
    let u: u8 = cpu.registers.a;
    let c_flag: u8 = if cpu.flag_c() {
        1
    } else {
        0
    };
    let c: u8 = u >> 7;
    cpu.registers.a = (u << 1) | c_flag;
    cpu.set_flags(Some(false), Some(false), Some(false), Some(c != 0));
}

pub fn proc_rra(cpu: &mut CPUContext)
    ensures
        *final(cpu) == rra_spec(*old(cpu)),
        final(cpu).registers.f & 0x0F == old(cpu).registers.f & 0x0F,
{
    let u: u8 = cpu.registers.a;
    let carry: u8 = if cpu.flag_c() {
        1
    } else {
        0
    };
    let new_c: u8 = u & 1;
    cpu.registers.a = (u >> 1) | (carry << 7);
    cpu.set_flags(Some(false), Some(false), Some(false), Some(new_c != 0));
}

pub fn proc_daa(cpu: &mut CPUContext)
    ensures
        *final(cpu) == daa_spec(*old(cpu)),
        final(cpu).registers.f & 0x0F == old(cpu).registers.f & 0x0F,
{
    let mut u: u8 = 0;
    let mut fc: bool = false;
    if cpu.flag_h() || (!cpu.flag_n() && 9 < cpu.registers.a % 16) {
        u = 6;
    }
    if cpu.flag_c() || (!cpu.flag_n() && 0x99 < cpu.registers.a) {
        u = u + 0x60;
        fc = true;
    }
    if cpu.flag_n() {
        cpu.registers.a = cpu.registers.a.wrapping_sub(u);
    } else {
        cpu.registers.a = cpu.registers.a.wrapping_add(u);
    }
    let flag_z: bool = cpu.registers.a == 0;
    cpu.set_flags(Some(flag_z), None, Some(false), Some(fc));
}

pub fn proc_cpl(cpu: &mut CPUContext)
    ensures
        *final(cpu) == cpl_spec(*old(cpu)),
        final(cpu).registers.f & 0x0F == old(cpu).registers.f & 0x0F,
{
    cpu.registers.a = !cpu.registers.a;
    cpu.set_flags(None, Some(true), Some(true), None);
}

pub fn proc_scf(cpu: &mut CPUContext)
    ensures
        *final(cpu) == scf_spec(*old(cpu)),
        final(cpu).registers.f & 0x0F == old(cpu).registers.f & 0x0F,
{
    cpu.set_flags(None, Some(false), Some(false), Some(true));
}

pub fn proc_ccf(cpu: &mut CPUContext)
    ensures
        *final(cpu) == ccf_spec(*old(cpu)),
        final(cpu).registers.f & 0x0F == old(cpu).registers.f & 0x0F,
{
    let flag_c: bool = cpu.flag_c();
    cpu.set_flags(None, Some(false), Some(false), Some(!flag_c));
}

pub fn proc_halt(cpu: &mut CPUContext)
    ensures
        *final(cpu) == halt_spec(*old(cpu)),
{
    cpu.halted = true;
}

pub fn proc_adc(cpu: &mut CPUContext)
    ensures
        *final(cpu) == adc_spec(*old(cpu)),
        final(cpu).registers.f & 0x0F == old(cpu).registers.f & 0x0F,
{
    let u: u32 = cpu.fetched_data as u32;
    let a: u32 = cpu.registers.a as u32;
    let c: u32 = if cpu.flag_c() {
        1
    } else {
        0
    };
    cpu.registers.a = ((a + u + c) % 256) as u8;
    let flag_z: bool = cpu.registers.a == 0;
    let flag_h: bool = 0xF < a % 16 + u % 16 + c;
    let flag_c: bool = 0xFF < a + u + c;
    cpu.set_flags(Some(flag_z), Some(false), Some(flag_h), Some(flag_c));
}

pub fn proc_sub(cpu: &mut CPUContext)
    requires
        old(cpu).cur_inst.wf(),
        old(cpu).cur_inst.inst_type == InstType::SUB,
    ensures
        *final(cpu) == sub_spec(*old(cpu)),
        final(cpu).registers.f & 0x0F == old(cpu).registers.f & 0x0F,
{
    let r: u16 = cpu.read_reg(cpu.cur_inst.reg1);
    let val: u16 = r.wrapping_sub(cpu.fetched_data);
    let z: bool = val == 0;
    let h: bool = r % 16 < cpu.fetched_data % 16;
    let c: bool = r < cpu.fetched_data;
    cpu.set_reg(cpu.cur_inst.reg1, val);
    cpu.set_flags(Some(z), Some(true), Some(h), Some(c));
}

pub fn proc_sbc(cpu: &mut CPUContext)
    requires
        old(cpu).cur_inst.wf(),
        old(cpu).cur_inst.inst_type == InstType::SBC,
    ensures
        *final(cpu) == sbc_spec(*old(cpu)),
        final(cpu).registers.f & 0x0F == old(cpu).registers.f & 0x0F,
{
    let r: u16 = cpu.read_reg(cpu.cur_inst.reg1);
    let u: u32 = cpu.fetched_data as u32;
    let c: u32 = if cpu.flag_c() {
        1
    } else {
        0
    };
    let val: u16 = r.wrapping_sub(((u + c) % 256) as u16);
    let z: bool = val == 0;
    let h: bool = (r as u32) % 16 < u % 16 + c;
    let carry: bool = (r as u32) < u + c;
    cpu.set_reg(cpu.cur_inst.reg1, val);
    cpu.set_flags(Some(z), Some(true), Some(h), Some(carry));
}

pub fn proc_and(cpu: &mut CPUContext)
    ensures
        *final(cpu) == and_spec(*old(cpu)),
        final(cpu).registers.f & 0x0F == old(cpu).registers.f & 0x0F,
{
    cpu.registers.a = cpu.registers.a & lo(cpu.fetched_data);
    let flag_z: bool = cpu.registers.a == 0;
    cpu.set_flags(Some(flag_z), Some(false), Some(true), Some(false));
}

pub fn proc_xor(cpu: &mut CPUContext)
    ensures
        *final(cpu) == xor_spec(*old(cpu)),
        final(cpu).registers.f & 0x0F == old(cpu).registers.f & 0x0F,
{
    cpu.registers.a = cpu.registers.a ^ lo(cpu.fetched_data);
    let flag_z: bool = cpu.registers.a == 0;
    cpu.set_flags(Some(flag_z), Some(false), Some(false), Some(false));
}

pub fn proc_or(cpu: &mut CPUContext)
    ensures
        *final(cpu) == or_spec(*old(cpu)),
        final(cpu).registers.f & 0x0F == old(cpu).registers.f & 0x0F,
{
    cpu.registers.a = cpu.registers.a | lo(cpu.fetched_data);
    let flag_z: bool = cpu.registers.a == 0;
    cpu.set_flags(Some(flag_z), Some(false), Some(false), Some(false));
}

pub fn proc_cp(cpu: &mut CPUContext)
    ensures
        *final(cpu) == cp_spec(*old(cpu)),
        final(cpu).registers.f & 0x0F == old(cpu).registers.f & 0x0F,
{
    let a: u16 = cpu.registers.a as u16;
    let u: u16 = cpu.fetched_data;
    cpu.set_flags(Some(a == u), Some(true), Some(a % 16 < u % 16), Some(a < u));
}

pub fn proc_di(cpu: &mut CPUContext)
    ensures
        *final(cpu) == di_spec(*old(cpu)),
{
    cpu.int_master_enabled = false;
}

pub fn proc_ei(cpu: &mut CPUContext)
    ensures
        *final(cpu) == ei_spec(*old(cpu)),
{
    cpu.enabling_ime = true;
}

pub fn check_cond(cpu: &CPUContext) -> (r: bool)
    ensures
        r == check_cond_spec(*cpu),
{
    match cpu.cur_inst.cond {
        CondType::NONE => true,
        CondType::C => cpu.flag_c(),
        CondType::NC => !cpu.flag_c(),
        CondType::Z => cpu.flag_z(),
        CondType::NZ => !cpu.flag_z(),
    }
}

/// Whether the operands of the current instruction have been fetched: the
/// descriptor is well formed and the destination is marked as its mode says.
pub open spec fn decoded(cpu: CPUContext) -> bool {
    cpu.cur_inst.wf() && cpu.dest_is_mem == cpu.cur_inst.mode.writes_memory()
}

/// Whether the source of a load is a register pair, SP or PC.
pub open spec fn wide_source(cpu: CPUContext) -> bool {
    cpu.cur_inst.reg2 is Some && cpu.cur_inst.reg2.unwrap().is_16_bit_spec()
}

/// Whether the current instruction moves one word register into another.
pub open spec fn wide_move(cpu: CPUContext) -> bool {
    cpu.cur_inst.mode == AddrMode::RxR && cpu.cur_inst.reg1.unwrap().is_16_bit_spec()
}

/// The machine cycles LD spends beyond its fetches.
pub open spec fn ld_cycles(cpu: CPUContext) -> nat {
    if cpu.dest_is_mem {
        if wide_source(cpu) {
            2
        } else {
            1
        }
    } else if cpu.cur_inst.mode == AddrMode::HLxSPR || wide_move(cpu) {
        1
    } else {
        0
    }
}

/// LD. To memory: the fetched byte goes to `mem_dest`, or the fetched word
/// goes to `mem_dest` and the address after it at the cost of one more
/// machine cycle. `LD HL,SP+r8` adds the signed byte to the source, with
/// half carry and carry taken from the low nibble and the low byte of an
/// unsigned addition, Z and N cleared. Otherwise the fetched value goes to
/// the destination register.
#[verifier::opaque]
pub open spec fn ld_spec(m: Machine) -> Machine {
    if m.cpu.dest_is_mem {
        store_spec(m)
    } else if m.cpu.cur_inst.mode == AddrMode::HLxSPR {
        Machine { cpu: offset_result(m.cpu), ..m }.cycles_spec(1)
    } else {
        let loaded = Machine {
            cpu: m.cpu.with_reg(m.cpu.cur_inst.reg1.unwrap(), m.cpu.fetched_data),
            ..m
        };
        if wide_move(m.cpu) {
            loaded.cycles_spec(1)
        } else {
            loaded
        }
    }
}

/// The machine after the fetched operand is stored at `mem_dest`: a byte,
/// or a word at the cost of one more machine cycle. A machine cycle passes
/// after the store.
#[verifier::opaque]
pub open spec fn store_spec(m: Machine) -> Machine {
    if wide_source(m.cpu) {
        bus_write16_spec(m.cycles_spec(1), m.cpu.mem_dest, m.cpu.fetched_data).cycles_spec(1)
    } else {
        bus_write_spec(m, m.cpu.mem_dest, lo_spec(m.cpu.fetched_data)).cycles_spec(1)
    }
}

/// The register file and flags after `LD HL,SP+r8`.
#[verifier::opaque]
pub open spec fn offset_result(cpu: CPUContext) -> CPUContext {
    let base = cpu.registers.read(cpu.cur_inst.reg2.unwrap());
    let fd = cpu.fetched_data;
    cpu.with_flags(
        Some(false),
        Some(false),
        Some(base % 16 + fd % 16 >= 0x10),
        Some(base % 256 + fd % 256 >= 0x100),
    ).with_reg(cpu.cur_inst.reg1.unwrap(), relative_spec(base, lo_spec(fd)))
}

/// Whether INC or DEC works on a register pair or SP, which costs a machine
/// cycle.
pub open spec fn wide_target(cpu: CPUContext) -> bool {
    cpu.cur_inst.reg1.unwrap().is_16_bit_spec()
}

/// Whether INC or DEC works on the byte that HL points to.
pub open spec fn memory_target(cpu: CPUContext) -> bool {
    cpu.cur_inst.reg1 == Some(RegType::HL) && cpu.cur_inst.mode == AddrMode::MR
}

/// The machine cycles INC and DEC spend beyond their fetches.
pub open spec fn inc_dec_cycles(cpu: CPUContext) -> nat {
    if wide_target(cpu) {
        1
    } else {
        0
    }
}

/// INC. A byte, in a register or at (HL), is stepped up modulo 256 and sets
/// Z, clears N, and sets H when the low nibble wrapped; a word register is
/// stepped up modulo 65536 and leaves the flags alone.
#[verifier::opaque]
pub open spec fn inc_spec(m: Machine) -> Machine {
    let rt = m.cpu.cur_inst.reg1.unwrap();
    let m1 = if wide_target(m.cpu) {
        m.cycles_spec(1)
    } else {
        m
    };
    if memory_target(m.cpu) {
        let address = m1.cpu.registers.read(RegType::HL);
        let val = ((bus_read_spec(m1, address) + 1) % 256) as u8;
        let m2 = bus_write_spec(m1, address, val);
        Machine {
            cpu: m2.cpu.with_flags(Some(val == 0), Some(false), Some(val % 16 == 0), None),
            ..m2
        }
    } else {
        let stepped = m1.cpu.with_reg(rt, m.cpu.registers.read(rt).wrapping_add(1));
        let val = stepped.registers.read(rt);
        if wide_target(m.cpu) {
            Machine { cpu: stepped, ..m1 }
        } else {
            Machine {
                cpu: stepped.with_flags(Some(val == 0), Some(false), Some(val % 16 == 0), None),
                ..m1
            }
        }
    }
}

/// DEC. As INC, stepping down; N is set, and H is set when the low nibble
/// borrowed.
#[verifier::opaque]
pub open spec fn dec_spec(m: Machine) -> Machine {
    let rt = m.cpu.cur_inst.reg1.unwrap();
    let m1 = if wide_target(m.cpu) {
        m.cycles_spec(1)
    } else {
        m
    };
    if memory_target(m.cpu) {
        let address = m1.cpu.registers.read(RegType::HL);
        let val = bus_read_spec(m1, address).wrapping_sub(1);
        let m2 = bus_write_spec(m1, address, val);
        Machine {
            cpu: m2.cpu.with_flags(Some(val == 0), Some(true), Some(val % 16 == 0xF), None),
            ..m2
        }
    } else {
        let stepped = m1.cpu.with_reg(rt, m.cpu.registers.read(rt).wrapping_sub(1));
        let val = stepped.registers.read(rt);
        if wide_target(m.cpu) {
            Machine { cpu: stepped, ..m1 }
        } else {
            Machine {
                cpu: stepped.with_flags(Some(val == 0), Some(true), Some(val % 16 == 0xF), None),
                ..m1
            }
        }
    }
}

/// The machine cycles ADD spends beyond its fetches.
pub open spec fn add_cycles(cpu: CPUContext) -> nat {
    if cpu.cur_inst.reg1 == Some(RegType::SP) {
        2
    } else if wide_target(cpu) {
        1
    } else {
        0
    }
}

/// The register file and flags after ADD. To the accumulator: Z from the
/// byte result, H and C from the low nibble and the byte. To HL: Z stays, H
/// is the carry out of bit 11, C the carry out of bit 15. To SP: the operand
/// is a signed byte, Z is cleared, H and C are those of the unsigned byte
/// addition. N is cleared in each case.
#[verifier::opaque]
pub open spec fn add_result(cpu: CPUContext) -> CPUContext {
    let rt = cpu.cur_inst.reg1.unwrap();
    let r = cpu.registers.read(rt);
    let fd = cpu.fetched_data;
    let byte_h = r % 16 + fd % 16 >= 0x10;
    let byte_c = r % 256 + fd % 256 >= 0x100;
    if rt == RegType::SP {
        cpu.with_reg(rt, relative_spec(r, lo_spec(fd))).with_flags(
            Some(false),
            Some(false),
            Some(byte_h),
            Some(byte_c),
        )
    } else if wide_target(cpu) {
        cpu.with_reg(rt, ((r + fd) % 0x10000) as u16).with_flags(
            None,
            Some(false),
            Some(r % 0x1000 + fd % 0x1000 >= 0x1000),
            Some(r + fd >= 0x10000),
        )
    } else {
        cpu.with_reg(rt, ((r + fd) % 0x10000) as u16).with_flags(
            Some((r + fd) % 256 == 0),
            Some(false),
            Some(byte_h),
            Some(byte_c),
        )
    }
}

/// ADD: the machine cycles of a word addition pass, then the sum and the
/// flags are stored.
#[verifier::opaque]
pub open spec fn add_spec(m: Machine) -> Machine {
    let m1 = if m.cpu.cur_inst.reg1 == Some(RegType::SP) {
        m.cycles_spec(1).cycles_spec(1)
    } else if wide_target(m.cpu) {
        m.cycles_spec(1)
    } else {
        m
    };
    Machine { cpu: add_result(m1.cpu), ..m1 }
}

/// The machine cycles a jump, call or restart spends beyond its fetches.
pub open spec fn goto_cycles(cpu: CPUContext, push_pc: bool) -> nat {
    if !check_cond_spec(cpu) {
        0
    } else if push_pc {
        3
    } else {
        1
    }
}

/// The machine after a jump to `address` that is taken only if the
/// condition of the current instruction holds. A call first lets two
/// machine cycles pass and pushes PC; the jump itself takes one more.
#[verifier::opaque]
pub open spec fn goto_spec(m: Machine, address: u16, push_pc: bool) -> Machine {
    if check_cond_spec(m.cpu) {
        let m1 = if push_pc {
            stack_push16_spec(m.cycles_spec(2), m.cpu.registers.pc)
        } else {
            m
        };
        Machine { cpu: m1.cpu.with_pc(address), ..m1 }.cycles_spec(1)
    } else {
        m
    }
}

/// The machine cycles RET spends beyond its fetch.
pub open spec fn ret_cycles(cpu: CPUContext) -> nat {
    (if cpu.cur_inst.cond != CondType::NONE {
        1nat
    } else {
        0nat
    }) + (if check_cond_spec(cpu) {
        3nat
    } else {
        0nat
    })
}

/// The machine after the word on top of the stack is popped into PC, a
/// machine cycle passing after each byte and after the jump.
#[verifier::opaque]
pub open spec fn return_spec(m: Machine) -> Machine {
    let lo = stack_top(m);
    let m1 = Machine { cpu: m.cpu.with_sp(m.cpu.registers.sp.wrapping_add(1)), ..m }.cycles_spec(1);
    let hi = stack_top(m1);
    let m2 = Machine { cpu: m1.cpu.with_sp(m1.cpu.registers.sp.wrapping_add(1)), ..m1 }.cycles_spec(
        1,
    );
    Machine { cpu: m2.cpu.with_pc(word_spec(hi, lo)), ..m2 }.cycles_spec(1)
}

/// RET: a conditional return spends a machine cycle on its test; if the
/// condition holds, PC is popped.
#[verifier::opaque]
pub open spec fn ret_spec(m: Machine) -> Machine {
    let m1 = if m.cpu.cur_inst.cond != CondType::NONE {
        m.cycles_spec(1)
    } else {
        m
    };
    if check_cond_spec(m1.cpu) {
        return_spec(m1)
    } else {
        m1
    }
}

/// RETI: interrupts are enabled at once, then RET.
pub open spec fn reti_spec(m: Machine) -> Machine {
    ret_spec(Machine { cpu: CPUContext { int_master_enabled: true, ..m.cpu }, ..m })
}

/// PUSH: the register pair goes on the stack, high byte first, a machine
/// cycle passing before each byte and after the last.
#[verifier::opaque]
pub open spec fn push_spec(m: Machine) -> Machine {
    let v = m.cpu.registers.read(m.cpu.cur_inst.reg1.unwrap());
    stack_push_spec(stack_push_spec(m.cycles_spec(1), hi_spec(v)).cycles_spec(1), lo_spec(v))
        .cycles_spec(1)
}

/// POP: the word on top of the stack goes to the register pair, low byte
/// first, a machine cycle passing after each byte. AF takes it as every
/// write to AF does, with the low nibble of F zero.
#[verifier::opaque]
pub open spec fn pop_spec(m: Machine) -> Machine {
    let rt = m.cpu.cur_inst.reg1.unwrap();
    let lo = stack_top(m);
    let m1 = Machine { cpu: m.cpu.with_sp(m.cpu.registers.sp.wrapping_add(1)), ..m }.cycles_spec(1);
    let hi = stack_top(m1);
    let m2 = Machine { cpu: m1.cpu.with_sp(m1.cpu.registers.sp.wrapping_add(1)), ..m1 }.cycles_spec(
        1,
    );
    Machine { cpu: m2.cpu.with_reg(rt, word_spec(hi, lo)), ..m2 }
}

/// LDH: with a destination register, it takes the byte at the fetched
/// address on the high page; without one, the accumulator goes to
/// `mem_dest` on the high page. A machine cycle passes after either.
#[verifier::opaque]
pub open spec fn ldh_spec(m: Machine) -> Machine {
    (match m.cpu.cur_inst.reg1 {
        Some(rt) => Machine {
            cpu: m.cpu.with_reg(rt, bus_read_spec(m, high_page_spec(m.cpu.fetched_data)) as u16),
            ..m
        },
        None => bus_write_spec(m, high_page_spec(m.cpu.mem_dest), m.cpu.registers.a),
    }).cycles_spec(1)
}

/// Stores the fetched operand at `mem_dest`.
pub fn store(cpu: &mut CPUContext, emu: &mut EmulatorContext)
    requires
        old(emu).wf(),
    ensures
        machine(final(cpu), final(emu)) == store_spec(machine(old(cpu), old(emu))),
        retired(
            machine(old(cpu), old(emu)),
            machine(final(cpu), final(emu)),
            if wide_source(*old(cpu)) {
                2
            } else {
                1
            },
        ),
{
    proof {
        reveal(store_spec);
    }
    let wide: bool = match cpu.cur_inst.reg2 {
        Some(r) => r.is_16_bit(),
        None => false,
    };
    if wide {
        emu.cycles(cpu, 1);
        bus_write16(cpu, emu, cpu.mem_dest, cpu.fetched_data);
    } else {
        bus_write(cpu, emu, cpu.mem_dest, lo(cpu.fetched_data));
    }
    emu.cycles(cpu, 1);
}

/// Adds the fetched signed byte to the source register and stores the sum
/// in the destination register.
pub fn load_offset(cpu: &mut CPUContext)
    requires
        old(cpu).cur_inst.wf(),
        old(cpu).cur_inst.inst_type == InstType::LD,
        old(cpu).cur_inst.mode == AddrMode::HLxSPR,
    ensures
        *final(cpu) == offset_result(*old(cpu)),
        final(cpu).registers.f & 0x0F == old(cpu).registers.f & 0x0F,
{
    proof {
        reveal(offset_result);
    }
    let inst = cpu.cur_inst;
    let base: u16 = cpu.read_reg(inst.reg2);
    let fd: u16 = cpu.fetched_data;
    let h_flag: bool = 0x10 <= base % 16 + fd % 16;
    let c_flag: bool = 0x100 <= base % 256 + fd % 256;
    cpu.set_flags(Some(false), Some(false), Some(h_flag), Some(c_flag));
    cpu.set_reg(inst.reg1, relative(base, lo(fd)));
}

pub fn proc_ld(cpu: &mut CPUContext, emu: &mut EmulatorContext)
    requires
        old(emu).wf(),
        decoded(*old(cpu)),
        old(cpu).cur_inst.inst_type == InstType::LD,
    ensures
        machine(final(cpu), final(emu)) == ld_spec(machine(old(cpu), old(emu))),
        retired(machine(old(cpu), old(emu)), machine(final(cpu), final(emu)), ld_cycles(*old(cpu))),
{
    proof {
        reveal(ld_spec);
    }
    let inst = cpu.cur_inst;
    if cpu.dest_is_mem {
        store(cpu, emu);
        return ;
    }
    if inst.mode == AddrMode::HLxSPR {
        load_offset(cpu);
        emu.cycles(cpu, 1);
        return ;
    }
    cpu.set_reg(inst.reg1, cpu.fetched_data);
    if inst.mode == AddrMode::RxR && inst.reg1.unwrap().is_16_bit() {
        emu.cycles(cpu, 1);
    }
}

pub fn proc_inc(cpu: &mut CPUContext, emu: &mut EmulatorContext)
    requires
        old(emu).wf(),
        decoded(*old(cpu)),
        old(cpu).cur_inst.inst_type == InstType::INC,
    ensures
        machine(final(cpu), final(emu)) == inc_spec(machine(old(cpu), old(emu))),
        retired(machine(old(cpu), old(emu)), machine(final(cpu), final(emu)), inc_dec_cycles(*old(cpu))),
{
    proof {
        reveal(inc_spec);
    }
    let inst = cpu.cur_inst;
    let wide: bool = inst.reg1.unwrap().is_16_bit();
    let mut val: u16 = cpu.read_reg(inst.reg1).wrapping_add(1);
    if wide {
        emu.cycles(cpu, 1);
    }
    if inst.reg1 == Some(RegType::HL) && inst.mode == AddrMode::MR {
        let address: u16 = cpu.read_reg(Some(RegType::HL));
        val = (bus_read(cpu, emu, address) as u16 + 1) % 256;
        bus_write(cpu, emu, address, val as u8);
    } else {
        cpu.set_reg(inst.reg1, val);
        val = cpu.read_reg(inst.reg1);
        if wide {
            return ;
        }
    }
    cpu.set_flags(Some(val == 0), Some(false), Some(val % 16 == 0), None);
}

pub fn proc_dec(cpu: &mut CPUContext, emu: &mut EmulatorContext)
    requires
        old(emu).wf(),
        decoded(*old(cpu)),
        old(cpu).cur_inst.inst_type == InstType::DEC,
    ensures
        machine(final(cpu), final(emu)) == dec_spec(machine(old(cpu), old(emu))),
        retired(machine(old(cpu), old(emu)), machine(final(cpu), final(emu)), inc_dec_cycles(*old(cpu))),
{
    proof {
        reveal(dec_spec);
    }
    let inst = cpu.cur_inst;
    let wide: bool = inst.reg1.unwrap().is_16_bit();
    let mut val: u16 = cpu.read_reg(inst.reg1).wrapping_sub(1);
    if wide {
        emu.cycles(cpu, 1);
    }
    if inst.reg1 == Some(RegType::HL) && inst.mode == AddrMode::MR {
        let address: u16 = cpu.read_reg(Some(RegType::HL));
        let stored: u8 = bus_read(cpu, emu, address).wrapping_sub(1);
        bus_write(cpu, emu, address, stored);
        val = stored as u16;
    } else {
        cpu.set_reg(inst.reg1, val);
        val = cpu.read_reg(inst.reg1);
        if wide {
            return ;
        }
    }
    cpu.set_flags(Some(val == 0), Some(true), Some(val % 16 == 0xF), None);
}

/// Adds the fetched operand to the destination register and sets the
/// flags.
pub fn add_to_register(cpu: &mut CPUContext)
    requires
        old(cpu).cur_inst.wf(),
        old(cpu).cur_inst.inst_type == InstType::ADD,
    ensures
        *final(cpu) == add_result(*old(cpu)),
        final(cpu).registers.f & 0x0F == old(cpu).registers.f & 0x0F,
{
    proof {
        reveal(add_result);
    }
    let inst = cpu.cur_inst;
    let r: u16 = cpu.read_reg(inst.reg1);
    let fd: u16 = cpu.fetched_data;
    let sum: u32 = r as u32 + fd as u32;
    let byte_h: bool = 0x10 <= r % 16 + fd % 16;
    let byte_c: bool = 0x100 <= r % 256 + fd % 256;
    if inst.reg1 == Some(RegType::SP) {
        cpu.set_reg(inst.reg1, relative(r, lo(fd)));
        cpu.set_flags(Some(false), Some(false), Some(byte_h), Some(byte_c));
    } else if inst.reg1.unwrap().is_16_bit() {
        cpu.set_reg(inst.reg1, (sum % 0x10000) as u16);
        cpu.set_flags(
            None,
            Some(false),
            Some(0x1000 <= r % 0x1000 + fd % 0x1000),
            Some(0x10000 <= sum),
        );
    } else {
        cpu.set_reg(inst.reg1, (sum % 0x10000) as u16);
        cpu.set_flags(Some(sum % 256 == 0), Some(false), Some(byte_h), Some(byte_c));
    }
}

pub fn proc_add(cpu: &mut CPUContext, emu: &mut EmulatorContext)
    requires
        old(emu).wf(),
        decoded(*old(cpu)),
        old(cpu).cur_inst.inst_type == InstType::ADD,
    ensures
        machine(final(cpu), final(emu)) == add_spec(machine(old(cpu), old(emu))),
        retired(machine(old(cpu), old(emu)), machine(final(cpu), final(emu)), add_cycles(*old(cpu))),
{
    proof {
        reveal(add_spec);
    }
    let inst = cpu.cur_inst;
    if inst.reg1.unwrap().is_16_bit() {
        emu.cycles(cpu, 1);
    }
    if inst.reg1 == Some(RegType::SP) {
        emu.cycles(cpu, 1);
    }
    add_to_register(cpu);
}

pub fn goto_addr(cpu: &mut CPUContext, emu: &mut EmulatorContext, address: u16, push_pc: bool)
    requires
        old(emu).wf(),
    ensures
        machine(final(cpu), final(emu)) == goto_spec(machine(old(cpu), old(emu)), address, push_pc),
        retired(
            machine(old(cpu), old(emu)),
            machine(final(cpu), final(emu)),
            goto_cycles(*old(cpu), push_pc),
        ),
{
    proof {
        reveal(goto_spec);
    }
    if check_cond(cpu) {
        if push_pc {
            emu.cycles(cpu, 2);
            stack_push16(cpu, emu, cpu.registers.pc);
        }
        cpu.registers.pc = address;
        emu.cycles(cpu, 1);
    }
}

pub fn proc_jr(cpu: &mut CPUContext, emu: &mut EmulatorContext)
    requires
        old(emu).wf(),
    ensures
        machine(final(cpu), final(emu)) == goto_spec(
            machine(old(cpu), old(emu)),
            relative_spec(old(cpu).registers.pc, operand(*old(cpu))),
            false,
        ),
        retired(
            machine(old(cpu), old(emu)),
            machine(final(cpu), final(emu)),
            goto_cycles(*old(cpu), false),
        ),
{
    let addr: u16 = relative(cpu.registers.pc, lo(cpu.fetched_data));
    goto_addr(cpu, emu, addr, false);
}

pub fn proc_jp(cpu: &mut CPUContext, emu: &mut EmulatorContext)
    requires
        old(emu).wf(),
    ensures
        machine(final(cpu), final(emu)) == goto_spec(
            machine(old(cpu), old(emu)),
            old(cpu).fetched_data,
            false,
        ),
        retired(
            machine(old(cpu), old(emu)),
            machine(final(cpu), final(emu)),
            goto_cycles(*old(cpu), false),
        ),
{
    goto_addr(cpu, emu, cpu.fetched_data, false);
}

pub fn proc_call(cpu: &mut CPUContext, emu: &mut EmulatorContext)
    requires
        old(emu).wf(),
    ensures
        machine(final(cpu), final(emu)) == goto_spec(
            machine(old(cpu), old(emu)),
            old(cpu).fetched_data,
            true,
        ),
        retired(
            machine(old(cpu), old(emu)),
            machine(final(cpu), final(emu)),
            goto_cycles(*old(cpu), true),
        ),
{
    goto_addr(cpu, emu, cpu.fetched_data, true);
}

pub fn proc_rst(cpu: &mut CPUContext, emu: &mut EmulatorContext)
    requires
        old(emu).wf(),
        old(cpu).cur_inst.param is Some,
    ensures
        machine(final(cpu), final(emu)) == goto_spec(
            machine(old(cpu), old(emu)),
            old(cpu).cur_inst.param.unwrap() as u16,
            true,
        ),
        retired(
            machine(old(cpu), old(emu)),
            machine(final(cpu), final(emu)),
            goto_cycles(*old(cpu), true),
        ),
{
    goto_addr(cpu, emu, cpu.cur_inst.param.unwrap() as u16, true);
}

/// Pops PC, a machine cycle passing after each byte and after the jump.
pub fn pop_pc(cpu: &mut CPUContext, emu: &mut EmulatorContext)
    requires
        old(emu).wf(),
    ensures
        machine(final(cpu), final(emu)) == return_spec(machine(old(cpu), old(emu))),
        retired(machine(old(cpu), old(emu)), machine(final(cpu), final(emu)), 3),
{
    proof {
        reveal(return_spec);
    }
    let lo: u8 = stack_pop(cpu, emu);
    emu.cycles(cpu, 1);
    let hi: u8 = stack_pop(cpu, emu);
    emu.cycles(cpu, 1);
    cpu.registers.pc = word(hi, lo);
    emu.cycles(cpu, 1);
}

pub fn proc_ret(cpu: &mut CPUContext, emu: &mut EmulatorContext)
    requires
        old(emu).wf(),
    ensures
        machine(final(cpu), final(emu)) == ret_spec(machine(old(cpu), old(emu))),
        retired(machine(old(cpu), old(emu)), machine(final(cpu), final(emu)), ret_cycles(*old(cpu))),
{
    proof {
        reveal(ret_spec);
    }
    if cpu.cur_inst.cond != CondType::NONE {
        emu.cycles(cpu, 1);
    }
    if check_cond(cpu) {
        pop_pc(cpu, emu);
    }
}

pub fn proc_reti(cpu: &mut CPUContext, emu: &mut EmulatorContext)
    requires
        old(emu).wf(),
    ensures
        machine(final(cpu), final(emu)) == reti_spec(machine(old(cpu), old(emu))),
        retired(machine(old(cpu), old(emu)), machine(final(cpu), final(emu)), ret_cycles(*old(cpu))),
{
    cpu.int_master_enabled = true;
    proc_ret(cpu, emu);
}

pub fn proc_push(cpu: &mut CPUContext, emu: &mut EmulatorContext)
    requires
        old(emu).wf(),
        decoded(*old(cpu)),
        old(cpu).cur_inst.inst_type == InstType::PUSH,
    ensures
        machine(final(cpu), final(emu)) == push_spec(machine(old(cpu), old(emu))),
        retired(machine(old(cpu), old(emu)), machine(final(cpu), final(emu)), 3),
{
    proof {
        reveal(push_spec);
    }
    let reg_1: u16 = cpu.read_reg(cpu.cur_inst.reg1);
    emu.cycles(cpu, 1);
    stack_push(cpu, emu, hi(reg_1));
    emu.cycles(cpu, 1);
    stack_push(cpu, emu, lo(reg_1));
    emu.cycles(cpu, 1);
}

pub fn proc_pop(cpu: &mut CPUContext, emu: &mut EmulatorContext)
    requires
        old(emu).wf(),
        decoded(*old(cpu)),
        old(cpu).cur_inst.inst_type == InstType::POP,
    ensures
        machine(final(cpu), final(emu)) == pop_spec(machine(old(cpu), old(emu))),
        retired(machine(old(cpu), old(emu)), machine(final(cpu), final(emu)), 2),
{
    proof {
        reveal(pop_spec);
    }
    let inst = cpu.cur_inst;
    let lo: u8 = stack_pop(cpu, emu);
    emu.cycles(cpu, 1);
    let hi: u8 = stack_pop(cpu, emu);
    emu.cycles(cpu, 1);
    cpu.set_reg(inst.reg1, word(hi, lo));
}

pub fn proc_ldh(cpu: &mut CPUContext, emu: &mut EmulatorContext)
    requires
        old(emu).wf(),
        decoded(*old(cpu)),
        old(cpu).cur_inst.inst_type == InstType::LDH,
    ensures
        machine(final(cpu), final(emu)) == ldh_spec(machine(old(cpu), old(emu))),
        retired(machine(old(cpu), old(emu)), machine(final(cpu), final(emu)), 1),
{
    proof {
        reveal(ldh_spec);
    }
    match cpu.cur_inst.reg1 {
        Some(rt) => {
            let val: u16 = bus_read(cpu, emu, high_page(cpu.fetched_data)) as u16;
            cpu.set_reg(Some(rt), val);
        },
        None => bus_write(cpu, emu, high_page(cpu.mem_dest), cpu.registers.a),
    }
    emu.cycles(cpu, 1);
}

} // verus!
