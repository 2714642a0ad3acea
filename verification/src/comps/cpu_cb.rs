//! The prefixed operations: rotates, shifts, and single-bit test, reset and
//! set, on the operand that the low three bits of the second byte select.
use vstd::prelude::*;
use crate::comps::common::{bit_set_spec, bit_spec};
use crate::comps::cpu::{lo, CPUContext};
use crate::comps::cpu_proc::{carry_in, operand};
use crate::comps::cpu_util::{is_reg8, read_reg8_spec, set_reg8_spec};
use crate::comps::emu::{machine, retired, EmulatorContext, Machine};
use crate::comps::instructions::RegType;

verus! {

/// The operand that a three-bit register field selects; a field out of
/// range selects none.
pub open spec fn decode_reg_spec(reg: u8) -> RegType {
    if reg == 0 {
        RegType::B
    } else if reg == 1 {
        RegType::C
    } else if reg == 2 {
        RegType::D
    } else if reg == 3 {
        RegType::E
    } else if reg == 4 {
        RegType::H
    } else if reg == 5 {
        RegType::L
    } else if reg == 6 {
        RegType::HL
    } else if reg == 7 {
        RegType::A
    } else {
        RegType::NONE
    }
}

/// The operand of prefixed operation `op`.
pub open spec fn cb_reg(op: u8) -> RegType {
    decode_reg_spec(op % 8)
}

/// The bit number, or the rotate kind, in prefixed operation `op`.
pub open spec fn cb_bit(op: u8) -> u8 {
    (op / 8) % 8
}

/// The result and the carry of rotate or shift number `kind` on `v`, with
/// `carry` (0 or 1) the carry going in: RLC, RRC, RL, RR, SLA, SRA, SWAP,
/// SRL for 0 to 7.
pub open spec fn rotate_spec(kind: u8, v: u8, carry: u8) -> (u8, bool) {
    if kind == 0 {
        ((v << 1) | (v >> 7), v & 0x80 != 0)
    } else if kind == 1 {
        ((v >> 1) | (v << 7), v & 1 != 0)
    } else if kind == 2 {
        ((v << 1) | carry, v & 0x80 != 0)
    } else if kind == 3 {
        ((v >> 1) | (carry << 7), v & 1 != 0)
    } else if kind == 4 {
        (v << 1, v & 0x80 != 0)
    } else if kind == 5 {
        ((v >> 1) | (v & 0x80), v & 1 != 0)
    } else if kind == 6 {
        (((v & 0x0F) << 4) | ((v & 0xF0) >> 4), false)
    } else {
        (v >> 1, v & 1 != 0)
    }
}

/// The machine cycles a prefixed operation spends beyond its fetches: two
/// when it works on the byte at (HL).
pub open spec fn cb_cycles(cpu: CPUContext) -> nat {
    if cb_reg(operand(cpu)) == RegType::HL {
        2
    } else {
        0
    }
}

/// The machine after the prefixed operation in `fetched_data`. BIT sets Z
/// when the tested bit is clear, clears N and sets H; RES and SET store the
/// operand with the bit forced and leave the flags; a rotate or shift
/// stores its result, sets Z from it, clears N and H and sets C.
#[verifier::opaque]
pub open spec fn cb_spec(m: Machine) -> Machine {
    let op = operand(m.cpu);
    let rt = cb_reg(op);
    let n = cb_bit(op);
    let v = read_reg8_spec(m, rt);
    let m1 = if rt == RegType::HL {
        m.cycles_spec(2)
    } else {
        m
    };
    if op / 64 == 1 {
        Machine { cpu: m1.cpu.with_flags(Some(!bit_spec(v, n)), Some(false), Some(true), None), ..m1 }
    } else if op / 64 == 2 {
        set_reg8_spec(m1, rt, bit_set_spec(v, n, false))
    } else if op / 64 == 3 {
        set_reg8_spec(m1, rt, bit_set_spec(v, n, true))
    } else {
        let (r, c) = rotate_spec(n, v, carry_in(m1.cpu));
        let m2 = set_reg8_spec(m1, rt, r);
        Machine { cpu: m2.cpu.with_flags(Some(r == 0), Some(false), Some(false), Some(c)), ..m2 }
    }
}

pub fn decode_reg(reg: u8) -> (rt: RegType)
    ensures
        rt == decode_reg_spec(reg),
        reg <= 7 ==> is_reg8(rt) && rt != RegType::F,
{
    if 0b111 < reg {
        return RegType::NONE;
    }
    if reg == 0 {
        RegType::B
    } else if reg == 1 {
        RegType::C
    } else if reg == 2 {
        RegType::D
    } else if reg == 3 {
        RegType::E
    } else if reg == 4 {
        RegType::H
    } else if reg == 5 {
        RegType::L
    } else if reg == 6 {
        RegType::HL
    } else {
        RegType::A
    }
}

/// Rotate or shift number `kind` on `v`.
pub fn rotate(kind: u8, v: u8, carry: u8) -> (r: (u8, bool))
    ensures
        r == rotate_spec(kind, v, carry),
{
    if kind == 0 {
        ((v << 1) | (v >> 7), v & 0x80 != 0)
    } else if kind == 1 {
        ((v >> 1) | (v << 7), v & 1 != 0)
    } else if kind == 2 {
        ((v << 1) | carry, v & 0x80 != 0)
    } else if kind == 3 {
        ((v >> 1) | (carry << 7), v & 1 != 0)
    } else if kind == 4 {
        (v << 1, v & 0x80 != 0)
    } else if kind == 5 {
        ((v >> 1) | (v & 0x80), v & 1 != 0)
    } else if kind == 6 {
        (((v & 0x0F) << 4) | ((v & 0xF0) >> 4), false)
    } else {
        (v >> 1, v & 1 != 0)
    }
}

pub fn proc_cb(cpu: &mut CPUContext, emu: &mut EmulatorContext)
    requires
        old(emu).wf(),
    ensures
        machine(final(cpu), final(emu)) == cb_spec(machine(old(cpu), old(emu))),
        retired(machine(old(cpu), old(emu)), machine(final(cpu), final(emu)), cb_cycles(*old(cpu))),
{
    proof {
        reveal(cb_spec);
    }
    let op: u8 = lo(cpu.fetched_data);
    let reg: RegType = decode_reg(op % 8);
    let bit: u8 = (op / 8) % 8;
    let bit_op: u8 = op / 64;
    let reg_val: u8 = cpu.read_reg8(emu, reg);
    if reg == RegType::HL {
        emu.cycles(cpu, 2);
    }
    if bit_op == 1 {
        let z: bool = reg_val & (1u8 << bit) == 0;
        cpu.set_flags(Some(z), Some(false), Some(true), None);
    } else if bit_op == 2 {
        cpu.set_reg8(emu, reg, reg_val & !(1u8 << bit));
    } else if bit_op == 3 {
        cpu.set_reg8(emu, reg, reg_val | (1u8 << bit));
    } else {
        let c_flag: u8 = if cpu.flag_c() {
            1
        } else {
            0
        };
        let (result, carry) = rotate(bit, reg_val, c_flag);
        cpu.set_reg8(emu, reg, result);
        cpu.set_flags(Some(result == 0), Some(false), Some(false), Some(carry));
    }
}

} // verus!
