//! Theorems about the machine as a whole.
use vstd::prelude::*;
use crate::comps::bus::{
    bus_read_spec,
    lemma_write_elsewhere,
    lemma_write_then_read,
    ram_address,
};
use crate::comps::common::{bit_set_spec, bit_spec, lemma_bit_set_get};
use crate::comps::cpu::{
    flags_spec,
    hi_spec,
    lemma_flags_after,
    lo_spec,
    word_spec,
    CPUContext,
};
use crate::comps::cpu_cb::{cb_bit, cb_reg, cb_spec};
use crate::comps::cpu_proc::{
    check_cond_spec,
    goto_spec,
    operand,
    pop_spec,
    push_spec,
    ret_spec,
    return_spec,
};
use crate::comps::cpu_util::{read_reg8_spec, set_reg8_spec};
use crate::comps::dma::DMAContext;
use crate::comps::emu::{lemma_cycle_frame, lemma_cycles_frame, same_memory, Machine};
use crate::comps::instructions::{CondType, Instruction, RegType};
use crate::comps::stack::{stack_push16_spec, stack_push_spec, stack_top};

verus! {

/// Byte `i` of the object attribute memory.
pub open spec fn oam_byte(m: Machine, i: int) -> u8 {
    m.emu.ppu.oam_ram[i / 4].byte(i % 4)
}

/// Byte `i` of the page that the DMA engine of `m` copies from, as the bus
/// shows it.
pub open spec fn source_byte(m: Machine, i: int) -> u8 {
    bus_read_spec(m, (m.emu.dma.value * 0x100 + i) as u16)
}

/// Below the I/O page, what a read returns depends only on the memories
/// and on whether a DMA transfer hides the object attribute memory.
pub proof fn lemma_read_stable(m1: Machine, m2: Machine, address: u16)
    requires
        address < 0xFF00,
        same_memory(m1, m2),
        m1.emu.dma.active == m2.emu.dma.active,
        m1.emu.dma.active || m1.emu.ppu.oam_ram == m2.emu.ppu.oam_ram,
    ensures
        bus_read_spec(m1, address) == bus_read_spec(m2, address),
{
    reveal(bus_read_spec);
}

/// How far a transfer has come `k` machine cycles after it was armed in
/// `start`: the memories it copies from are as they were, the engine has
/// waited two cycles and then copied a byte per cycle, and the object
/// attribute memory holds the bytes copied so far.
pub open spec fn dma_progress(start: Machine, m: Machine, k: int) -> bool {
    let dma = m.emu.dma;
    &&& same_memory(start, m)
    &&& dma.value == start.emu.dma.value
    &&& dma.active == (k < 162)
    &&& k < 2 ==> dma.byte == 0 && dma.start_delay == 2 - k
    &&& 2 <= k ==> dma.start_delay == 0
    &&& 2 <= k < 162 ==> dma.byte == k - 2
    &&& forall|i: int| 0 <= i < k - 2 ==> oam_byte(m, i) == source_byte(start, i)
}

proof fn lemma_transfer_cycle(start: Machine, m: Machine, k: int)
    requires
        0 <= k < 162,
        start.emu.dma.active,
        start.emu.dma.value != 0xFF,
        dma_progress(start, m, k),
    ensures
        dma_progress(start, m.cycle_spec(), k + 1),
{
    let b = m.four_dots_spec();
    let e = m.cycle_spec();
    lemma_cycle_frame(m);
    reveal(Machine::dma_spec);
    if 2 <= k {
        let source = b.emu.dma.source_spec();
        assert(source == (start.emu.dma.value * 0x100 + (k - 2)) as u16);
        lemma_read_stable(b, start, source);
        assert forall|i: int| 0 <= i < k - 1 implies oam_byte(e, i) == source_byte(start, i) by {
            if i == k - 2 {
                assert(oam_byte(e, i) == bus_read_spec(b, source));
            } else {
                assert(oam_byte(m, i) == source_byte(start, i));
                if i / 4 == (k - 2) / 4 {
                    assert(i % 4 != (k - 2) % 4);
                }
                assert(oam_byte(e, i) == oam_byte(m, i));
            }
        }
    } else {
        assert(e.emu.ppu.oam_ram == m.emu.ppu.oam_ram);
    }
}

proof fn lemma_transfer_cycles(start: Machine, m: Machine, k: int, n: nat)
    requires
        0 <= k,
        k + n <= 162,
        start.emu.dma.active,
        start.emu.dma.value != 0xFF,
        dma_progress(start, m, k),
    ensures
        dma_progress(start, m.cycles_spec(n), k + n),
    decreases n,
{
    reveal_with_fuel(Machine::cycles_spec, 2);
    if n > 0 {
        lemma_transfer_cycle(start, m, k);
        lemma_transfer_cycles(start, m.cycle_spec(), k + 1, (n - 1) as nat);
    }
}

/// Exactly 162 machine cycles after a transfer from a page below the I/O
/// page was armed, the engine is idle and the object attribute memory holds
/// the 160 bytes that the bus showed on that page when the transfer was
/// armed.
pub proof fn lemma_dma_transfer(start: Machine)
    requires
        start.emu.dma == DMAContext::started(start.emu.dma.value),
        start.emu.dma.value != 0xFF,
    ensures
        !start.cycles_spec(162).emu.dma.transferring_spec(),
        forall|i: int| 0 <= i < 160 ==> oam_byte(start.cycles_spec(162), i) == source_byte(start, i),
        forall|k: nat| k < 162 ==> (#[trigger] start.cycles_spec(k)).emu.dma.transferring_spec(),
{
    lemma_transfer_cycles(start, start, 0, 162);
    assert forall|k: nat| k < 162 implies (#[trigger] start.cycles_spec(k)).emu.dma.transferring_spec() by {
        lemma_transfer_cycles(start, start, 0, k);
    }
}

/// What a read of a RAM address returns depends only on the RAM.
pub proof fn lemma_ram_read_stable(m1: Machine, m2: Machine, address: u16)
    requires
        ram_address(address),
        m1.emu.ram == m2.emu.ram,
        m1.emu.ppu.vram == m2.emu.ppu.vram,
    ensures
        bus_read_spec(m1, address) == bus_read_spec(m2, address),
{
    reveal(bus_read_spec);
}

/// Whether the two bytes below the stack pointer lie in RAM, so that a word
/// pushed there can be popped again.
pub open spec fn stack_in_ram(sp: u16) -> bool {
    ram_address(sp.wrapping_sub(1)) && ram_address(sp.wrapping_sub(2))
}

/// This machine with another stack pointer.
pub open spec fn at_sp(m: Machine, sp: u16) -> Machine {
    Machine { cpu: m.cpu.with_sp(sp), ..m }
}

/// A byte pushed on a stack in RAM is on top of it, the only change to the
/// CPU is the stack pointer, and every other RAM address reads as before.
pub proof fn lemma_push_byte(m: Machine, data: u8, other: u16)
    requires
        ram_address(m.cpu.registers.sp.wrapping_sub(1)),
    ensures
        stack_top(stack_push_spec(m, data)) == data,
        stack_push_spec(m, data).cpu == m.cpu.with_sp(m.cpu.registers.sp.wrapping_sub(1)),
        ram_address(other) && other != m.cpu.registers.sp.wrapping_sub(1) ==> bus_read_spec(
            stack_push_spec(m, data),
            other,
        ) == bus_read_spec(m, other),
{
    let sp = m.cpu.registers.sp.wrapping_sub(1);
    let moved = at_sp(m, sp);
    lemma_write_then_read(moved, sp, data);
    lemma_write_elsewhere(
        moved,
        sp,
        data,
        if sp == 0 {
            1
        } else {
            0
        },
    );
    if ram_address(other) && other != sp {
        lemma_write_elsewhere(moved, sp, data, other);
        lemma_ram_read_stable(moved, m, other);
    }
}

/// Machine cycles do not change what a RAM address reads as, nor the CPU
/// but for its pending interrupts.
pub proof fn lemma_cycles_keep_ram(m: Machine, n: nat, address: u16)
    requires
        ram_address(address),
    ensures
        bus_read_spec(m.cycles_spec(n), address) == bus_read_spec(m, address),
        same_memory(m, m.cycles_spec(n)),
{
    lemma_cycles_frame(m, n);
    lemma_ram_read_stable(m.cycles_spec(n), m, address);
}

/// A push with the stack in RAM leaves the word of the pushed pair on the
/// stack, low byte on top, and moves the stack pointer down by two.
pub proof fn lemma_push_pair(m: Machine)
    requires
        stack_in_ram(m.cpu.registers.sp),
    ensures
        ({
            let v = m.cpu.registers.read(m.cpu.cur_inst.reg1.unwrap());
            let sp = m.cpu.registers.sp;
            let p = push_spec(m);
            &&& p.cpu.registers == m.cpu.with_sp(sp.wrapping_sub(2)).registers
            &&& p.cpu.cur_inst == m.cpu.cur_inst
            &&& bus_read_spec(p, sp.wrapping_sub(2)) == lo_spec(v)
            &&& bus_read_spec(p, sp.wrapping_sub(1)) == hi_spec(v)
        }),
{
    reveal(push_spec);
    let v = m.cpu.registers.read(m.cpu.cur_inst.reg1.unwrap());
    let sp = m.cpu.registers.sp;
    let a1 = sp.wrapping_sub(1);
    let a2 = sp.wrapping_sub(2);
    let m1 = m.cycles_spec(1);
    lemma_cycles_frame(m, 1);
    let m2 = stack_push_spec(m1, hi_spec(v));
    lemma_push_byte(m1, hi_spec(v), a2);
    let m3 = m2.cycles_spec(1);
    lemma_cycles_keep_ram(m2, 1, a1);
    let m4 = stack_push_spec(m3, lo_spec(v));
    lemma_push_byte(m3, lo_spec(v), a1);
    let m5 = m4.cycles_spec(1);
    lemma_cycles_keep_ram(m4, 1, a1);
    lemma_cycles_keep_ram(m4, 1, a2);
}

/// The word that pair `rt` reads as after `value` is written to it: the
/// value, but that AF keeps no low nibble in F.
pub open spec fn kept_by(rt: RegType, value: u16) -> u16 {
    if rt == RegType::AF {
        word_spec(hi_spec(value), flags_spec(lo_spec(value)))
    } else {
        value
    }
}

/// A pop from a stack in RAM stores the word on the stack in the named
/// pair, AF taking no low nibble in F, and moves the stack pointer up by
/// two.
pub proof fn lemma_pop_pair(m: Machine)
    requires
        ram_address(m.cpu.registers.sp),
        ram_address(m.cpu.registers.sp.wrapping_add(1)),
        m.cpu.cur_inst.reg1 is Some,
        m.cpu.cur_inst.reg1.unwrap() == RegType::AF || m.cpu.cur_inst.reg1.unwrap() == RegType::BC
            || m.cpu.cur_inst.reg1.unwrap() == RegType::DE || m.cpu.cur_inst.reg1.unwrap()
            == RegType::HL,
    ensures
        ({
            let rt = m.cpu.cur_inst.reg1.unwrap();
            let sp = m.cpu.registers.sp;
            let q = pop_spec(m);
            &&& q.cpu.registers.sp == sp.wrapping_add(2)
            &&& q.cpu.registers.read(rt) == kept_by(
                rt,
                word_spec(bus_read_spec(m, sp.wrapping_add(1)), bus_read_spec(m, sp)),
            )
        }),
{
    reveal(pop_spec);
    let sp = m.cpu.registers.sp;
    let up = at_sp(m, sp.wrapping_add(1));
    let m1 = up.cycles_spec(1);
    lemma_cycles_keep_ram(up, 1, sp.wrapping_add(1));
    lemma_ram_read_stable(up, m, sp.wrapping_add(1));
    let up2 = at_sp(m1, m1.cpu.registers.sp.wrapping_add(1));
    lemma_cycles_frame(up2, 1);
}

/// This machine with `rt` as the first register of the current instruction.
pub open spec fn with_target(m: Machine, rt: RegType) -> Machine {
    Machine {
        cpu: CPUContext { cur_inst: Instruction { reg1: Some(rt), ..m.cpu.cur_inst }, ..m.cpu },
        ..m
    }
}

/// PUSH then POP with the stack in RAM: the popped pair holds the word of
/// the pushed pair, but that AF takes no low nibble in F, and the stack
/// pointer is where it was. `target` is the pair that is popped.
pub proof fn lemma_push_then_pop(m: Machine, target: RegType)
    requires
        stack_in_ram(m.cpu.registers.sp),
        target == RegType::AF || target == RegType::BC || target == RegType::DE || target
            == RegType::HL,
    ensures
        pop_spec(with_target(push_spec(m), target)).cpu.registers.read(target) == kept_by(
            target,
            m.cpu.registers.read(m.cpu.cur_inst.reg1.unwrap()),
        ),
        pop_spec(with_target(push_spec(m), target)).cpu.registers.sp == m.cpu.registers.sp,
{
    let pushed = push_spec(m);
    let popping = with_target(pushed, target);
    lemma_push_pair(m);
    let sp = m.cpu.registers.sp.wrapping_sub(2);
    assert(sp.wrapping_add(1) == m.cpu.registers.sp.wrapping_sub(1));
    lemma_ram_read_stable(popping, pushed, sp);
    lemma_ram_read_stable(popping, pushed, sp.wrapping_add(1));
    lemma_pop_pair(popping);
}

/// CALL then RET with the stack in RAM: a call that is taken jumps to its
/// target, and the return brings PC back to where it stood when the call
/// was carried out, which is the instruction after it, and the stack
/// pointer to where it was.
pub proof fn lemma_call_then_ret(m: Machine, address: u16)
    requires
        stack_in_ram(m.cpu.registers.sp),
        check_cond_spec(m.cpu),
    ensures
        goto_spec(m, address, true).cpu.registers.pc == address,
        return_spec(goto_spec(m, address, true)).cpu.registers.pc == m.cpu.registers.pc,
        return_spec(goto_spec(m, address, true)).cpu.registers.sp == m.cpu.registers.sp,
        m.cpu.cur_inst.cond == CondType::NONE ==> ret_spec(goto_spec(m, address, true))
            == return_spec(goto_spec(m, address, true)),
{
    reveal(goto_spec);
    reveal(return_spec);
    reveal(ret_spec);
    let pc = m.cpu.registers.pc;
    let sp = m.cpu.registers.sp;
    let a1 = sp.wrapping_sub(1);
    let a2 = sp.wrapping_sub(2);
    let m1 = m.cycles_spec(2);
    lemma_cycles_frame(m, 2);
    let m2 = stack_push_spec(m1, hi_spec(pc));
    lemma_push_byte(m1, hi_spec(pc), a2);
    let m3 = stack_push_spec(m2, lo_spec(pc));
    lemma_push_byte(m2, lo_spec(pc), a1);
    assert(m3 == stack_push16_spec(m1, pc));
    let jumped = Machine { cpu: m3.cpu.with_pc(address), ..m3 };
    lemma_ram_read_stable(jumped, m3, a1);
    lemma_ram_read_stable(jumped, m3, a2);
    let called = jumped.cycles_spec(1);
    lemma_cycles_keep_ram(jumped, 1, a1);
    lemma_cycles_keep_ram(jumped, 1, a2);
    assert(called == goto_spec(m, address, true));
    assert(stack_top(called) == lo_spec(pc));
    let up = at_sp(called, a1);
    lemma_ram_read_stable(up, called, a1);
    let r1 = up.cycles_spec(1);
    lemma_cycles_keep_ram(up, 1, a1);
    assert(stack_top(r1) == hi_spec(pc));
    let up2 = at_sp(r1, sp);
    let r2 = up2.cycles_spec(1);
    lemma_cycles_frame(up2, 1);
    let back = Machine { cpu: r2.cpu.with_pc(word_spec(hi_spec(pc), lo_spec(pc))), ..r2 };
    lemma_cycles_frame(back, 1);
}

/// This machine with the prefixed operation `op` fetched.
pub open spec fn with_cb(m: Machine, op: u8) -> Machine {
    Machine { cpu: CPUContext { fetched_data: op as u16, ..m.cpu }, ..m }
}

/// Whether the operand of prefixed operation `op` can be written and read
/// back: it is a register, or HL points into RAM.
pub open spec fn cb_operand_kept(m: Machine, op: u8) -> bool {
    cb_reg(op) == RegType::HL ==> ram_address(m.cpu.registers.read(RegType::HL))
}

/// The number of machine cycles a prefixed operation on `rt` spends.
pub open spec fn cb_wait(rt: RegType) -> nat {
    if rt == RegType::HL {
        2
    } else {
        0
    }
}

/// A byte stored in the operand of a prefixed operation, after the machine
/// cycles the operation spends, is the byte that the next prefixed
/// operation reads from it.
proof fn lemma_reg8_kept(m: Machine, r: u8, value: u8, op: u8)
    requires
        r < 8,
        cb_operand_kept(m, r),
    ensures
        read_reg8_spec(
            with_cb(set_reg8_spec(m.cycles_spec(cb_wait(cb_reg(r))), cb_reg(r), value), op),
            cb_reg(r),
        ) == value,
{
    let rt = cb_reg(r);
    let m1 = m.cycles_spec(cb_wait(rt));
    lemma_cycles_frame(m, cb_wait(rt));
    reveal_with_fuel(Machine::cycles_spec, 1);
    let stored = set_reg8_spec(m1, rt, value);
    if rt == RegType::HL {
        let hl = m.cpu.registers.read(RegType::HL);
        lemma_write_then_read(m1, hl, value);
        lemma_write_elsewhere(
            m1,
            hl,
            value,
            if hl == 0 {
                1
            } else {
                0
            },
        );
        lemma_ram_read_stable(with_cb(stored, op), stored, hl);
    }
}

/// The fields of the prefixed opcodes of BIT, RES and SET.
proof fn lemma_op_fields(n: u8, r: u8, on: bool)
    requires
        n < 8,
        r < 8,
    ensures
        cb_reg(bit_op(n, r)) == cb_reg(r),
        cb_bit(bit_op(n, r)) == n,
        bit_op(n, r) / 64 == 1,
        cb_reg(force_op(n, r, on)) == cb_reg(r),
        cb_bit(force_op(n, r, on)) == n,
        force_op(n, r, on) / 64 == if on {
            3int
        } else {
            2int
        },
{
}

/// RES and SET store their operand with bit `n` forced, after the machine
/// cycles they spend.
proof fn lemma_cb_force(m: Machine, n: u8, r: u8, on: bool)
    requires
        n < 8,
        r < 8,
    ensures
        cb_spec(with_cb(m, force_op(n, r, on))) == set_reg8_spec(
            with_cb(m, force_op(n, r, on)).cycles_spec(cb_wait(cb_reg(r))),
            cb_reg(r),
            bit_set_spec(read_reg8_spec(with_cb(m, force_op(n, r, on)), cb_reg(r)), n, on),
        ),
{
    lemma_op_fields(n, r, on);
    let op = force_op(n, r, on);
    assert(operand(with_cb(m, op).cpu) == op);
    reveal(cb_spec);
    reveal_with_fuel(Machine::cycles_spec, 1);
}

/// BIT sets Z exactly when bit `n` of its operand is clear.
proof fn lemma_cb_bit(m: Machine, n: u8, r: u8)
    requires
        n < 8,
        r < 8,
    ensures
        cb_spec(with_cb(m, bit_op(n, r))).cpu.flag_z_spec() == !bit_spec(
            read_reg8_spec(with_cb(m, bit_op(n, r)), cb_reg(r)),
            n,
        ),
{
    lemma_op_fields(n, r, true);
    let op = bit_op(n, r);
    let start = with_cb(m, op);
    assert(operand(start.cpu) == op);
    reveal(cb_spec);
    let v = read_reg8_spec(start, cb_reg(r));
    let m1 = if cb_reg(r) == RegType::HL {
        start.cycles_spec(2)
    } else {
        start
    };
    lemma_flags_after(m1.cpu, Some(!bit_spec(v, n)), Some(false), Some(true), None);
}

/// The prefixed opcode of `BIT n,r`.
pub open spec fn bit_op(n: u8, r: u8) -> u8 {
    (0x40 + n * 8 + r) as u8
}

/// The prefixed opcode of `SET n,r` if `on`, else of `RES n,r`.
pub open spec fn force_op(n: u8, r: u8, on: bool) -> u8 {
    if on {
        (0xC0 + n * 8 + r) as u8
    } else {
        (0x80 + n * 8 + r) as u8
    }
}

/// SET then BIT on the same bit of the same operand clears Z; RES then BIT
/// sets Z. `n` is the bit and `r` the operand's three-bit field; `on` tells
/// SET from RES.
pub proof fn lemma_set_res_then_bit(m: Machine, n: u8, r: u8, on: bool)
    requires
        n < 8,
        r < 8,
        cb_operand_kept(m, r),
    ensures
        cb_spec(with_cb(cb_spec(with_cb(m, force_op(n, r, on))), bit_op(n, r))).cpu.flag_z_spec()
            == !on,
{
    let start = with_cb(m, force_op(n, r, on));
    let v = read_reg8_spec(start, cb_reg(r));
    lemma_cb_force(m, n, r, on);
    lemma_reg8_kept(start, r, bit_set_spec(v, n, on), bit_op(n, r));
    lemma_cb_bit(cb_spec(start), n, r);
    lemma_bit_set_get(v, n, on);
}

} // verus!
