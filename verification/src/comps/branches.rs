//! Theorems about the fetch and about jumps, calls and returns, stated of
//! the machine as it stands before the instruction.
use vstd::prelude::*;
use crate::comps::bus::{bus_read_spec, lemma_write_keeps_cpu, ram_address};
use crate::comps::cpu::{hi_spec, lo_spec, only_interrupts_differ, word_spec, CPUContext, Registers};
use crate::comps::cpu_fetch::{
    fetch_data_spec,
    fetch_immediate_spec,
    fetch_indirect_spec,
    fetch_instruction_spec,
    fetch_register_spec,
    imm16_spec,
    imm8_spec,
};
use crate::comps::cpu_proc::{
    check_cond_spec,
    decoded,
    goto_spec,
    operand,
    relative_spec,
    ret_spec,
    return_spec,
};
use crate::comps::cpu_step::{
    execute_spec,
    fetched_spec,
    interrupt_stage_cycles,
    next_opcode,
    run_cycles,
    run_spec,
    step_cycles_spec,
};
use crate::comps::cpu_timing::{
    lemma_documented_cycles,
    next_documented_cycles,
    next_follows_documentation,
};
use crate::comps::emu::{lemma_cycles_frame, Machine};
use crate::comps::instructions::{
    inst_by_opcode_spec,
    lemma_table_wf,
    AddrMode,
    CondType,
    InstType,
    Instruction,
};
use crate::comps::stack::{stack_push16_spec, stack_push_spec};
use crate::comps::theorems::{
    lemma_cycles_keep_ram,
    lemma_push_byte,
    lemma_ram_read_stable,
    stack_in_ram,
};

verus! {

/// Whether `after` has the cartridge, the work and high RAM, the video RAM
/// and the serial bytes of `before`.
pub open spec fn memory_kept(before: Machine, after: Machine) -> bool {
    &&& after.emu.cart == before.emu.cart
    &&& after.emu.ram == before.emu.ram
    &&& after.emu.ppu.vram == before.emu.ppu.vram
    &&& after.emu.serial_data == before.emu.serial_data
}

/// Whether `after` is `before` but for the pending interrupts, the operand
/// latches, PC, and HL.
pub open spec fn control_kept(before: CPUContext, after: CPUContext) -> bool {
    after == (CPUContext {
        int_flags: after.int_flags,
        fetched_data: after.fetched_data,
        mem_dest: after.mem_dest,
        dest_is_mem: after.dest_is_mem,
        registers: Registers {
            pc: after.registers.pc,
            h: after.registers.h,
            l: after.registers.l,
            ..before.registers
        },
        ..before
    })
}

/// What the operand fetch does to the machine beside latching the operands:
/// PC moves past the operand bytes, HL changes only in the modes that step
/// it, the destination is marked as memory exactly for the modes that write
/// memory, and the rest of the CPU but the pending interrupts, and the
/// memories, stay.
pub open spec fn fetch_kept(before: Machine, after: Machine) -> bool {
    let mode = before.cpu.cur_inst.mode;
    &&& control_kept(before.cpu, after.cpu)
    &&& after.cpu.registers.pc == add16(before.cpu.registers.pc, mode.operand_bytes())
    &&& !mode.steps_hl() ==> after.cpu.registers.h == before.cpu.registers.h
        && after.cpu.registers.l == before.cpu.registers.l
    &&& after.cpu.dest_is_mem == mode.writes_memory()
    &&& memory_kept(before, after)
}

/// The address `k` bytes after `address`, around the end of the address
/// space.
pub open spec fn add16(address: u16, k: int) -> u16 {
    ((address + k) % 0x10000) as u16
}

proof fn lemma_imm8(m: Machine)
    ensures
        only_interrupts_differ(m.cpu.with_pc(add16(m.cpu.registers.pc, 1)), imm8_spec(m).1.cpu),
        memory_kept(m, imm8_spec(m).1),
{
    lemma_cycles_frame(m, 1);
}

proof fn lemma_imm16(m: Machine)
    ensures
        only_interrupts_differ(m.cpu.with_pc(add16(m.cpu.registers.pc, 2)), imm16_spec(m).1.cpu),
        memory_kept(m, imm16_spec(m).1),
{
    lemma_imm8(m);
    lemma_imm8(imm8_spec(m).1);
}

proof fn lemma_fetch_register(m: Machine)
    requires
        m.cpu.cur_inst.wf(),
        !m.cpu.cur_inst.mode.reads_immediate(),
        !m.cpu.cur_inst.mode.reads_indirect(),
        m.cpu.mem_dest == 0,
        !m.cpu.dest_is_mem,
    ensures
        fetch_kept(m, fetch_register_spec(m)),
{
    reveal(fetch_register_spec);
}

proof fn lemma_fetch_immediate(m: Machine)
    requires
        m.cpu.cur_inst.wf(),
        m.cpu.cur_inst.mode.reads_immediate(),
        m.cpu.mem_dest == 0,
        !m.cpu.dest_is_mem,
    ensures
        fetch_kept(m, fetch_immediate_spec(m)),
{
    reveal(fetch_immediate_spec);
    lemma_imm8(m);
    lemma_imm16(m);
    lemma_cycles_frame(imm16_spec(m).1, 1);
}

proof fn lemma_fetch_indirect(m: Machine)
    requires
        m.cpu.cur_inst.wf(),
        m.cpu.cur_inst.mode.reads_indirect(),
        m.cpu.mem_dest == 0,
        !m.cpu.dest_is_mem,
    ensures
        fetch_kept(m, fetch_indirect_spec(m)),
{
    reveal(fetch_indirect_spec);
    lemma_cycles_frame(m, 1);
}

/// The operand fetch of a well-formed instruction keeps what `fetch_kept`
/// names.
pub proof fn lemma_fetch_data(m: Machine)
    requires
        m.cpu.cur_inst.wf(),
    ensures
        fetch_kept(m, fetch_data_spec(m)),
{
    reveal(fetch_data_spec);
    let cleared = Machine { cpu: m.cpu.with_operands(m.cpu.fetched_data, 0, false), ..m };
    if m.cpu.cur_inst.mode.reads_indirect() {
        lemma_fetch_indirect(cleared);
    } else if m.cpu.cur_inst.mode.reads_immediate() {
        lemma_fetch_immediate(cleared);
    } else {
        lemma_fetch_register(cleared);
    }
}

/// The instruction that `m` runs next, as the opcode table gives it.
pub open spec fn next_inst(m: Machine) -> Instruction {
    inst_by_opcode_spec(next_opcode(m))
}

/// The machine as the operation of the next instruction finds it: the
/// instruction at PC is decoded, PC stands behind its last byte, and but for
/// the operand latches, the pending interrupts and a stepped HL the CPU and
/// the memories are as before.
pub proof fn lemma_fetched(m: Machine)
    ensures
        fetched_spec(m).cpu.cur_inst == next_inst(m),
        fetched_spec(m).cpu.cur_opcode == next_opcode(m),
        decoded(fetched_spec(m).cpu),
        control_kept(
            CPUContext { cur_inst: next_inst(m), cur_opcode: next_opcode(m), ..m.cpu },
            fetched_spec(m).cpu,
        ),
        fetched_spec(m).cpu.registers.pc == add16(
            m.cpu.registers.pc,
            1 + next_inst(m).mode.operand_bytes(),
        ),
        !next_inst(m).mode.steps_hl() ==> fetched_spec(m).cpu.registers.h == m.cpu.registers.h
            && fetched_spec(m).cpu.registers.l == m.cpu.registers.l,
        memory_kept(m, fetched_spec(m)),
{
    lemma_table_wf(next_opcode(m));
    let decoded_m = fetch_instruction_spec(m);
    lemma_cycles_frame(decoded_m, 1);
    lemma_fetch_data(decoded_m.cycles_spec(1));
}

/// But for `JP HL` and `BIT n,(HL)`, the instruction at PC takes the
/// machine cycles that the documentation gives it.
pub proof fn lemma_run_cycles(m: Machine)
    requires
        next_follows_documentation(m),
    ensures
        run_cycles(m) == next_documented_cycles(m),
{
    lemma_fetched(m);
    lemma_documented_cycles(fetched_spec(m).cpu);
}

/// A step of a halted CPU takes one machine cycle, and five more exactly
/// when interrupts are enabled and one that is pending and enabled after
/// that cycle is serviced; with interrupts disabled it takes the one.
pub proof fn lemma_halted_step(m: Machine)
    requires
        m.cpu.halted,
    ensures
        run_cycles(m) == 1,
        step_cycles_spec(m) == 1 + interrupt_stage_cycles(run_spec(m)),
        run_spec(m).cpu.registers == m.cpu.registers,
        run_spec(m).cpu.int_master_enabled == m.cpu.int_master_enabled,
        !m.cpu.int_master_enabled ==> step_cycles_spec(m) == 1,
{
    reveal(run_spec);
    lemma_cycles_frame(m, 1);
}

/// Whether `inst` is a relative jump, an absolute jump to an address that
/// follows the opcode, a call or a return.
pub open spec fn is_branch(inst: Instruction) -> bool {
    ||| inst.inst_type == InstType::JR && inst.mode == AddrMode::D8
    ||| inst.inst_type == InstType::JP && inst.mode == AddrMode::D16
    ||| inst.inst_type == InstType::CALL && inst.mode == AddrMode::D16
    ||| inst.inst_type == InstType::RET && inst.mode == AddrMode::IMP
}

/// Whether the condition of the next instruction holds of the flags as they
/// stand before it; an instruction without a condition always has it hold.
pub open spec fn branch_taken(m: Machine) -> bool {
    check_cond_spec(CPUContext { cur_inst: next_inst(m), ..m.cpu })
}

/// The register file with another PC and SP.
pub open spec fn moved(regs: Registers, pc: u16, sp: u16) -> Registers {
    Registers { pc, sp, ..regs }
}

/// A jump that is taken sets PC to its target and changes no other
/// register and no memory.
proof fn lemma_jump(m: Machine, address: u16)
    requires
        check_cond_spec(m.cpu),
    ensures
        goto_spec(m, address, false).cpu.registers == moved(
            m.cpu.registers,
            address,
            m.cpu.registers.sp,
        ),
        memory_kept(m, goto_spec(m, address, false)),
{
    reveal(goto_spec);
    lemma_cycles_frame(Machine { cpu: m.cpu.with_pc(address), ..m }, 1);
}

/// A call that is taken sets PC to its target and moves SP down by two;
/// with the stack in RAM, the two bytes above the new SP hold the PC the
/// call was carried out at, low byte first.
proof fn lemma_call(m: Machine, address: u16)
    requires
        check_cond_spec(m.cpu),
    ensures
        goto_spec(m, address, true).cpu.registers == moved(
            m.cpu.registers,
            address,
            m.cpu.registers.sp.wrapping_sub(2),
        ),
        stack_in_ram(m.cpu.registers.sp) ==> bus_read_spec(
            goto_spec(m, address, true),
            m.cpu.registers.sp.wrapping_sub(2),
        ) == lo_spec(m.cpu.registers.pc) && bus_read_spec(
            goto_spec(m, address, true),
            m.cpu.registers.sp.wrapping_sub(1),
        ) == hi_spec(m.cpu.registers.pc),
{
    reveal(goto_spec);
    let pc = m.cpu.registers.pc;
    let sp = m.cpu.registers.sp;
    let a1 = sp.wrapping_sub(1);
    let a2 = sp.wrapping_sub(2);
    let m1 = m.cycles_spec(2);
    lemma_cycles_frame(m, 2);
    let m2 = stack_push_spec(m1, hi_spec(pc));
    lemma_write_keeps_cpu(Machine { cpu: m1.cpu.with_sp(a1), ..m1 }, a1, hi_spec(pc));
    let m3 = stack_push_spec(m2, lo_spec(pc));
    lemma_write_keeps_cpu(Machine { cpu: m2.cpu.with_sp(a2), ..m2 }, a2, lo_spec(pc));
    assert(m3 == stack_push16_spec(m1, pc));
    let jumped = Machine { cpu: m3.cpu.with_pc(address), ..m3 };
    lemma_cycles_frame(jumped, 1);
    if stack_in_ram(sp) {
        lemma_push_byte(m1, hi_spec(pc), a2);
        lemma_push_byte(m2, lo_spec(pc), a1);
        lemma_ram_read_stable(jumped, m3, a1);
        lemma_ram_read_stable(jumped, m3, a2);
        lemma_cycles_keep_ram(jumped, 1, a1);
        lemma_cycles_keep_ram(jumped, 1, a2);
    }
}

/// A return moves SP up by two and changes no other register but PC and no
/// memory; with the two bytes at SP in RAM, PC is the word they hold, low
/// byte first.
proof fn lemma_return(m: Machine)
    ensures
        return_spec(m).cpu.registers == moved(
            m.cpu.registers,
            return_spec(m).cpu.registers.pc,
            m.cpu.registers.sp.wrapping_add(2),
        ),
        memory_kept(m, return_spec(m)),
        ram_address(m.cpu.registers.sp) && ram_address(m.cpu.registers.sp.wrapping_add(1))
            ==> return_spec(m).cpu.registers.pc == word_spec(
            bus_read_spec(m, m.cpu.registers.sp.wrapping_add(1)),
            bus_read_spec(m, m.cpu.registers.sp),
        ),
{
    reveal(return_spec);
    let sp = m.cpu.registers.sp;
    let up = Machine { cpu: m.cpu.with_sp(sp.wrapping_add(1)), ..m };
    let m1 = up.cycles_spec(1);
    lemma_cycles_frame(up, 1);
    let up2 = Machine { cpu: m1.cpu.with_sp(m1.cpu.registers.sp.wrapping_add(1)), ..m1 };
    let m2 = up2.cycles_spec(1);
    lemma_cycles_frame(up2, 1);
    let hi = bus_read_spec(m1, m1.cpu.registers.sp);
    let lo = bus_read_spec(m, sp);
    let back = Machine { cpu: m2.cpu.with_pc(word_spec(hi, lo)), ..m2 };
    lemma_cycles_frame(back, 1);
    if ram_address(sp.wrapping_add(1)) {
        lemma_cycles_keep_ram(up, 1, sp.wrapping_add(1));
        lemma_ram_read_stable(up, m, sp.wrapping_add(1));
    }
}

/// A jump, call or return whose condition fails: PC stands behind the
/// instruction, every other register and the memories are as before, and
/// the machine cycles are 2 for JR, 3 for JP, 3 for CALL and 2 for RET.
pub proof fn lemma_branch_not_taken(m: Machine)
    requires
        !m.cpu.halted,
        is_branch(next_inst(m)),
        !branch_taken(m),
    ensures
        run_spec(m).cpu.registers == moved(
            m.cpu.registers,
            add16(m.cpu.registers.pc, 1 + next_inst(m).mode.operand_bytes()),
            m.cpu.registers.sp,
        ),
        memory_kept(m, run_spec(m)),
        run_cycles(m) == match next_inst(m).inst_type {
            InstType::JR => 2nat,
            InstType::JP => 3nat,
            InstType::CALL => 3nat,
            _ => 2nat,
        },
{
    lemma_fetched(m);
    let f = fetched_spec(m);
    assert(check_cond_spec(f.cpu) == branch_taken(m));
    reveal(run_spec);
    reveal(execute_spec);
    reveal(goto_spec);
    reveal(ret_spec);
    lemma_cycles_frame(f, 1);
}

/// A jump, call or return whose condition holds, or that has none. JR sets
/// PC to the address behind the instruction plus its signed operand byte,
/// JP and CALL to their operand word. CALL moves SP down by two and, with
/// the stack in RAM, leaves the address behind the instruction on it. RET
/// moves SP up by two and, with the two bytes at SP in RAM, sets PC to the
/// word they held. No other register changes. The machine cycles are 3 for
/// JR, 4 for JP, 6 for CALL, 5 for a conditional RET and 4 for RET.
pub proof fn lemma_branch_taken(m: Machine)
    requires
        !m.cpu.halted,
        is_branch(next_inst(m)),
        branch_taken(m),
    ensures
        ({
            let inst = next_inst(m);
            let pc = m.cpu.registers.pc;
            let sp = m.cpu.registers.sp;
            let after = run_spec(m).cpu.registers;
            let operand_word = fetched_spec(m).cpu.fetched_data;
            &&& inst.inst_type == InstType::JR ==> {
                &&& after == moved(
                    m.cpu.registers,
                    relative_spec(add16(pc, 2), operand(fetched_spec(m).cpu)),
                    sp,
                )
                &&& run_cycles(m) == 3
            }
            &&& inst.inst_type == InstType::JP ==> {
                &&& after == moved(m.cpu.registers, operand_word, sp)
                &&& run_cycles(m) == 4
            }
            &&& inst.inst_type == InstType::CALL ==> {
                &&& after == moved(m.cpu.registers, operand_word, sp.wrapping_sub(2))
                &&& run_cycles(m) == 6
                &&& stack_in_ram(sp) ==> {
                    &&& bus_read_spec(run_spec(m), sp.wrapping_sub(2)) == lo_spec(add16(pc, 3))
                    &&& bus_read_spec(run_spec(m), sp.wrapping_sub(1)) == hi_spec(add16(pc, 3))
                }
            }
            &&& inst.inst_type == InstType::RET ==> {
                &&& after == moved(m.cpu.registers, after.pc, sp.wrapping_add(2))
                &&& run_cycles(m) == if inst.cond == CondType::NONE {
                    4nat
                } else {
                    5nat
                }
                &&& ram_address(sp) && ram_address(sp.wrapping_add(1)) ==> after.pc == word_spec(
                    bus_read_spec(m, sp.wrapping_add(1)),
                    bus_read_spec(m, sp),
                )
            }
            &&& inst.inst_type != InstType::CALL ==> memory_kept(m, run_spec(m))
        }),
{
    lemma_fetched(m);
    let f = fetched_spec(m);
    let inst = next_inst(m);
    assert(check_cond_spec(f.cpu) == branch_taken(m));
    reveal(run_spec);
    reveal(execute_spec);
    if inst.inst_type == InstType::JR {
        lemma_jump(f, relative_spec(f.cpu.registers.pc, operand(f.cpu)));
    } else if inst.inst_type == InstType::JP {
        lemma_jump(f, f.cpu.fetched_data);
    } else if inst.inst_type == InstType::CALL {
        lemma_call(f, f.cpu.fetched_data);
    } else {
        reveal(ret_spec);
        let waited = if inst.cond != CondType::NONE {
            f.cycles_spec(1)
        } else {
            f
        };
        lemma_cycles_frame(f, 1);
        lemma_return(waited);
        let sp = m.cpu.registers.sp;
        if ram_address(sp) && ram_address(sp.wrapping_add(1)) {
            lemma_ram_read_stable(waited, m, sp);
            lemma_ram_read_stable(waited, m, sp.wrapping_add(1));
        }
    }
}

} // verus!
