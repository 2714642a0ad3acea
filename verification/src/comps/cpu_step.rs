//! One step of the CPU: fetch, decode, execute, then interrupts.
use vstd::prelude::*;
use crate::comps::bus::{bus_read, bus_read_spec};
use crate::comps::cpu::CPUContext;
use crate::comps::cpu_cb::{cb_cycles, cb_spec, proc_cb};
use crate::comps::cpu_fetch::{fetch_data_spec, fetch_instruction_spec, fetched};
use crate::comps::cpu_proc::{
    adc_spec,
    add_cycles,
    add_spec,
    and_spec,
    ccf_spec,
    cp_spec,
    cpl_spec,
    daa_spec,
    dec_spec,
    decoded,
    di_spec,
    ei_spec,
    goto_cycles,
    goto_spec,
    halt_spec,
    inc_spec,
    ld_cycles,
    ld_spec,
    ldh_spec,
    operand,
    or_spec,
    pop_spec,
    proc_adc,
    proc_add,
    proc_and,
    proc_call,
    proc_ccf,
    proc_cp,
    proc_cpl,
    proc_daa,
    proc_dec,
    proc_di,
    proc_ei,
    proc_halt,
    proc_inc,
    proc_jp,
    proc_jr,
    proc_ld,
    proc_ldh,
    proc_nop,
    proc_or,
    proc_pop,
    proc_push,
    proc_ret,
    proc_reti,
    proc_rla,
    proc_rlca,
    proc_rra,
    proc_rrca,
    proc_rst,
    proc_sbc,
    proc_scf,
    proc_sub,
    proc_xor,
    push_spec,
    relative_spec,
    ret_cycles,
    ret_spec,
    reti_spec,
    rla_spec,
    rlca_spec,
    rra_spec,
    rrca_spec,
    sbc_spec,
    scf_spec,
    inc_dec_cycles,
    sub_spec,
    xor_spec,
};
use crate::comps::cpu_timing::{
    lemma_documented_cycles,
    next_documented_cycles,
    next_follows_documentation,
};
use crate::comps::emu::{lemma_ticks_add, machine, retired, ticks_after, EmulatorContext, Machine};
use crate::comps::instructions::{inst_by_opcode, inst_by_opcode_spec, InstType};
use crate::comps::interrupts::{handle_interrupts, handle_interrupts_spec, interrupt_cycles};

verus! {

/// The machine cycles the current instruction spends beyond its fetches.
pub open spec fn exec_cycles(cpu: CPUContext) -> nat {
    match cpu.cur_inst.inst_type {
        InstType::LD => ld_cycles(cpu),
        InstType::INC | InstType::DEC => inc_dec_cycles(cpu),
        InstType::ADD => add_cycles(cpu),
        InstType::JR | InstType::JP => goto_cycles(cpu, false),
        InstType::CALL | InstType::RST => goto_cycles(cpu, true),
        InstType::RET | InstType::RETI => ret_cycles(cpu),
        InstType::PUSH => 3,
        InstType::POP => 2,
        InstType::LDH => 1,
        InstType::CB => cb_cycles(cpu),
        _ => 0,
    }
}

/// The machine after the current instruction, whose operands have been
/// fetched, is carried out.
#[verifier::opaque]
pub open spec fn execute_spec(m: Machine) -> Machine {
    match m.cpu.cur_inst.inst_type {
        InstType::LD => ld_spec(m),
        InstType::INC => inc_spec(m),
        InstType::DEC => dec_spec(m),
        InstType::RLCA => Machine { cpu: rlca_spec(m.cpu), ..m },
        InstType::ADD => add_spec(m),
        InstType::RRCA => Machine { cpu: rrca_spec(m.cpu), ..m },
        InstType::RLA => Machine { cpu: rla_spec(m.cpu), ..m },
        InstType::JR => goto_spec(m, relative_spec(m.cpu.registers.pc, operand(m.cpu)), false),
        InstType::RRA => Machine { cpu: rra_spec(m.cpu), ..m },
        InstType::DAA => Machine { cpu: daa_spec(m.cpu), ..m },
        InstType::CPL => Machine { cpu: cpl_spec(m.cpu), ..m },
        InstType::SCF => Machine { cpu: scf_spec(m.cpu), ..m },
        InstType::CCF => Machine { cpu: ccf_spec(m.cpu), ..m },
        InstType::HALT => Machine { cpu: halt_spec(m.cpu), ..m },
        InstType::ADC => Machine { cpu: adc_spec(m.cpu), ..m },
        InstType::SUB => Machine { cpu: sub_spec(m.cpu), ..m },
        InstType::SBC => Machine { cpu: sbc_spec(m.cpu), ..m },
        InstType::AND => Machine { cpu: and_spec(m.cpu), ..m },
        InstType::XOR => Machine { cpu: xor_spec(m.cpu), ..m },
        InstType::OR => Machine { cpu: or_spec(m.cpu), ..m },
        InstType::CP => Machine { cpu: cp_spec(m.cpu), ..m },
        InstType::POP => pop_spec(m),
        InstType::JP => goto_spec(m, m.cpu.fetched_data, false),
        InstType::PUSH => push_spec(m),
        InstType::RET => ret_spec(m),
        InstType::CB => cb_spec(m),
        InstType::CALL => goto_spec(m, m.cpu.fetched_data, true),
        InstType::RETI => reti_spec(m),
        InstType::LDH => ldh_spec(m),
        InstType::DI => Machine { cpu: di_spec(m.cpu), ..m },
        InstType::EI => Machine { cpu: ei_spec(m.cpu), ..m },
        InstType::RST => goto_spec(m, m.cpu.cur_inst.param.unwrap() as u16, true),
        _ => m,
    }
}

/// The opcode the CPU fetches next.
pub open spec fn next_opcode(m: Machine) -> u8 {
    bus_read_spec(m, m.cpu.registers.pc)
}

/// Whether the CPU can take its next step: it is halted, or the opcode at
/// PC is one it can carry out.
pub open spec fn can_step_spec(m: Machine) -> bool {
    m.cpu.halted || inst_by_opcode_spec(next_opcode(m)).executable()
}

/// The machine after the opcode fetch, the machine cycle it takes, and the
/// operand fetch.
pub open spec fn fetched_spec(m: Machine) -> Machine {
    fetch_data_spec(fetch_instruction_spec(m).cycles_spec(1))
}

/// The machine after the instruction at PC has run, or after a halted CPU
/// has idled for a machine cycle: a halt ends when any interrupt is pending.
#[verifier::opaque]
pub open spec fn run_spec(m: Machine) -> Machine {
    if !m.cpu.halted {
        execute_spec(fetched_spec(m))
    } else {
        let idle = m.cycles_spec(1);
        if idle.cpu.int_flags != 0 {
            Machine { cpu: CPUContext { halted: false, ..idle.cpu }, ..idle }
        } else {
            idle
        }
    }
}

/// The machine cycles `run_spec` takes: one for a halted CPU; else one for
/// the opcode, those of the operand fetch, and those of the operation.
pub open spec fn run_cycles(m: Machine) -> nat {
    if m.cpu.halted {
        1
    } else {
        1 + fetched_spec(m).cpu.cur_inst.mode.fetch_cycles() + exec_cycles(fetched_spec(m).cpu)
    }
}

/// The machine after the interrupt stage of a step: with interrupts
/// enabled, the next pending one is serviced and a deferred enable is
/// dropped; a deferred enable that is left takes effect.
#[verifier::opaque]
pub open spec fn interrupt_stage_spec(m: Machine) -> Machine {
    let handled = if m.cpu.int_master_enabled {
        let h = handle_interrupts_spec(m);
        Machine { cpu: CPUContext { enabling_ime: false, ..h.cpu }, ..h }
    } else {
        m
    };
    if handled.cpu.enabling_ime {
        Machine { cpu: CPUContext { int_master_enabled: true, ..handled.cpu }, ..handled }
    } else {
        handled
    }
}

/// The machine cycles the interrupt stage takes.
pub open spec fn interrupt_stage_cycles(m: Machine) -> nat {
    if m.cpu.int_master_enabled {
        interrupt_cycles(m.cpu)
    } else {
        0
    }
}

/// The machine one step later.
pub open spec fn step_spec(m: Machine) -> Machine {
    interrupt_stage_spec(run_spec(m))
}

/// The machine cycles a step takes.
pub open spec fn step_cycles_spec(m: Machine) -> nat {
    run_cycles(m) + interrupt_stage_cycles(run_spec(m))
}

/// Carries out an operation of kind `inst_type`, which is that of the
/// current instruction.
pub fn proc_by_inst(inst_type: InstType, cpu: &mut CPUContext, emu: &mut EmulatorContext)
    requires
        old(emu).wf(),
        decoded(*old(cpu)),
        old(cpu).cur_inst.executable(),
        inst_type == old(cpu).cur_inst.inst_type,
    ensures
        machine(final(cpu), final(emu)) == execute_spec(machine(old(cpu), old(emu))),
        retired(machine(old(cpu), old(emu)), machine(final(cpu), final(emu)), exec_cycles(*old(cpu))),
{
    proof {
        reveal(execute_spec);
    }
    match inst_type {
        InstType::NOP => proc_nop(cpu),
        InstType::LD => proc_ld(cpu, emu),
        InstType::INC => proc_inc(cpu, emu),
        InstType::DEC => proc_dec(cpu, emu),
        InstType::RLCA => proc_rlca(cpu),
        InstType::ADD => proc_add(cpu, emu),
        InstType::RRCA => proc_rrca(cpu),
        InstType::RLA => proc_rla(cpu),
        InstType::JR => proc_jr(cpu, emu),
        InstType::RRA => proc_rra(cpu),
        InstType::DAA => proc_daa(cpu),
        InstType::CPL => proc_cpl(cpu),
        InstType::SCF => proc_scf(cpu),
        InstType::CCF => proc_ccf(cpu),
        InstType::HALT => proc_halt(cpu),
        InstType::ADC => proc_adc(cpu),
        InstType::SUB => proc_sub(cpu),
        InstType::SBC => proc_sbc(cpu),
        InstType::AND => proc_and(cpu),
        InstType::XOR => proc_xor(cpu),
        InstType::OR => proc_or(cpu),
        InstType::CP => proc_cp(cpu),
        InstType::POP => proc_pop(cpu, emu),
        InstType::JP => proc_jp(cpu, emu),
        InstType::PUSH => proc_push(cpu, emu),
        InstType::RET => proc_ret(cpu, emu),
        InstType::CB => proc_cb(cpu, emu),
        InstType::CALL => proc_call(cpu, emu),
        InstType::RETI => proc_reti(cpu, emu),
        InstType::LDH => proc_ldh(cpu, emu),
        InstType::DI => proc_di(cpu),
        InstType::EI => proc_ei(cpu),
        InstType::RST => proc_rst(cpu, emu),
        _ => {},
    }
}

impl CPUContext {
    /// Tells whether `step` may be called: the CPU is halted, or the opcode
    /// at PC is one it can carry out.
    pub fn can_step(&self, emu: &EmulatorContext) -> (r: bool)
        requires
            emu.wf(),
        ensures
            r == can_step_spec(machine(self, emu)),
    {
        self.halted || inst_by_opcode(bus_read(self, emu, self.registers.pc)).is_executable()
    }

    /// Carries out the current instruction, whose operands have been
    /// fetched.
    pub fn execute(&mut self, emu: &mut EmulatorContext)
        requires
            old(emu).wf(),
            decoded(*old(self)),
            old(self).cur_inst.executable(),
        ensures
            machine(final(self), final(emu)) == execute_spec(machine(old(self), old(emu))),
            retired(
                machine(old(self), old(emu)),
                machine(final(self), final(emu)),
                exec_cycles(*old(self)),
            ),
    {
        proc_by_inst(self.cur_inst.inst_type, self, emu);
    }

    /// Runs the instruction at PC, or lets a halted CPU idle for a machine
    /// cycle.
    pub fn run(&mut self, emu: &mut EmulatorContext)
        requires
            old(emu).wf(),
            can_step_spec(machine(old(self), old(emu))),
        ensures
            machine(final(self), final(emu)) == run_spec(machine(old(self), old(emu))),
            retired(
                machine(old(self), old(emu)),
                machine(final(self), final(emu)),
                run_cycles(machine(old(self), old(emu))),
            ),
            next_follows_documentation(machine(old(self), old(emu))) ==> run_cycles(
                machine(old(self), old(emu)),
            ) == next_documented_cycles(machine(old(self), old(emu))),
    {
        proof {
            reveal(run_spec);
        }
        if !self.halted {
            self.fetch_instruction(emu);
            emu.cycles(self, 1);
            self.fetch_data(emu);
            let ghost fetch = self.cur_inst.mode.fetch_cycles();
            let ghost exec = exec_cycles(*self);
            proof {
                if next_follows_documentation(machine(old(self), old(emu))) {
                    lemma_documented_cycles(*self);
                }
            }
            self.execute(emu);
            proof {
                lemma_ticks_add(old(emu).ticks, 1, fetch);
                lemma_ticks_add(old(emu).ticks, 1 + fetch, exec);
            }
        } else {
            emu.cycles(self, 1);
            if self.int_flags != 0 {
                self.halted = false;
            }
        }
    }

    /// Services the next pending interrupt if interrupts are enabled, and
    /// lets a deferred enable take effect.
    pub fn interrupt_stage(&mut self, emu: &mut EmulatorContext)
        requires
            old(emu).wf(),
        ensures
            machine(final(self), final(emu)) == interrupt_stage_spec(machine(old(self), old(emu))),
            retired(
                machine(old(self), old(emu)),
                machine(final(self), final(emu)),
                interrupt_stage_cycles(machine(old(self), old(emu))),
            ),
    {
        proof {
            reveal(interrupt_stage_spec);
        }
        if self.int_master_enabled {
            handle_interrupts(self, emu);
            self.enabling_ime = false;
        }
        if self.enabling_ime {
            self.int_master_enabled = true;
        }
    }

    /// Takes one step: an instruction or a halted machine cycle, then the
    /// interrupt stage.
    pub fn step(&mut self, emu: &mut EmulatorContext)
        requires
            old(emu).wf(),
            can_step_spec(machine(old(self), old(emu))),
        ensures
            machine(final(self), final(emu)) == step_spec(machine(old(self), old(emu))),
            retired(
                machine(old(self), old(emu)),
                machine(final(self), final(emu)),
                step_cycles_spec(machine(old(self), old(emu))),
            ),
            old(self).registers.f & 0x0F == 0 ==> final(self).registers.f & 0x0F == 0,
            final(emu).ticks == ticks_after(
                old(emu).ticks,
                step_cycles_spec(machine(old(self), old(emu))),
            ),
            next_follows_documentation(machine(old(self), old(emu))) ==> step_cycles_spec(
                machine(old(self), old(emu)),
            ) == next_documented_cycles(machine(old(self), old(emu))) + interrupt_stage_cycles(
                run_spec(machine(old(self), old(emu))),
            ),
    {
        self.run(emu);
        let ghost stage = interrupt_stage_cycles(machine(self, emu));
        self.interrupt_stage(emu);
        proof {
            lemma_ticks_add(old(emu).ticks, run_cycles(machine(old(self), old(emu))), stage);
        }
    }
}

} // verus!
