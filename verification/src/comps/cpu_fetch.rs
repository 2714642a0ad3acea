//! Opcode fetch and the operand fetch of each addressing mode.
use vstd::prelude::*;
use crate::comps::bus::{bus_read, bus_read_spec};
use crate::comps::cpu::{only_interrupts_differ, word, word_spec, CPUContext};
use crate::comps::emu::{machine, retired, EmulatorContext, Machine};
use crate::comps::instructions::{
    inst_by_opcode,
    inst_by_opcode_spec,
    lemma_table_wf,
    AddrMode,
    RegType,
};

verus! {

impl CPUContext {
    /// This CPU with register `rt` holding `val`.
    pub open spec fn with_reg(self, rt: RegType, val: u16) -> CPUContext {
        self.with_registers(self.registers.write(rt, val))
    }

    /// This CPU with the operand latches set.
    pub open spec fn with_operands(self, fetched_data: u16, mem_dest: u16, dest_is_mem: bool)
        -> CPUContext {
        CPUContext { fetched_data, mem_dest, dest_is_mem, ..self }
    }

    /// This CPU with the fetched operand set and no memory destination.
    pub open spec fn with_fetched(self, fetched_data: u16) -> CPUContext {
        self.with_operands(fetched_data, 0, false)
    }
}

/// The address `value` names on the high page.
pub open spec fn high_page_spec(value: u16) -> u16 {
    value | 0xFF00
}

pub fn high_page(value: u16) -> (r: u16)
    ensures
        r == high_page_spec(value),
{
    value | 0xFF00
}

/// The machine after the opcode at PC is latched and decoded and PC has
/// moved past it.
pub open spec fn fetch_instruction_spec(m: Machine) -> Machine {
    let opcode = bus_read_spec(m, m.cpu.registers.pc);
    Machine {
        cpu: CPUContext {
            cur_opcode: opcode,
            cur_inst: inst_by_opcode_spec(opcode),
            ..m.cpu.with_pc(m.cpu.registers.pc.wrapping_add(1))
        },
        ..m
    }
}

/// The byte at PC, and the machine after the machine cycle its fetch takes,
/// with PC moved past it.
pub open spec fn imm8_spec(m: Machine) -> (u8, Machine) {
    let after = m.cycles_spec(1);
    (
        bus_read_spec(m, m.cpu.registers.pc),
        Machine { cpu: after.cpu.with_pc(after.cpu.registers.pc.wrapping_add(1)), ..after },
    )
}

/// The word at PC, low byte first, and the machine after the two machine
/// cycles its fetch takes, with PC moved past it.
pub open spec fn imm16_spec(m: Machine) -> (u16, Machine) {
    let (lo, m1) = imm8_spec(m);
    let (hi, m2) = imm8_spec(m1);
    (word_spec(hi, lo), m2)
}

/// The byte at `address`, and the machine after the machine cycle the read
/// takes.
pub open spec fn load_spec(m: Machine, address: u16) -> (u8, Machine) {
    (bus_read_spec(m, address), m.cycles_spec(1))
}

/// What the operand fetch keeps, beside what `retired` says: the decoded
/// instruction, the flags and the interrupt switches stay, and the
/// destination is marked as memory exactly for the modes that write memory.
pub open spec fn fetched(before: Machine, after: Machine) -> bool {
    &&& retired(before, after, before.cpu.cur_inst.mode.fetch_cycles())
    &&& after.cpu.cur_inst == before.cpu.cur_inst
    &&& after.cpu.cur_opcode == before.cpu.cur_opcode
    &&& after.cpu.dest_is_mem == before.cpu.cur_inst.mode.writes_memory()
    &&& after.cpu.registers.f == before.cpu.registers.f
    &&& after.cpu.halted == before.cpu.halted
    &&& after.cpu.int_master_enabled == before.cpu.int_master_enabled
    &&& after.cpu.enabling_ime == before.cpu.enabling_ime
}

/// The operand fetch of a mode that reads registers only.
#[verifier::opaque]
pub open spec fn fetch_register_spec(m: Machine) -> Machine {
    let inst = m.cpu.cur_inst;
    let regs = m.cpu.registers;
    match inst.mode {
        AddrMode::R => Machine { cpu: m.cpu.with_fetched(regs.read(inst.reg1.unwrap())), ..m },
        AddrMode::RxR => Machine { cpu: m.cpu.with_fetched(regs.read(inst.reg2.unwrap())), ..m },
        AddrMode::MRxR => {
            let dest = regs.read(inst.reg1.unwrap());
            Machine {
                cpu: m.cpu.with_operands(
                    regs.read(inst.reg2.unwrap()),
                    if inst.reg1 == Some(RegType::C) {
                        high_page_spec(dest)
                    } else {
                        dest
                    },
                    true,
                ),
                ..m
            }
        },
        AddrMode::HLIxR | AddrMode::HLDxR => {
            let hl = regs.read(RegType::HL);
            Machine {
                cpu: m.cpu.with_operands(
                    regs.read(inst.reg2.unwrap()),
                    regs.read(inst.reg1.unwrap()),
                    true,
                ).with_reg(
                    RegType::HL,
                    if inst.mode == AddrMode::HLIxR {
                        hl.wrapping_add(1)
                    } else {
                        hl.wrapping_sub(1)
                    },
                ),
                ..m
            }
        },
        _ => m,
    }
}

/// The operand fetch of a mode that reads bytes that follow the opcode.
#[verifier::opaque]
pub open spec fn fetch_immediate_spec(m: Machine) -> Machine {
    let inst = m.cpu.cur_inst;
    match inst.mode {
        AddrMode::RxD8 | AddrMode::RxA8 | AddrMode::HLxSPR | AddrMode::D8 => {
            let (v, n) = imm8_spec(m);
            Machine { cpu: n.cpu.with_fetched(v as u16), ..n }
        },
        AddrMode::D16 | AddrMode::RxD16 => {
            let (v, n) = imm16_spec(m);
            Machine { cpu: n.cpu.with_fetched(v), ..n }
        },
        AddrMode::A8xR => {
            let (v, n) = imm8_spec(m);
            Machine {
                cpu: n.cpu.with_operands(n.cpu.fetched_data, high_page_spec(v as u16), true),
                ..n
            }
        },
        AddrMode::D16xR | AddrMode::A16xR => {
            let (v, n) = imm16_spec(m);
            Machine {
                cpu: n.cpu.with_operands(n.cpu.registers.read(inst.reg2.unwrap()), v, true),
                ..n
            }
        },
        AddrMode::MRxD8 => {
            let (v, n) = imm8_spec(m);
            Machine {
                cpu: n.cpu.with_operands(v as u16, n.cpu.registers.read(inst.reg1.unwrap()), true),
                ..n
            }
        },
        _ => {
            let (address, n) = imm16_spec(m);
            let (v, k) = load_spec(n, address);
            Machine { cpu: k.cpu.with_fetched(v as u16), ..k }
        },
    }
}

/// The operand fetch of a mode that reads the byte a register points to.
/// Register C as a pointer names an address on the high page; the HL+ and
/// HL- modes step HL after the read.
#[verifier::opaque]
pub open spec fn fetch_indirect_spec(m: Machine) -> Machine {
    let inst = m.cpu.cur_inst;
    let regs = m.cpu.registers;
    match inst.mode {
        AddrMode::RxMR => {
            let source = regs.read(inst.reg2.unwrap());
            let (v, n) = load_spec(
                m,
                if inst.reg2 == Some(RegType::C) {
                    high_page_spec(source)
                } else {
                    source
                },
            );
            Machine { cpu: n.cpu.with_fetched(v as u16), ..n }
        },
        AddrMode::RxHLI | AddrMode::RxHLD => {
            let (v, n) = load_spec(m, regs.read(inst.reg2.unwrap()));
            let hl = n.cpu.registers.read(RegType::HL);
            Machine {
                cpu: n.cpu.with_fetched(v as u16).with_reg(
                    RegType::HL,
                    if inst.mode == AddrMode::RxHLI {
                        hl.wrapping_add(1)
                    } else {
                        hl.wrapping_sub(1)
                    },
                ),
                ..n
            }
        },
        _ => {
            let address = regs.read(inst.reg1.unwrap());
            let (v, n) = load_spec(m, address);
            Machine { cpu: n.cpu.with_operands(v as u16, address, true), ..n }
        },
    }
}

/// The machine after the operands of the current instruction are fetched:
/// `fetched_data` holds the source operand, and where the destination is
/// memory `mem_dest` holds its address. Each read of memory takes a machine
/// cycle.
#[verifier::opaque]
pub open spec fn fetch_data_spec(start: Machine) -> Machine {
    let m = Machine { cpu: start.cpu.with_operands(start.cpu.fetched_data, 0, false), ..start };
    if m.cpu.cur_inst.mode.reads_indirect() {
        fetch_indirect_spec(m)
    } else if m.cpu.cur_inst.mode.reads_immediate() {
        fetch_immediate_spec(m)
    } else {
        fetch_register_spec(m)
    }
}

impl CPUContext {
    pub fn fetch_instruction(&mut self, emu: &EmulatorContext)
        requires
            emu.wf(),
        ensures
            machine(final(self), emu) == fetch_instruction_spec(machine(old(self), emu)),
            final(self).cur_inst.wf(),
    {
        self.cur_opcode = bus_read(self, emu, self.registers.pc);
        self.registers.pc = self.registers.pc.wrapping_add(1);
        self.cur_inst = inst_by_opcode(self.cur_opcode);
        proof {
            lemma_table_wf(self.cur_opcode);
        }
    }

    /// Reads the byte at PC, which takes a machine cycle, and moves PC past
    /// it.
    pub fn fetch_imm8(&mut self, emu: &mut EmulatorContext) -> (r: u8)
        requires
            old(emu).wf(),
        ensures
            (r, machine(final(self), final(emu))) == imm8_spec(machine(old(self), old(emu))),
            retired(machine(old(self), old(emu)), machine(final(self), final(emu)), 1),
            only_interrupts_differ(old(self).with_pc(final(self).registers.pc), *final(self)),
    {
        let value: u8 = bus_read(self, emu, self.registers.pc);
        emu.cycles(self, 1);
        self.registers.pc = self.registers.pc.wrapping_add(1);
        value
    }

    /// Reads the word at PC, low byte first, which takes two machine
    /// cycles, and moves PC past it.
    pub fn fetch_imm16(&mut self, emu: &mut EmulatorContext) -> (r: u16)
        requires
            old(emu).wf(),
        ensures
            (r, machine(final(self), final(emu))) == imm16_spec(machine(old(self), old(emu))),
            retired(machine(old(self), old(emu)), machine(final(self), final(emu)), 2),
            only_interrupts_differ(old(self).with_pc(final(self).registers.pc), *final(self)),
    {
        let lo: u8 = self.fetch_imm8(emu);
        let hi: u8 = self.fetch_imm8(emu);
        word(hi, lo)
    }

    /// Reads the byte at `address`, which takes a machine cycle.
    pub fn load(&mut self, emu: &mut EmulatorContext, address: u16) -> (r: u8)
        requires
            old(emu).wf(),
        ensures
            (r, machine(final(self), final(emu))) == load_spec(machine(old(self), old(emu)), address),
            retired(machine(old(self), old(emu)), machine(final(self), final(emu)), 1),
            only_interrupts_differ(*old(self), *final(self)),
    {
        let value: u8 = bus_read(self, emu, address);
        emu.cycles(self, 1);
        value
    }

    /// Fetches the operands of a mode that reads an immediate.
    fn fetch_immediate(&mut self, emu: &mut EmulatorContext)
        requires
            old(emu).wf(),
            old(self).cur_inst.wf(),
            old(self).cur_inst.mode.reads_immediate(),
            old(self).mem_dest == 0,
            !old(self).dest_is_mem,
        ensures
            machine(final(self), final(emu)) == fetch_immediate_spec(machine(old(self), old(emu))),
            fetched(machine(old(self), old(emu)), machine(final(self), final(emu))),
    {
        proof {
            reveal(fetch_immediate_spec);
        }
        let inst = self.cur_inst;
        match inst.mode {
            AddrMode::RxD8 | AddrMode::RxA8 | AddrMode::HLxSPR | AddrMode::D8 => {
                self.fetched_data = self.fetch_imm8(emu) as u16;
            },
            AddrMode::D16 | AddrMode::RxD16 => {
                self.fetched_data = self.fetch_imm16(emu);
            },
            AddrMode::A8xR => {
                let value: u8 = self.fetch_imm8(emu);
                self.mem_dest = high_page(value as u16);
                self.dest_is_mem = true;
            },
            AddrMode::D16xR | AddrMode::A16xR => {
                self.mem_dest = self.fetch_imm16(emu);
                self.dest_is_mem = true;
                self.fetched_data = self.read_reg(inst.reg2);
            },
            AddrMode::MRxD8 => {
                self.fetched_data = self.fetch_imm8(emu) as u16;
                self.mem_dest = self.read_reg(inst.reg1);
                self.dest_is_mem = true;
            },
            _ => {
                let addr: u16 = self.fetch_imm16(emu);
                self.fetched_data = self.load(emu, addr) as u16;
            },
        }
    }

    /// Fetches the operands of a mode that reads memory through a register.
    fn fetch_indirect(&mut self, emu: &mut EmulatorContext)
        requires
            old(emu).wf(),
            old(self).cur_inst.wf(),
            old(self).cur_inst.mode.reads_indirect(),
            old(self).mem_dest == 0,
            !old(self).dest_is_mem,
        ensures
            machine(final(self), final(emu)) == fetch_indirect_spec(machine(old(self), old(emu))),
            fetched(machine(old(self), old(emu)), machine(final(self), final(emu))),
    {
        proof {
            reveal(fetch_indirect_spec);
        }
        let inst = self.cur_inst;
        match inst.mode {
            AddrMode::RxMR => {
                let mut addr: u16 = self.read_reg(inst.reg2);
                if inst.reg2 == Some(RegType::C) {
                    addr = high_page(addr);
                }
                self.fetched_data = self.load(emu, addr) as u16;
            },
            AddrMode::RxHLI | AddrMode::RxHLD => {
                let address: u16 = self.read_reg(inst.reg2);
                self.fetched_data = self.load(emu, address) as u16;
                let hl: u16 = self.read_reg(Some(RegType::HL));
                if inst.mode == AddrMode::RxHLI {
                    self.set_reg(Some(RegType::HL), hl.wrapping_add(1));
                } else {
                    self.set_reg(Some(RegType::HL), hl.wrapping_sub(1));
                }
            },
            _ => {
                let address: u16 = self.read_reg(inst.reg1);
                self.fetched_data = self.load(emu, address) as u16;
                self.mem_dest = address;
                self.dest_is_mem = true;
            },
        }
    }

    /// Fetches the operands of a mode that reads registers only.
    fn fetch_register(&mut self, emu: &EmulatorContext)
        requires
            emu.wf(),
            old(self).cur_inst.wf(),
            !old(self).cur_inst.mode.reads_immediate(),
            !old(self).cur_inst.mode.reads_indirect(),
            old(self).mem_dest == 0,
            !old(self).dest_is_mem,
        ensures
            machine(final(self), emu) == fetch_register_spec(machine(old(self), emu)),
            fetched(machine(old(self), emu), machine(final(self), emu)),
    {
        proof {
            reveal(fetch_register_spec);
        }
        let inst = self.cur_inst;
        match inst.mode {
            AddrMode::R => {
                self.fetched_data = self.read_reg(inst.reg1);
            },
            AddrMode::RxR => {
                self.fetched_data = self.read_reg(inst.reg2);
            },
            AddrMode::MRxR => {
                self.fetched_data = self.read_reg(inst.reg2);
                self.mem_dest = self.read_reg(inst.reg1);
                self.dest_is_mem = true;
                if inst.reg1 == Some(RegType::C) {
                    self.mem_dest = high_page(self.mem_dest);
                }
            },
            AddrMode::HLIxR | AddrMode::HLDxR => {
                self.fetched_data = self.read_reg(inst.reg2);
                self.mem_dest = self.read_reg(inst.reg1);
                self.dest_is_mem = true;
                let hl: u16 = self.read_reg(Some(RegType::HL));
                if inst.mode == AddrMode::HLIxR {
                    self.set_reg(Some(RegType::HL), hl.wrapping_add(1));
                } else {
                    self.set_reg(Some(RegType::HL), hl.wrapping_sub(1));
                }
            },
            _ => {},
        }
    }

    pub fn fetch_data(&mut self, emu: &mut EmulatorContext)
        requires
            old(emu).wf(),
            old(self).cur_inst.wf(),
        ensures
            machine(final(self), final(emu)) == fetch_data_spec(machine(old(self), old(emu))),
            fetched(machine(old(self), old(emu)), machine(final(self), final(emu))),
    {
        proof {
            reveal(fetch_data_spec);
        }
        self.mem_dest = 0;
        self.dest_is_mem = false;
        match self.cur_inst.mode {
            AddrMode::RxMR | AddrMode::RxHLI | AddrMode::RxHLD | AddrMode::MR => {
                self.fetch_indirect(emu);
            },
            AddrMode::IMP | AddrMode::R | AddrMode::RxR | AddrMode::MRxR | AddrMode::HLIxR
            | AddrMode::HLDxR => {
                self.fetch_register(emu);
            },
            _ => {
                self.fetch_immediate(emu);
            },
        }
    }
}

} // verus!
