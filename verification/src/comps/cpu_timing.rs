//! How long each instruction takes.
use vstd::prelude::*;
use crate::comps::cpu::CPUContext;
use crate::comps::cpu_proc::{check_cond_spec, decoded, operand};
use crate::comps::cpu_step::{exec_cycles, fetched_spec, next_opcode};
use crate::comps::emu::Machine;
use crate::comps::instructions::inst_by_opcode_spec;

verus! {

/// The machine cycles that the instruction with base opcode `opcode` takes
/// according to the CPU's documentation. `taken` tells whether a
/// conditional jump, call or return is taken, and `operand` is the second
/// byte of a prefixed instruction. An opcode the CPU does not define takes
/// none.
pub open spec fn documented_cycles(opcode: u8, operand: u8, taken: bool) -> nat {
    match opcode {
        0x00 => 1,
        0x01 => 3,
        0x02 => 2,
        0x03 => 2,
        0x04 => 1,
        0x05 => 1,
        0x06 => 2,
        0x07 => 1,
        0x08 => 5,
        0x09 => 2,
        0x0A => 2,
        0x0B => 2,
        0x0C => 1,
        0x0D => 1,
        0x0E => 2,
        0x0F => 1,
        0x10 => 1,
        0x11 => 3,
        0x12 => 2,
        0x13 => 2,
        0x14 => 1,
        0x15 => 1,
        0x16 => 2,
        0x17 => 1,
        0x18 => 3,
        0x19 => 2,
        0x1A => 2,
        0x1B => 2,
        0x1C => 1,
        0x1D => 1,
        0x1E => 2,
        0x1F => 1,
        0x20 => if taken {
            3
        } else {
            2
        },
        0x21 => 3,
        0x22 => 2,
        0x23 => 2,
        0x24 => 1,
        0x25 => 1,
        0x26 => 2,
        0x27 => 1,
        0x28 => if taken {
            3
        } else {
            2
        },
        0x29 => 2,
        0x2A => 2,
        0x2B => 2,
        0x2C => 1,
        0x2D => 1,
        0x2E => 2,
        0x2F => 1,
        0x30 => if taken {
            3
        } else {
            2
        },
        0x31 => 3,
        0x32 => 2,
        0x33 => 2,
        0x34 => 3,
        0x35 => 3,
        0x36 => 3,
        0x37 => 1,
        0x38 => if taken {
            3
        } else {
            2
        },
        0x39 => 2,
        0x3A => 2,
        0x3B => 2,
        0x3C => 1,
        0x3D => 1,
        0x3E => 2,
        0x3F => 1,
        0x40 => 1,
        0x41 => 1,
        0x42 => 1,
        0x43 => 1,
        0x44 => 1,
        0x45 => 1,
        0x46 => 2,
        0x47 => 1,
        0x48 => 1,
        0x49 => 1,
        0x4A => 1,
        0x4B => 1,
        0x4C => 1,
        0x4D => 1,
        0x4E => 2,
        0x4F => 1,
        0x50 => 1,
        0x51 => 1,
        0x52 => 1,
        0x53 => 1,
        0x54 => 1,
        0x55 => 1,
        0x56 => 2,
        0x57 => 1,
        0x58 => 1,
        0x59 => 1,
        0x5A => 1,
        0x5B => 1,
        0x5C => 1,
        0x5D => 1,
        0x5E => 2,
        0x5F => 1,
        0x60 => 1,
        0x61 => 1,
        0x62 => 1,
        0x63 => 1,
        0x64 => 1,
        0x65 => 1,
        0x66 => 2,
        0x67 => 1,
        0x68 => 1,
        0x69 => 1,
        0x6A => 1,
        0x6B => 1,
        0x6C => 1,
        0x6D => 1,
        0x6E => 2,
        0x6F => 1,
        0x70 => 2,
        0x71 => 2,
        0x72 => 2,
        0x73 => 2,
        0x74 => 2,
        0x75 => 2,
        0x76 => 1,
        0x77 => 2,
        0x78 => 1,
        0x79 => 1,
        0x7A => 1,
        0x7B => 1,
        0x7C => 1,
        0x7D => 1,
        0x7E => 2,
        0x7F => 1,
        0x80 => 1,
        0x81 => 1,
        0x82 => 1,
        0x83 => 1,
        0x84 => 1,
        0x85 => 1,
        0x86 => 2,
        0x87 => 1,
        0x88 => 1,
        0x89 => 1,
        0x8A => 1,
        0x8B => 1,
        0x8C => 1,
        0x8D => 1,
        0x8E => 2,
        0x8F => 1,
        0x90 => 1,
        0x91 => 1,
        0x92 => 1,
        0x93 => 1,
        0x94 => 1,
        0x95 => 1,
        0x96 => 2,
        0x97 => 1,
        0x98 => 1,
        0x99 => 1,
        0x9A => 1,
        0x9B => 1,
        0x9C => 1,
        0x9D => 1,
        0x9E => 2,
        0x9F => 1,
        0xA0 => 1,
        0xA1 => 1,
        0xA2 => 1,
        0xA3 => 1,
        0xA4 => 1,
        0xA5 => 1,
        0xA6 => 2,
        0xA7 => 1,
        0xA8 => 1,
        0xA9 => 1,
        0xAA => 1,
        0xAB => 1,
        0xAC => 1,
        0xAD => 1,
        0xAE => 2,
        0xAF => 1,
        0xB0 => 1,
        0xB1 => 1,
        0xB2 => 1,
        0xB3 => 1,
        0xB4 => 1,
        0xB5 => 1,
        0xB6 => 2,
        0xB7 => 1,
        0xB8 => 1,
        0xB9 => 1,
        0xBA => 1,
        0xBB => 1,
        0xBC => 1,
        0xBD => 1,
        0xBE => 2,
        0xBF => 1,
        0xC0 => if taken {
            5
        } else {
            2
        },
        0xC1 => 3,
        0xC2 => if taken {
            4
        } else {
            3
        },
        0xC3 => 4,
        0xC4 => if taken {
            6
        } else {
            3
        },
        0xC5 => 4,
        0xC6 => 2,
        0xC7 => 4,
        0xC8 => if taken {
            5
        } else {
            2
        },
        0xC9 => 4,
        0xCA => if taken {
            4
        } else {
            3
        },
        0xCB => if operand % 8 != 6 {
            2
        } else if operand / 64 == 1 {
            3
        } else {
            4
        },
        0xCC => if taken {
            6
        } else {
            3
        },
        0xCD => 6,
        0xCE => 2,
        0xCF => 4,
        0xD0 => if taken {
            5
        } else {
            2
        },
        0xD1 => 3,
        0xD2 => if taken {
            4
        } else {
            3
        },
        0xD4 => if taken {
            6
        } else {
            3
        },
        0xD5 => 4,
        0xD6 => 2,
        0xD7 => 4,
        0xD8 => if taken {
            5
        } else {
            2
        },
        0xD9 => 4,
        0xDA => if taken {
            4
        } else {
            3
        },
        0xDC => if taken {
            6
        } else {
            3
        },
        0xDE => 2,
        0xDF => 4,
        0xE0 => 3,
        0xE1 => 3,
        0xE2 => 2,
        0xE5 => 4,
        0xE6 => 2,
        0xE7 => 4,
        0xE8 => 4,
        0xE9 => 1,
        0xEA => 4,
        0xEE => 2,
        0xEF => 4,
        0xF0 => 3,
        0xF1 => 3,
        0xF2 => 2,
        0xF3 => 1,
        0xF5 => 4,
        0xF6 => 2,
        0xF7 => 4,
        0xF8 => 3,
        0xF9 => 2,
        0xFA => 4,
        0xFB => 1,
        0xFE => 2,
        0xFF => 4,
        _ => 0,
    }
}

/// Whether the instruction is one whose timing follows the documentation:
/// every one the CPU can carry out but `JP HL`, which spends a machine
/// cycle on its jump like every other jump, and `BIT n,(HL)`, which spends
/// two machine cycles on its operand like every other prefixed operation
/// on (HL).
pub open spec fn follows_documentation(opcode: u8, operand: u8) -> bool {
    &&& inst_by_opcode_spec(opcode).executable()
    &&& opcode != 0xE9
    &&& !(opcode == 0xCB && operand % 8 == 6 && operand / 64 == 1)
}

/// Whether the instruction that `m` runs next is one whose timing follows
/// the documentation.
pub open spec fn next_follows_documentation(m: Machine) -> bool {
    !m.cpu.halted && follows_documentation(next_opcode(m), operand(fetched_spec(m).cpu))
}

/// The machine cycles that the instruction that `m` runs next takes
/// according to the documentation.
pub open spec fn next_documented_cycles(m: Machine) -> nat {
    documented_cycles(
        next_opcode(m),
        operand(fetched_spec(m).cpu),
        check_cond_spec(fetched_spec(m).cpu),
    )
}

/// The machine cycles an instruction takes, one for its opcode and then
/// those of its operand fetch and of its operation, are the documented
/// ones.
pub proof fn lemma_documented_cycles(cpu: CPUContext)
    requires
        cpu.cur_inst == inst_by_opcode_spec(cpu.cur_opcode),
        decoded(cpu),
        follows_documentation(cpu.cur_opcode, operand(cpu)),
    ensures
        1 + cpu.cur_inst.mode.fetch_cycles() + exec_cycles(cpu) == documented_cycles(
            cpu.cur_opcode,
            operand(cpu),
            check_cond_spec(cpu),
        ),
{
    match cpu.cur_opcode {
        0x00 => {},
        0x01 => {},
        0x02 => {},
        0x03 => {},
        0x04 => {},
        0x05 => {},
        0x06 => {},
        0x07 => {},
        0x08 => {},
        0x09 => {},
        0x0A => {},
        0x0B => {},
        0x0C => {},
        0x0D => {},
        0x0E => {},
        0x0F => {},
        0x10 => {},
        0x11 => {},
        0x12 => {},
        0x13 => {},
        0x14 => {},
        0x15 => {},
        0x16 => {},
        0x17 => {},
        0x18 => {},
        0x19 => {},
        0x1A => {},
        0x1B => {},
        0x1C => {},
        0x1D => {},
        0x1E => {},
        0x1F => {},
        0x20 => {},
        0x21 => {},
        0x22 => {},
        0x23 => {},
        0x24 => {},
        0x25 => {},
        0x26 => {},
        0x27 => {},
        0x28 => {},
        0x29 => {},
        0x2A => {},
        0x2B => {},
        0x2C => {},
        0x2D => {},
        0x2E => {},
        0x2F => {},
        0x30 => {},
        0x31 => {},
        0x32 => {},
        0x33 => {},
        0x34 => {},
        0x35 => {},
        0x36 => {},
        0x37 => {},
        0x38 => {},
        0x39 => {},
        0x3A => {},
        0x3B => {},
        0x3C => {},
        0x3D => {},
        0x3E => {},
        0x3F => {},
        0x40 => {},
        0x41 => {},
        0x42 => {},
        0x43 => {},
        0x44 => {},
        0x45 => {},
        0x46 => {},
        0x47 => {},
        0x48 => {},
        0x49 => {},
        0x4A => {},
        0x4B => {},
        0x4C => {},
        0x4D => {},
        0x4E => {},
        0x4F => {},
        0x50 => {},
        0x51 => {},
        0x52 => {},
        0x53 => {},
        0x54 => {},
        0x55 => {},
        0x56 => {},
        0x57 => {},
        0x58 => {},
        0x59 => {},
        0x5A => {},
        0x5B => {},
        0x5C => {},
        0x5D => {},
        0x5E => {},
        0x5F => {},
        0x60 => {},
        0x61 => {},
        0x62 => {},
        0x63 => {},
        0x64 => {},
        0x65 => {},
        0x66 => {},
        0x67 => {},
        0x68 => {},
        0x69 => {},
        0x6A => {},
        0x6B => {},
        0x6C => {},
        0x6D => {},
        0x6E => {},
        0x6F => {},
        0x70 => {},
        0x71 => {},
        0x72 => {},
        0x73 => {},
        0x74 => {},
        0x75 => {},
        0x76 => {},
        0x77 => {},
        0x78 => {},
        0x79 => {},
        0x7A => {},
        0x7B => {},
        0x7C => {},
        0x7D => {},
        0x7E => {},
        0x7F => {},
        0x80 => {},
        0x81 => {},
        0x82 => {},
        0x83 => {},
        0x84 => {},
        0x85 => {},
        0x86 => {},
        0x87 => {},
        0x88 => {},
        0x89 => {},
        0x8A => {},
        0x8B => {},
        0x8C => {},
        0x8D => {},
        0x8E => {},
        0x8F => {},
        0x90 => {},
        0x91 => {},
        0x92 => {},
        0x93 => {},
        0x94 => {},
        0x95 => {},
        0x96 => {},
        0x97 => {},
        0x98 => {},
        0x99 => {},
        0x9A => {},
        0x9B => {},
        0x9C => {},
        0x9D => {},
        0x9E => {},
        0x9F => {},
        0xA0 => {},
        0xA1 => {},
        0xA2 => {},
        0xA3 => {},
        0xA4 => {},
        0xA5 => {},
        0xA6 => {},
        0xA7 => {},
        0xA8 => {},
        0xA9 => {},
        0xAA => {},
        0xAB => {},
        0xAC => {},
        0xAD => {},
        0xAE => {},
        0xAF => {},
        0xB0 => {},
        0xB1 => {},
        0xB2 => {},
        0xB3 => {},
        0xB4 => {},
        0xB5 => {},
        0xB6 => {},
        0xB7 => {},
        0xB8 => {},
        0xB9 => {},
        0xBA => {},
        0xBB => {},
        0xBC => {},
        0xBD => {},
        0xBE => {},
        0xBF => {},
        0xC0 => {},
        0xC1 => {},
        0xC2 => {},
        0xC3 => {},
        0xC4 => {},
        0xC5 => {},
        0xC6 => {},
        0xC7 => {},
        0xC8 => {},
        0xC9 => {},
        0xCA => {},
        0xCB => {},
        0xCC => {},
        0xCD => {},
        0xCE => {},
        0xCF => {},
        0xD0 => {},
        0xD1 => {},
        0xD2 => {},
        0xD3 => {},
        0xD4 => {},
        0xD5 => {},
        0xD6 => {},
        0xD7 => {},
        0xD8 => {},
        0xD9 => {},
        0xDA => {},
        0xDB => {},
        0xDC => {},
        0xDD => {},
        0xDE => {},
        0xDF => {},
        0xE0 => {},
        0xE1 => {},
        0xE2 => {},
        0xE3 => {},
        0xE4 => {},
        0xE5 => {},
        0xE6 => {},
        0xE7 => {},
        0xE8 => {},
        0xE9 => {},
        0xEA => {},
        0xEB => {},
        0xEC => {},
        0xED => {},
        0xEE => {},
        0xEF => {},
        0xF0 => {},
        0xF1 => {},
        0xF2 => {},
        0xF3 => {},
        0xF4 => {},
        0xF5 => {},
        0xF6 => {},
        0xF7 => {},
        0xF8 => {},
        0xF9 => {},
        0xFA => {},
        0xFB => {},
        0xFC => {},
        0xFD => {},
        0xFE => {},
        _ => {},
    }
}

} // verus!
