//! Instruction descriptors and the table that decodes a base opcode.
#![allow(non_camel_case_types)]
use vstd::prelude::*;

verus! {

/// How an instruction finds its operands.
#[derive(Clone, Copy, PartialEq, Eq, Structural, Debug)]
pub enum AddrMode {
    IMP,
    RxD16,
    RxR,
    MRxR,
    R,
    RxD8,
    RxMR,
    RxHLI,
    RxHLD,
    HLIxR,
    HLDxR,
    RxA8,
    A8xR,
    HLxSPR,
    D16,
    D8,
    D16xR,
    MRxD8,
    MR,
    A16xR,
    RxA16,
}

/// A register operand: the eight byte registers, the four pairs, SP and PC.
#[derive(Clone, Copy, PartialEq, Eq, Structural, Debug)]
pub enum RegType {
    NONE,
    A,
    F,
    B,
    C,
    D,
    E,
    H,
    L,
    AF,
    BC,
    DE,
    HL,
    SP,
    PC,
}

/// The operation an instruction performs.
#[derive(Clone, Copy, PartialEq, Eq, Structural, Debug)]
pub enum InstType {
    NONE,
    NOP,
    LD,
    INC,
    DEC,
    RLCA,
    ADD,
    RRCA,
    STOP,
    RLA,
    JR,
    RRA,
    DAA,
    CPL,
    SCF,
    CCF,
    HALT,
    ADC,
    SUB,
    SBC,
    AND,
    XOR,
    OR,
    CP,
    POP,
    JP,
    PUSH,
    RET,
    CB,
    CALL,
    RETI,
    LDH,
    JPHL,
    DI,
    EI,
    RST,
}

/// The flag test that guards a jump, call or return.
#[derive(Clone, Copy, PartialEq, Eq, Structural, Debug)]
pub enum CondType {
    NONE,
    NZ,
    Z,
    NC,
    C,
}

/// One entry of the opcode table.
#[derive(Clone, Copy, PartialEq, Eq, Structural, Debug)]
pub struct Instruction {
    pub inst_type: InstType,
    pub mode: AddrMode,
    pub reg1: Option<RegType>,
    pub reg2: Option<RegType>,
    pub cond: CondType,
    pub param: Option<u8>,
}

/// Whether `rt` names a register.
pub open spec fn is_reg(rt: Option<RegType>) -> bool {
    rt is Some && rt != Some(RegType::NONE)
}

impl RegType {
    /// Whether this is a register pair, SP or PC.
    pub open spec fn is_16_bit_spec(&self) -> bool {
        self == RegType::AF || self == RegType::BC || self == RegType::DE || self == RegType::HL
            || self == RegType::SP || self == RegType::PC
    }
}

impl AddrMode {
    /// Whether the instruction's destination is a memory address.
    pub open spec fn writes_memory(self) -> bool {
        self == AddrMode::MRxR || self == AddrMode::HLIxR || self == AddrMode::HLDxR || self
            == AddrMode::A8xR || self == AddrMode::D16xR || self == AddrMode::A16xR || self
            == AddrMode::MRxD8 || self == AddrMode::MR
    }

    /// Whether the operand fetch reads bytes that follow the opcode.
    pub open spec fn reads_immediate(self) -> bool {
        self == AddrMode::RxD8 || self == AddrMode::RxA8 || self == AddrMode::HLxSPR || self
            == AddrMode::D8 || self == AddrMode::D16 || self == AddrMode::RxD16 || self
            == AddrMode::A8xR || self == AddrMode::D16xR || self == AddrMode::A16xR || self
            == AddrMode::MRxD8 || self == AddrMode::RxA16
    }

    /// Whether the operand fetch reads the byte a register points to.
    pub open spec fn reads_indirect(self) -> bool {
        self == AddrMode::RxMR || self == AddrMode::RxHLI || self == AddrMode::RxHLD || self
            == AddrMode::MR
    }

    /// How many bytes after the opcode the operand fetch reads, and so how
    /// far it moves PC.
    pub open spec fn operand_bytes(self) -> int {
        match self {
            AddrMode::RxD8 | AddrMode::RxA8 | AddrMode::HLxSPR | AddrMode::D8 | AddrMode::A8xR
            | AddrMode::MRxD8 => 1,
            AddrMode::D16 | AddrMode::RxD16 | AddrMode::D16xR | AddrMode::A16xR
            | AddrMode::RxA16 => 2,
            _ => 0,
        }
    }

    /// Whether the operand fetch steps HL.
    pub open spec fn steps_hl(self) -> bool {
        self == AddrMode::RxHLI || self == AddrMode::RxHLD || self == AddrMode::HLIxR || self
            == AddrMode::HLDxR
    }

    /// The machine cycles spent on fetching the operands.
    pub open spec fn fetch_cycles(self) -> nat {
        match self {
            AddrMode::IMP | AddrMode::R | AddrMode::RxR | AddrMode::MRxR | AddrMode::HLIxR
            | AddrMode::HLDxR => 0,
            AddrMode::D16 | AddrMode::RxD16 | AddrMode::D16xR | AddrMode::A16xR => 2,
            AddrMode::RxA16 => 3,
            _ => 1,
        }
    }
}

impl Instruction {
    /// What the CPU relies on in a descriptor: the registers its addressing
    /// mode and its operation read or write are named, a restart has its
    /// target, and the flag register is a destination only as half of AF in
    /// a push or pop.
    pub open spec fn wf(self) -> bool {
        &&& match self.mode {
            AddrMode::R | AddrMode::MRxD8 | AddrMode::MR => is_reg(self.reg1),
            AddrMode::RxR | AddrMode::RxMR | AddrMode::RxHLI | AddrMode::RxHLD | AddrMode::D16xR
            | AddrMode::A16xR => is_reg(self.reg2),
            AddrMode::MRxR | AddrMode::HLIxR | AddrMode::HLDxR => is_reg(self.reg1) && is_reg(
                self.reg2,
            ),
            _ => true,
        }
        &&& match self.inst_type {
            InstType::LD => (!self.mode.writes_memory() ==> is_reg(self.reg1)) && (self.mode
                == AddrMode::HLxSPR ==> is_reg(self.reg2)),
            InstType::INC | InstType::DEC | InstType::ADD | InstType::SUB | InstType::SBC
            | InstType::POP | InstType::PUSH => is_reg(self.reg1),
            InstType::LDH => self.reg1 is Some ==> is_reg(self.reg1),
            InstType::RST => self.param is Some,
            _ => true,
        }
        &&& self.reg1 != Some(RegType::F)
        &&& self.reg1 == Some(RegType::AF) ==> self.inst_type == InstType::POP || self.inst_type
            == InstType::PUSH
    }

    /// Whether the CPU can carry the instruction out: it is defined, and it
    /// is not one that stops the machine.
    pub open spec fn executable(&self) -> bool {
        self.inst_type != InstType::NONE && self.inst_type != InstType::STOP && self.inst_type
            != InstType::JPHL
    }
}

/// The descriptor of base opcode `opcode`. The eleven opcodes the CPU does
/// not define decode to `InstType::NONE`.
pub open spec fn inst_by_opcode_spec(opcode: u8) -> Instruction {
    match opcode {
        0x00 => Instruction { inst_type: InstType::NOP, mode: AddrMode::IMP, reg1: None, reg2: None, cond: CondType::NONE, param: None },
        0x01 => Instruction { inst_type: InstType::LD, mode: AddrMode::RxD16, reg1: Some(RegType::BC), reg2: None, cond: CondType::NONE, param: None },
        0x02 => Instruction { inst_type: InstType::LD, mode: AddrMode::MRxR, reg1: Some(RegType::BC), reg2: Some(RegType::A), cond: CondType::NONE, param: None },
        0x03 => Instruction { inst_type: InstType::INC, mode: AddrMode::R, reg1: Some(RegType::BC), reg2: None, cond: CondType::NONE, param: None },
        0x04 => Instruction { inst_type: InstType::INC, mode: AddrMode::R, reg1: Some(RegType::B), reg2: None, cond: CondType::NONE, param: None },
        0x05 => Instruction { inst_type: InstType::DEC, mode: AddrMode::R, reg1: Some(RegType::B), reg2: None, cond: CondType::NONE, param: None },
        0x06 => Instruction { inst_type: InstType::LD, mode: AddrMode::RxD8, reg1: Some(RegType::B), reg2: None, cond: CondType::NONE, param: None },
        0x07 => Instruction { inst_type: InstType::RLCA, mode: AddrMode::IMP, reg1: None, reg2: None, cond: CondType::NONE, param: None },
        0x08 => Instruction { inst_type: InstType::LD, mode: AddrMode::A16xR, reg1: None, reg2: Some(RegType::SP), cond: CondType::NONE, param: None },
        0x09 => Instruction { inst_type: InstType::ADD, mode: AddrMode::RxR, reg1: Some(RegType::HL), reg2: Some(RegType::BC), cond: CondType::NONE, param: None },
        0x0A => Instruction { inst_type: InstType::LD, mode: AddrMode::RxMR, reg1: Some(RegType::A), reg2: Some(RegType::BC), cond: CondType::NONE, param: None },
        0x0B => Instruction { inst_type: InstType::DEC, mode: AddrMode::R, reg1: Some(RegType::BC), reg2: None, cond: CondType::NONE, param: None },
        0x0C => Instruction { inst_type: InstType::INC, mode: AddrMode::R, reg1: Some(RegType::C), reg2: None, cond: CondType::NONE, param: None },
        0x0D => Instruction { inst_type: InstType::DEC, mode: AddrMode::R, reg1: Some(RegType::C), reg2: None, cond: CondType::NONE, param: None },
        0x0E => Instruction { inst_type: InstType::LD, mode: AddrMode::RxD8, reg1: Some(RegType::C), reg2: None, cond: CondType::NONE, param: None },
        0x0F => Instruction { inst_type: InstType::RRCA, mode: AddrMode::IMP, reg1: None, reg2: None, cond: CondType::NONE, param: None },
        0x10 => Instruction { inst_type: InstType::STOP, mode: AddrMode::IMP, reg1: None, reg2: None, cond: CondType::NONE, param: None },
        0x11 => Instruction { inst_type: InstType::LD, mode: AddrMode::RxD16, reg1: Some(RegType::DE), reg2: None, cond: CondType::NONE, param: None },
        0x12 => Instruction { inst_type: InstType::LD, mode: AddrMode::MRxR, reg1: Some(RegType::DE), reg2: Some(RegType::A), cond: CondType::NONE, param: None },
        0x13 => Instruction { inst_type: InstType::INC, mode: AddrMode::R, reg1: Some(RegType::DE), reg2: None, cond: CondType::NONE, param: None },
        0x14 => Instruction { inst_type: InstType::INC, mode: AddrMode::R, reg1: Some(RegType::D), reg2: None, cond: CondType::NONE, param: None },
        0x15 => Instruction { inst_type: InstType::DEC, mode: AddrMode::R, reg1: Some(RegType::D), reg2: None, cond: CondType::NONE, param: None },
        0x16 => Instruction { inst_type: InstType::LD, mode: AddrMode::RxD8, reg1: Some(RegType::D), reg2: None, cond: CondType::NONE, param: None },
        0x17 => Instruction { inst_type: InstType::RLA, mode: AddrMode::IMP, reg1: None, reg2: None, cond: CondType::NONE, param: None },
        0x18 => Instruction { inst_type: InstType::JR, mode: AddrMode::D8, reg1: None, reg2: None, cond: CondType::NONE, param: None },
        0x19 => Instruction { inst_type: InstType::ADD, mode: AddrMode::RxR, reg1: Some(RegType::HL), reg2: Some(RegType::DE), cond: CondType::NONE, param: None },
        0x1A => Instruction { inst_type: InstType::LD, mode: AddrMode::RxMR, reg1: Some(RegType::A), reg2: Some(RegType::DE), cond: CondType::NONE, param: None },
        0x1B => Instruction { inst_type: InstType::DEC, mode: AddrMode::R, reg1: Some(RegType::DE), reg2: None, cond: CondType::NONE, param: None },
        0x1C => Instruction { inst_type: InstType::INC, mode: AddrMode::R, reg1: Some(RegType::E), reg2: None, cond: CondType::NONE, param: None },
        0x1D => Instruction { inst_type: InstType::DEC, mode: AddrMode::R, reg1: Some(RegType::E), reg2: None, cond: CondType::NONE, param: None },
        0x1E => Instruction { inst_type: InstType::LD, mode: AddrMode::RxD8, reg1: Some(RegType::E), reg2: None, cond: CondType::NONE, param: None },
        0x1F => Instruction { inst_type: InstType::RRA, mode: AddrMode::IMP, reg1: None, reg2: None, cond: CondType::NONE, param: None },
        0x20 => Instruction { inst_type: InstType::JR, mode: AddrMode::D8, reg1: None, reg2: None, cond: CondType::NZ, param: None },
        0x21 => Instruction { inst_type: InstType::LD, mode: AddrMode::RxD16, reg1: Some(RegType::HL), reg2: None, cond: CondType::NONE, param: None },
        0x22 => Instruction { inst_type: InstType::LD, mode: AddrMode::HLIxR, reg1: Some(RegType::HL), reg2: Some(RegType::A), cond: CondType::NONE, param: None },
        0x23 => Instruction { inst_type: InstType::INC, mode: AddrMode::R, reg1: Some(RegType::HL), reg2: None, cond: CondType::NONE, param: None },
        0x24 => Instruction { inst_type: InstType::INC, mode: AddrMode::R, reg1: Some(RegType::H), reg2: None, cond: CondType::NONE, param: None },
        0x25 => Instruction { inst_type: InstType::DEC, mode: AddrMode::R, reg1: Some(RegType::H), reg2: None, cond: CondType::NONE, param: None },
        0x26 => Instruction { inst_type: InstType::LD, mode: AddrMode::RxD8, reg1: Some(RegType::H), reg2: None, cond: CondType::NONE, param: None },
        0x27 => Instruction { inst_type: InstType::DAA, mode: AddrMode::IMP, reg1: None, reg2: None, cond: CondType::NONE, param: None },
        0x28 => Instruction { inst_type: InstType::JR, mode: AddrMode::D8, reg1: None, reg2: None, cond: CondType::Z, param: None },
        0x29 => Instruction { inst_type: InstType::ADD, mode: AddrMode::RxR, reg1: Some(RegType::HL), reg2: Some(RegType::HL), cond: CondType::NONE, param: None },
        0x2A => Instruction { inst_type: InstType::LD, mode: AddrMode::RxHLI, reg1: Some(RegType::A), reg2: Some(RegType::HL), cond: CondType::NONE, param: None },
        0x2B => Instruction { inst_type: InstType::DEC, mode: AddrMode::R, reg1: Some(RegType::HL), reg2: None, cond: CondType::NONE, param: None },
        0x2C => Instruction { inst_type: InstType::INC, mode: AddrMode::R, reg1: Some(RegType::L), reg2: None, cond: CondType::NONE, param: None },
        0x2D => Instruction { inst_type: InstType::DEC, mode: AddrMode::R, reg1: Some(RegType::L), reg2: None, cond: CondType::NONE, param: None },
        0x2E => Instruction { inst_type: InstType::LD, mode: AddrMode::RxD8, reg1: Some(RegType::L), reg2: None, cond: CondType::NONE, param: None },
        0x2F => Instruction { inst_type: InstType::CPL, mode: AddrMode::IMP, reg1: None, reg2: None, cond: CondType::NONE, param: None },
        0x30 => Instruction { inst_type: InstType::JR, mode: AddrMode::D8, reg1: None, reg2: None, cond: CondType::NC, param: None },
        0x31 => Instruction { inst_type: InstType::LD, mode: AddrMode::RxD16, reg1: Some(RegType::SP), reg2: None, cond: CondType::NONE, param: None },
        0x32 => Instruction { inst_type: InstType::LD, mode: AddrMode::HLDxR, reg1: Some(RegType::HL), reg2: Some(RegType::A), cond: CondType::NONE, param: None },
        0x33 => Instruction { inst_type: InstType::INC, mode: AddrMode::R, reg1: Some(RegType::SP), reg2: None, cond: CondType::NONE, param: None },
        0x34 => Instruction { inst_type: InstType::INC, mode: AddrMode::MR, reg1: Some(RegType::HL), reg2: None, cond: CondType::NONE, param: None },
        0x35 => Instruction { inst_type: InstType::DEC, mode: AddrMode::MR, reg1: Some(RegType::HL), reg2: None, cond: CondType::NONE, param: None },
        0x36 => Instruction { inst_type: InstType::LD, mode: AddrMode::MRxD8, reg1: Some(RegType::HL), reg2: None, cond: CondType::NONE, param: None },
        0x37 => Instruction { inst_type: InstType::SCF, mode: AddrMode::IMP, reg1: None, reg2: None, cond: CondType::NONE, param: None },
        0x38 => Instruction { inst_type: InstType::JR, mode: AddrMode::D8, reg1: None, reg2: None, cond: CondType::C, param: None },
        0x39 => Instruction { inst_type: InstType::ADD, mode: AddrMode::RxR, reg1: Some(RegType::HL), reg2: Some(RegType::SP), cond: CondType::NONE, param: None },
        0x3A => Instruction { inst_type: InstType::LD, mode: AddrMode::RxHLD, reg1: Some(RegType::A), reg2: Some(RegType::HL), cond: CondType::NONE, param: None },
        0x3B => Instruction { inst_type: InstType::DEC, mode: AddrMode::R, reg1: Some(RegType::SP), reg2: None, cond: CondType::NONE, param: None },
        0x3C => Instruction { inst_type: InstType::INC, mode: AddrMode::R, reg1: Some(RegType::A), reg2: None, cond: CondType::NONE, param: None },
        0x3D => Instruction { inst_type: InstType::DEC, mode: AddrMode::R, reg1: Some(RegType::A), reg2: None, cond: CondType::NONE, param: None },
        0x3E => Instruction { inst_type: InstType::LD, mode: AddrMode::RxD8, reg1: Some(RegType::A), reg2: None, cond: CondType::NONE, param: None },
        0x3F => Instruction { inst_type: InstType::CCF, mode: AddrMode::IMP, reg1: None, reg2: None, cond: CondType::NONE, param: None },
        0x40 => Instruction { inst_type: InstType::LD, mode: AddrMode::RxR, reg1: Some(RegType::B), reg2: Some(RegType::B), cond: CondType::NONE, param: None },
        0x41 => Instruction { inst_type: InstType::LD, mode: AddrMode::RxR, reg1: Some(RegType::B), reg2: Some(RegType::C), cond: CondType::NONE, param: None },
        0x42 => Instruction { inst_type: InstType::LD, mode: AddrMode::RxR, reg1: Some(RegType::B), reg2: Some(RegType::D), cond: CondType::NONE, param: None },
        0x43 => Instruction { inst_type: InstType::LD, mode: AddrMode::RxR, reg1: Some(RegType::B), reg2: Some(RegType::E), cond: CondType::NONE, param: None },
        0x44 => Instruction { inst_type: InstType::LD, mode: AddrMode::RxR, reg1: Some(RegType::B), reg2: Some(RegType::H), cond: CondType::NONE, param: None },
        0x45 => Instruction { inst_type: InstType::LD, mode: AddrMode::RxR, reg1: Some(RegType::B), reg2: Some(RegType::L), cond: CondType::NONE, param: None },
        0x46 => Instruction { inst_type: InstType::LD, mode: AddrMode::RxMR, reg1: Some(RegType::B), reg2: Some(RegType::HL), cond: CondType::NONE, param: None },
        0x47 => Instruction { inst_type: InstType::LD, mode: AddrMode::RxR, reg1: Some(RegType::B), reg2: Some(RegType::A), cond: CondType::NONE, param: None },
        0x48 => Instruction { inst_type: InstType::LD, mode: AddrMode::RxR, reg1: Some(RegType::C), reg2: Some(RegType::B), cond: CondType::NONE, param: None },
        0x49 => Instruction { inst_type: InstType::LD, mode: AddrMode::RxR, reg1: Some(RegType::C), reg2: Some(RegType::C), cond: CondType::NONE, param: None },
        0x4A => Instruction { inst_type: InstType::LD, mode: AddrMode::RxR, reg1: Some(RegType::C), reg2: Some(RegType::D), cond: CondType::NONE, param: None },
        0x4B => Instruction { inst_type: InstType::LD, mode: AddrMode::RxR, reg1: Some(RegType::C), reg2: Some(RegType::E), cond: CondType::NONE, param: None },
        0x4C => Instruction { inst_type: InstType::LD, mode: AddrMode::RxR, reg1: Some(RegType::C), reg2: Some(RegType::H), cond: CondType::NONE, param: None },
        0x4D => Instruction { inst_type: InstType::LD, mode: AddrMode::RxR, reg1: Some(RegType::C), reg2: Some(RegType::L), cond: CondType::NONE, param: None },
        0x4E => Instruction { inst_type: InstType::LD, mode: AddrMode::RxMR, reg1: Some(RegType::C), reg2: Some(RegType::HL), cond: CondType::NONE, param: None },
        0x4F => Instruction { inst_type: InstType::LD, mode: AddrMode::RxR, reg1: Some(RegType::C), reg2: Some(RegType::A), cond: CondType::NONE, param: None },
        0x50 => Instruction { inst_type: InstType::LD, mode: AddrMode::RxR, reg1: Some(RegType::D), reg2: Some(RegType::B), cond: CondType::NONE, param: None },
        0x51 => Instruction { inst_type: InstType::LD, mode: AddrMode::RxR, reg1: Some(RegType::D), reg2: Some(RegType::C), cond: CondType::NONE, param: None },
        0x52 => Instruction { inst_type: InstType::LD, mode: AddrMode::RxR, reg1: Some(RegType::D), reg2: Some(RegType::D), cond: CondType::NONE, param: None },
        0x53 => Instruction { inst_type: InstType::LD, mode: AddrMode::RxR, reg1: Some(RegType::D), reg2: Some(RegType::E), cond: CondType::NONE, param: None },
        0x54 => Instruction { inst_type: InstType::LD, mode: AddrMode::RxR, reg1: Some(RegType::D), reg2: Some(RegType::H), cond: CondType::NONE, param: None },
        0x55 => Instruction { inst_type: InstType::LD, mode: AddrMode::RxR, reg1: Some(RegType::D), reg2: Some(RegType::L), cond: CondType::NONE, param: None },
        0x56 => Instruction { inst_type: InstType::LD, mode: AddrMode::RxMR, reg1: Some(RegType::D), reg2: Some(RegType::HL), cond: CondType::NONE, param: None },
        0x57 => Instruction { inst_type: InstType::LD, mode: AddrMode::RxR, reg1: Some(RegType::D), reg2: Some(RegType::A), cond: CondType::NONE, param: None },
        0x58 => Instruction { inst_type: InstType::LD, mode: AddrMode::RxR, reg1: Some(RegType::E), reg2: Some(RegType::B), cond: CondType::NONE, param: None },
        0x59 => Instruction { inst_type: InstType::LD, mode: AddrMode::RxR, reg1: Some(RegType::E), reg2: Some(RegType::C), cond: CondType::NONE, param: None },
        0x5A => Instruction { inst_type: InstType::LD, mode: AddrMode::RxR, reg1: Some(RegType::E), reg2: Some(RegType::D), cond: CondType::NONE, param: None },
        0x5B => Instruction { inst_type: InstType::LD, mode: AddrMode::RxR, reg1: Some(RegType::E), reg2: Some(RegType::E), cond: CondType::NONE, param: None },
        0x5C => Instruction { inst_type: InstType::LD, mode: AddrMode::RxR, reg1: Some(RegType::E), reg2: Some(RegType::H), cond: CondType::NONE, param: None },
        0x5D => Instruction { inst_type: InstType::LD, mode: AddrMode::RxR, reg1: Some(RegType::E), reg2: Some(RegType::L), cond: CondType::NONE, param: None },
        0x5E => Instruction { inst_type: InstType::LD, mode: AddrMode::RxMR, reg1: Some(RegType::E), reg2: Some(RegType::HL), cond: CondType::NONE, param: None },
        0x5F => Instruction { inst_type: InstType::LD, mode: AddrMode::RxR, reg1: Some(RegType::E), reg2: Some(RegType::A), cond: CondType::NONE, param: None },
        0x60 => Instruction { inst_type: InstType::LD, mode: AddrMode::RxR, reg1: Some(RegType::H), reg2: Some(RegType::B), cond: CondType::NONE, param: None },
        0x61 => Instruction { inst_type: InstType::LD, mode: AddrMode::RxR, reg1: Some(RegType::H), reg2: Some(RegType::C), cond: CondType::NONE, param: None },
        0x62 => Instruction { inst_type: InstType::LD, mode: AddrMode::RxR, reg1: Some(RegType::H), reg2: Some(RegType::D), cond: CondType::NONE, param: None },
        0x63 => Instruction { inst_type: InstType::LD, mode: AddrMode::RxR, reg1: Some(RegType::H), reg2: Some(RegType::E), cond: CondType::NONE, param: None },
        0x64 => Instruction { inst_type: InstType::LD, mode: AddrMode::RxR, reg1: Some(RegType::H), reg2: Some(RegType::H), cond: CondType::NONE, param: None },
        0x65 => Instruction { inst_type: InstType::LD, mode: AddrMode::RxR, reg1: Some(RegType::H), reg2: Some(RegType::L), cond: CondType::NONE, param: None },
        0x66 => Instruction { inst_type: InstType::LD, mode: AddrMode::RxMR, reg1: Some(RegType::H), reg2: Some(RegType::HL), cond: CondType::NONE, param: None },
        0x67 => Instruction { inst_type: InstType::LD, mode: AddrMode::RxR, reg1: Some(RegType::H), reg2: Some(RegType::A), cond: CondType::NONE, param: None },
        0x68 => Instruction { inst_type: InstType::LD, mode: AddrMode::RxR, reg1: Some(RegType::L), reg2: Some(RegType::B), cond: CondType::NONE, param: None },
        0x69 => Instruction { inst_type: InstType::LD, mode: AddrMode::RxR, reg1: Some(RegType::L), reg2: Some(RegType::C), cond: CondType::NONE, param: None },
        0x6A => Instruction { inst_type: InstType::LD, mode: AddrMode::RxR, reg1: Some(RegType::L), reg2: Some(RegType::D), cond: CondType::NONE, param: None },
        0x6B => Instruction { inst_type: InstType::LD, mode: AddrMode::RxR, reg1: Some(RegType::L), reg2: Some(RegType::E), cond: CondType::NONE, param: None },
        0x6C => Instruction { inst_type: InstType::LD, mode: AddrMode::RxR, reg1: Some(RegType::L), reg2: Some(RegType::H), cond: CondType::NONE, param: None },
        0x6D => Instruction { inst_type: InstType::LD, mode: AddrMode::RxR, reg1: Some(RegType::L), reg2: Some(RegType::L), cond: CondType::NONE, param: None },
        0x6E => Instruction { inst_type: InstType::LD, mode: AddrMode::RxMR, reg1: Some(RegType::L), reg2: Some(RegType::HL), cond: CondType::NONE, param: None },
        0x6F => Instruction { inst_type: InstType::LD, mode: AddrMode::RxR, reg1: Some(RegType::L), reg2: Some(RegType::A), cond: CondType::NONE, param: None },
        0x70 => Instruction { inst_type: InstType::LD, mode: AddrMode::MRxR, reg1: Some(RegType::HL), reg2: Some(RegType::B), cond: CondType::NONE, param: None },
        0x71 => Instruction { inst_type: InstType::LD, mode: AddrMode::MRxR, reg1: Some(RegType::HL), reg2: Some(RegType::C), cond: CondType::NONE, param: None },
        0x72 => Instruction { inst_type: InstType::LD, mode: AddrMode::MRxR, reg1: Some(RegType::HL), reg2: Some(RegType::D), cond: CondType::NONE, param: None },
        0x73 => Instruction { inst_type: InstType::LD, mode: AddrMode::MRxR, reg1: Some(RegType::HL), reg2: Some(RegType::E), cond: CondType::NONE, param: None },
        0x74 => Instruction { inst_type: InstType::LD, mode: AddrMode::MRxR, reg1: Some(RegType::HL), reg2: Some(RegType::H), cond: CondType::NONE, param: None },
        0x75 => Instruction { inst_type: InstType::LD, mode: AddrMode::MRxR, reg1: Some(RegType::HL), reg2: Some(RegType::L), cond: CondType::NONE, param: None },
        0x76 => Instruction { inst_type: InstType::HALT, mode: AddrMode::IMP, reg1: None, reg2: None, cond: CondType::NONE, param: None },
        0x77 => Instruction { inst_type: InstType::LD, mode: AddrMode::MRxR, reg1: Some(RegType::HL), reg2: Some(RegType::A), cond: CondType::NONE, param: None },
        0x78 => Instruction { inst_type: InstType::LD, mode: AddrMode::RxR, reg1: Some(RegType::A), reg2: Some(RegType::B), cond: CondType::NONE, param: None },
        0x79 => Instruction { inst_type: InstType::LD, mode: AddrMode::RxR, reg1: Some(RegType::A), reg2: Some(RegType::C), cond: CondType::NONE, param: None },
        0x7A => Instruction { inst_type: InstType::LD, mode: AddrMode::RxR, reg1: Some(RegType::A), reg2: Some(RegType::D), cond: CondType::NONE, param: None },
        0x7B => Instruction { inst_type: InstType::LD, mode: AddrMode::RxR, reg1: Some(RegType::A), reg2: Some(RegType::E), cond: CondType::NONE, param: None },
        0x7C => Instruction { inst_type: InstType::LD, mode: AddrMode::RxR, reg1: Some(RegType::A), reg2: Some(RegType::H), cond: CondType::NONE, param: None },
        0x7D => Instruction { inst_type: InstType::LD, mode: AddrMode::RxR, reg1: Some(RegType::A), reg2: Some(RegType::L), cond: CondType::NONE, param: None },
        0x7E => Instruction { inst_type: InstType::LD, mode: AddrMode::RxMR, reg1: Some(RegType::A), reg2: Some(RegType::HL), cond: CondType::NONE, param: None },
        0x7F => Instruction { inst_type: InstType::LD, mode: AddrMode::RxR, reg1: Some(RegType::A), reg2: Some(RegType::A), cond: CondType::NONE, param: None },
        0x80 => Instruction { inst_type: InstType::ADD, mode: AddrMode::RxR, reg1: Some(RegType::A), reg2: Some(RegType::B), cond: CondType::NONE, param: None },
        0x81 => Instruction { inst_type: InstType::ADD, mode: AddrMode::RxR, reg1: Some(RegType::A), reg2: Some(RegType::C), cond: CondType::NONE, param: None },
        0x82 => Instruction { inst_type: InstType::ADD, mode: AddrMode::RxR, reg1: Some(RegType::A), reg2: Some(RegType::D), cond: CondType::NONE, param: None },
        0x83 => Instruction { inst_type: InstType::ADD, mode: AddrMode::RxR, reg1: Some(RegType::A), reg2: Some(RegType::E), cond: CondType::NONE, param: None },
        0x84 => Instruction { inst_type: InstType::ADD, mode: AddrMode::RxR, reg1: Some(RegType::A), reg2: Some(RegType::H), cond: CondType::NONE, param: None },
        0x85 => Instruction { inst_type: InstType::ADD, mode: AddrMode::RxR, reg1: Some(RegType::A), reg2: Some(RegType::L), cond: CondType::NONE, param: None },
        0x86 => Instruction { inst_type: InstType::ADD, mode: AddrMode::RxMR, reg1: Some(RegType::A), reg2: Some(RegType::HL), cond: CondType::NONE, param: None },
        0x87 => Instruction { inst_type: InstType::ADD, mode: AddrMode::RxR, reg1: Some(RegType::A), reg2: Some(RegType::A), cond: CondType::NONE, param: None },
        0x88 => Instruction { inst_type: InstType::ADC, mode: AddrMode::RxR, reg1: Some(RegType::A), reg2: Some(RegType::B), cond: CondType::NONE, param: None },
        0x89 => Instruction { inst_type: InstType::ADC, mode: AddrMode::RxR, reg1: Some(RegType::A), reg2: Some(RegType::C), cond: CondType::NONE, param: None },
        0x8A => Instruction { inst_type: InstType::ADC, mode: AddrMode::RxR, reg1: Some(RegType::A), reg2: Some(RegType::D), cond: CondType::NONE, param: None },
        0x8B => Instruction { inst_type: InstType::ADC, mode: AddrMode::RxR, reg1: Some(RegType::A), reg2: Some(RegType::E), cond: CondType::NONE, param: None },
        0x8C => Instruction { inst_type: InstType::ADC, mode: AddrMode::RxR, reg1: Some(RegType::A), reg2: Some(RegType::H), cond: CondType::NONE, param: None },
        0x8D => Instruction { inst_type: InstType::ADC, mode: AddrMode::RxR, reg1: Some(RegType::A), reg2: Some(RegType::L), cond: CondType::NONE, param: None },
        0x8E => Instruction { inst_type: InstType::ADC, mode: AddrMode::RxMR, reg1: Some(RegType::A), reg2: Some(RegType::HL), cond: CondType::NONE, param: None },
        0x8F => Instruction { inst_type: InstType::ADC, mode: AddrMode::RxR, reg1: Some(RegType::A), reg2: Some(RegType::A), cond: CondType::NONE, param: None },
        0x90 => Instruction { inst_type: InstType::SUB, mode: AddrMode::RxR, reg1: Some(RegType::A), reg2: Some(RegType::B), cond: CondType::NONE, param: None },
        0x91 => Instruction { inst_type: InstType::SUB, mode: AddrMode::RxR, reg1: Some(RegType::A), reg2: Some(RegType::C), cond: CondType::NONE, param: None },
        0x92 => Instruction { inst_type: InstType::SUB, mode: AddrMode::RxR, reg1: Some(RegType::A), reg2: Some(RegType::D), cond: CondType::NONE, param: None },
        0x93 => Instruction { inst_type: InstType::SUB, mode: AddrMode::RxR, reg1: Some(RegType::A), reg2: Some(RegType::E), cond: CondType::NONE, param: None },
        0x94 => Instruction { inst_type: InstType::SUB, mode: AddrMode::RxR, reg1: Some(RegType::A), reg2: Some(RegType::H), cond: CondType::NONE, param: None },
        0x95 => Instruction { inst_type: InstType::SUB, mode: AddrMode::RxR, reg1: Some(RegType::A), reg2: Some(RegType::L), cond: CondType::NONE, param: None },
        0x96 => Instruction { inst_type: InstType::SUB, mode: AddrMode::RxMR, reg1: Some(RegType::A), reg2: Some(RegType::HL), cond: CondType::NONE, param: None },
        0x97 => Instruction { inst_type: InstType::SUB, mode: AddrMode::RxR, reg1: Some(RegType::A), reg2: Some(RegType::A), cond: CondType::NONE, param: None },
        0x98 => Instruction { inst_type: InstType::SBC, mode: AddrMode::RxR, reg1: Some(RegType::A), reg2: Some(RegType::B), cond: CondType::NONE, param: None },
        0x99 => Instruction { inst_type: InstType::SBC, mode: AddrMode::RxR, reg1: Some(RegType::A), reg2: Some(RegType::C), cond: CondType::NONE, param: None },
        0x9A => Instruction { inst_type: InstType::SBC, mode: AddrMode::RxR, reg1: Some(RegType::A), reg2: Some(RegType::D), cond: CondType::NONE, param: None },
        0x9B => Instruction { inst_type: InstType::SBC, mode: AddrMode::RxR, reg1: Some(RegType::A), reg2: Some(RegType::E), cond: CondType::NONE, param: None },
        0x9C => Instruction { inst_type: InstType::SBC, mode: AddrMode::RxR, reg1: Some(RegType::A), reg2: Some(RegType::H), cond: CondType::NONE, param: None },
        0x9D => Instruction { inst_type: InstType::SBC, mode: AddrMode::RxR, reg1: Some(RegType::A), reg2: Some(RegType::L), cond: CondType::NONE, param: None },
        0x9E => Instruction { inst_type: InstType::SBC, mode: AddrMode::RxMR, reg1: Some(RegType::A), reg2: Some(RegType::HL), cond: CondType::NONE, param: None },
        0x9F => Instruction { inst_type: InstType::SBC, mode: AddrMode::RxR, reg1: Some(RegType::A), reg2: Some(RegType::A), cond: CondType::NONE, param: None },
        0xA0 => Instruction { inst_type: InstType::AND, mode: AddrMode::RxR, reg1: Some(RegType::A), reg2: Some(RegType::B), cond: CondType::NONE, param: None },
        0xA1 => Instruction { inst_type: InstType::AND, mode: AddrMode::RxR, reg1: Some(RegType::A), reg2: Some(RegType::C), cond: CondType::NONE, param: None },
        0xA2 => Instruction { inst_type: InstType::AND, mode: AddrMode::RxR, reg1: Some(RegType::A), reg2: Some(RegType::D), cond: CondType::NONE, param: None },
        0xA3 => Instruction { inst_type: InstType::AND, mode: AddrMode::RxR, reg1: Some(RegType::A), reg2: Some(RegType::E), cond: CondType::NONE, param: None },
        0xA4 => Instruction { inst_type: InstType::AND, mode: AddrMode::RxR, reg1: Some(RegType::A), reg2: Some(RegType::H), cond: CondType::NONE, param: None },
        0xA5 => Instruction { inst_type: InstType::AND, mode: AddrMode::RxR, reg1: Some(RegType::A), reg2: Some(RegType::L), cond: CondType::NONE, param: None },
        0xA6 => Instruction { inst_type: InstType::AND, mode: AddrMode::RxMR, reg1: Some(RegType::A), reg2: Some(RegType::HL), cond: CondType::NONE, param: None },
        0xA7 => Instruction { inst_type: InstType::AND, mode: AddrMode::RxR, reg1: Some(RegType::A), reg2: Some(RegType::A), cond: CondType::NONE, param: None },
        0xA8 => Instruction { inst_type: InstType::XOR, mode: AddrMode::RxR, reg1: Some(RegType::A), reg2: Some(RegType::B), cond: CondType::NONE, param: None },
        0xA9 => Instruction { inst_type: InstType::XOR, mode: AddrMode::RxR, reg1: Some(RegType::A), reg2: Some(RegType::C), cond: CondType::NONE, param: None },
        0xAA => Instruction { inst_type: InstType::XOR, mode: AddrMode::RxR, reg1: Some(RegType::A), reg2: Some(RegType::D), cond: CondType::NONE, param: None },
        0xAB => Instruction { inst_type: InstType::XOR, mode: AddrMode::RxR, reg1: Some(RegType::A), reg2: Some(RegType::E), cond: CondType::NONE, param: None },
        0xAC => Instruction { inst_type: InstType::XOR, mode: AddrMode::RxR, reg1: Some(RegType::A), reg2: Some(RegType::H), cond: CondType::NONE, param: None },
        0xAD => Instruction { inst_type: InstType::XOR, mode: AddrMode::RxR, reg1: Some(RegType::A), reg2: Some(RegType::L), cond: CondType::NONE, param: None },
        0xAE => Instruction { inst_type: InstType::XOR, mode: AddrMode::RxMR, reg1: Some(RegType::A), reg2: Some(RegType::HL), cond: CondType::NONE, param: None },
        0xAF => Instruction { inst_type: InstType::XOR, mode: AddrMode::RxR, reg1: Some(RegType::A), reg2: Some(RegType::A), cond: CondType::NONE, param: None },
        0xB0 => Instruction { inst_type: InstType::OR, mode: AddrMode::RxR, reg1: Some(RegType::A), reg2: Some(RegType::B), cond: CondType::NONE, param: None },
        0xB1 => Instruction { inst_type: InstType::OR, mode: AddrMode::RxR, reg1: Some(RegType::A), reg2: Some(RegType::C), cond: CondType::NONE, param: None },
        0xB2 => Instruction { inst_type: InstType::OR, mode: AddrMode::RxR, reg1: Some(RegType::A), reg2: Some(RegType::D), cond: CondType::NONE, param: None },
        0xB3 => Instruction { inst_type: InstType::OR, mode: AddrMode::RxR, reg1: Some(RegType::A), reg2: Some(RegType::E), cond: CondType::NONE, param: None },
        0xB4 => Instruction { inst_type: InstType::OR, mode: AddrMode::RxR, reg1: Some(RegType::A), reg2: Some(RegType::H), cond: CondType::NONE, param: None },
        0xB5 => Instruction { inst_type: InstType::OR, mode: AddrMode::RxR, reg1: Some(RegType::A), reg2: Some(RegType::L), cond: CondType::NONE, param: None },
        0xB6 => Instruction { inst_type: InstType::OR, mode: AddrMode::RxMR, reg1: Some(RegType::A), reg2: Some(RegType::HL), cond: CondType::NONE, param: None },
        0xB7 => Instruction { inst_type: InstType::OR, mode: AddrMode::RxR, reg1: Some(RegType::A), reg2: Some(RegType::A), cond: CondType::NONE, param: None },
        0xB8 => Instruction { inst_type: InstType::CP, mode: AddrMode::RxR, reg1: Some(RegType::A), reg2: Some(RegType::B), cond: CondType::NONE, param: None },
        0xB9 => Instruction { inst_type: InstType::CP, mode: AddrMode::RxR, reg1: Some(RegType::A), reg2: Some(RegType::C), cond: CondType::NONE, param: None },
        0xBA => Instruction { inst_type: InstType::CP, mode: AddrMode::RxR, reg1: Some(RegType::A), reg2: Some(RegType::D), cond: CondType::NONE, param: None },
        0xBB => Instruction { inst_type: InstType::CP, mode: AddrMode::RxR, reg1: Some(RegType::A), reg2: Some(RegType::E), cond: CondType::NONE, param: None },
        0xBC => Instruction { inst_type: InstType::CP, mode: AddrMode::RxR, reg1: Some(RegType::A), reg2: Some(RegType::H), cond: CondType::NONE, param: None },
        0xBD => Instruction { inst_type: InstType::CP, mode: AddrMode::RxR, reg1: Some(RegType::A), reg2: Some(RegType::L), cond: CondType::NONE, param: None },
        0xBE => Instruction { inst_type: InstType::CP, mode: AddrMode::RxMR, reg1: Some(RegType::A), reg2: Some(RegType::HL), cond: CondType::NONE, param: None },
        0xBF => Instruction { inst_type: InstType::CP, mode: AddrMode::RxR, reg1: Some(RegType::A), reg2: Some(RegType::A), cond: CondType::NONE, param: None },
        0xC0 => Instruction { inst_type: InstType::RET, mode: AddrMode::IMP, reg1: None, reg2: None, cond: CondType::NZ, param: None },
        0xC1 => Instruction { inst_type: InstType::POP, mode: AddrMode::R, reg1: Some(RegType::BC), reg2: None, cond: CondType::NONE, param: None },
        0xC2 => Instruction { inst_type: InstType::JP, mode: AddrMode::D16, reg1: None, reg2: None, cond: CondType::NZ, param: None },
        0xC3 => Instruction { inst_type: InstType::JP, mode: AddrMode::D16, reg1: None, reg2: None, cond: CondType::NONE, param: None },
        0xC4 => Instruction { inst_type: InstType::CALL, mode: AddrMode::D16, reg1: None, reg2: None, cond: CondType::NZ, param: None },
        0xC5 => Instruction { inst_type: InstType::PUSH, mode: AddrMode::R, reg1: Some(RegType::BC), reg2: None, cond: CondType::NONE, param: None },
        0xC6 => Instruction { inst_type: InstType::ADD, mode: AddrMode::RxD8, reg1: Some(RegType::A), reg2: None, cond: CondType::NONE, param: None },
        0xC7 => Instruction { inst_type: InstType::RST, mode: AddrMode::IMP, reg1: None, reg2: None, cond: CondType::NONE, param: Some(0x00) },
        0xC8 => Instruction { inst_type: InstType::RET, mode: AddrMode::IMP, reg1: None, reg2: None, cond: CondType::Z, param: None },
        0xC9 => Instruction { inst_type: InstType::RET, mode: AddrMode::IMP, reg1: None, reg2: None, cond: CondType::NONE, param: None },
        0xCA => Instruction { inst_type: InstType::JP, mode: AddrMode::D16, reg1: None, reg2: None, cond: CondType::Z, param: None },
        0xCB => Instruction { inst_type: InstType::CB, mode: AddrMode::D8, reg1: None, reg2: None, cond: CondType::NONE, param: None },
        0xCC => Instruction { inst_type: InstType::CALL, mode: AddrMode::D16, reg1: None, reg2: None, cond: CondType::Z, param: None },
        0xCD => Instruction { inst_type: InstType::CALL, mode: AddrMode::D16, reg1: None, reg2: None, cond: CondType::NONE, param: None },
        0xCE => Instruction { inst_type: InstType::ADC, mode: AddrMode::RxD8, reg1: Some(RegType::A), reg2: None, cond: CondType::NONE, param: None },
        0xCF => Instruction { inst_type: InstType::RST, mode: AddrMode::IMP, reg1: None, reg2: None, cond: CondType::NONE, param: Some(0x08) },
        0xD0 => Instruction { inst_type: InstType::RET, mode: AddrMode::IMP, reg1: None, reg2: None, cond: CondType::NC, param: None },
        0xD1 => Instruction { inst_type: InstType::POP, mode: AddrMode::R, reg1: Some(RegType::DE), reg2: None, cond: CondType::NONE, param: None },
        0xD2 => Instruction { inst_type: InstType::JP, mode: AddrMode::D16, reg1: None, reg2: None, cond: CondType::NC, param: None },
        0xD4 => Instruction { inst_type: InstType::CALL, mode: AddrMode::D16, reg1: None, reg2: None, cond: CondType::NC, param: None },
        0xD5 => Instruction { inst_type: InstType::PUSH, mode: AddrMode::R, reg1: Some(RegType::DE), reg2: None, cond: CondType::NONE, param: None },
        0xD6 => Instruction { inst_type: InstType::SUB, mode: AddrMode::RxD8, reg1: Some(RegType::A), reg2: None, cond: CondType::NONE, param: None },
        0xD7 => Instruction { inst_type: InstType::RST, mode: AddrMode::IMP, reg1: None, reg2: None, cond: CondType::NONE, param: Some(0x10) },
        0xD8 => Instruction { inst_type: InstType::RET, mode: AddrMode::IMP, reg1: None, reg2: None, cond: CondType::C, param: None },
        0xD9 => Instruction { inst_type: InstType::RETI, mode: AddrMode::IMP, reg1: None, reg2: None, cond: CondType::NONE, param: None },
        0xDA => Instruction { inst_type: InstType::JP, mode: AddrMode::D16, reg1: None, reg2: None, cond: CondType::C, param: None },
        0xDC => Instruction { inst_type: InstType::CALL, mode: AddrMode::D16, reg1: None, reg2: None, cond: CondType::C, param: None },
        0xDE => Instruction { inst_type: InstType::SBC, mode: AddrMode::RxD8, reg1: Some(RegType::A), reg2: None, cond: CondType::NONE, param: None },
        0xDF => Instruction { inst_type: InstType::RST, mode: AddrMode::IMP, reg1: None, reg2: None, cond: CondType::NONE, param: Some(0x18) },
        0xE0 => Instruction { inst_type: InstType::LDH, mode: AddrMode::A8xR, reg1: None, reg2: Some(RegType::A), cond: CondType::NONE, param: None },
        0xE1 => Instruction { inst_type: InstType::POP, mode: AddrMode::R, reg1: Some(RegType::HL), reg2: None, cond: CondType::NONE, param: None },
        0xE2 => Instruction { inst_type: InstType::LD, mode: AddrMode::MRxR, reg1: Some(RegType::C), reg2: Some(RegType::A), cond: CondType::NONE, param: None },
        0xE5 => Instruction { inst_type: InstType::PUSH, mode: AddrMode::R, reg1: Some(RegType::HL), reg2: None, cond: CondType::NONE, param: None },
        0xE6 => Instruction { inst_type: InstType::AND, mode: AddrMode::RxD8, reg1: Some(RegType::A), reg2: None, cond: CondType::NONE, param: None },
        0xE7 => Instruction { inst_type: InstType::RST, mode: AddrMode::IMP, reg1: None, reg2: None, cond: CondType::NONE, param: Some(0x20) },
        0xE8 => Instruction { inst_type: InstType::ADD, mode: AddrMode::RxD8, reg1: Some(RegType::SP), reg2: None, cond: CondType::NONE, param: None },
        0xE9 => Instruction { inst_type: InstType::JP, mode: AddrMode::R, reg1: Some(RegType::HL), reg2: None, cond: CondType::NONE, param: None },
        0xEA => Instruction { inst_type: InstType::LD, mode: AddrMode::A16xR, reg1: None, reg2: Some(RegType::A), cond: CondType::NONE, param: None },
        0xEE => Instruction { inst_type: InstType::XOR, mode: AddrMode::RxD8, reg1: Some(RegType::A), reg2: None, cond: CondType::NONE, param: None },
        0xEF => Instruction { inst_type: InstType::RST, mode: AddrMode::IMP, reg1: None, reg2: None, cond: CondType::NONE, param: Some(0x28) },
        0xF0 => Instruction { inst_type: InstType::LDH, mode: AddrMode::RxA8, reg1: Some(RegType::A), reg2: None, cond: CondType::NONE, param: None },
        0xF1 => Instruction { inst_type: InstType::POP, mode: AddrMode::R, reg1: Some(RegType::AF), reg2: None, cond: CondType::NONE, param: None },
        0xF2 => Instruction { inst_type: InstType::LD, mode: AddrMode::RxMR, reg1: Some(RegType::A), reg2: Some(RegType::C), cond: CondType::NONE, param: None },
        0xF3 => Instruction { inst_type: InstType::DI, mode: AddrMode::IMP, reg1: None, reg2: None, cond: CondType::NONE, param: None },
        0xF5 => Instruction { inst_type: InstType::PUSH, mode: AddrMode::R, reg1: Some(RegType::AF), reg2: None, cond: CondType::NONE, param: None },
        0xF6 => Instruction { inst_type: InstType::OR, mode: AddrMode::RxD8, reg1: Some(RegType::A), reg2: None, cond: CondType::NONE, param: None },
        0xF7 => Instruction { inst_type: InstType::RST, mode: AddrMode::IMP, reg1: None, reg2: None, cond: CondType::NONE, param: Some(0x30) },
        0xF8 => Instruction { inst_type: InstType::LD, mode: AddrMode::HLxSPR, reg1: Some(RegType::HL), reg2: Some(RegType::SP), cond: CondType::NONE, param: None },
        0xF9 => Instruction { inst_type: InstType::LD, mode: AddrMode::RxR, reg1: Some(RegType::SP), reg2: Some(RegType::HL), cond: CondType::NONE, param: None },
        0xFA => Instruction { inst_type: InstType::LD, mode: AddrMode::RxA16, reg1: Some(RegType::A), reg2: None, cond: CondType::NONE, param: None },
        0xFB => Instruction { inst_type: InstType::EI, mode: AddrMode::IMP, reg1: None, reg2: None, cond: CondType::NONE, param: None },
        0xFE => Instruction { inst_type: InstType::CP, mode: AddrMode::RxD8, reg1: Some(RegType::A), reg2: None, cond: CondType::NONE, param: None },
        0xFF => Instruction { inst_type: InstType::RST, mode: AddrMode::IMP, reg1: None, reg2: None, cond: CondType::NONE, param: Some(0x38) },
        _ => Instruction { inst_type: InstType::NONE, mode: AddrMode::IMP, reg1: None, reg2: None, cond: CondType::NONE, param: None },
    }
}

pub fn inst_by_opcode(opcode: u8) -> (inst: Instruction)
    ensures
        inst == inst_by_opcode_spec(opcode),
{
    match opcode {
        0x00 => Instruction { inst_type: InstType::NOP, mode: AddrMode::IMP, reg1: None, reg2: None, cond: CondType::NONE, param: None },
        0x01 => Instruction { inst_type: InstType::LD, mode: AddrMode::RxD16, reg1: Some(RegType::BC), reg2: None, cond: CondType::NONE, param: None },
        0x02 => Instruction { inst_type: InstType::LD, mode: AddrMode::MRxR, reg1: Some(RegType::BC), reg2: Some(RegType::A), cond: CondType::NONE, param: None },
        0x03 => Instruction { inst_type: InstType::INC, mode: AddrMode::R, reg1: Some(RegType::BC), reg2: None, cond: CondType::NONE, param: None },
        0x04 => Instruction { inst_type: InstType::INC, mode: AddrMode::R, reg1: Some(RegType::B), reg2: None, cond: CondType::NONE, param: None },
        0x05 => Instruction { inst_type: InstType::DEC, mode: AddrMode::R, reg1: Some(RegType::B), reg2: None, cond: CondType::NONE, param: None },
        0x06 => Instruction { inst_type: InstType::LD, mode: AddrMode::RxD8, reg1: Some(RegType::B), reg2: None, cond: CondType::NONE, param: None },
        0x07 => Instruction { inst_type: InstType::RLCA, mode: AddrMode::IMP, reg1: None, reg2: None, cond: CondType::NONE, param: None },
        0x08 => Instruction { inst_type: InstType::LD, mode: AddrMode::A16xR, reg1: None, reg2: Some(RegType::SP), cond: CondType::NONE, param: None },
        0x09 => Instruction { inst_type: InstType::ADD, mode: AddrMode::RxR, reg1: Some(RegType::HL), reg2: Some(RegType::BC), cond: CondType::NONE, param: None },
        0x0A => Instruction { inst_type: InstType::LD, mode: AddrMode::RxMR, reg1: Some(RegType::A), reg2: Some(RegType::BC), cond: CondType::NONE, param: None },
        0x0B => Instruction { inst_type: InstType::DEC, mode: AddrMode::R, reg1: Some(RegType::BC), reg2: None, cond: CondType::NONE, param: None },
        0x0C => Instruction { inst_type: InstType::INC, mode: AddrMode::R, reg1: Some(RegType::C), reg2: None, cond: CondType::NONE, param: None },
        0x0D => Instruction { inst_type: InstType::DEC, mode: AddrMode::R, reg1: Some(RegType::C), reg2: None, cond: CondType::NONE, param: None },
        0x0E => Instruction { inst_type: InstType::LD, mode: AddrMode::RxD8, reg1: Some(RegType::C), reg2: None, cond: CondType::NONE, param: None },
        0x0F => Instruction { inst_type: InstType::RRCA, mode: AddrMode::IMP, reg1: None, reg2: None, cond: CondType::NONE, param: None },
        0x10 => Instruction { inst_type: InstType::STOP, mode: AddrMode::IMP, reg1: None, reg2: None, cond: CondType::NONE, param: None },
        0x11 => Instruction { inst_type: InstType::LD, mode: AddrMode::RxD16, reg1: Some(RegType::DE), reg2: None, cond: CondType::NONE, param: None },
        0x12 => Instruction { inst_type: InstType::LD, mode: AddrMode::MRxR, reg1: Some(RegType::DE), reg2: Some(RegType::A), cond: CondType::NONE, param: None },
        0x13 => Instruction { inst_type: InstType::INC, mode: AddrMode::R, reg1: Some(RegType::DE), reg2: None, cond: CondType::NONE, param: None },
        0x14 => Instruction { inst_type: InstType::INC, mode: AddrMode::R, reg1: Some(RegType::D), reg2: None, cond: CondType::NONE, param: None },
        0x15 => Instruction { inst_type: InstType::DEC, mode: AddrMode::R, reg1: Some(RegType::D), reg2: None, cond: CondType::NONE, param: None },
        0x16 => Instruction { inst_type: InstType::LD, mode: AddrMode::RxD8, reg1: Some(RegType::D), reg2: None, cond: CondType::NONE, param: None },
        0x17 => Instruction { inst_type: InstType::RLA, mode: AddrMode::IMP, reg1: None, reg2: None, cond: CondType::NONE, param: None },
        0x18 => Instruction { inst_type: InstType::JR, mode: AddrMode::D8, reg1: None, reg2: None, cond: CondType::NONE, param: None },
        0x19 => Instruction { inst_type: InstType::ADD, mode: AddrMode::RxR, reg1: Some(RegType::HL), reg2: Some(RegType::DE), cond: CondType::NONE, param: None },
        0x1A => Instruction { inst_type: InstType::LD, mode: AddrMode::RxMR, reg1: Some(RegType::A), reg2: Some(RegType::DE), cond: CondType::NONE, param: None },
        0x1B => Instruction { inst_type: InstType::DEC, mode: AddrMode::R, reg1: Some(RegType::DE), reg2: None, cond: CondType::NONE, param: None },
        0x1C => Instruction { inst_type: InstType::INC, mode: AddrMode::R, reg1: Some(RegType::E), reg2: None, cond: CondType::NONE, param: None },
        0x1D => Instruction { inst_type: InstType::DEC, mode: AddrMode::R, reg1: Some(RegType::E), reg2: None, cond: CondType::NONE, param: None },
        0x1E => Instruction { inst_type: InstType::LD, mode: AddrMode::RxD8, reg1: Some(RegType::E), reg2: None, cond: CondType::NONE, param: None },
        0x1F => Instruction { inst_type: InstType::RRA, mode: AddrMode::IMP, reg1: None, reg2: None, cond: CondType::NONE, param: None },
        0x20 => Instruction { inst_type: InstType::JR, mode: AddrMode::D8, reg1: None, reg2: None, cond: CondType::NZ, param: None },
        0x21 => Instruction { inst_type: InstType::LD, mode: AddrMode::RxD16, reg1: Some(RegType::HL), reg2: None, cond: CondType::NONE, param: None },
        0x22 => Instruction { inst_type: InstType::LD, mode: AddrMode::HLIxR, reg1: Some(RegType::HL), reg2: Some(RegType::A), cond: CondType::NONE, param: None },
        0x23 => Instruction { inst_type: InstType::INC, mode: AddrMode::R, reg1: Some(RegType::HL), reg2: None, cond: CondType::NONE, param: None },
        0x24 => Instruction { inst_type: InstType::INC, mode: AddrMode::R, reg1: Some(RegType::H), reg2: None, cond: CondType::NONE, param: None },
        0x25 => Instruction { inst_type: InstType::DEC, mode: AddrMode::R, reg1: Some(RegType::H), reg2: None, cond: CondType::NONE, param: None },
        0x26 => Instruction { inst_type: InstType::LD, mode: AddrMode::RxD8, reg1: Some(RegType::H), reg2: None, cond: CondType::NONE, param: None },
        0x27 => Instruction { inst_type: InstType::DAA, mode: AddrMode::IMP, reg1: None, reg2: None, cond: CondType::NONE, param: None },
        0x28 => Instruction { inst_type: InstType::JR, mode: AddrMode::D8, reg1: None, reg2: None, cond: CondType::Z, param: None },
        0x29 => Instruction { inst_type: InstType::ADD, mode: AddrMode::RxR, reg1: Some(RegType::HL), reg2: Some(RegType::HL), cond: CondType::NONE, param: None },
        0x2A => Instruction { inst_type: InstType::LD, mode: AddrMode::RxHLI, reg1: Some(RegType::A), reg2: Some(RegType::HL), cond: CondType::NONE, param: None },
        0x2B => Instruction { inst_type: InstType::DEC, mode: AddrMode::R, reg1: Some(RegType::HL), reg2: None, cond: CondType::NONE, param: None },
        0x2C => Instruction { inst_type: InstType::INC, mode: AddrMode::R, reg1: Some(RegType::L), reg2: None, cond: CondType::NONE, param: None },
        0x2D => Instruction { inst_type: InstType::DEC, mode: AddrMode::R, reg1: Some(RegType::L), reg2: None, cond: CondType::NONE, param: None },
        0x2E => Instruction { inst_type: InstType::LD, mode: AddrMode::RxD8, reg1: Some(RegType::L), reg2: None, cond: CondType::NONE, param: None },
        0x2F => Instruction { inst_type: InstType::CPL, mode: AddrMode::IMP, reg1: None, reg2: None, cond: CondType::NONE, param: None },
        0x30 => Instruction { inst_type: InstType::JR, mode: AddrMode::D8, reg1: None, reg2: None, cond: CondType::NC, param: None },
        0x31 => Instruction { inst_type: InstType::LD, mode: AddrMode::RxD16, reg1: Some(RegType::SP), reg2: None, cond: CondType::NONE, param: None },
        0x32 => Instruction { inst_type: InstType::LD, mode: AddrMode::HLDxR, reg1: Some(RegType::HL), reg2: Some(RegType::A), cond: CondType::NONE, param: None },
        0x33 => Instruction { inst_type: InstType::INC, mode: AddrMode::R, reg1: Some(RegType::SP), reg2: None, cond: CondType::NONE, param: None },
        0x34 => Instruction { inst_type: InstType::INC, mode: AddrMode::MR, reg1: Some(RegType::HL), reg2: None, cond: CondType::NONE, param: None },
        0x35 => Instruction { inst_type: InstType::DEC, mode: AddrMode::MR, reg1: Some(RegType::HL), reg2: None, cond: CondType::NONE, param: None },
        0x36 => Instruction { inst_type: InstType::LD, mode: AddrMode::MRxD8, reg1: Some(RegType::HL), reg2: None, cond: CondType::NONE, param: None },
        0x37 => Instruction { inst_type: InstType::SCF, mode: AddrMode::IMP, reg1: None, reg2: None, cond: CondType::NONE, param: None },
        0x38 => Instruction { inst_type: InstType::JR, mode: AddrMode::D8, reg1: None, reg2: None, cond: CondType::C, param: None },
        0x39 => Instruction { inst_type: InstType::ADD, mode: AddrMode::RxR, reg1: Some(RegType::HL), reg2: Some(RegType::SP), cond: CondType::NONE, param: None },
        0x3A => Instruction { inst_type: InstType::LD, mode: AddrMode::RxHLD, reg1: Some(RegType::A), reg2: Some(RegType::HL), cond: CondType::NONE, param: None },
        0x3B => Instruction { inst_type: InstType::DEC, mode: AddrMode::R, reg1: Some(RegType::SP), reg2: None, cond: CondType::NONE, param: None },
        0x3C => Instruction { inst_type: InstType::INC, mode: AddrMode::R, reg1: Some(RegType::A), reg2: None, cond: CondType::NONE, param: None },
        0x3D => Instruction { inst_type: InstType::DEC, mode: AddrMode::R, reg1: Some(RegType::A), reg2: None, cond: CondType::NONE, param: None },
        0x3E => Instruction { inst_type: InstType::LD, mode: AddrMode::RxD8, reg1: Some(RegType::A), reg2: None, cond: CondType::NONE, param: None },
        0x3F => Instruction { inst_type: InstType::CCF, mode: AddrMode::IMP, reg1: None, reg2: None, cond: CondType::NONE, param: None },
        0x40 => Instruction { inst_type: InstType::LD, mode: AddrMode::RxR, reg1: Some(RegType::B), reg2: Some(RegType::B), cond: CondType::NONE, param: None },
        0x41 => Instruction { inst_type: InstType::LD, mode: AddrMode::RxR, reg1: Some(RegType::B), reg2: Some(RegType::C), cond: CondType::NONE, param: None },
        0x42 => Instruction { inst_type: InstType::LD, mode: AddrMode::RxR, reg1: Some(RegType::B), reg2: Some(RegType::D), cond: CondType::NONE, param: None },
        0x43 => Instruction { inst_type: InstType::LD, mode: AddrMode::RxR, reg1: Some(RegType::B), reg2: Some(RegType::E), cond: CondType::NONE, param: None },
        0x44 => Instruction { inst_type: InstType::LD, mode: AddrMode::RxR, reg1: Some(RegType::B), reg2: Some(RegType::H), cond: CondType::NONE, param: None },
        0x45 => Instruction { inst_type: InstType::LD, mode: AddrMode::RxR, reg1: Some(RegType::B), reg2: Some(RegType::L), cond: CondType::NONE, param: None },
        0x46 => Instruction { inst_type: InstType::LD, mode: AddrMode::RxMR, reg1: Some(RegType::B), reg2: Some(RegType::HL), cond: CondType::NONE, param: None },
        0x47 => Instruction { inst_type: InstType::LD, mode: AddrMode::RxR, reg1: Some(RegType::B), reg2: Some(RegType::A), cond: CondType::NONE, param: None },
        0x48 => Instruction { inst_type: InstType::LD, mode: AddrMode::RxR, reg1: Some(RegType::C), reg2: Some(RegType::B), cond: CondType::NONE, param: None },
        0x49 => Instruction { inst_type: InstType::LD, mode: AddrMode::RxR, reg1: Some(RegType::C), reg2: Some(RegType::C), cond: CondType::NONE, param: None },
        0x4A => Instruction { inst_type: InstType::LD, mode: AddrMode::RxR, reg1: Some(RegType::C), reg2: Some(RegType::D), cond: CondType::NONE, param: None },
        0x4B => Instruction { inst_type: InstType::LD, mode: AddrMode::RxR, reg1: Some(RegType::C), reg2: Some(RegType::E), cond: CondType::NONE, param: None },
        0x4C => Instruction { inst_type: InstType::LD, mode: AddrMode::RxR, reg1: Some(RegType::C), reg2: Some(RegType::H), cond: CondType::NONE, param: None },
        0x4D => Instruction { inst_type: InstType::LD, mode: AddrMode::RxR, reg1: Some(RegType::C), reg2: Some(RegType::L), cond: CondType::NONE, param: None },
        0x4E => Instruction { inst_type: InstType::LD, mode: AddrMode::RxMR, reg1: Some(RegType::C), reg2: Some(RegType::HL), cond: CondType::NONE, param: None },
        0x4F => Instruction { inst_type: InstType::LD, mode: AddrMode::RxR, reg1: Some(RegType::C), reg2: Some(RegType::A), cond: CondType::NONE, param: None },
        0x50 => Instruction { inst_type: InstType::LD, mode: AddrMode::RxR, reg1: Some(RegType::D), reg2: Some(RegType::B), cond: CondType::NONE, param: None },
        0x51 => Instruction { inst_type: InstType::LD, mode: AddrMode::RxR, reg1: Some(RegType::D), reg2: Some(RegType::C), cond: CondType::NONE, param: None },
        0x52 => Instruction { inst_type: InstType::LD, mode: AddrMode::RxR, reg1: Some(RegType::D), reg2: Some(RegType::D), cond: CondType::NONE, param: None },
        0x53 => Instruction { inst_type: InstType::LD, mode: AddrMode::RxR, reg1: Some(RegType::D), reg2: Some(RegType::E), cond: CondType::NONE, param: None },
        0x54 => Instruction { inst_type: InstType::LD, mode: AddrMode::RxR, reg1: Some(RegType::D), reg2: Some(RegType::H), cond: CondType::NONE, param: None },
        0x55 => Instruction { inst_type: InstType::LD, mode: AddrMode::RxR, reg1: Some(RegType::D), reg2: Some(RegType::L), cond: CondType::NONE, param: None },
        0x56 => Instruction { inst_type: InstType::LD, mode: AddrMode::RxMR, reg1: Some(RegType::D), reg2: Some(RegType::HL), cond: CondType::NONE, param: None },
        0x57 => Instruction { inst_type: InstType::LD, mode: AddrMode::RxR, reg1: Some(RegType::D), reg2: Some(RegType::A), cond: CondType::NONE, param: None },
        0x58 => Instruction { inst_type: InstType::LD, mode: AddrMode::RxR, reg1: Some(RegType::E), reg2: Some(RegType::B), cond: CondType::NONE, param: None },
        0x59 => Instruction { inst_type: InstType::LD, mode: AddrMode::RxR, reg1: Some(RegType::E), reg2: Some(RegType::C), cond: CondType::NONE, param: None },
        0x5A => Instruction { inst_type: InstType::LD, mode: AddrMode::RxR, reg1: Some(RegType::E), reg2: Some(RegType::D), cond: CondType::NONE, param: None },
        0x5B => Instruction { inst_type: InstType::LD, mode: AddrMode::RxR, reg1: Some(RegType::E), reg2: Some(RegType::E), cond: CondType::NONE, param: None },
        0x5C => Instruction { inst_type: InstType::LD, mode: AddrMode::RxR, reg1: Some(RegType::E), reg2: Some(RegType::H), cond: CondType::NONE, param: None },
        0x5D => Instruction { inst_type: InstType::LD, mode: AddrMode::RxR, reg1: Some(RegType::E), reg2: Some(RegType::L), cond: CondType::NONE, param: None },
        0x5E => Instruction { inst_type: InstType::LD, mode: AddrMode::RxMR, reg1: Some(RegType::E), reg2: Some(RegType::HL), cond: CondType::NONE, param: None },
        0x5F => Instruction { inst_type: InstType::LD, mode: AddrMode::RxR, reg1: Some(RegType::E), reg2: Some(RegType::A), cond: CondType::NONE, param: None },
        0x60 => Instruction { inst_type: InstType::LD, mode: AddrMode::RxR, reg1: Some(RegType::H), reg2: Some(RegType::B), cond: CondType::NONE, param: None },
        0x61 => Instruction { inst_type: InstType::LD, mode: AddrMode::RxR, reg1: Some(RegType::H), reg2: Some(RegType::C), cond: CondType::NONE, param: None },
        0x62 => Instruction { inst_type: InstType::LD, mode: AddrMode::RxR, reg1: Some(RegType::H), reg2: Some(RegType::D), cond: CondType::NONE, param: None },
        0x63 => Instruction { inst_type: InstType::LD, mode: AddrMode::RxR, reg1: Some(RegType::H), reg2: Some(RegType::E), cond: CondType::NONE, param: None },
        0x64 => Instruction { inst_type: InstType::LD, mode: AddrMode::RxR, reg1: Some(RegType::H), reg2: Some(RegType::H), cond: CondType::NONE, param: None },
        0x65 => Instruction { inst_type: InstType::LD, mode: AddrMode::RxR, reg1: Some(RegType::H), reg2: Some(RegType::L), cond: CondType::NONE, param: None },
        0x66 => Instruction { inst_type: InstType::LD, mode: AddrMode::RxMR, reg1: Some(RegType::H), reg2: Some(RegType::HL), cond: CondType::NONE, param: None },
        0x67 => Instruction { inst_type: InstType::LD, mode: AddrMode::RxR, reg1: Some(RegType::H), reg2: Some(RegType::A), cond: CondType::NONE, param: None },
        0x68 => Instruction { inst_type: InstType::LD, mode: AddrMode::RxR, reg1: Some(RegType::L), reg2: Some(RegType::B), cond: CondType::NONE, param: None },
        0x69 => Instruction { inst_type: InstType::LD, mode: AddrMode::RxR, reg1: Some(RegType::L), reg2: Some(RegType::C), cond: CondType::NONE, param: None },
        0x6A => Instruction { inst_type: InstType::LD, mode: AddrMode::RxR, reg1: Some(RegType::L), reg2: Some(RegType::D), cond: CondType::NONE, param: None },
        0x6B => Instruction { inst_type: InstType::LD, mode: AddrMode::RxR, reg1: Some(RegType::L), reg2: Some(RegType::E), cond: CondType::NONE, param: None },
        0x6C => Instruction { inst_type: InstType::LD, mode: AddrMode::RxR, reg1: Some(RegType::L), reg2: Some(RegType::H), cond: CondType::NONE, param: None },
        0x6D => Instruction { inst_type: InstType::LD, mode: AddrMode::RxR, reg1: Some(RegType::L), reg2: Some(RegType::L), cond: CondType::NONE, param: None },
        0x6E => Instruction { inst_type: InstType::LD, mode: AddrMode::RxMR, reg1: Some(RegType::L), reg2: Some(RegType::HL), cond: CondType::NONE, param: None },
        0x6F => Instruction { inst_type: InstType::LD, mode: AddrMode::RxR, reg1: Some(RegType::L), reg2: Some(RegType::A), cond: CondType::NONE, param: None },
        0x70 => Instruction { inst_type: InstType::LD, mode: AddrMode::MRxR, reg1: Some(RegType::HL), reg2: Some(RegType::B), cond: CondType::NONE, param: None },
        0x71 => Instruction { inst_type: InstType::LD, mode: AddrMode::MRxR, reg1: Some(RegType::HL), reg2: Some(RegType::C), cond: CondType::NONE, param: None },
        0x72 => Instruction { inst_type: InstType::LD, mode: AddrMode::MRxR, reg1: Some(RegType::HL), reg2: Some(RegType::D), cond: CondType::NONE, param: None },
        0x73 => Instruction { inst_type: InstType::LD, mode: AddrMode::MRxR, reg1: Some(RegType::HL), reg2: Some(RegType::E), cond: CondType::NONE, param: None },
        0x74 => Instruction { inst_type: InstType::LD, mode: AddrMode::MRxR, reg1: Some(RegType::HL), reg2: Some(RegType::H), cond: CondType::NONE, param: None },
        0x75 => Instruction { inst_type: InstType::LD, mode: AddrMode::MRxR, reg1: Some(RegType::HL), reg2: Some(RegType::L), cond: CondType::NONE, param: None },
        0x76 => Instruction { inst_type: InstType::HALT, mode: AddrMode::IMP, reg1: None, reg2: None, cond: CondType::NONE, param: None },
        0x77 => Instruction { inst_type: InstType::LD, mode: AddrMode::MRxR, reg1: Some(RegType::HL), reg2: Some(RegType::A), cond: CondType::NONE, param: None },
        0x78 => Instruction { inst_type: InstType::LD, mode: AddrMode::RxR, reg1: Some(RegType::A), reg2: Some(RegType::B), cond: CondType::NONE, param: None },
        0x79 => Instruction { inst_type: InstType::LD, mode: AddrMode::RxR, reg1: Some(RegType::A), reg2: Some(RegType::C), cond: CondType::NONE, param: None },
        0x7A => Instruction { inst_type: InstType::LD, mode: AddrMode::RxR, reg1: Some(RegType::A), reg2: Some(RegType::D), cond: CondType::NONE, param: None },
        0x7B => Instruction { inst_type: InstType::LD, mode: AddrMode::RxR, reg1: Some(RegType::A), reg2: Some(RegType::E), cond: CondType::NONE, param: None },
        0x7C => Instruction { inst_type: InstType::LD, mode: AddrMode::RxR, reg1: Some(RegType::A), reg2: Some(RegType::H), cond: CondType::NONE, param: None },
        0x7D => Instruction { inst_type: InstType::LD, mode: AddrMode::RxR, reg1: Some(RegType::A), reg2: Some(RegType::L), cond: CondType::NONE, param: None },
        0x7E => Instruction { inst_type: InstType::LD, mode: AddrMode::RxMR, reg1: Some(RegType::A), reg2: Some(RegType::HL), cond: CondType::NONE, param: None },
        0x7F => Instruction { inst_type: InstType::LD, mode: AddrMode::RxR, reg1: Some(RegType::A), reg2: Some(RegType::A), cond: CondType::NONE, param: None },
        0x80 => Instruction { inst_type: InstType::ADD, mode: AddrMode::RxR, reg1: Some(RegType::A), reg2: Some(RegType::B), cond: CondType::NONE, param: None },
        0x81 => Instruction { inst_type: InstType::ADD, mode: AddrMode::RxR, reg1: Some(RegType::A), reg2: Some(RegType::C), cond: CondType::NONE, param: None },
        0x82 => Instruction { inst_type: InstType::ADD, mode: AddrMode::RxR, reg1: Some(RegType::A), reg2: Some(RegType::D), cond: CondType::NONE, param: None },
        0x83 => Instruction { inst_type: InstType::ADD, mode: AddrMode::RxR, reg1: Some(RegType::A), reg2: Some(RegType::E), cond: CondType::NONE, param: None },
        0x84 => Instruction { inst_type: InstType::ADD, mode: AddrMode::RxR, reg1: Some(RegType::A), reg2: Some(RegType::H), cond: CondType::NONE, param: None },
        0x85 => Instruction { inst_type: InstType::ADD, mode: AddrMode::RxR, reg1: Some(RegType::A), reg2: Some(RegType::L), cond: CondType::NONE, param: None },
        0x86 => Instruction { inst_type: InstType::ADD, mode: AddrMode::RxMR, reg1: Some(RegType::A), reg2: Some(RegType::HL), cond: CondType::NONE, param: None },
        0x87 => Instruction { inst_type: InstType::ADD, mode: AddrMode::RxR, reg1: Some(RegType::A), reg2: Some(RegType::A), cond: CondType::NONE, param: None },
        0x88 => Instruction { inst_type: InstType::ADC, mode: AddrMode::RxR, reg1: Some(RegType::A), reg2: Some(RegType::B), cond: CondType::NONE, param: None },
        0x89 => Instruction { inst_type: InstType::ADC, mode: AddrMode::RxR, reg1: Some(RegType::A), reg2: Some(RegType::C), cond: CondType::NONE, param: None },
        0x8A => Instruction { inst_type: InstType::ADC, mode: AddrMode::RxR, reg1: Some(RegType::A), reg2: Some(RegType::D), cond: CondType::NONE, param: None },
        0x8B => Instruction { inst_type: InstType::ADC, mode: AddrMode::RxR, reg1: Some(RegType::A), reg2: Some(RegType::E), cond: CondType::NONE, param: None },
        0x8C => Instruction { inst_type: InstType::ADC, mode: AddrMode::RxR, reg1: Some(RegType::A), reg2: Some(RegType::H), cond: CondType::NONE, param: None },
        0x8D => Instruction { inst_type: InstType::ADC, mode: AddrMode::RxR, reg1: Some(RegType::A), reg2: Some(RegType::L), cond: CondType::NONE, param: None },
        0x8E => Instruction { inst_type: InstType::ADC, mode: AddrMode::RxMR, reg1: Some(RegType::A), reg2: Some(RegType::HL), cond: CondType::NONE, param: None },
        0x8F => Instruction { inst_type: InstType::ADC, mode: AddrMode::RxR, reg1: Some(RegType::A), reg2: Some(RegType::A), cond: CondType::NONE, param: None },
        0x90 => Instruction { inst_type: InstType::SUB, mode: AddrMode::RxR, reg1: Some(RegType::A), reg2: Some(RegType::B), cond: CondType::NONE, param: None },
        0x91 => Instruction { inst_type: InstType::SUB, mode: AddrMode::RxR, reg1: Some(RegType::A), reg2: Some(RegType::C), cond: CondType::NONE, param: None },
        0x92 => Instruction { inst_type: InstType::SUB, mode: AddrMode::RxR, reg1: Some(RegType::A), reg2: Some(RegType::D), cond: CondType::NONE, param: None },
        0x93 => Instruction { inst_type: InstType::SUB, mode: AddrMode::RxR, reg1: Some(RegType::A), reg2: Some(RegType::E), cond: CondType::NONE, param: None },
        0x94 => Instruction { inst_type: InstType::SUB, mode: AddrMode::RxR, reg1: Some(RegType::A), reg2: Some(RegType::H), cond: CondType::NONE, param: None },
        0x95 => Instruction { inst_type: InstType::SUB, mode: AddrMode::RxR, reg1: Some(RegType::A), reg2: Some(RegType::L), cond: CondType::NONE, param: None },
        0x96 => Instruction { inst_type: InstType::SUB, mode: AddrMode::RxMR, reg1: Some(RegType::A), reg2: Some(RegType::HL), cond: CondType::NONE, param: None },
        0x97 => Instruction { inst_type: InstType::SUB, mode: AddrMode::RxR, reg1: Some(RegType::A), reg2: Some(RegType::A), cond: CondType::NONE, param: None },
        0x98 => Instruction { inst_type: InstType::SBC, mode: AddrMode::RxR, reg1: Some(RegType::A), reg2: Some(RegType::B), cond: CondType::NONE, param: None },
        0x99 => Instruction { inst_type: InstType::SBC, mode: AddrMode::RxR, reg1: Some(RegType::A), reg2: Some(RegType::C), cond: CondType::NONE, param: None },
        0x9A => Instruction { inst_type: InstType::SBC, mode: AddrMode::RxR, reg1: Some(RegType::A), reg2: Some(RegType::D), cond: CondType::NONE, param: None },
        0x9B => Instruction { inst_type: InstType::SBC, mode: AddrMode::RxR, reg1: Some(RegType::A), reg2: Some(RegType::E), cond: CondType::NONE, param: None },
        0x9C => Instruction { inst_type: InstType::SBC, mode: AddrMode::RxR, reg1: Some(RegType::A), reg2: Some(RegType::H), cond: CondType::NONE, param: None },
        0x9D => Instruction { inst_type: InstType::SBC, mode: AddrMode::RxR, reg1: Some(RegType::A), reg2: Some(RegType::L), cond: CondType::NONE, param: None },
        0x9E => Instruction { inst_type: InstType::SBC, mode: AddrMode::RxMR, reg1: Some(RegType::A), reg2: Some(RegType::HL), cond: CondType::NONE, param: None },
        0x9F => Instruction { inst_type: InstType::SBC, mode: AddrMode::RxR, reg1: Some(RegType::A), reg2: Some(RegType::A), cond: CondType::NONE, param: None },
        0xA0 => Instruction { inst_type: InstType::AND, mode: AddrMode::RxR, reg1: Some(RegType::A), reg2: Some(RegType::B), cond: CondType::NONE, param: None },
        0xA1 => Instruction { inst_type: InstType::AND, mode: AddrMode::RxR, reg1: Some(RegType::A), reg2: Some(RegType::C), cond: CondType::NONE, param: None },
        0xA2 => Instruction { inst_type: InstType::AND, mode: AddrMode::RxR, reg1: Some(RegType::A), reg2: Some(RegType::D), cond: CondType::NONE, param: None },
        0xA3 => Instruction { inst_type: InstType::AND, mode: AddrMode::RxR, reg1: Some(RegType::A), reg2: Some(RegType::E), cond: CondType::NONE, param: None },
        0xA4 => Instruction { inst_type: InstType::AND, mode: AddrMode::RxR, reg1: Some(RegType::A), reg2: Some(RegType::H), cond: CondType::NONE, param: None },
        0xA5 => Instruction { inst_type: InstType::AND, mode: AddrMode::RxR, reg1: Some(RegType::A), reg2: Some(RegType::L), cond: CondType::NONE, param: None },
        0xA6 => Instruction { inst_type: InstType::AND, mode: AddrMode::RxMR, reg1: Some(RegType::A), reg2: Some(RegType::HL), cond: CondType::NONE, param: None },
        0xA7 => Instruction { inst_type: InstType::AND, mode: AddrMode::RxR, reg1: Some(RegType::A), reg2: Some(RegType::A), cond: CondType::NONE, param: None },
        0xA8 => Instruction { inst_type: InstType::XOR, mode: AddrMode::RxR, reg1: Some(RegType::A), reg2: Some(RegType::B), cond: CondType::NONE, param: None },
        0xA9 => Instruction { inst_type: InstType::XOR, mode: AddrMode::RxR, reg1: Some(RegType::A), reg2: Some(RegType::C), cond: CondType::NONE, param: None },
        0xAA => Instruction { inst_type: InstType::XOR, mode: AddrMode::RxR, reg1: Some(RegType::A), reg2: Some(RegType::D), cond: CondType::NONE, param: None },
        0xAB => Instruction { inst_type: InstType::XOR, mode: AddrMode::RxR, reg1: Some(RegType::A), reg2: Some(RegType::E), cond: CondType::NONE, param: None },
        0xAC => Instruction { inst_type: InstType::XOR, mode: AddrMode::RxR, reg1: Some(RegType::A), reg2: Some(RegType::H), cond: CondType::NONE, param: None },
        0xAD => Instruction { inst_type: InstType::XOR, mode: AddrMode::RxR, reg1: Some(RegType::A), reg2: Some(RegType::L), cond: CondType::NONE, param: None },
        0xAE => Instruction { inst_type: InstType::XOR, mode: AddrMode::RxMR, reg1: Some(RegType::A), reg2: Some(RegType::HL), cond: CondType::NONE, param: None },
        0xAF => Instruction { inst_type: InstType::XOR, mode: AddrMode::RxR, reg1: Some(RegType::A), reg2: Some(RegType::A), cond: CondType::NONE, param: None },
        0xB0 => Instruction { inst_type: InstType::OR, mode: AddrMode::RxR, reg1: Some(RegType::A), reg2: Some(RegType::B), cond: CondType::NONE, param: None },
        0xB1 => Instruction { inst_type: InstType::OR, mode: AddrMode::RxR, reg1: Some(RegType::A), reg2: Some(RegType::C), cond: CondType::NONE, param: None },
        0xB2 => Instruction { inst_type: InstType::OR, mode: AddrMode::RxR, reg1: Some(RegType::A), reg2: Some(RegType::D), cond: CondType::NONE, param: None },
        0xB3 => Instruction { inst_type: InstType::OR, mode: AddrMode::RxR, reg1: Some(RegType::A), reg2: Some(RegType::E), cond: CondType::NONE, param: None },
        0xB4 => Instruction { inst_type: InstType::OR, mode: AddrMode::RxR, reg1: Some(RegType::A), reg2: Some(RegType::H), cond: CondType::NONE, param: None },
        0xB5 => Instruction { inst_type: InstType::OR, mode: AddrMode::RxR, reg1: Some(RegType::A), reg2: Some(RegType::L), cond: CondType::NONE, param: None },
        0xB6 => Instruction { inst_type: InstType::OR, mode: AddrMode::RxMR, reg1: Some(RegType::A), reg2: Some(RegType::HL), cond: CondType::NONE, param: None },
        0xB7 => Instruction { inst_type: InstType::OR, mode: AddrMode::RxR, reg1: Some(RegType::A), reg2: Some(RegType::A), cond: CondType::NONE, param: None },
        0xB8 => Instruction { inst_type: InstType::CP, mode: AddrMode::RxR, reg1: Some(RegType::A), reg2: Some(RegType::B), cond: CondType::NONE, param: None },
        0xB9 => Instruction { inst_type: InstType::CP, mode: AddrMode::RxR, reg1: Some(RegType::A), reg2: Some(RegType::C), cond: CondType::NONE, param: None },
        0xBA => Instruction { inst_type: InstType::CP, mode: AddrMode::RxR, reg1: Some(RegType::A), reg2: Some(RegType::D), cond: CondType::NONE, param: None },
        0xBB => Instruction { inst_type: InstType::CP, mode: AddrMode::RxR, reg1: Some(RegType::A), reg2: Some(RegType::E), cond: CondType::NONE, param: None },
        0xBC => Instruction { inst_type: InstType::CP, mode: AddrMode::RxR, reg1: Some(RegType::A), reg2: Some(RegType::H), cond: CondType::NONE, param: None },
        0xBD => Instruction { inst_type: InstType::CP, mode: AddrMode::RxR, reg1: Some(RegType::A), reg2: Some(RegType::L), cond: CondType::NONE, param: None },
        0xBE => Instruction { inst_type: InstType::CP, mode: AddrMode::RxMR, reg1: Some(RegType::A), reg2: Some(RegType::HL), cond: CondType::NONE, param: None },
        0xBF => Instruction { inst_type: InstType::CP, mode: AddrMode::RxR, reg1: Some(RegType::A), reg2: Some(RegType::A), cond: CondType::NONE, param: None },
        0xC0 => Instruction { inst_type: InstType::RET, mode: AddrMode::IMP, reg1: None, reg2: None, cond: CondType::NZ, param: None },
        0xC1 => Instruction { inst_type: InstType::POP, mode: AddrMode::R, reg1: Some(RegType::BC), reg2: None, cond: CondType::NONE, param: None },
        0xC2 => Instruction { inst_type: InstType::JP, mode: AddrMode::D16, reg1: None, reg2: None, cond: CondType::NZ, param: None },
        0xC3 => Instruction { inst_type: InstType::JP, mode: AddrMode::D16, reg1: None, reg2: None, cond: CondType::NONE, param: None },
        0xC4 => Instruction { inst_type: InstType::CALL, mode: AddrMode::D16, reg1: None, reg2: None, cond: CondType::NZ, param: None },
        0xC5 => Instruction { inst_type: InstType::PUSH, mode: AddrMode::R, reg1: Some(RegType::BC), reg2: None, cond: CondType::NONE, param: None },
        0xC6 => Instruction { inst_type: InstType::ADD, mode: AddrMode::RxD8, reg1: Some(RegType::A), reg2: None, cond: CondType::NONE, param: None },
        0xC7 => Instruction { inst_type: InstType::RST, mode: AddrMode::IMP, reg1: None, reg2: None, cond: CondType::NONE, param: Some(0x00) },
        0xC8 => Instruction { inst_type: InstType::RET, mode: AddrMode::IMP, reg1: None, reg2: None, cond: CondType::Z, param: None },
        0xC9 => Instruction { inst_type: InstType::RET, mode: AddrMode::IMP, reg1: None, reg2: None, cond: CondType::NONE, param: None },
        0xCA => Instruction { inst_type: InstType::JP, mode: AddrMode::D16, reg1: None, reg2: None, cond: CondType::Z, param: None },
        0xCB => Instruction { inst_type: InstType::CB, mode: AddrMode::D8, reg1: None, reg2: None, cond: CondType::NONE, param: None },
        0xCC => Instruction { inst_type: InstType::CALL, mode: AddrMode::D16, reg1: None, reg2: None, cond: CondType::Z, param: None },
        0xCD => Instruction { inst_type: InstType::CALL, mode: AddrMode::D16, reg1: None, reg2: None, cond: CondType::NONE, param: None },
        0xCE => Instruction { inst_type: InstType::ADC, mode: AddrMode::RxD8, reg1: Some(RegType::A), reg2: None, cond: CondType::NONE, param: None },
        0xCF => Instruction { inst_type: InstType::RST, mode: AddrMode::IMP, reg1: None, reg2: None, cond: CondType::NONE, param: Some(0x08) },
        0xD0 => Instruction { inst_type: InstType::RET, mode: AddrMode::IMP, reg1: None, reg2: None, cond: CondType::NC, param: None },
        0xD1 => Instruction { inst_type: InstType::POP, mode: AddrMode::R, reg1: Some(RegType::DE), reg2: None, cond: CondType::NONE, param: None },
        0xD2 => Instruction { inst_type: InstType::JP, mode: AddrMode::D16, reg1: None, reg2: None, cond: CondType::NC, param: None },
        0xD4 => Instruction { inst_type: InstType::CALL, mode: AddrMode::D16, reg1: None, reg2: None, cond: CondType::NC, param: None },
        0xD5 => Instruction { inst_type: InstType::PUSH, mode: AddrMode::R, reg1: Some(RegType::DE), reg2: None, cond: CondType::NONE, param: None },
        0xD6 => Instruction { inst_type: InstType::SUB, mode: AddrMode::RxD8, reg1: Some(RegType::A), reg2: None, cond: CondType::NONE, param: None },
        0xD7 => Instruction { inst_type: InstType::RST, mode: AddrMode::IMP, reg1: None, reg2: None, cond: CondType::NONE, param: Some(0x10) },
        0xD8 => Instruction { inst_type: InstType::RET, mode: AddrMode::IMP, reg1: None, reg2: None, cond: CondType::C, param: None },
        0xD9 => Instruction { inst_type: InstType::RETI, mode: AddrMode::IMP, reg1: None, reg2: None, cond: CondType::NONE, param: None },
        0xDA => Instruction { inst_type: InstType::JP, mode: AddrMode::D16, reg1: None, reg2: None, cond: CondType::C, param: None },
        0xDC => Instruction { inst_type: InstType::CALL, mode: AddrMode::D16, reg1: None, reg2: None, cond: CondType::C, param: None },
        0xDE => Instruction { inst_type: InstType::SBC, mode: AddrMode::RxD8, reg1: Some(RegType::A), reg2: None, cond: CondType::NONE, param: None },
        0xDF => Instruction { inst_type: InstType::RST, mode: AddrMode::IMP, reg1: None, reg2: None, cond: CondType::NONE, param: Some(0x18) },
        0xE0 => Instruction { inst_type: InstType::LDH, mode: AddrMode::A8xR, reg1: None, reg2: Some(RegType::A), cond: CondType::NONE, param: None },
        0xE1 => Instruction { inst_type: InstType::POP, mode: AddrMode::R, reg1: Some(RegType::HL), reg2: None, cond: CondType::NONE, param: None },
        0xE2 => Instruction { inst_type: InstType::LD, mode: AddrMode::MRxR, reg1: Some(RegType::C), reg2: Some(RegType::A), cond: CondType::NONE, param: None },
        0xE5 => Instruction { inst_type: InstType::PUSH, mode: AddrMode::R, reg1: Some(RegType::HL), reg2: None, cond: CondType::NONE, param: None },
        0xE6 => Instruction { inst_type: InstType::AND, mode: AddrMode::RxD8, reg1: Some(RegType::A), reg2: None, cond: CondType::NONE, param: None },
        0xE7 => Instruction { inst_type: InstType::RST, mode: AddrMode::IMP, reg1: None, reg2: None, cond: CondType::NONE, param: Some(0x20) },
        0xE8 => Instruction { inst_type: InstType::ADD, mode: AddrMode::RxD8, reg1: Some(RegType::SP), reg2: None, cond: CondType::NONE, param: None },
        0xE9 => Instruction { inst_type: InstType::JP, mode: AddrMode::R, reg1: Some(RegType::HL), reg2: None, cond: CondType::NONE, param: None },
        0xEA => Instruction { inst_type: InstType::LD, mode: AddrMode::A16xR, reg1: None, reg2: Some(RegType::A), cond: CondType::NONE, param: None },
        0xEE => Instruction { inst_type: InstType::XOR, mode: AddrMode::RxD8, reg1: Some(RegType::A), reg2: None, cond: CondType::NONE, param: None },
        0xEF => Instruction { inst_type: InstType::RST, mode: AddrMode::IMP, reg1: None, reg2: None, cond: CondType::NONE, param: Some(0x28) },
        0xF0 => Instruction { inst_type: InstType::LDH, mode: AddrMode::RxA8, reg1: Some(RegType::A), reg2: None, cond: CondType::NONE, param: None },
        0xF1 => Instruction { inst_type: InstType::POP, mode: AddrMode::R, reg1: Some(RegType::AF), reg2: None, cond: CondType::NONE, param: None },
        0xF2 => Instruction { inst_type: InstType::LD, mode: AddrMode::RxMR, reg1: Some(RegType::A), reg2: Some(RegType::C), cond: CondType::NONE, param: None },
        0xF3 => Instruction { inst_type: InstType::DI, mode: AddrMode::IMP, reg1: None, reg2: None, cond: CondType::NONE, param: None },
        0xF5 => Instruction { inst_type: InstType::PUSH, mode: AddrMode::R, reg1: Some(RegType::AF), reg2: None, cond: CondType::NONE, param: None },
        0xF6 => Instruction { inst_type: InstType::OR, mode: AddrMode::RxD8, reg1: Some(RegType::A), reg2: None, cond: CondType::NONE, param: None },
        0xF7 => Instruction { inst_type: InstType::RST, mode: AddrMode::IMP, reg1: None, reg2: None, cond: CondType::NONE, param: Some(0x30) },
        0xF8 => Instruction { inst_type: InstType::LD, mode: AddrMode::HLxSPR, reg1: Some(RegType::HL), reg2: Some(RegType::SP), cond: CondType::NONE, param: None },
        0xF9 => Instruction { inst_type: InstType::LD, mode: AddrMode::RxR, reg1: Some(RegType::SP), reg2: Some(RegType::HL), cond: CondType::NONE, param: None },
        0xFA => Instruction { inst_type: InstType::LD, mode: AddrMode::RxA16, reg1: Some(RegType::A), reg2: None, cond: CondType::NONE, param: None },
        0xFB => Instruction { inst_type: InstType::EI, mode: AddrMode::IMP, reg1: None, reg2: None, cond: CondType::NONE, param: None },
        0xFE => Instruction { inst_type: InstType::CP, mode: AddrMode::RxD8, reg1: Some(RegType::A), reg2: None, cond: CondType::NONE, param: None },
        0xFF => Instruction { inst_type: InstType::RST, mode: AddrMode::IMP, reg1: None, reg2: None, cond: CondType::NONE, param: Some(0x38) },
        _ => Instruction { inst_type: InstType::NONE, mode: AddrMode::IMP, reg1: None, reg2: None, cond: CondType::NONE, param: None },
    }
}

/// Every entry of the opcode table is well formed.
pub proof fn lemma_table_wf(opcode: u8)
    ensures
        inst_by_opcode_spec(opcode).wf(),
{
    match opcode {
        0x00 => {},
        0x01 => {},
        0x02 => {},
        0x03 => {},
        0x04 => {},
        0x05 => {},
        0x06 => {},
        0x07 => {},
        0x08 => {},
        0x09 => {},
        0x0A => {},
        0x0B => {},
        0x0C => {},
        0x0D => {},
        0x0E => {},
        0x0F => {},
        0x10 => {},
        0x11 => {},
        0x12 => {},
        0x13 => {},
        0x14 => {},
        0x15 => {},
        0x16 => {},
        0x17 => {},
        0x18 => {},
        0x19 => {},
        0x1A => {},
        0x1B => {},
        0x1C => {},
        0x1D => {},
        0x1E => {},
        0x1F => {},
        0x20 => {},
        0x21 => {},
        0x22 => {},
        0x23 => {},
        0x24 => {},
        0x25 => {},
        0x26 => {},
        0x27 => {},
        0x28 => {},
        0x29 => {},
        0x2A => {},
        0x2B => {},
        0x2C => {},
        0x2D => {},
        0x2E => {},
        0x2F => {},
        0x30 => {},
        0x31 => {},
        0x32 => {},
        0x33 => {},
        0x34 => {},
        0x35 => {},
        0x36 => {},
        0x37 => {},
        0x38 => {},
        0x39 => {},
        0x3A => {},
        0x3B => {},
        0x3C => {},
        0x3D => {},
        0x3E => {},
        0x3F => {},
        0x40 => {},
        0x41 => {},
        0x42 => {},
        0x43 => {},
        0x44 => {},
        0x45 => {},
        0x46 => {},
        0x47 => {},
        0x48 => {},
        0x49 => {},
        0x4A => {},
        0x4B => {},
        0x4C => {},
        0x4D => {},
        0x4E => {},
        0x4F => {},
        0x50 => {},
        0x51 => {},
        0x52 => {},
        0x53 => {},
        0x54 => {},
        0x55 => {},
        0x56 => {},
        0x57 => {},
        0x58 => {},
        0x59 => {},
        0x5A => {},
        0x5B => {},
        0x5C => {},
        0x5D => {},
        0x5E => {},
        0x5F => {},
        0x60 => {},
        0x61 => {},
        0x62 => {},
        0x63 => {},
        0x64 => {},
        0x65 => {},
        0x66 => {},
        0x67 => {},
        0x68 => {},
        0x69 => {},
        0x6A => {},
        0x6B => {},
        0x6C => {},
        0x6D => {},
        0x6E => {},
        0x6F => {},
        0x70 => {},
        0x71 => {},
        0x72 => {},
        0x73 => {},
        0x74 => {},
        0x75 => {},
        0x76 => {},
        0x77 => {},
        0x78 => {},
        0x79 => {},
        0x7A => {},
        0x7B => {},
        0x7C => {},
        0x7D => {},
        0x7E => {},
        0x7F => {},
        0x80 => {},
        0x81 => {},
        0x82 => {},
        0x83 => {},
        0x84 => {},
        0x85 => {},
        0x86 => {},
        0x87 => {},
        0x88 => {},
        0x89 => {},
        0x8A => {},
        0x8B => {},
        0x8C => {},
        0x8D => {},
        0x8E => {},
        0x8F => {},
        0x90 => {},
        0x91 => {},
        0x92 => {},
        0x93 => {},
        0x94 => {},
        0x95 => {},
        0x96 => {},
        0x97 => {},
        0x98 => {},
        0x99 => {},
        0x9A => {},
        0x9B => {},
        0x9C => {},
        0x9D => {},
        0x9E => {},
        0x9F => {},
        0xA0 => {},
        0xA1 => {},
        0xA2 => {},
        0xA3 => {},
        0xA4 => {},
        0xA5 => {},
        0xA6 => {},
        0xA7 => {},
        0xA8 => {},
        0xA9 => {},
        0xAA => {},
        0xAB => {},
        0xAC => {},
        0xAD => {},
        0xAE => {},
        0xAF => {},
        0xB0 => {},
        0xB1 => {},
        0xB2 => {},
        0xB3 => {},
        0xB4 => {},
        0xB5 => {},
        0xB6 => {},
        0xB7 => {},
        0xB8 => {},
        0xB9 => {},
        0xBA => {},
        0xBB => {},
        0xBC => {},
        0xBD => {},
        0xBE => {},
        0xBF => {},
        0xC0 => {},
        0xC1 => {},
        0xC2 => {},
        0xC3 => {},
        0xC4 => {},
        0xC5 => {},
        0xC6 => {},
        0xC7 => {},
        0xC8 => {},
        0xC9 => {},
        0xCA => {},
        0xCB => {},
        0xCC => {},
        0xCD => {},
        0xCE => {},
        0xCF => {},
        0xD0 => {},
        0xD1 => {},
        0xD2 => {},
        0xD3 => {},
        0xD4 => {},
        0xD5 => {},
        0xD6 => {},
        0xD7 => {},
        0xD8 => {},
        0xD9 => {},
        0xDA => {},
        0xDB => {},
        0xDC => {},
        0xDD => {},
        0xDE => {},
        0xDF => {},
        0xE0 => {},
        0xE1 => {},
        0xE2 => {},
        0xE3 => {},
        0xE4 => {},
        0xE5 => {},
        0xE6 => {},
        0xE7 => {},
        0xE8 => {},
        0xE9 => {},
        0xEA => {},
        0xEB => {},
        0xEC => {},
        0xED => {},
        0xEE => {},
        0xEF => {},
        0xF0 => {},
        0xF1 => {},
        0xF2 => {},
        0xF3 => {},
        0xF4 => {},
        0xF5 => {},
        0xF6 => {},
        0xF7 => {},
        0xF8 => {},
        0xF9 => {},
        0xFA => {},
        0xFB => {},
        0xFC => {},
        0xFD => {},
        0xFE => {},
        _ => {},
    }
}

impl RegType {
    pub fn is_16_bit(&self) -> (r: bool)
        ensures
            r == self.is_16_bit_spec(),
    {
        match self {
            RegType::AF | RegType::BC | RegType::DE | RegType::HL | RegType::SP | RegType::PC => true,
            _ => false,
        }
    }
}

impl Instruction {
    pub fn is_executable(&self) -> (r: bool)
        ensures
            r == self.executable(),
    {
        match self.inst_type {
            InstType::NONE | InstType::STOP | InstType::JPHL => false,
            _ => true,
        }
    }
}

} // verus!
