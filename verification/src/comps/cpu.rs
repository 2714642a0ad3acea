//! The CPU's register file and control state.
use vstd::prelude::*;
use crate::comps::common::{
    bit,
    bit_set,
    bit_set_spec,
    bit_spec,
    lemma_bit_set_get,
    lemma_bit_set_other,
};
use crate::comps::instructions::{inst_by_opcode, inst_by_opcode_spec, Instruction, RegType};
use crate::comps::interrupts::InterruptType;

verus! {

/// The eight byte registers and the two word registers.
#[derive(Clone, Copy, PartialEq, Eq, Structural, Debug)]
pub struct Registers {
    pub a: u8,
    pub f: u8,
    pub b: u8,
    pub c: u8,
    pub d: u8,
    pub e: u8,
    pub h: u8,
    pub l: u8,
    pub pc: u16,
    pub sp: u16,
}

/// Everything the CPU carries from one micro-step to the next.
#[derive(Clone, Copy, PartialEq, Eq, Structural, Debug)]
pub struct CPUContext {
    pub registers: Registers,
    pub fetched_data: u16,
    pub mem_dest: u16,
    pub dest_is_mem: bool,
    pub cur_opcode: u8,
    pub cur_inst: Instruction,
    pub halted: bool,
    pub stepping: bool,
    pub int_master_enabled: bool,
    pub enabling_ime: bool,
    pub int_flags: u8,
    pub ie_register: u8,
}

/// The word made of a high and a low byte.
pub open spec fn word_spec(hi: u8, lo: u8) -> u16 {
    (hi as u16 * 256 + lo as u16) as u16
}

/// The high byte of a word.
pub open spec fn hi_spec(v: u16) -> u8 {
    (v / 256) as u8
}

/// The low byte of a word.
pub open spec fn lo_spec(v: u16) -> u8 {
    (v % 256) as u8
}

pub fn word(hi: u8, lo: u8) -> (r: u16)
    ensures
        r == word_spec(hi, lo),
{
    hi as u16 * 256 + lo as u16
}

pub fn hi(v: u16) -> (r: u8)
    ensures
        r == hi_spec(v),
{
    (v / 256) as u8
}

pub fn lo(v: u16) -> (r: u8)
    ensures
        r == lo_spec(v),
{
    (v % 256) as u8
}

/// The flag byte that a write to AF stores for low byte `b`: the four flags,
/// over a low nibble that is always zero.
pub open spec fn flags_spec(b: u8) -> u8 {
    b & 0xF0
}

/// The flag byte after each given flag is forced and the others are kept.
pub open spec fn set_flags_spec(
    f: u8,
    z: Option<bool>,
    n: Option<bool>,
    h: Option<bool>,
    c: Option<bool>,
) -> u8 {
    let f1 = match z {
        Some(b) => bit_set_spec(f, 7, b),
        None => f,
    };
    let f2 = match n {
        Some(b) => bit_set_spec(f1, 6, b),
        None => f1,
    };
    let f3 = match h {
        Some(b) => bit_set_spec(f2, 5, b),
        None => f2,
    };
    match c {
        Some(b) => bit_set_spec(f3, 4, b),
        None => f3,
    }
}

/// Whether `after` is `before` with nothing but the pending interrupts
/// changed.
pub open spec fn only_interrupts_differ(before: CPUContext, after: CPUContext) -> bool {
    after == (CPUContext { int_flags: after.int_flags, ..before })
}

impl Registers {
    /// The value of register `rt`, a byte register widened to a word.
    pub open spec fn read(self, rt: RegType) -> u16 {
        match rt {
            RegType::NONE => 0,
            RegType::A => self.a as u16,
            RegType::F => self.f as u16,
            RegType::B => self.b as u16,
            RegType::C => self.c as u16,
            RegType::D => self.d as u16,
            RegType::E => self.e as u16,
            RegType::H => self.h as u16,
            RegType::L => self.l as u16,
            RegType::AF => word_spec(self.a, self.f),
            RegType::BC => word_spec(self.b, self.c),
            RegType::DE => word_spec(self.d, self.e),
            RegType::HL => word_spec(self.h, self.l),
            RegType::PC => self.pc,
            RegType::SP => self.sp,
        }
    }

    /// The register file after `val` is stored in `rt`; a byte register takes
    /// the low byte, and a write to AF leaves the low nibble of F zero.
    pub open spec fn write(self, rt: RegType, val: u16) -> Registers {
        match rt {
            RegType::NONE => self,
            RegType::A => Registers { a: lo_spec(val), ..self },
            RegType::F => Registers { f: lo_spec(val), ..self },
            RegType::B => Registers { b: lo_spec(val), ..self },
            RegType::C => Registers { c: lo_spec(val), ..self },
            RegType::D => Registers { d: lo_spec(val), ..self },
            RegType::E => Registers { e: lo_spec(val), ..self },
            RegType::H => Registers { h: lo_spec(val), ..self },
            RegType::L => Registers { l: lo_spec(val), ..self },
            RegType::AF => Registers { a: hi_spec(val), f: flags_spec(lo_spec(val)), ..self },
            RegType::BC => Registers { b: hi_spec(val), c: lo_spec(val), ..self },
            RegType::DE => Registers { d: hi_spec(val), e: lo_spec(val), ..self },
            RegType::HL => Registers { h: hi_spec(val), l: lo_spec(val), ..self },
            RegType::PC => Registers { pc: val, ..self },
            RegType::SP => Registers { sp: val, ..self },
        }
    }
}

impl CPUContext {
    /// The CPU as it stands when the boot sequence hands over to the
    /// cartridge.
    pub open spec fn power_on() -> CPUContext {
        CPUContext {
            registers: Registers {
                a: 0x01,
                f: 0xB0,
                b: 0x00,
                c: 0x13,
                d: 0x00,
                e: 0xD8,
                h: 0x01,
                l: 0x4D,
                pc: 0x100,
                sp: 0xFFFE,
            },
            fetched_data: 0,
            mem_dest: 0,
            dest_is_mem: false,
            cur_opcode: 0,
            cur_inst: inst_by_opcode_spec(0),
            halted: false,
            stepping: true,
            int_master_enabled: false,
            enabling_ime: false,
            int_flags: 0,
            ie_register: 0,
        }
    }

    pub fn new() -> (cpu: CPUContext)
        ensures
            cpu == CPUContext::power_on(),
    {
        CPUContext {
            registers: Registers {
                a: 0x01,
                f: 0xB0,
                b: 0x00,
                c: 0x13,
                d: 0x00,
                e: 0xD8,
                h: 0x01,
                l: 0x4D,
                pc: 0x100,
                sp: 0xFFFE,
            },
            ie_register: 0,
            int_flags: 0,
            int_master_enabled: false,
            enabling_ime: false,
            fetched_data: 0,
            mem_dest: 0,
            dest_is_mem: false,
            cur_opcode: 0,
            cur_inst: inst_by_opcode(0),
            halted: false,
            stepping: true,
        }
    }

    /// This CPU with another register file.
    pub open spec fn with_registers(self, registers: Registers) -> CPUContext {
        CPUContext { registers, ..self }
    }

    /// This CPU with another flag byte.
    pub open spec fn with_f(self, f: u8) -> CPUContext {
        self.with_registers(Registers { f, ..self.registers })
    }

    /// This CPU after the given flags are forced.
    pub open spec fn with_flags(
        self,
        z: Option<bool>,
        n: Option<bool>,
        h: Option<bool>,
        c: Option<bool>,
    ) -> CPUContext {
        self.with_f(set_flags_spec(self.registers.f, z, n, h, c))
    }

    /// This CPU with interrupt line `int_type` pending.
    pub open spec fn with_interrupt(self, int_type: InterruptType) -> CPUContext {
        CPUContext { int_flags: self.int_flags | int_type.mask_spec(), ..self }
    }

    pub open spec fn flag_z_spec(&self) -> bool {
        bit_spec(self.registers.f, 7)
    }

    pub open spec fn flag_n_spec(&self) -> bool {
        bit_spec(self.registers.f, 6)
    }

    pub open spec fn flag_h_spec(&self) -> bool {
        bit_spec(self.registers.f, 5)
    }

    pub open spec fn flag_c_spec(&self) -> bool {
        bit_spec(self.registers.f, 4)
    }

    pub fn set_flags(
        &mut self,
        z: Option<bool>,
        n: Option<bool>,
        h: Option<bool>,
        c: Option<bool>,
    )
        ensures
            *final(self) == old(self).with_flags(z, n, h, c),
            final(self).registers.f & 0x0F == old(self).registers.f & 0x0F,
    {
        proof {
            lemma_set_flags_low_nibble(self.registers.f, z, n, h, c);
        }
        let mut flags: u8 = self.registers.f;
        if let Some(z) = z {
            bit_set(&mut flags, 7, z);
        }
        if let Some(n) = n {
            bit_set(&mut flags, 6, n);
        }
        if let Some(h) = h {
            bit_set(&mut flags, 5, h);
        }
        if let Some(c) = c {
            bit_set(&mut flags, 4, c);
        }
        self.registers.f = flags;
    }

    #[verifier::when_used_as_spec(flag_z_spec)]
    pub fn flag_z(&self) -> (r: bool)
        ensures
            r == self.flag_z_spec(),
    {
        bit(self.registers.f, 7)
    }

    #[verifier::when_used_as_spec(flag_n_spec)]
    pub fn flag_n(&self) -> (r: bool)
        ensures
            r == self.flag_n_spec(),
    {
        bit(self.registers.f, 6)
    }

    #[verifier::when_used_as_spec(flag_h_spec)]
    pub fn flag_h(&self) -> (r: bool)
        ensures
            r == self.flag_h_spec(),
    {
        bit(self.registers.f, 5)
    }

    #[verifier::when_used_as_spec(flag_c_spec)]
    pub fn flag_c(&self) -> (r: bool)
        ensures
            r == self.flag_c_spec(),
    {
        bit(self.registers.f, 4)
    }

    pub fn get_ie_reg(&self) -> (r: u8)
        ensures
            r == self.ie_register,
    {
        self.ie_register
    }

    pub fn set_ie_reg(&mut self, value: u8)
        ensures
            *final(self) == (CPUContext { ie_register: value, ..*old(self) }),
    {
        self.ie_register = value;
    }

    pub fn request_interrupt(&mut self, int_type: InterruptType)
        ensures
            *final(self) == old(self).with_interrupt(int_type),
    {
        self.int_flags |= int_type.mask();
    }
}

/// What a flag byte stored through AF holds: a zero low nibble, and the
/// high nibble of the byte it was made from; a byte whose low nibble is zero
/// is stored as it is.
pub proof fn lemma_flags_byte(b: u8)
    by (bit_vector)
    ensures
        (b & 0xF0) & 0x0F == 0,
        (b & 0xF0) & 0xF0 == b & 0xF0,
        b & 0x0F == 0 ==> b & 0xF0 == b,
{
}

/// A register pair reads as the word that was written to it, but that AF
/// reads with the low nibble of F zero; SP and PC read as written.
pub proof fn lemma_register_round_trip(regs: Registers, rt: RegType, val: u16)
    requires
        rt.is_16_bit_spec(),
    ensures
        regs.write(rt, val).read(rt) == if rt == RegType::AF {
            word_spec(hi_spec(val), flags_spec(lo_spec(val)))
        } else {
            val
        },
{
}

/// Forcing flags never touches the low nibble of the flag byte.
pub proof fn lemma_set_flags_low_nibble(
    f: u8,
    z: Option<bool>,
    n: Option<bool>,
    h: Option<bool>,
    c: Option<bool>,
)
    ensures
        set_flags_spec(f, z, n, h, c) & 0x0F == f & 0x0F,
{
    assert forall|x: u8, k: u8, on: bool| 4 <= k < 8 implies #[trigger] bit_set_spec(x, k, on)
        & 0x0F == x & 0x0F by {
        assert((x | (1u8 << k)) & 0x0F == x & 0x0F) by (bit_vector)
            requires
                4 <= k < 8,
        ;
        assert((x & !(1u8 << k)) & 0x0F == x & 0x0F) by (bit_vector)
            requires
                4 <= k < 8,
        ;
    }
}

/// A flag that was forced reads as it was forced, and one that was not
/// reads as before.
pub proof fn lemma_flags_after(
    cpu: CPUContext,
    z: Option<bool>,
    n: Option<bool>,
    h: Option<bool>,
    c: Option<bool>,
)
    ensures
        cpu.with_flags(z, n, h, c).flag_z_spec() == if z is Some {
            z.unwrap()
        } else {
            cpu.flag_z_spec()
        },
        cpu.with_flags(z, n, h, c).flag_n_spec() == if n is Some {
            n.unwrap()
        } else {
            cpu.flag_n_spec()
        },
        cpu.with_flags(z, n, h, c).flag_h_spec() == if h is Some {
            h.unwrap()
        } else {
            cpu.flag_h_spec()
        },
        cpu.with_flags(z, n, h, c).flag_c_spec() == if c is Some {
            c.unwrap()
        } else {
            cpu.flag_c_spec()
        },
{
    assert forall|x: u8, k: u8, on: bool| k < 8 implies bit_spec(
        #[trigger] bit_set_spec(x, k, on),
        k,
    ) == on by {
        lemma_bit_set_get(x, k, on);
    }
    assert forall|x: u8, k: u8, j: u8, on: bool| k < 8 && j < 8 && k != j implies #[trigger] bit_spec(
        bit_set_spec(x, k, on),
        j,
    ) == bit_spec(x, j) by {
        lemma_bit_set_other(x, k, j, on);
    }
}

} // verus!
