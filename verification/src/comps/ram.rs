//! Work RAM and high RAM.
use vstd::prelude::*;

verus! {

/// 8 KiB of work RAM at `$C000` and 128 bytes of high RAM at `$FF80`.
#[derive(Clone, Copy, Debug)]
pub struct RAMContext {
    pub wram: [u8; 0x2000],
    pub hram: [u8; 0x80],
}

impl RAMContext {
    pub open spec fn wram_read_spec(self, address: u16) -> u8 {
        self.wram[address - 0xC000]
    }

    pub open spec fn hram_read_spec(self, address: u16) -> u8 {
        self.hram[address - 0xFF80]
    }

    /// This memory with `value` stored at work-RAM address `address`.
    pub open spec fn wram_write_spec(self, address: u16, value: u8) -> RAMContext {
        RAMContext {
            wram: vstd::array::spec_array_update(self.wram, address - 0xC000, value),
            ..self
        }
    }

    /// This memory with `value` stored at high-RAM address `address`.
    pub open spec fn hram_write_spec(self, address: u16, value: u8) -> RAMContext {
        RAMContext {
            hram: vstd::array::spec_array_update(self.hram, address - 0xFF80, value),
            ..self
        }
    }

    /// Whether both memories hold nothing but zeros.
    pub open spec fn zeroed(self) -> bool {
        &&& forall|i: int| 0 <= i < 0x2000 ==> self.wram[i] == 0
        &&& forall|i: int| 0 <= i < 0x80 ==> self.hram[i] == 0
    }

    pub fn new() -> (ram: RAMContext)
        ensures
            ram.zeroed(),
    {
        RAMContext { wram: [0; 0x2000], hram: [0; 0x80] }
    }

    pub fn wram_read(&self, address: u16) -> (r: u8)
        requires
            0xC000 <= address < 0xE000,
        ensures
            r == self.wram_read_spec(address),
    {
        self.wram[(address - 0xC000) as usize]
    }

    pub fn wram_write(&mut self, address: u16, value: u8)
        requires
            0xC000 <= address < 0xE000,
        ensures
            *final(self) == old(self).wram_write_spec(address, value),
    {
        self.wram[(address - 0xC000) as usize] = value;
    }

    pub fn hram_read(&self, address: u16) -> (r: u8)
        requires
            0xFF80 <= address,
        ensures
            r == self.hram_read_spec(address),
    {
        self.hram[(address - 0xFF80) as usize]
    }

    pub fn hram_write(&mut self, address: u16, value: u8)
        requires
            0xFF80 <= address,
        ensures
            *final(self) == old(self).hram_write_spec(address, value),
    {
        self.hram[(address - 0xFF80) as usize] = value;
    }
}

} // verus!
