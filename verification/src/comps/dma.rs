//! The engine that copies one page of memory into the object attribute
//! memory, one byte per machine cycle.
use vstd::prelude::*;
use crate::comps::ppu::PPUContext;

verus! {

/// The state of a transfer: `value` is the source page, `byte` the index of
/// the next byte, `start_delay` the machine cycles left before the first
/// copy.
#[derive(Clone, Copy, PartialEq, Eq, Structural, Debug)]
pub struct DMAContext {
    pub active: bool,
    pub byte: u8,
    pub value: u8,
    pub start_delay: u8,
}

impl DMAContext {
    /// A running transfer has copied fewer than 160 bytes.
    pub open spec fn wf(self) -> bool {
        self.active ==> self.byte < 0xA0
    }

    /// A transfer from page `start` that was armed this instant.
    pub open spec fn started(start: u8) -> DMAContext {
        DMAContext { active: true, byte: 0, value: start, start_delay: 2 }
    }

    /// The address the next byte is copied from.
    pub open spec fn source_spec(self) -> u16 {
        (self.value as u16 * 0x100 + self.byte as u16) as u16
    }

    /// Whether the next machine cycle copies a byte.
    pub open spec fn copies(self) -> bool {
        self.active && self.start_delay == 0
    }

    /// The engine one machine cycle later.
    pub open spec fn tick_spec(self) -> DMAContext {
        if !self.active {
            self
        } else if self.start_delay != 0 {
            DMAContext { start_delay: (self.start_delay - 1) as u8, ..self }
        } else {
            DMAContext { byte: (self.byte + 1) as u8, active: self.byte + 1 < 0xA0, ..self }
        }
    }

    pub open spec fn transferring_spec(&self) -> bool {
        self.active
    }

    /// An engine that has never run.
    pub open spec fn idle() -> DMAContext {
        DMAContext { active: false, byte: 0, value: 0, start_delay: 0 }
    }

    pub fn new() -> (dma: DMAContext)
        ensures
            dma == DMAContext::idle(),
            dma.wf(),
    {
        DMAContext { active: false, byte: 0, value: 0, start_delay: 0 }
    }

    pub fn start(&mut self, start: u8)
        ensures
            *final(self) == DMAContext::started(start),
            final(self).wf(),
    {
        self.active = true;
        self.byte = 0;
        self.start_delay = 2;
        self.value = start;
    }

    #[verifier::when_used_as_spec(transferring_spec)]
    pub fn transferring(&self) -> (r: bool)
        ensures
            r == self.active,
    {
        self.active
    }

    /// Advances the engine by one machine cycle. `data` is the byte the bus
    /// holds at `source()`; when the engine copies this cycle, it goes to
    /// byte `byte` of the object attribute memory.
    pub fn tick(&mut self, data: u8, ppu: &mut PPUContext)
        requires
            old(self).wf(),
        ensures
            *final(self) == old(self).tick_spec(),
            final(self).wf(),
            final(ppu)@ == if old(self).copies() {
                old(ppu)@.oam_write_spec(old(self).byte as u16, data)
            } else {
                old(ppu)@
            },
    {
        if !self.active {
            return ;
        }
        if self.start_delay != 0 {
            self.start_delay -= 1;
            return ;
        }
        ppu.oam_write(self.byte as u16, data);
        self.byte += 1;
        self.active = self.byte < 0xA0;
    }

    /// The address the next byte is copied from.
    pub fn source(&self) -> (r: u16)
        ensures
            r == self.source_spec(),
    {
        self.value as u16 * 0x100 + self.byte as u16
    }
}

} // verus!
