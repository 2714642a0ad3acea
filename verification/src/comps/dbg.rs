//! The serial port as a debug channel: test programs write a character to
//! `$FF01` and `$81` to `$FF02`.
use vstd::prelude::*;
use crate::comps::bus::{bus_read, bus_read_spec, bus_write, bus_write_spec};
use crate::comps::cpu::CPUContext;
use crate::comps::emu::{machine, EmulatorContext, Machine};

verus! {

/// The most characters a message can hold.
pub const DBG_LIMIT: usize = 1024;

/// The characters collected so far: the first `size` bytes of `msg`.
#[derive(Clone, Copy, Debug)]
pub struct DebugContext {
    pub msg: [u8; 1024],
    pub size: usize,
}

/// Whether a character waits on the serial port.
pub open spec fn dbg_ready(m: Machine) -> bool {
    bus_read_spec(m, 0xFF02) == 0x81
}

impl DebugContext {
    /// The message so far.
    pub open spec fn text(self) -> Seq<u8> {
        self.msg@.subrange(0, self.size as int)
    }

    pub open spec fn wf(self) -> bool {
        self.size <= DBG_LIMIT
    }

    /// An empty message.
    pub fn new() -> (dbg: DebugContext)
        ensures
            dbg.wf(),
            dbg.size == 0,
            dbg.blank_from(0),
            dbg.text() == Seq::<u8>::empty(),
    {
        let dbg = DebugContext { msg: [0x20; 1024], size: 0 };
        assert(dbg.text() =~= Seq::<u8>::empty());
        dbg
    }

    /// Whether every byte of the buffer from index `from` on is a space,
    /// as all of them are before the first character arrives.
    pub open spec fn blank_from(self, from: int) -> bool {
        forall|i: int| from <= i < DBG_LIMIT ==> self.msg[i] == 0x20
    }
}

/// Collects the character that waits on the serial port, if one does, and
/// acknowledges it by clearing `$FF02`.
pub fn dbg_update(cpu: &mut CPUContext, emu: &mut EmulatorContext, dbg: &mut DebugContext)
    requires
        old(emu).wf(),
        old(dbg).size < DBG_LIMIT,
    ensures
        final(emu).wf(),
        final(dbg).wf(),
        dbg_ready(machine(old(cpu), old(emu))) ==> {
            &&& final(dbg).text() == old(dbg).text().push(
                bus_read_spec(machine(old(cpu), old(emu)), 0xFF01),
            )
            &&& final(dbg).size == old(dbg).size + 1
            &&& old(dbg).blank_from(old(dbg).size as int) ==> final(dbg).blank_from(
                final(dbg).size as int,
            )
            &&& machine(final(cpu), final(emu)) == bus_write_spec(
                machine(old(cpu), old(emu)),
                0xFF02,
                0,
            )
        },
        !dbg_ready(machine(old(cpu), old(emu))) ==> {
            &&& *final(dbg) == *old(dbg)
            &&& machine(final(cpu), final(emu)) == machine(old(cpu), old(emu))
        },
{
    if bus_read(cpu, emu, 0xFF02) == 0x81 {
        let c: u8 = bus_read(cpu, emu, 0xFF01);
        dbg.msg[dbg.size] = c;
        dbg.size += 1;
        bus_write(cpu, emu, 0xFF02, 0);
        assert(dbg.text() =~= old(dbg).text().push(c));
    }
}

} // verus!
