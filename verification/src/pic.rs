//! The two cascaded 8259 interrupt controllers: the writes that move their
//! vectors out of the range of the CPU's exceptions.

use vstd::prelude::*;

use crate::port::PortWrite;

verus! {

/// Command port of the master controller.
pub const MASTER_COMMAND: u16 = 0x20;

/// Data port of the master controller; read, it gives its interrupt mask.
pub const MASTER_DATA: u16 = 0x21;

/// Command port of the slave controller.
pub const SLAVE_COMMAND: u16 = 0xA0;

/// Data port of the slave controller; read, it gives its interrupt mask.
pub const SLAVE_DATA: u16 = 0xA1;

/// The writes that remap the controllers, given the masks read from their
/// data ports beforehand: both are initialised in cascade mode, the master's
/// vectors start at 0x20 and the slave's at 0x28, the slave hangs on line 2
/// of the master, both run in 8086 mode, and at the end the masks are put
/// back, the master's with line 0 (the timer) unmasked.
pub open spec fn remap_writes(master_mask: u8, slave_mask: u8) -> Seq<PortWrite> {
    seq![
        PortWrite { port: 0x20, value: 0x11 },
        PortWrite { port: 0xA0, value: 0x11 },
        PortWrite { port: 0x21, value: 0x20 },
        PortWrite { port: 0xA1, value: 0x28 },
        PortWrite { port: 0x21, value: 0x04 },
        PortWrite { port: 0xA1, value: 0x02 },
        PortWrite { port: 0x21, value: 0x01 },
        PortWrite { port: 0xA1, value: 0x01 },
        PortWrite { port: 0x21, value: master_mask & 0xFE },
        PortWrite { port: 0xA1, value: slave_mask },
    ]
}

/// The writes that remap the controllers, in the order in which they are to
/// be made. `master_mask` and `slave_mask` are what the data ports of the two
/// controllers held before.
pub fn pic_remap(master_mask: u8, slave_mask: u8) -> (writes: [PortWrite; 10])
    ensures
        writes@ == remap_writes(master_mask, slave_mask),
{
    let init: u8 = 0x10 | 0x01;
    let mode_8086: u8 = 0x01;
    assert(0x10u8 | 0x01u8 == 0x11u8) by (bit_vector);
    assert(master_mask & !0x01u8 == master_mask & 0xFEu8) by (bit_vector);
    let writes = [
        PortWrite { port: MASTER_COMMAND, value: init },
        PortWrite { port: SLAVE_COMMAND, value: init },
        PortWrite { port: MASTER_DATA, value: 0x20 },
        PortWrite { port: SLAVE_DATA, value: 0x28 },
        PortWrite { port: MASTER_DATA, value: 4 },
        PortWrite { port: SLAVE_DATA, value: 2 },
        PortWrite { port: MASTER_DATA, value: mode_8086 },
        PortWrite { port: SLAVE_DATA, value: mode_8086 },
        PortWrite { port: MASTER_DATA, value: master_mask & !0x01 },
        PortWrite { port: SLAVE_DATA, value: slave_mask },
    ];
    writes
}

} // verus!
