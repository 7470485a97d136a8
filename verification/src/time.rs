//! The programmable interval timer: the writes that make channel 0 tick at a
//! given rate.

use vstd::prelude::*;

use crate::port::PortWrite;

verus! {

/// Data port of channel 0.
pub const PIT_CH0: u16 = 0x40;

/// The mode and command port.
pub const PIT_CMD: u16 = 0x43;

/// The rate of the timer's input clock, in Hz.
pub const PIT_FREQUENCY: u32 = 1_193_182;

/// The divisor that is loaded for a rate of `hz`: the input clock divided by
/// the rate, of which the counter keeps the low 16 bits.
pub open spec fn pit_divisor(hz: u32) -> nat {
    ((PIT_FREQUENCY / hz) % 0x10000) as nat
}

/// The writes that start channel 0 at `hz`: binary counting in mode 3
/// (square wave) with the divisor loaded low byte first, then the two bytes
/// of the divisor.
pub open spec fn init_writes(hz: u32) -> Seq<PortWrite> {
    seq![
        PortWrite { port: 0x43, value: 0x36 },
        PortWrite { port: 0x40, value: (pit_divisor(hz) % 0x100) as u8 },
        PortWrite { port: 0x40, value: (pit_divisor(hz) / 0x100) as u8 },
    ]
}

/// The writes that start channel 0 at `hz`, in the order in which they are
/// to be made.
pub fn pit_init(hz: u32) -> (writes: [PortWrite; 3])
    requires
        hz > 0,
    ensures
        writes@ == init_writes(hz),
{
    let quotient: u32 = PIT_FREQUENCY / hz;
    let divisor: u16 = quotient as u16;
    let low: u8 = (divisor & 0xFF) as u8;
    let high: u8 = (divisor >> 8) as u8;
    assert(divisor == quotient % 0x10000) by (bit_vector)
        requires
            divisor == quotient as u16,
    ;
    assert(low == divisor % 0x100 && high == divisor / 0x100) by (bit_vector)
        requires
            low == (divisor & 0xFF) as u8,
            high == (divisor >> 8) as u8,
    ;
    let writes = [
        PortWrite { port: PIT_CMD, value: 0x36 },
        PortWrite { port: PIT_CH0, value: low },
        PortWrite { port: PIT_CH0, value: high },
    ];
    writes
}

} // verus!
