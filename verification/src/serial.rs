//! The first serial port (COM1) as the kernel's diagnostic channel: the
//! register writes that set it up and that send a string, byte by byte and
//! without any allocation.

use vstd::prelude::*;
use vstd::string::StringSliceAdditionalSpecFns;

use crate::port::PortWrite;

verus! {

/// Base port of COM1, which is also its data register.
pub const COM1: u16 = 0x3F8;

/// The line status register of COM1.
pub const LINE_STATUS: u16 = 0x3FD;

/// The bit of the line status register that is set while the transmitter
/// can take a byte.
pub const TRANSMITTER_EMPTY: u8 = 0x20;

/// The writes that set COM1 up: interrupts off, divisor 3 (38400 baud),
/// 8 bits without parity and with one stop bit, FIFO on and cleared with a
/// threshold of 14 bytes, and the modem lines raised.
pub open spec fn init_writes() -> Seq<PortWrite> {
    seq![
        PortWrite { port: 0x3F9, value: 0x00 },
        PortWrite { port: 0x3FB, value: 0x80 },
        PortWrite { port: 0x3F8, value: 0x03 },
        PortWrite { port: 0x3F9, value: 0x00 },
        PortWrite { port: 0x3FB, value: 0x03 },
        PortWrite { port: 0x3FA, value: 0xC7 },
        PortWrite { port: 0x3FC, value: 0x0B },
    ]
}

/// The writes that set COM1 up, in the order in which they are to be made.
pub fn serial_init() -> (writes: [PortWrite; 7])
    ensures
        writes@ == init_writes(),
{
    let writes = [
        PortWrite { port: COM1 + 1, value: 0x00 },
        PortWrite { port: COM1 + 3, value: 0x80 },
        PortWrite { port: COM1, value: 0x03 },
        PortWrite { port: COM1 + 1, value: 0x00 },
        PortWrite { port: COM1 + 3, value: 0x03 },
        PortWrite { port: COM1 + 2, value: 0xC7 },
        PortWrite { port: COM1 + 4, value: 0x0B },
    ];
    writes
}

/// Whether the transmitter can take a byte, given what the line status
/// register holds.
pub fn transmitter_ready(line_status: u8) -> (ready: bool)
    ensures
        ready == (line_status & TRANSMITTER_EMPTY != 0),
{
    (line_status & TRANSMITTER_EMPTY) != 0
}

/// The write that sends one byte, to be made once the transmitter is ready.
pub fn serial_write_byte(c: u8) -> (write: PortWrite)
    ensures
        write == (PortWrite { port: COM1, value: c }),
{
    PortWrite { port: COM1, value: c }
}

/// The write that sends byte `sent` of a text, or `None` past its end.
pub open spec fn transmission(bytes: Seq<u8>, sent: int) -> Option<PortWrite> {
    if 0 <= sent < bytes.len() {
        Some(PortWrite { port: COM1, value: bytes[sent] })
    } else {
        None
    }
}

/// Sending a string: the write for its next byte, where `sent` bytes have
/// been sent already, or `None` where the whole string has been sent. The
/// bytes go out in the order of the string's UTF-8 encoding, one write each.
pub fn serial_write_str(s: &str, sent: usize) -> (write: Option<PortWrite>)
    ensures
        write == transmission(s.spec_bytes(), sent as int),
{
    let bytes = s.as_bytes();
    if sent < bytes.len() {
        Some(serial_write_byte(bytes[sent]))
    } else {
        None
    }
}

} // verus!
