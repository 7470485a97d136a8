//! Port I/O as data: what is to be written to which port.

use vstd::prelude::*;

verus! {

/// One byte to be written to one I/O port.
#[derive(Clone, Copy, Debug, PartialEq, Eq, Structural)]
pub struct PortWrite {
    pub port: u16,
    pub value: u8,
}

} // verus!
