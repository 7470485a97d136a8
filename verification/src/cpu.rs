//! Control register values.

use vstd::prelude::*;

verus! {

/// Bit 1 of CR0: the numeric coprocessor is monitored.
pub const CR0_MP: u64 = 0x2;

/// Bit 2 of CR0: floating point is emulated.
pub const CR0_EM: u64 = 0x4;

/// Bit 9 of CR4: the system saves and restores the SSE state.
pub const CR4_OSFXSR: u64 = 0x200;

/// Bit 10 of CR4: the system handles SSE exceptions.
pub const CR4_OSXMMEXCPT: u64 = 0x400;

/// What CR0 and CR4 are to hold so that SSE instructions can run, given what
/// they hold now: in CR0 the monitor bit is set and the emulation bit
/// cleared, in CR4 both SSE bits are set, and every other bit stays.
pub fn enable_sse(cr0: u64, cr4: u64) -> (r: (u64, u64))
    ensures
        r.0 == (cr0 | CR0_MP) & !CR0_EM,
        r.1 == cr4 | CR4_OSFXSR | CR4_OSXMMEXCPT,
{
    ((cr0 | CR0_MP) & !CR0_EM, cr4 | CR4_OSFXSR | CR4_OSXMMEXCPT)
}

} // verus!
