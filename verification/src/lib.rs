//! The verified core of a small x86-64 kernel.
//!
//! The heart of it is the memory that the kernel has at boot: the loader's
//! memory map (`memory_map`), the first-fit choice of a heap arena among its
//! regions (`selector`), the bump allocator over that arena, for a single
//! owner (`bump`) and shared through an atomic cursor (`allocator`), what
//! holds of every run of it (`trace`), and bringing the heap up (`boot`).
//!
//! Around it stand the values that program the devices of the machine: the
//! serial port (`serial`), the interrupt controllers (`pic`), the interval
//! timer (`time`), the control registers (`cpu`), and the geometry and the
//! glyphs of the framebuffer (`framebuffer`, `font_renderer`). Nothing here
//! touches a device: the caller performs the port and memory accesses.

pub mod allocator;
pub mod boot;
pub mod bump;
pub mod cpu;
pub mod font_renderer;
pub mod framebuffer;
pub mod memory_map;
pub mod pic;
pub mod port;
pub mod selector;
pub mod serial;
pub mod time;
pub mod trace;
