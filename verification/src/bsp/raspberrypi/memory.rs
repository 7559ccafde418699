//! The board's physical memory layout.
//!
//! The board firmware copies the kernel binary to `0x8_0000`; the region
//! below it serves as the boot core's stack.  The start and exclusive end of
//! the code segment are linker-provided values, handed in by the embedder.

pub mod memory_map;
pub mod mmu;
