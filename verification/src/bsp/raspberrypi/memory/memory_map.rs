//! The board's physical memory map.

use vstd::prelude::*;

verus! {

/// The inclusive end address of the memory map.  `END_INCLUSIVE + 1` must be
/// a power of two; the map spans 4 GiB regardless of the fitted RAM so the
/// whole MMIO region can be covered in one take.
pub const END_INCLUSIVE: u64 = 0xFFFF_FFFF;

/// Offset of the GPIO block inside the MMIO region.
pub const GPIO_OFFSET: u64 = 0x0020_0000;

/// Offset of the PL011 UART inside the MMIO region.
pub const UART_OFFSET: u64 = 0x0020_1000;

/// Physical start of the memory-mapped devices.
pub const MMIO_START: u64 = 0x3F00_0000;

/// Physical base of the GPIO block.
pub const MMIO_GPIO_START: u64 = MMIO_START + GPIO_OFFSET;

/// Physical base of the PL011 UART.
pub const MMIO_PL011_UART_START: u64 = MMIO_START + UART_OFFSET;

/// Inclusive physical end of the memory-mapped devices.
pub const MMIO_END_INCLUSIVE: u64 = 0x4000_FFFF;

} // verus!
