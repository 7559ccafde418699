//! Core subsystems of a small AArch64 kernel, with verified contracts.
//!
//! The crate covers the privilege handoff performed at boot, the virtual
//! memory subsystem (address-space model, layout resolution, translation
//! table construction, MMU enablement planning) and the exception handling
//! subsystem (syndrome decoding and the fault policy), together with the
//! timer conversions, driver registry and console interfaces that surround
//! them.  Hardware register reads and writes are performed by an embedder;
//! every function here works on plain register values and is verified.

pub mod bsp;
pub mod common;
pub mod console;
pub mod cpu;
pub mod driver;
pub mod exception;
pub mod framebuffer;
pub mod memory;
pub mod synchronization;
pub mod time;

pub use common::size_human_readable_ceil;
