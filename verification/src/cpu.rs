//! Processor code.
//!
//! The architectural wait and nop primitives are single instructions issued
//! by the embedder; only the boot transition's register values live here.

pub mod boot;
