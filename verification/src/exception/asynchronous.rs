//! Asynchronous exception handling: the maskable exception classes and
//! their state in a `DAIF` register value.

use vstd::prelude::*;

verus! {

/// The four individually maskable asynchronous exception classes.
#[derive(Clone, Copy, PartialEq, Eq, Structural, Debug)]
pub enum MaskableException {
    /// Debug exceptions, masked by `DAIF.D` (bit 9).
    DebugException,
    /// System errors, masked by `DAIF.A` (bit 8).
    SError,
    /// Ordinary interrupts, masked by `DAIF.I` (bit 7).
    IRQ,
    /// Fast interrupts, masked by `DAIF.F` (bit 6).
    FIQ,
}

/// The `DAIF` bit masking the given exception class.
pub open spec fn daif_bit(kind: MaskableException) -> u64 {
    match kind {
        MaskableException::DebugException => 9,
        MaskableException::SError => 8,
        MaskableException::IRQ => 7,
        MaskableException::FIQ => 6,
    }
}

/// Whether the given exception class is masked in a `DAIF` value.
pub open spec fn spec_is_masked(daif: u64, kind: MaskableException) -> bool {
    daif & (1u64 << daif_bit(kind)) != 0
}

/// Whether the given exception class is masked in a `DAIF` value.
pub fn is_masked(daif: u64, kind: MaskableException) -> (r: bool)
    ensures
        r == spec_is_masked(daif, kind),
{
    let bit: u64 = match kind {
        MaskableException::DebugException => 9,
        MaskableException::SError => 8,
        MaskableException::IRQ => 7,
        MaskableException::FIQ => 6,
    };
    daif & (1u64 << bit) != 0
}

/// The human-readable state of one mask bit, as printed by the embedder.
pub fn mask_state_str(masked: bool) -> (r: &'static str)
    ensures
        masked ==> r@ == "Masked"@,
        !masked ==> r@ == "Unmasked"@,
{
    if masked {
        "Masked"
    } else {
        "Unmasked"
    }
}

} // verus!
