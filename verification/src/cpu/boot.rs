//! Architectural boot code: the EL2 to EL1 privilege handoff.
//!
//! The transition is one non-decomposable sequence with no intermediate
//! state that is independently valid.  This module computes the exact
//! register values of that sequence; the embedder writes them in order
//! (counter control, counter offset, execution state, saved program status,
//! exception link, stack pointer) and issues the exception return.  The
//! sequence cannot fail and cannot be partially observed.

use vstd::prelude::*;

verus! {

/// CNTHCTL_EL2 value enabling EL1 access to the physical counter and timer:
/// `EL1PCEN` (bit 1) and `EL1PCTEN` (bit 0) set.
pub open spec fn cnthctl_el2_timer_passthrough() -> u64 {
    0b11
}

/// HCR_EL2 value setting the EL1 execution state to AArch64: `RW` (bit 31).
pub open spec fn hcr_el2_el1_is_aarch64() -> u64 {
    1u64 << 31
}

/// SPSR_EL2 value forging a saved program status in which every exception
/// class is masked (`D`, `A`, `I`, `F`: bits 9..6) and the EL1h stack
/// pointer (`SP_EL1`) is selected (`M = 0b0101`).
pub open spec fn spsr_el2_all_masked_el1h() -> u64 {
    (1u64 << 9) | (1u64 << 8) | (1u64 << 7) | (1u64 << 6) | 0b0101u64
}

/// The register values of one EL2 to EL1 transition.
#[derive(Clone, Copy, PartialEq, Eq, Structural, Debug)]
pub struct El2ToEl1TransitionRegisters {
    /// Counter-timer hypervisor control: timer pass-through to EL1.
    pub cnthctl_el2: u64,
    /// Virtual counter offset: zero, so EL1 reads the physical counter.
    pub cntvoff_el2: u64,
    /// Hypervisor configuration: EL1 executes in AArch64 state.
    pub hcr_el2: u64,
    /// Saved program status: all exception classes masked, SP_EL1 in use.
    pub spsr_el2: u64,
    /// Exception link: where the exception return resumes, the kernel entry.
    pub elr_el2: u64,
    /// The EL1 stack pointer: the boot core's stack end, handed off as is.
    pub sp_el1: u64,
}

/// Prepare the EL2 to EL1 transition.
///
/// `phys_boot_core_stack_end_exclusive_addr` is the address one past the end
/// of the boot core's stack, supplied by the entry code;
/// `kernel_init_addr` is the address of the kernel entry function that the
/// exception return resumes into at EL1, with interrupts masked, on the
/// handed-off stack.
pub fn prepare_el2_to_el1_transition(
    phys_boot_core_stack_end_exclusive_addr: u64,
    kernel_init_addr: u64,
) -> (r: El2ToEl1TransitionRegisters)
    ensures
        r.cnthctl_el2 == cnthctl_el2_timer_passthrough(),
        r.cntvoff_el2 == 0,
        r.hcr_el2 == hcr_el2_el1_is_aarch64(),
        r.spsr_el2 == spsr_el2_all_masked_el1h(),
        r.elr_el2 == kernel_init_addr,
        r.sp_el1 == phys_boot_core_stack_end_exclusive_addr,
{
    El2ToEl1TransitionRegisters {
        cnthctl_el2: 0b11,
        cntvoff_el2: 0,
        hcr_el2: 1u64 << 31,
        spsr_el2: (1u64 << 9) | (1u64 << 8) | (1u64 << 7) | (1u64 << 6) | 0b0101u64,
        elr_el2: kernel_init_addr,
        sp_el1: phys_boot_core_stack_end_exclusive_addr,
    }
}

} // verus!
