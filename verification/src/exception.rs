//! Synchronous and asynchronous exception handling.
//!
//! The low-level trap entry stubs are hardware-dictated assembly: they save
//! the 30 general registers, the link register, `ELR_EL1`, `SPSR_EL1`,
//! `ESR_EL1` and the fault address into an [`ExceptionContext`] on the
//! exception stack and call exactly one handler with it.  The handlers here
//! decide the outcome from that captured state alone; the embedder panics
//! with rendered diagnostics on a fatal outcome and otherwise returns via
//! exception return, honouring the handler's changes to the saved program
//! counter and status.

use vstd::prelude::*;

pub mod asynchronous;

verus! {

/// Processing element privilege levels.
#[derive(Clone, Copy, PartialEq, Eq, Structural, Debug)]
pub enum PrivilegeLevel {
    User,
    Kernel,
    Hypervisor,
    Unknown,
}

/// The exception level encoded in a `CurrentEL` value: bits `[3:2]`.
pub open spec fn current_el_field(current_el: u64) -> u64 {
    (current_el >> 2) & 0b11
}

/// The processing element's privilege level, decoded from a `CurrentEL`
/// register value, together with its architectural name.
pub fn current_privilege_level(current_el: u64) -> (r: (PrivilegeLevel, &'static str))
    ensures
        current_el_field(current_el) == 2 ==> r.0 == PrivilegeLevel::Hypervisor && r.1@ == "EL2"@,
        current_el_field(current_el) == 1 ==> r.0 == PrivilegeLevel::Kernel && r.1@ == "EL1"@,
        current_el_field(current_el) == 0 ==> r.0 == PrivilegeLevel::User && r.1@ == "EL0"@,
        current_el_field(current_el) == 3 ==> r.0 == PrivilegeLevel::Unknown && r.1@ == "Unknown"@,
{
    let el: u64 = (current_el >> 2) & 0b11;
    if el == 2 {
        (PrivilegeLevel::Hypervisor, "EL2")
    } else if el == 1 {
        (PrivilegeLevel::Kernel, "EL1")
    } else if el == 0 {
        (PrivilegeLevel::User, "EL0")
    } else {
        (PrivilegeLevel::Unknown, "Unknown")
    }
}

/// The architectural causes a current-level synchronous exception is decoded
/// into: exactly the address-carrying classes.  Every other exception class
/// is left unclassified (`None` from [`exception_class_of`]).
#[derive(Clone, Copy, PartialEq, Eq, Structural, Debug)]
pub enum ExceptionClass {
    InstrAbortLowerEL,
    InstrAbortCurrentEL,
    PCAlignmentFault,
    DataAbortLowerEL,
    DataAbortCurrentEL,
    WatchpointLowerEL,
    WatchpointCurrentEL,
}

/// The exception class field of an `ESR_EL1` value: bits `[31:26]`.
pub open spec fn esr_ec(esr_el1: u64) -> u64 {
    (esr_el1 >> 26) & 0x3f
}

/// The instruction specific syndrome field of an `ESR_EL1` value:
/// bits `[24:0]`.
pub open spec fn esr_iss(esr_el1: u64) -> u64 {
    esr_el1 & 0x1ff_ffff
}

/// The decoded exception class of an `ESR_EL1` value, or `None` when the
/// class is not one this kernel classifies.
pub open spec fn exception_class_of(esr_el1: u64) -> Option<ExceptionClass> {
    if esr_ec(esr_el1) == 0x20 {
        Some(ExceptionClass::InstrAbortLowerEL)
    } else if esr_ec(esr_el1) == 0x21 {
        Some(ExceptionClass::InstrAbortCurrentEL)
    } else if esr_ec(esr_el1) == 0x22 {
        Some(ExceptionClass::PCAlignmentFault)
    } else if esr_ec(esr_el1) == 0x24 {
        Some(ExceptionClass::DataAbortLowerEL)
    } else if esr_ec(esr_el1) == 0x25 {
        Some(ExceptionClass::DataAbortCurrentEL)
    } else if esr_ec(esr_el1) == 0x34 {
        Some(ExceptionClass::WatchpointLowerEL)
    } else if esr_ec(esr_el1) == 0x35 {
        Some(ExceptionClass::WatchpointCurrentEL)
    } else {
        None
    }
}

/// Whether the fault address register is meaningful for an `ESR_EL1` value:
/// true exactly for the address-carrying exception classes.
pub open spec fn spec_fault_address_valid(esr_el1: u64) -> bool {
    exception_class_of(esr_el1) is Some
}

/// The fault address this kernel's demonstration policy recovers from: 8 GiB.
pub const RECOVERABLE_FAULT_ADDR: u64 = 8 * 1024 * 1024 * 1024;

/// What a handler decided about a trap.
#[derive(Clone, Copy, PartialEq, Eq, Structural, Debug)]
pub enum ExceptionOutcome {
    /// Return from the exception and resume the interrupted code.
    Resume,
    /// The trap is not survivable: render diagnostics and halt.
    Fatal,
}

/// The exception context as it is stored on the stack on exception entry.
pub struct ExceptionContext {
    /// General purpose registers x0..x29.
    pub gpr: [u64; 30],
    /// The link register, aka x30.
    pub lr: u64,
    /// Exception link register: the program counter at the time of the trap.
    pub elr_el1: u64,
    /// Saved program status.
    pub spsr_el1: u64,
    /// Exception syndrome register.
    pub esr_el1: u64,
    /// Fault address register, captured at the same moment.
    pub far_el1: u64,
}

impl ExceptionContext {
    /// The decoded exception class, or `None` when unclassified.
    pub fn exception_class(&self) -> (r: Option<ExceptionClass>)
        ensures
            r == exception_class_of(self.esr_el1),
    {
        let ec: u64 = (self.esr_el1 >> 26) & 0x3f;
        if ec == 0x20 {
            Some(ExceptionClass::InstrAbortLowerEL)
        } else if ec == 0x21 {
            Some(ExceptionClass::InstrAbortCurrentEL)
        } else if ec == 0x22 {
            Some(ExceptionClass::PCAlignmentFault)
        } else if ec == 0x24 {
            Some(ExceptionClass::DataAbortLowerEL)
        } else if ec == 0x25 {
            Some(ExceptionClass::DataAbortCurrentEL)
        } else if ec == 0x34 {
            Some(ExceptionClass::WatchpointLowerEL)
        } else if ec == 0x35 {
            Some(ExceptionClass::WatchpointCurrentEL)
        } else {
            None
        }
    }

    /// A human-readable translation of the exception class, as the
    /// diagnostics print it.
    pub fn exception_class_description(&self) -> (r: &'static str)
        ensures
            exception_class_of(self.esr_el1) == Some(ExceptionClass::DataAbortCurrentEL) ==> r@
                == "Data Abort; current EL"@,
            exception_class_of(self.esr_el1) != Some(ExceptionClass::DataAbortCurrentEL) ==> r@
                == "N/A"@,
    {
        match self.exception_class() {
            Some(ExceptionClass::DataAbortCurrentEL) => "Data Abort; current EL",
            _ => "N/A",
        }
    }

    /// The instruction specific syndrome of the captured trap, for
    /// diagnostics.
    pub fn instruction_specific_syndrome(&self) -> (r: u64)
        ensures
            r == esr_iss(self.esr_el1),
    {
        self.esr_el1 & 0x1ff_ffff
    }

    /// Whether the captured fault address is meaningful for this trap.
    pub fn fault_address_valid(&self) -> (r: bool)
        ensures
            r == spec_fault_address_valid(self.esr_el1),
    {
        match self.exception_class() {
            None => false,
            Some(_) => true,
        }
    }
}

/// The fallback policy for every trap this kernel does not special-case:
/// the trap is fatal.  The embedder renders the full context and halts.
pub fn default_exception_handler(_e: &ExceptionContext) -> (r: ExceptionOutcome)
    ensures
        r == ExceptionOutcome::Fatal,
{
    ExceptionOutcome::Fatal
}

/// Current EL, SP_EL0: use of the EL0 stack pointer at EL1 is unsupported,
/// so these traps never happen and are fatal.
pub fn current_el0_synchronous(e: &mut ExceptionContext) -> (r: ExceptionOutcome)
    ensures
        r == ExceptionOutcome::Fatal,
        *final(e) == *old(e),
{
    ExceptionOutcome::Fatal
}

/// Current EL, SP_EL0: never expected, fatal.
pub fn current_el0_irq(e: &mut ExceptionContext) -> (r: ExceptionOutcome)
    ensures
        r == ExceptionOutcome::Fatal,
        *final(e) == *old(e),
{
    ExceptionOutcome::Fatal
}

/// Current EL, SP_EL0: never expected, fatal.
pub fn current_el0_serror(e: &mut ExceptionContext) -> (r: ExceptionOutcome)
    ensures
        r == ExceptionOutcome::Fatal,
        *final(e) == *old(e),
{
    ExceptionOutcome::Fatal
}

/// Current EL with SP_EL1, synchronous exception: the one trap source with a
/// recoverable transition.
///
/// When the trap carries a valid fault address and that address is the
/// whitelisted demonstration value of 8 GiB, the saved program counter is
/// advanced by one instruction (4 bytes) and execution resumes; every other
/// synchronous trap falls through to the fatal default policy with the
/// context unchanged.
pub fn current_elx_synchronous(e: &mut ExceptionContext) -> (r: ExceptionOutcome)
    ensures
        spec_fault_address_valid(old(e).esr_el1) && old(e).far_el1 == RECOVERABLE_FAULT_ADDR
            ==> r == ExceptionOutcome::Resume && *final(e) == (ExceptionContext {
            elr_el1: old(e).elr_el1.wrapping_add(4),
            ..*old(e)
        }),
        !(spec_fault_address_valid(old(e).esr_el1) && old(e).far_el1 == RECOVERABLE_FAULT_ADDR)
            ==> r == ExceptionOutcome::Fatal && *final(e) == *old(e),
{
    if e.fault_address_valid() {
        let far_el1: u64 = e.far_el1;
        if far_el1 == RECOVERABLE_FAULT_ADDR {
            e.elr_el1 = e.elr_el1.wrapping_add(4);
            return ExceptionOutcome::Resume;
        }
    }
    default_exception_handler(e)
}

/// Current EL with SP_EL1, IRQ: not handled yet, fatal.
pub fn current_elx_irq(e: &mut ExceptionContext) -> (r: ExceptionOutcome)
    ensures
        r == ExceptionOutcome::Fatal,
        *final(e) == *old(e),
{
    default_exception_handler(e)
}

/// Current EL with SP_EL1, SError: fatal.
pub fn current_elx_serror(e: &mut ExceptionContext) -> (r: ExceptionOutcome)
    ensures
        r == ExceptionOutcome::Fatal,
        *final(e) == *old(e),
{
    default_exception_handler(e)
}

/// Lower EL, AArch64: no user mode exists yet, so this is unreachable and
/// fatal.
pub fn lower_aarch64_synchronous(e: &mut ExceptionContext) -> (r: ExceptionOutcome)
    ensures
        r == ExceptionOutcome::Fatal,
        *final(e) == *old(e),
{
    default_exception_handler(e)
}

/// Lower EL, AArch64: unreachable, fatal.
pub fn lower_aarch64_irq(e: &mut ExceptionContext) -> (r: ExceptionOutcome)
    ensures
        r == ExceptionOutcome::Fatal,
        *final(e) == *old(e),
{
    default_exception_handler(e)
}

/// Lower EL, AArch64: unreachable, fatal.
pub fn lower_aarch64_serror(e: &mut ExceptionContext) -> (r: ExceptionOutcome)
    ensures
        r == ExceptionOutcome::Fatal,
        *final(e) == *old(e),
{
    default_exception_handler(e)
}

/// Lower EL, AArch32: unreachable, fatal.
pub fn lower_aarch32_synchronous(e: &mut ExceptionContext) -> (r: ExceptionOutcome)
    ensures
        r == ExceptionOutcome::Fatal,
        *final(e) == *old(e),
{
    default_exception_handler(e)
}

/// Lower EL, AArch32: unreachable, fatal.
pub fn lower_aarch32_irq(e: &mut ExceptionContext) -> (r: ExceptionOutcome)
    ensures
        r == ExceptionOutcome::Fatal,
        *final(e) == *old(e),
{
    default_exception_handler(e)
}

/// Lower EL, AArch32: unreachable, fatal.
pub fn lower_aarch32_serror(e: &mut ExceptionContext) -> (r: ExceptionOutcome)
    ensures
        r == ExceptionOutcome::Fatal,
        *final(e) == *old(e),
{
    default_exception_handler(e)
}


/// Whether bit `bit` is set in a register value; used by the embedder to
/// decode the saved program status flags (`N`, `Z`, `C`, `V` at bits 31..28,
/// `IL` at bit 20) and mask bits (`D`, `A`, `I`, `F` at bits 9..6) for
/// diagnostics.
pub open spec fn spec_register_bit_set(value: u64, bit: u64) -> bool
    recommends
        bit < 64,
{
    value & (1u64 << bit) != 0
}

/// Whether bit `bit` is set in a register value.
pub fn register_bit_set(value: u64, bit: u64) -> (r: bool)
    requires
        bit < 64,
    ensures
        r == spec_register_bit_set(value, bit),
{
    value & (1u64 << bit) != 0
}

} // verus!
