//! Tests of exception decoding, the fault policy, privilege levels and the
//! boot transition values.

use hos_kernel::cpu::boot::prepare_el2_to_el1_transition;
use hos_kernel::exception::asynchronous::MaskableException;
use hos_kernel::exception::asynchronous::is_masked;
use hos_kernel::exception::asynchronous::mask_state_str;
use hos_kernel::exception::current_el0_irq;
use hos_kernel::exception::current_el0_serror;
use hos_kernel::exception::current_el0_synchronous;
use hos_kernel::exception::current_elx_irq;
use hos_kernel::exception::current_elx_serror;
use hos_kernel::exception::current_elx_synchronous;
use hos_kernel::exception::current_privilege_level;
use hos_kernel::exception::default_exception_handler;
use hos_kernel::exception::lower_aarch32_irq;
use hos_kernel::exception::lower_aarch32_serror;
use hos_kernel::exception::lower_aarch32_synchronous;
use hos_kernel::exception::lower_aarch64_irq;
use hos_kernel::exception::lower_aarch64_serror;
use hos_kernel::exception::lower_aarch64_synchronous;
use hos_kernel::exception::register_bit_set;
use hos_kernel::exception::ExceptionClass;
use hos_kernel::exception::ExceptionContext;
use hos_kernel::exception::ExceptionOutcome;
use hos_kernel::exception::PrivilegeLevel;

fn context_with(esr_el1: u64, far_el1: u64) -> ExceptionContext {
    ExceptionContext {
        gpr: [0; 30],
        lr: 0,
        elr_el1: 0x8_0000,
        spsr_el1: 0x3C5,
        esr_el1,
        far_el1,
    }
}

const DATA_ABORT_CURRENT_EL: u64 = 0x25 << 26;
const SVC_AARCH64: u64 = 0x15 << 26;

#[test]
fn data_abort_current_el_has_valid_fault_address() {
    let e = context_with(DATA_ABORT_CURRENT_EL, 0);
    assert!(e.fault_address_valid());
    assert_eq!(e.exception_class(), Some(ExceptionClass::DataAbortCurrentEL));
}

#[test]
fn unrelated_class_has_no_valid_fault_address() {
    let e = context_with(SVC_AARCH64, 0);
    assert!(!e.fault_address_valid());
    assert_eq!(e.exception_class(), None);
    assert!(!context_with(0, 0).fault_address_valid());
}

#[test]
fn exception_class_decoding() {
    let cases = [
        (0x20u64, ExceptionClass::InstrAbortLowerEL),
        (0x21, ExceptionClass::InstrAbortCurrentEL),
        (0x22, ExceptionClass::PCAlignmentFault),
        (0x24, ExceptionClass::DataAbortLowerEL),
        (0x25, ExceptionClass::DataAbortCurrentEL),
        (0x34, ExceptionClass::WatchpointLowerEL),
        (0x35, ExceptionClass::WatchpointCurrentEL),
    ];
    for (ec, class) in cases {
        let e = context_with(ec << 26, 0);
        assert_eq!(e.exception_class(), Some(class));
        assert!(e.fault_address_valid());
    }
}

#[test]
fn recoverable_fault_advances_saved_pc_by_four() {
    let mut e = context_with(DATA_ABORT_CURRENT_EL, 8 * 1024 * 1024 * 1024);
    let outcome = current_elx_synchronous(&mut e);
    assert_eq!(outcome, ExceptionOutcome::Resume);
    assert_eq!(e.elr_el1, 0x8_0004);
}

#[test]
fn unrecoverable_fault_is_fatal() {
    let mut e = context_with(DATA_ABORT_CURRENT_EL, 9 * 1024 * 1024 * 1024);
    let outcome = current_elx_synchronous(&mut e);
    assert_eq!(outcome, ExceptionOutcome::Fatal);
    assert_eq!(e.elr_el1, 0x8_0000);
}

#[test]
fn recoverable_address_without_valid_fault_is_fatal() {
    // The 8 GiB sentinel only matters when the class carries an address.
    let mut e = context_with(SVC_AARCH64, 8 * 1024 * 1024 * 1024);
    let outcome = current_elx_synchronous(&mut e);
    assert_eq!(outcome, ExceptionOutcome::Fatal);
    assert_eq!(e.elr_el1, 0x8_0000);
}

#[test]
fn every_other_trap_source_is_fatal() {
    let mut e = context_with(0, 0);
    assert_eq!(current_el0_synchronous(&mut e), ExceptionOutcome::Fatal);
    assert_eq!(current_el0_irq(&mut e), ExceptionOutcome::Fatal);
    assert_eq!(current_el0_serror(&mut e), ExceptionOutcome::Fatal);
    assert_eq!(current_elx_irq(&mut e), ExceptionOutcome::Fatal);
    assert_eq!(current_elx_serror(&mut e), ExceptionOutcome::Fatal);
    assert_eq!(lower_aarch64_synchronous(&mut e), ExceptionOutcome::Fatal);
    assert_eq!(lower_aarch64_irq(&mut e), ExceptionOutcome::Fatal);
    assert_eq!(lower_aarch64_serror(&mut e), ExceptionOutcome::Fatal);
    assert_eq!(lower_aarch32_synchronous(&mut e), ExceptionOutcome::Fatal);
    assert_eq!(lower_aarch32_irq(&mut e), ExceptionOutcome::Fatal);
    assert_eq!(lower_aarch32_serror(&mut e), ExceptionOutcome::Fatal);
    assert_eq!(default_exception_handler(&e), ExceptionOutcome::Fatal);
}

#[test]
fn syndrome_diagnostics() {
    let e = context_with(DATA_ABORT_CURRENT_EL | 0x61, 0);
    assert_eq!(e.exception_class_description(), "Data Abort; current EL");
    assert_eq!(e.instruction_specific_syndrome(), 0x61);
    let e = context_with(SVC_AARCH64, 0);
    assert_eq!(e.exception_class_description(), "N/A");
}

#[test]
fn privilege_level_decoding() {
    assert_eq!(current_privilege_level(0x8), (PrivilegeLevel::Hypervisor, "EL2"));
    assert_eq!(current_privilege_level(0x4), (PrivilegeLevel::Kernel, "EL1"));
    assert_eq!(current_privilege_level(0x0), (PrivilegeLevel::User, "EL0"));
    assert_eq!(current_privilege_level(0xC), (PrivilegeLevel::Unknown, "Unknown"));
}

#[test]
fn daif_mask_decoding() {
    // All four mask bits set: bits 9..6.
    let daif = 0x3C0;
    assert!(is_masked(daif, MaskableException::DebugException));
    assert!(is_masked(daif, MaskableException::SError));
    assert!(is_masked(daif, MaskableException::IRQ));
    assert!(is_masked(daif, MaskableException::FIQ));
    assert!(!is_masked(0, MaskableException::IRQ));
    // Only IRQ masked.
    let daif = 1u64 << 7;
    assert!(is_masked(daif, MaskableException::IRQ));
    assert!(!is_masked(daif, MaskableException::FIQ));
    assert_eq!(mask_state_str(true), "Masked");
    assert_eq!(mask_state_str(false), "Unmasked");
}

#[test]
fn saved_program_status_flags() {
    let spsr = 0x3C5;
    // D, A, I, F masked.
    assert!(register_bit_set(spsr, 9));
    assert!(register_bit_set(spsr, 8));
    assert!(register_bit_set(spsr, 7));
    assert!(register_bit_set(spsr, 6));
    // Condition flags clear.
    assert!(!register_bit_set(spsr, 31));
    assert!(!register_bit_set(spsr, 30));
    assert!(!register_bit_set(spsr, 29));
    assert!(!register_bit_set(spsr, 28));
}

#[test]
fn el2_to_el1_transition_values() {
    let t = prepare_el2_to_el1_transition(0x8_0000, 0x8_1000);
    // Timer pass-through: EL1PCEN | EL1PCTEN.
    assert_eq!(t.cnthctl_el2, 0b11);
    assert_eq!(t.cntvoff_el2, 0);
    // EL1 is AArch64.
    assert_eq!(t.hcr_el2, 1 << 31);
    // D | A | I | F masked, M = EL1h.
    assert_eq!(t.spsr_el2, 0x3C5);
    assert_eq!(t.elr_el2, 0x8_1000);
    assert_eq!(t.sp_el1, 0x8_0000);
}
