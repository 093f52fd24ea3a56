use snake_os::interrupts::{InterruptIndex, PageFaultErrorCode, PageFaultReason, Trap};
use snake_os::system_time::get_system_time_seed;

#[test]
fn interrupt_lines_follow_the_remapped_controller() {
    assert_eq!(InterruptIndex::Timer.as_u8(), 32);
    assert_eq!(InterruptIndex::Keyboard.as_u8(), 33);
    assert_eq!(InterruptIndex::Keyboard.as_usize(), 33);
}

#[test]
fn trap_vectors() {
    assert_eq!(Trap::DivideByZero.vector(), 0);
    assert_eq!(Trap::Breakpoint.vector(), 3);
    assert_eq!(Trap::InvalidOpcode.vector(), 6);
    assert_eq!(Trap::DoubleFault.vector(), 8);
    assert_eq!(Trap::PageFault.vector(), 14);
    assert_eq!(Trap::from_vector(32), Some(Trap::Timer));
    assert_eq!(Trap::from_vector(33), Some(Trap::Keyboard));
    assert_eq!(Trap::from_vector(7), None);
}

#[test]
fn trap_handling_kinds() {
    assert!(Trap::DoubleFault.is_fatal());
    assert!(!Trap::Breakpoint.is_fatal());
    assert!(Trap::PageFault.pushes_error_code());
    assert!(!Trap::Timer.pushes_error_code());
    assert_eq!(Trap::DoubleFault.stack_index(), Some(0));
    assert_eq!(Trap::PageFault.stack_index(), None);
    assert!(Trap::Keyboard.needs_end_of_interrupt());
    assert!(!Trap::InvalidOpcode.needs_end_of_interrupt());
}

#[test]
fn page_fault_code_decodes_reasons() {
    let code = PageFaultErrorCode::from_bits(0b10011).unwrap();
    assert_eq!(code.bits(), 0b10011);
    assert!(code.contains(PageFaultReason::ProtectionViolation));
    assert!(code.contains(PageFaultReason::CausedByWrite));
    assert!(!code.contains(PageFaultReason::UserMode));
    assert!(!code.contains(PageFaultReason::MalformedTable));
    assert!(code.contains(PageFaultReason::InstructionFetch));
}

#[test]
fn page_fault_code_rejects_unknown_bits() {
    assert!(PageFaultErrorCode::from_bits(32).is_none());
    assert!(PageFaultErrorCode::from_bits(31).is_some());
}

#[test]
fn seed_from_bcd_clock() {
    let seed = get_system_time_seed(0x45, 0x30, 0x12, 0x15, 0x06, 0x02);
    assert_eq!(seed, 45 + 30 * 60 + 12 * 3600 + 15 * 86400 + 6 * 2592000);
}

#[test]
fn seed_from_binary_clock() {
    let seed = get_system_time_seed(45, 30, 12, 15, 6, 0x06);
    assert_eq!(seed, 45 + 30 * 60 + 12 * 3600 + 15 * 86400 + 6 * 2592000);
}

#[test]
fn seed_from_twelve_hour_clock_afternoon() {
    let seed = get_system_time_seed(0, 0, 0x81, 1, 1, 0x00);
    assert_eq!(seed, 13 * 3600 + 86400 + 2592000);
}
