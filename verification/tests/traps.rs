//! Trap classification: every defined cause code maps to its named variant,
//! everything else is preserved in the unknown variant.

use boot_core::machine::Machine;
use boot_core::hart::CoreState;
use boot_core::trap::{classify, handle_trap, setup_trap_handler, Trap, INTERRUPT_FLAG};
use std::cell::Cell;

#[test]
fn exception_codes_map_to_their_variants() {
    assert_eq!(classify(0), Trap::InstructionMisaligned);
    assert_eq!(classify(1), Trap::InstructionFault);
    assert_eq!(classify(2), Trap::IllegalInstruction);
    assert_eq!(classify(3), Trap::Breakpoint);
    assert_eq!(classify(4), Trap::LoadMisaligned);
    assert_eq!(classify(5), Trap::LoadFault);
    assert_eq!(classify(6), Trap::StoreMisaligned);
    assert_eq!(classify(7), Trap::StoreFault);
    assert_eq!(classify(8), Trap::SysCall);
    assert_eq!(classify(9), Trap::SysCall);
    assert_eq!(classify(11), Trap::SysCall);
    assert_eq!(classify(12), Trap::InstructionPageFault);
    assert_eq!(classify(13), Trap::LoadPageFault);
    assert_eq!(classify(15), Trap::StorePageFault);
}

#[test]
fn interrupt_codes_map_to_their_variants() {
    assert_eq!(classify(INTERRUPT_FLAG | 1), Trap::Software);
    assert_eq!(classify(INTERRUPT_FLAG | 3), Trap::Software);
    assert_eq!(classify(INTERRUPT_FLAG | 5), Trap::Timer);
    assert_eq!(classify(INTERRUPT_FLAG | 7), Trap::Timer);
    assert_eq!(classify(INTERRUPT_FLAG | 9), Trap::External);
    assert_eq!(classify(INTERRUPT_FLAG | 11), Trap::External);
}

#[test]
fn undefined_codes_are_preserved_exactly() {
    for cause in [10u64, 14, 16, 17, 9999, INTERRUPT_FLAG - 1] {
        assert_eq!(classify(cause), Trap::Unknown(cause));
    }
    for code in [0u64, 2, 4, 6, 8, 10, 12, 13, 15, 100] {
        let cause = INTERRUPT_FLAG | code;
        assert_eq!(classify(cause), Trap::Unknown(cause));
    }
    assert_eq!(classify(u64::MAX), Trap::Unknown(u64::MAX));
}

#[test]
fn classification_is_stable() {
    for cause in [0u64, 7, 10, 11, INTERRUPT_FLAG | 5, u64::MAX] {
        assert_eq!(classify(cause), classify(cause));
    }
}

#[test]
fn dispatch_reaches_the_registered_handler() {
    let m = Machine::new();
    let seen: Cell<Option<Trap>> = Cell::new(None);
    let state = CoreState::new(|trap| seen.set(Some(trap)), &m);
    handle_trap(&state, Trap::Breakpoint);
    assert_eq!(seen.get(), Some(Trap::Breakpoint));
    state.handle_trap(Trap::Timer);
    assert_eq!(seen.get(), Some(Trap::Timer));
}

#[test]
fn default_handler_accepts_every_trap() {
    boot_core::handle_trap(Trap::Unknown(77));
    boot_core::handle_trap(Trap::SysCall);
}

#[test]
fn trap_path_installation_writes_the_vector_base() {
    let mut m = Machine::new();
    setup_trap_handler(&mut m, 0x8000_0400);
    assert_eq!(m.read(boot_core::machine::MTVEC), 0x8000_0400);
}
