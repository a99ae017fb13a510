//! Trap classification and dispatch.
//!
//! Hardware reports a trap as a raw cause code whose top bit distinguishes
//! interrupts from exceptions. Classification maps every code into the closed
//! [`Trap`] taxonomy — codes outside the architecturally defined ranges are
//! represented as [`Trap::Unknown`] with the code preserved, never rejected,
//! so that new or optional causes cannot crash the dispatcher.

use vstd::prelude::*;
use crate::machine::{Machine, written, MTVEC};
use crate::hart::CoreState;

verus! {

/// The top bit of the cause register: set for interrupts, clear for
/// exceptions.
pub const INTERRUPT_FLAG: u64 = 0x8000_0000_0000_0000;

/// A classified trap cause.
#[derive(Debug, Clone, Copy, PartialEq, Eq, Structural)]
pub enum Trap {
    /// A cause code outside the defined ranges, preserved exactly.
    Unknown(u64),
    /// Timer interrupt (supervisor or machine level).
    Timer,
    /// External interrupt (supervisor or machine level).
    External,
    /// Software interrupt (supervisor or machine level).
    Software,
    /// Breakpoint exception.
    Breakpoint,
    /// Illegal-instruction exception.
    IllegalInstruction,
    /// Page fault on instruction fetch.
    InstructionPageFault,
    /// Page fault on a load.
    LoadPageFault,
    /// Page fault on a store.
    StorePageFault,
    /// Access fault on instruction fetch.
    InstructionFault,
    /// Misaligned instruction address.
    InstructionMisaligned,
    /// Access fault on a load.
    LoadFault,
    /// Misaligned load address.
    LoadMisaligned,
    /// Access fault on a store.
    StoreFault,
    /// Misaligned store address.
    StoreMisaligned,
    /// Environment call from user, supervisor or machine mode.
    SysCall,
}

/// The total classification function: what every raw cause code means.
pub open spec fn classify_spec(cause: u64) -> Trap {
    if cause >= INTERRUPT_FLAG {
        let code = cause - INTERRUPT_FLAG;
        if code == 1 || code == 3 {
            Trap::Software
        } else if code == 5 || code == 7 {
            Trap::Timer
        } else if code == 9 || code == 11 {
            Trap::External
        } else {
            Trap::Unknown(cause)
        }
    } else {
        if cause == 0 {
            Trap::InstructionMisaligned
        } else if cause == 1 {
            Trap::InstructionFault
        } else if cause == 2 {
            Trap::IllegalInstruction
        } else if cause == 3 {
            Trap::Breakpoint
        } else if cause == 4 {
            Trap::LoadMisaligned
        } else if cause == 5 {
            Trap::LoadFault
        } else if cause == 6 {
            Trap::StoreMisaligned
        } else if cause == 7 {
            Trap::StoreFault
        } else if cause == 8 || cause == 9 || cause == 11 {
            Trap::SysCall
        } else if cause == 12 {
            Trap::InstructionPageFault
        } else if cause == 13 {
            Trap::LoadPageFault
        } else if cause == 15 {
            Trap::StorePageFault
        } else {
            Trap::Unknown(cause)
        }
    }
}

/// Whether a raw cause code lies in one of the architecturally defined
/// ranges.
pub open spec fn known_cause(cause: u64) -> bool {
    !(classify_spec(cause) is Unknown)
}

/// Map a raw trap cause code into the closed taxonomy.
pub fn classify(cause: u64) -> (trap: Trap)
    ensures
        trap == classify_spec(cause),
{
    if cause >= INTERRUPT_FLAG {
        let code = cause - INTERRUPT_FLAG;
        match code {
            1 | 3 => Trap::Software,
            5 | 7 => Trap::Timer,
            9 | 11 => Trap::External,
            _ => Trap::Unknown(cause),
        }
    } else {
        match cause {
            0 => Trap::InstructionMisaligned,
            1 => Trap::InstructionFault,
            2 => Trap::IllegalInstruction,
            3 => Trap::Breakpoint,
            4 => Trap::LoadMisaligned,
            5 => Trap::LoadFault,
            6 => Trap::StoreMisaligned,
            7 => Trap::StoreFault,
            8 | 9 | 11 => Trap::SysCall,
            12 => Trap::InstructionPageFault,
            13 => Trap::LoadPageFault,
            15 => Trap::StorePageFault,
            _ => Trap::Unknown(cause),
        }
    }
}

/// Law: classification is total and stable. Every cause code has exactly one
/// classification, interrupt codes and exception codes in the defined ranges
/// map to named variants, and every other code maps to [`Trap::Unknown`]
/// carrying the code unchanged.
pub proof fn lemma_classification_total_and_stable(cause: u64)
    ensures
        !known_cause(cause) ==> classify_spec(cause) == Trap::Unknown(cause),
        known_cause(cause) <==> (cause >= INTERRUPT_FLAG && {
            let code = cause - INTERRUPT_FLAG;
            code == 1 || code == 3 || code == 5 || code == 7 || code == 9 || code == 11
        }) || (cause < INTERRUPT_FLAG && (cause <= 9 || cause == 11 || cause == 12 || cause == 13
            || cause == 15)),
{
}

/// Forward a classified trap to the handler registered in the hart's
/// core-local state.
pub fn handle_trap<H: Fn(Trap)>(state: &CoreState<H>, trap: Trap)
    requires
        call_requires(state.trap_handler, (trap,)),
    ensures
        call_ensures(state.trap_handler, (trap,), ()),
{
    state.handle_trap(trap)
}

/// Install the trap path: point the trap-vector base register at the given
/// vector so hardware routes traps to the dispatcher. On hardware this is
/// valid only in Machine mode; the model carries no privilege level, so the
/// caller answers for that context.
pub fn setup_trap_handler(m: &mut Machine, vector: u64)
    requires
        old(m).wf(),
    ensures
        final(m).wf(),
        final(m)@ == written(old(m)@, MTVEC, vector),
{
    m.write(MTVEC, vector);
}

} // verus!
