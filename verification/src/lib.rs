//! Early-boot and privilege-transition core for RISC-V harts, verified over
//! an explicit model of the hart's privileged state.
//!
//! The hardware that a boot sequencer manipulates — control and status
//! registers, the zero-initialized memory region, the trap-return
//! instruction — cannot be reached from portable code, so this crate models
//! it: a [`machine::Machine`] value holds the register file and counts the
//! irreversible events (trap returns, interrupt waits), and every register
//! access, every boot step and the whole privilege-demotion protocol is a
//! verified function over that model. The surrounding kernel maps the model
//! onto the real register file.

use vstd::prelude::*;

pub mod boot;
pub mod csr;
pub mod execution;
pub mod hart;
pub mod interrupts;
pub mod machine;
pub mod trap;

verus! {

use crate::trap::Trap;

/// The kernel's default trap handler: accept every trap and do nothing,
/// leaving all trap policy to later kernel code.
pub fn handle_trap(_trap: Trap) {
}

} // verus!
