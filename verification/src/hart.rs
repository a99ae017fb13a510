//! Core-local state, its publishing handle, and primary-hart election.
//!
//! Each hart owns exactly one [`CoreState`] record for its whole lifetime.
//! The scratch registers store the record's address as a relation, not as
//! ownership: a trap handler recovers "which hart am I" through them, but the
//! record's lifetime is governed by the scope that created it. The [`Core`]
//! handle therefore clears the registers back to zero before the record may
//! go out of scope — a trap arriving after the record's end but before the
//! clear would dereference a dangling address from interrupt context.

use vstd::prelude::*;
use crate::machine::{Machine, MachineView, written, CSR_COUNT, MHARTID, MISA, MSCRATCH, SSCRATCH};
use crate::execution::{spec_negotiate, ExecutionEnvironment, Mode};
use crate::trap::Trap;

verus! {

/// Whether a hart identifier names the primary hart: election designates
/// hart zero.
pub open spec fn spec_is_primary(hart_id: u64) -> bool {
    hart_id == 0u64
}

/// Checks if the current hart is the primary one. Reads one hart-private
/// register and nothing shared, so every hart may run it concurrently.
pub fn is_primary_hart(m: &Machine) -> (r: bool)
    requires
        m.wf(),
    ensures
        r == spec_is_primary(m.csr(MHARTID)),
{
    m.read(MHARTID) == 0
}

/// Check whether the currently running core is the primary one of the
/// system.
pub fn is_primary_core(m: &Machine) -> (r: bool)
    requires
        m.wf(),
    ensures
        r == spec_is_primary(m.csr(MHARTID)),
{
    is_primary_hart(m)
}

/// The machine after publishing a state address: the machine-level scratch
/// register holds it, and the supervisor-level one too when the kernel runs
/// in Supervisor mode.
pub open spec fn spec_publish(v: MachineView, state_addr: u64, supervisor: bool) -> MachineView {
    let published = written(v, MSCRATCH, state_addr);
    if supervisor {
        written(published, SSCRATCH, state_addr)
    } else {
        published
    }
}

/// The machine after withdrawing a published state: the scratch registers
/// that publishing wrote read zero again.
pub open spec fn spec_clear(v: MachineView, supervisor: bool) -> MachineView {
    let cleared = written(v, MSCRATCH, 0u64);
    if supervisor {
        written(cleared, SSCRATCH, 0u64)
    } else {
        cleared
    }
}

/// The state of a core: the trap-dispatch function and the execution
/// environment chosen for the hart.
pub struct CoreState<H> where H: Fn(Trap) {
    /// The trap handler for the core.
    pub trap_handler: H,
    /// The execution environment of the core.
    pub env: ExecutionEnvironment,
}

/// A handle to a core: while it lives, the owning hart's [`CoreState`] stays
/// published through the scratch registers.
pub struct Core<'core, H> where H: Fn(Trap) {
    /// The state of the core.
    pub state: &'core CoreState<H>,
}

impl<H: Fn(Trap)> CoreState<H> {
    /// Create the core state for the current hart: the given trap handler,
    /// and the environment negotiated from the ISA capability register.
    pub fn new(trap_handler: H, m: &Machine) -> (state: CoreState<H>)
        requires
            m.wf(),
        ensures
            state.env == spec_negotiate(m.csr(MISA)),
            state.trap_handler == trap_handler,
    {
        let env = ExecutionEnvironment::new(m);
        CoreState { trap_handler, env }
    }

    /// Publish the address of this state so trap handlers can recover it:
    /// through the machine-level scratch register always, and through the
    /// supervisor-level one too when the kernel runs in Supervisor mode.
    /// Returns the handle whose release clears the registers again; the
    /// caller answers for `state_addr` being this state's address for as
    /// long as the handle lives.
    pub fn load<'core>(&'core self, state_addr: u64, m: &mut Machine) -> (core: Core<'core, H>)
        requires
            old(m).wf(),
            state_addr != 0,
        ensures
            final(m).wf(),
            final(m)@ == spec_publish(old(m)@, state_addr, self.env.kernel == Mode::Supervisor),
            core.state == self,
    {
        m.write(MSCRATCH, state_addr);
        if self.env.kernel == Mode::Supervisor {
            m.write(SSCRATCH, state_addr);
        }
        Core { state: self }
    }

    /// Invoke the stored trap-dispatch function with the given trap. Side
    /// effects are entirely within the kernel-defined handler, which runs
    /// with interrupts in whatever state trap entry left them.
    pub fn handle_trap(&self, trap: Trap)
        requires
            call_requires(self.trap_handler, (trap,)),
        ensures
            call_ensures(self.trap_handler, (trap,), ()),
    {
        (self.trap_handler)(trap)
    }
}

impl<'core, H: Fn(Trap)> Core<'core, H> {
    /// Withdraw the published state: zero the scratch registers that
    /// publishing wrote, so no trap handler can read the address during or
    /// after the state's end. This must happen on every exit path before the
    /// state's storage goes away.
    pub fn release(self, m: &mut Machine)
        requires
            old(m).wf(),
        ensures
            final(m).wf(),
            final(m)@ == spec_clear(old(m)@, self.state.env.kernel == Mode::Supervisor),
    {
        m.write(MSCRATCH, 0);
        if self.state.env.kernel == Mode::Supervisor {
            m.write(SSCRATCH, 0);
        }
    }
}

/// Law: publish/clear round trip. After publishing, the machine-level
/// scratch register reads the state's address — the supervisor-level one
/// too when the kernel is demoted, and untouched otherwise; after the handle
/// is released, the registers that were written read zero.
pub proof fn lemma_publish_clear_round_trip(v: MachineView, state_addr: u64, supervisor: bool)
    requires
        v.csrs.len() == CSR_COUNT,
    ensures
        spec_publish(v, state_addr, supervisor).csrs[MSCRATCH as int] == state_addr,
        supervisor ==> spec_publish(v, state_addr, supervisor).csrs[SSCRATCH as int] == state_addr,
        !supervisor ==> spec_publish(v, state_addr, supervisor).csrs[SSCRATCH as int]
            == v.csrs[SSCRATCH as int],
        spec_clear(spec_publish(v, state_addr, supervisor), supervisor).csrs[MSCRATCH as int]
            == 0u64,
        supervisor ==> spec_clear(spec_publish(v, state_addr, supervisor), supervisor).csrs[
            SSCRATCH as int] == 0u64,
{
}

} // verus!
