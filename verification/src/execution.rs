//! Execution-environment negotiation and activation.
//!
//! Negotiation is a pure function of the ISA capability register: the kernel
//! runs in Supervisor mode exactly when the supervisor extension is present,
//! user code runs in User mode exactly when the user extension is present,
//! and Machine mode is the fallback for both. Activation performs the one-way
//! privilege demotion: it disables address translation, delegates every trap
//! to Supervisor mode, opens physical memory to the demoted kernel, aims the
//! trap-return target at the kernel entry point and executes exactly one
//! trap-return. When no demotion was negotiated, activation touches nothing.

use vstd::prelude::*;
use crate::machine::{
    Machine, MachineView, written, trap_returned, MEDELEG, MEPC, MIDELEG, MSTATUS, PMPADDR0,
    PMPCFG0, SATP,
};
use crate::csr::{Misa, Satp, MISA_SUPERVISOR_BIT, MISA_USER_BIT};

verus! {

/// The configuration value granting read, write and execute access in a
/// power-of-two range: the protection entry activation installs so a
/// Supervisor-mode kernel without virtual memory can reach all of physical
/// memory.
pub const PMP_RWX_NAPOT: u64 = 0x1f;

/// The mask of the previous-privilege field of the machine status register.
pub const MSTATUS_MPP_MASK: u64 = 0x1800;

/// The previous-privilege field value naming Supervisor mode.
pub const MSTATUS_MPP_SUPERVISOR: u64 = 0x0800;

/// A privilege mode of a hart, from most to least privileged.
#[derive(Debug, Clone, Copy, PartialEq, Eq, Structural)]
pub enum Mode {
    /// Machine mode: the highest privilege level, and the default.
    Machine,
    /// Supervisor mode.
    Supervisor,
    /// User mode.
    User,
}

impl Default for Mode {
    /// Machine mode is the power-on and fallback mode.
    fn default() -> (r: Mode)
        ensures
            r == Mode::Machine,
    {
        Mode::Machine
    }
}

/// The privilege modes that will be used for kernel and user space.
#[derive(Debug, Clone, Copy, PartialEq, Eq, Structural)]
pub struct ExecutionEnvironment {
    /// The mode kernel code runs in.
    pub kernel: Mode,
    /// The mode user code runs in.
    pub user: Mode,
}

/// What negotiation decides, as a function of the raw ISA capability
/// register value.
pub open spec fn spec_negotiate(isa: u64) -> ExecutionEnvironment {
    ExecutionEnvironment {
        kernel: if (isa >> MISA_SUPERVISOR_BIT) & 1u64 == 1u64 {
            Mode::Supervisor
        } else {
            Mode::Machine
        },
        user: if (isa >> MISA_USER_BIT) & 1u64 == 1u64 {
            Mode::User
        } else {
            Mode::Machine
        },
    }
}

/// Decide the execution environment from the ISA capability register:
/// Supervisor mode for the kernel exactly when the supervisor extension is
/// present, User mode for user space exactly when the user extension is
/// present, Machine mode otherwise.
pub fn negotiate(isa: Misa) -> (env: ExecutionEnvironment)
    ensures
        env == spec_negotiate(isa@),
        env.kernel == Mode::Supervisor <==> isa.extensions_spec_bit(MISA_SUPERVISOR_BIT),
        env.kernel == Mode::Supervisor || env.kernel == Mode::Machine,
        env.user == Mode::User <==> isa.extensions_spec_bit(MISA_USER_BIT),
        env.user == Mode::User || env.user == Mode::Machine,
{
    let ext = isa.extensions();
    proof {
        let raw = isa@;
        assert(((((raw & 0x03FF_FFFFu64) as u32) >> 18u32) & 1u32 == 1u32) == ((raw >> 18u64)
            & 1u64 == 1u64) && ((((raw & 0x03FF_FFFFu64) as u32) >> 20u32) & 1u32 == 1u32) == ((raw
            >> 20u64) & 1u64 == 1u64)) by (bit_vector);
    }
    let kernel = if ext.s() {
        Mode::Supervisor
    } else {
        Mode::Machine
    };
    let user = if ext.u() {
        Mode::User
    } else {
        Mode::Machine
    };
    ExecutionEnvironment { kernel, user }
}

/// The machine after activation: the full demotion protocol when Supervisor
/// mode was negotiated for the kernel, and no change at all otherwise.
pub open spec fn spec_activate(v: MachineView, env: ExecutionEnvironment, kernel_entry: u64)
    -> MachineView {
    if env.kernel == Mode::Supervisor {
        let translation_off = written(v, SATP, 0u64);
        let exceptions_delegated = written(translation_off, MEDELEG, u64::MAX);
        let interrupts_delegated = written(exceptions_delegated, MIDELEG, u64::MAX);
        let protection_configured = written(interrupts_delegated, PMPCFG0, PMP_RWX_NAPOT);
        let protection_open = written(protection_configured, PMPADDR0, u64::MAX);
        let target_set = written(protection_open, MEPC, kernel_entry);
        let status = target_set.csrs[MSTATUS as int];
        let demoted = written(
            target_set,
            MSTATUS,
            (status & !MSTATUS_MPP_MASK) | MSTATUS_MPP_SUPERVISOR,
        );
        trap_returned(demoted)
    } else {
        v
    }
}

/// The execution environment used by the kernel.
pub trait Environment {
    /// Activate the execution environment, combined with the transfer to the
    /// kernel entry point. Valid only from Machine mode with a working
    /// Machine-mode trap path installed; the model carries no privilege
    /// level, so the caller answers for that context.
    fn activate(&self, m: &mut Machine, kernel_entry: u64)
        requires
            old(m).wf(),
            old(m)@.trap_returns < u64::MAX,
        ensures
            final(m).wf(),
    ;
}

impl ExecutionEnvironment {
    /// Create the execution environment for the current hart by reading the
    /// ISA capability register and negotiating over it.
    pub fn new(m: &Machine) -> (env: ExecutionEnvironment)
        requires
            m.wf(),
        ensures
            env == spec_negotiate(m.csr(crate::machine::MISA)),
    {
        negotiate(Misa::read(m))
    }
}

impl Environment for ExecutionEnvironment {
    /// The privilege-demotion protocol. When Supervisor mode was negotiated
    /// for the kernel: disable address translation, delegate every exception
    /// and every interrupt to Supervisor mode, grant full physical-memory
    /// access through the first protection entry, aim the trap-return target
    /// at the kernel entry point, name Supervisor as the previous privilege,
    /// and execute exactly one trap-return. Otherwise the machine is left
    /// exactly as it was: the caller enters the kernel directly.
    fn activate(&self, m: &mut Machine, kernel_entry: u64)
        ensures
            final(m)@ == spec_activate(old(m)@, *self, kernel_entry),
            self.kernel == Mode::Supervisor ==> final(m)@.trap_returns == old(
                m,
            )@.trap_returns + 1,
            self.kernel != Mode::Supervisor ==> final(m)@ == old(m)@,
    {
        if self.kernel == Mode::Supervisor {
            // First, ensure no memory translation or protection context leaks
            // into the new mode.
            Satp::new_with_raw_value(0).write(m);
            // Delegate all exceptions to supervisor mode, else supervisor
            // code would never see its own traps.
            m.write(MEDELEG, u64::MAX);
            // Delegate all interrupts likewise.
            m.write(MIDELEG, u64::MAX);
            // Allow supervisor mode to access all physical memory: without
            // virtual memory it could not even fetch its next instruction.
            m.write(PMPCFG0, PMP_RWX_NAPOT);
            m.write(PMPADDR0, u64::MAX);
            // Aim the trap return at the kernel entry point, at Supervisor
            // privilege.
            m.write(MEPC, kernel_entry);
            let status = m.read(MSTATUS);
            m.write(MSTATUS, (status & !MSTATUS_MPP_MASK) | MSTATUS_MPP_SUPERVISOR);
            // The trap return: the next instruction the hart executes is the
            // kernel entry point, in Supervisor mode.
            m.count_trap_return();
        }
    }
}

} // verus!
