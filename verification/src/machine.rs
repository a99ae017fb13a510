//! The model of a hart's privileged state.
//!
//! A [`Machine`] holds the control-and-status-register (CSR) file — one value
//! per address of the architectural 12-bit address space — together with
//! counters for the two events a boot sequence must account for exactly: the
//! trap-return instruction executed by privilege demotion, and the
//! wait-for-interrupt instruction executed while parked. All register access
//! primitives of the core operate on this model; the real hardware performs
//! the same operations at the same addresses.

use vstd::prelude::*;
use vstd::pervasive::VecAdditionalExecFns;

verus! {

/// Number of addressable control and status registers: the address is an
/// immediate of 12 bits, so the space has 4096 slots.
pub const CSR_COUNT: usize = 4096;

/// Address of the hart-identifier register.
pub const MHARTID: u16 = 0xf14;
/// Address of the ISA-capability register.
pub const MISA: u16 = 0x301;
/// Address of the supervisor address-translation control register.
pub const SATP: u16 = 0x180;
/// Address of the machine-level scratch register.
pub const MSCRATCH: u16 = 0x340;
/// Address of the supervisor-level scratch register.
pub const SSCRATCH: u16 = 0x140;
/// Address of the exception-delegation register.
pub const MEDELEG: u16 = 0x302;
/// Address of the interrupt-delegation register.
pub const MIDELEG: u16 = 0x303;
/// Address of the machine status register.
pub const MSTATUS: u16 = 0x300;
/// Address of the trap-return target register.
pub const MEPC: u16 = 0x341;
/// Address of the trap-vector base register.
pub const MTVEC: u16 = 0x305;
/// Address of the first physical-memory-protection configuration register.
pub const PMPCFG0: u16 = 0x3a0;
/// Address of the first physical-memory-protection address register.
pub const PMPADDR0: u16 = 0x3b0;

/// The mathematical value of a [`Machine`]: the register file as a sequence
/// indexed by CSR address, and the event counters.
pub ghost struct MachineView {
    /// Value of each control and status register, indexed by address.
    pub csrs: Seq<u64>,
    /// How many trap-return instructions the hart has executed.
    pub trap_returns: u64,
    /// How many wait-for-interrupt instructions the hart has executed.
    pub wfi_waits: u64,
}

/// The effect of writing `value` at register address `addr`: that one slot
/// changes, everything else is untouched.
pub open spec fn written(v: MachineView, addr: u16, value: u64) -> MachineView {
    MachineView { csrs: v.csrs.update(addr as int, value), ..v }
}

/// The effect of one wait-for-interrupt instruction: only the wait counter
/// moves.
pub open spec fn waited(v: MachineView) -> MachineView {
    MachineView { wfi_waits: (v.wfi_waits + 1) as u64, ..v }
}

/// The effect of one trap-return instruction: only the trap-return counter
/// moves. Where the hart resumes is recorded separately, in the trap-return
/// target register.
pub open spec fn trap_returned(v: MachineView) -> MachineView {
    MachineView { trap_returns: (v.trap_returns + 1) as u64, ..v }
}

/// The modelled privileged state of one hart.
pub struct Machine {
    csrs: Vec<u64>,
    trap_returns: u64,
    wfi_waits: u64,
}

impl View for Machine {
    type V = MachineView;

    closed spec fn view(&self) -> MachineView {
        MachineView {
            csrs: self.csrs@,
            trap_returns: self.trap_returns,
            wfi_waits: self.wfi_waits,
        }
    }
}

impl Machine {
    /// A machine is well formed when its register file covers the whole
    /// 12-bit address space.
    pub open spec fn wf(&self) -> bool {
        self@.csrs.len() == CSR_COUNT
    }

    /// The value of the register at `addr`.
    pub open spec fn csr(&self, addr: u16) -> u64 {
        self@.csrs[addr as int]
    }

    /// A machine at reset: every register zero, no event counted yet.
    pub fn new() -> (m: Machine)
        ensures
            m.wf(),
            forall|addr: u16| addr < 4096 ==> m.csr(addr) == 0u64,
            m@.trap_returns == 0u64,
            m@.wfi_waits == 0u64,
    {
        let mut csrs: Vec<u64> = Vec::new();
        while csrs.len() < CSR_COUNT
            invariant
                csrs@.len() <= CSR_COUNT,
                forall|i: int| 0 <= i < csrs@.len() ==> csrs@[i] == 0u64,
            decreases CSR_COUNT - csrs.len(),
        {
            csrs.push(0);
        }
        Machine { csrs, trap_returns: 0, wfi_waits: 0 }
    }

    /// Read the register at `addr`. The address must fit the 12-bit immediate
    /// field of the register-access instructions.
    pub fn read(&self, addr: u16) -> (value: u64)
        requires
            self.wf(),
            addr < 4096,
        ensures
            value == self.csr(addr),
    {
        self.csrs[addr as usize]
    }

    /// Write `value` to the register at `addr`.
    pub fn write(&mut self, addr: u16, value: u64)
        requires
            old(self).wf(),
            addr < 4096,
        ensures
            final(self).wf(),
            final(self)@ == written(old(self)@, addr, value),
    {
        self.csrs.set(addr as usize, value);
    }

    /// Atomically set the bits of `mask` in the register at `addr`
    /// (logical OR).
    pub fn set(&mut self, addr: u16, mask: u64)
        requires
            old(self).wf(),
            addr < 4096,
        ensures
            final(self).wf(),
            final(self)@ == written(old(self)@, addr, old(self).csr(addr) | mask),
    {
        let value = self.read(addr);
        self.write(addr, value | mask);
    }

    /// Atomically clear the bits of `mask` in the register at `addr`
    /// (logical AND with the inverted mask).
    pub fn clear(&mut self, addr: u16, mask: u64)
        requires
            old(self).wf(),
            addr < 4096,
        ensures
            final(self).wf(),
            final(self)@ == written(old(self)@, addr, old(self).csr(addr) & !mask),
    {
        let value = self.read(addr);
        self.write(addr, value & !mask);
    }

    /// Atomically read the register at `addr` and set the bits of `mask`,
    /// returning the value from before the modification.
    pub fn read_set(&mut self, addr: u16, mask: u64) -> (previous: u64)
        requires
            old(self).wf(),
            addr < 4096,
        ensures
            final(self).wf(),
            previous == old(self).csr(addr),
            final(self)@ == written(old(self)@, addr, old(self).csr(addr) | mask),
    {
        let value = self.read(addr);
        self.write(addr, value | mask);
        value
    }

    /// Atomically read the register at `addr` and clear the bits of `mask`,
    /// returning the value from before the modification.
    pub fn read_clear(&mut self, addr: u16, mask: u64) -> (previous: u64)
        requires
            old(self).wf(),
            addr < 4096,
        ensures
            final(self).wf(),
            previous == old(self).csr(addr),
            final(self)@ == written(old(self)@, addr, old(self).csr(addr) & !mask),
    {
        let value = self.read(addr);
        self.write(addr, value & !mask);
        value
    }

    /// Count one wait-for-interrupt instruction. Registers are untouched.
    pub(crate) fn count_wait(&mut self)
        requires
            old(self)@.wfi_waits < u64::MAX,
        ensures
            final(self)@ == waited(old(self)@),
            final(self).wf() == old(self).wf(),
    {
        self.wfi_waits = self.wfi_waits + 1;
    }

    /// Count one trap-return instruction. Registers are untouched.
    pub(crate) fn count_trap_return(&mut self)
        requires
            old(self)@.trap_returns < u64::MAX,
        ensures
            final(self)@ == trap_returned(old(self)@),
            final(self).wf() == old(self).wf(),
    {
        self.trap_returns = self.trap_returns + 1;
    }

    /// How many trap-return instructions the hart has executed.
    pub fn trap_returns(&self) -> (n: u64)
        ensures
            n == self@.trap_returns,
    {
        self.trap_returns
    }

    /// How many wait-for-interrupt instructions the hart has executed.
    pub fn wfi_waits(&self) -> (n: u64)
        ensures
            n == self@.wfi_waits,
    {
        self.wfi_waits
    }
}

/// Law: reading a register and writing the unmodified value back is a no-op
/// on the whole machine — what a typed view's read-then-write round trip
/// relies on for registers without read side effects.
pub proof fn lemma_unmodified_write_no_op(v: MachineView, addr: u16)
    requires
        v.csrs.len() == CSR_COUNT,
        addr < 4096,
    ensures
        written(v, addr, v.csrs[addr as int]) == v,
{
    assert(written(v, addr, v.csrs[addr as int]).csrs =~= v.csrs);
}

/// Law: writing `value` at a valid register address and then reading that
/// address yields `value` back, and no other register is disturbed. This is
/// the round-trip guarantee of the register file for registers without read
/// side effects.
pub proof fn lemma_write_then_read(v: MachineView, addr: u16, value: u64)
    requires
        v.csrs.len() == CSR_COUNT,
        addr < 4096,
    ensures
        written(v, addr, value).csrs[addr as int] == value,
        forall|other: u16|
            other < 4096 && other != addr
                ==> written(v, addr, value).csrs[other as int] == v.csrs[other as int],
{
}

} // verus!
