//! The boot sequencer.
//!
//! Every hart enters the same sequence from power-on. Election sends every
//! hart but the primary one to park; the primary zeroes the uninitialized
//! memory region exactly once, publishes its core-local state, installs the
//! trap path, and activates the negotiated execution environment. All
//! precondition violations here are fatal by design: a machine that cannot
//! finish boot must halt, not continue half set up.

use vstd::prelude::*;
use vstd::pervasive::VecAdditionalExecFns;
use crate::machine::{Machine, written, MHARTID, MTVEC};
use crate::execution::{spec_activate, Environment, Mode};
use crate::hart::{is_primary_core, spec_is_primary, spec_publish, Core, CoreState};
use crate::trap::{setup_trap_handler, Trap};

verus! {

/// All-zero contents of the same length: what zeroing a region produces.
pub open spec fn zeroed(s: Seq<u8>) -> Seq<u8> {
    Seq::new(s.len(), |i: int| 0u8)
}

/// Fill every byte of the region with zero.
pub fn zero_memory(region: &mut Vec<u8>)
    ensures
        final(region)@ == zeroed(old(region)@),
{
    let mut i: usize = 0;
    while i < region.len()
        invariant
            i <= region@.len(),
            region@.len() == old(region)@.len(),
            forall|j: int| 0 <= j < i ==> region@[j] == 0u8,
        decreases region@.len() - i,
    {
        region.set(i, 0);
        i = i + 1;
    }
    proof {
        assert(region@ =~= zeroed(old(region)@));
    }
}

/// Law: zeroing is idempotent — zeroing an already zeroed region yields the
/// same all-zero contents as zeroing it once.
pub proof fn lemma_zeroing_idempotent(s: Seq<u8>)
    ensures
        zeroed(zeroed(s)) == zeroed(s),
{
    assert(zeroed(zeroed(s)) =~= zeroed(s));
}

/// The byte count of the linker-delimited region `[start, end)`, or `None`
/// when the bounds are malformed (`end` before `start`) — a fatal boot-time
/// error: the machine cannot be trusted without a valid memory layout, so
/// boot must halt rather than continue.
pub fn region_len(start: u64, end: u64) -> (r: Option<u64>)
    ensures
        start <= end ==> r == Some((end - start) as u64),
        start > end ==> r is None,
{
    if start <= end {
        Some(end - start)
    } else {
        None
    }
}

/// Law: election is deterministic and exclusive. Among any distinct
/// simulated hart identifiers that include the designated primary value,
/// some hart is elected primary, and no two distinct harts both are.
pub proof fn lemma_election_deterministic_exclusive(ids: Seq<u64>)
    requires
        forall|i: int, j: int| 0 <= i < j < ids.len() ==> ids[i] != ids[j],
        ids.contains(0u64),
    ensures
        exists|i: int| 0 <= i < ids.len() && spec_is_primary(#[trigger] ids[i]),
        forall|i: int, j: int|
            0 <= i < ids.len() && 0 <= j < ids.len() && spec_is_primary(ids[i])
                && spec_is_primary(ids[j]) ==> i == j,
{
    let w = choose|i: int| 0 <= i < ids.len() && ids[i] == 0u64;
    assert(spec_is_primary(ids[w]));
    assert forall|i: int, j: int|
        0 <= i < ids.len() && 0 <= j < ids.len() && spec_is_primary(ids[i]) && spec_is_primary(
        ids[j]) implies i == j by {
        if i < j {
            assert(ids[i] != ids[j]);
        }
        if j < i {
            assert(ids[j] != ids[i]);
        }
    }
}

/// Run the boot sequence for the current hart.
///
/// A secondary hart goes to park: nothing is touched and no handle is
/// returned — the caller loops on the interrupt wait primitive. The primary
/// hart zeroes the uninitialized region, publishes its core-local state at
/// `state_addr`, installs the trap path at `trap_vector` (strictly before any
/// delegation or translation change), and activates the execution
/// environment with `kernel_entry` as the transfer target. The caller
/// answers for `state_addr` being the address of `state` for as long as the
/// returned handle lives.
pub fn setup<'a, H: Fn(Trap)>(
    m: &mut Machine,
    bss: &mut Vec<u8>,
    state: &'a CoreState<H>,
    state_addr: u64,
    trap_vector: u64,
    kernel_entry: u64,
) -> (core: Option<Core<'a, H>>)
    requires
        old(m).wf(),
        old(m)@.trap_returns < u64::MAX,
        state_addr != 0,
    ensures
        final(m).wf(),
        !spec_is_primary(old(m).csr(MHARTID)) ==> core is None && final(m)@ == old(m)@
            && final(bss)@ == old(bss)@,
        spec_is_primary(old(m).csr(MHARTID)) ==> {
            &&& final(bss)@ == zeroed(old(bss)@)
            &&& final(m)@ == spec_activate(
                written(
                    spec_publish(
                        old(m)@,
                        state_addr,
                        state.env.kernel == Mode::Supervisor,
                    ),
                    MTVEC,
                    trap_vector,
                ),
                state.env,
                kernel_entry,
            )
            &&& core matches Some(c) && c.state == state
        },
{
    if !is_primary_core(m) {
        return None;
    }
    zero_memory(bss);
    let core = state.load(state_addr, m);
    setup_trap_handler(m, trap_vector);
    state.env.activate(m, kernel_entry);
    Some(core)
}

} // verus!
