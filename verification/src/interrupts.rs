//! The interrupt wait primitive.

use vstd::prelude::*;
use crate::machine::{Machine, waited};

verus! {

/// Block until the next interrupt; on hardware this is a single instruction.
/// It is not cancellable and has no timeout, so the caller must already know
/// it is safe to block indefinitely. The model counts the instruction and
/// touches no register.
pub fn wait(m: &mut Machine)
    requires
        old(m)@.wfi_waits < u64::MAX,
    ensures
        final(m)@ == waited(old(m)@),
        final(m).wf() == old(m).wf(),
{
    m.count_wait()
}

} // verus!
