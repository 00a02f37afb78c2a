//! Decisions and obligations of the early boot sequence.
//!
//! The sequence itself is a fixed block of startup instructions with no
//! stack and no error path: gate on the core id, set the stack pointer,
//! zero the static-data region, install the vector table, hand off.  What
//! can be stated and checked of it lives here: the core-gating predicate,
//! the span of the region between the two linker-provided bounds, and the
//! zeroing itself, proved on the byte span it is given.

use vstd::prelude::*;

verus! {

/// Core gating: only the core whose affinity field (the low two bits of the
/// multiprocessor identification register) is zero boots; the others are
/// parked in a wait-for-event loop.
pub fn is_primary_core(mpidr: u64) -> (r: bool)
    ensures
        r == (mpidr & 0b11 == 0),
{
    mpidr & 0b11 == 0
}

/// The byte span between the linker-provided start and end of the
/// static-data region.
pub fn bss_span(start: u64, end: u64) -> (n: u64)
    requires
        start <= end,
    ensures
        n == end - start,
{
    end - start
}

/// Write zero to every byte of the region.  Runs before any code reads a
/// static variable; afterwards the whole span reads as zero.
pub fn zero_region(region: &mut Vec<u8>)
    ensures
        final(region)@.len() == old(region)@.len(),
        forall|i: int| 0 <= i < final(region)@.len() ==> final(region)@[i] == 0,
{
    let n = region.len();
    let mut idx: usize = 0;
    while idx < n
        invariant
            idx <= n,
            region@.len() == n,
            forall|i: int| 0 <= i < idx ==> region@[i] == 0,
        decreases n - idx,
    {
        region[idx] = 0;
        idx = idx + 1;
    }
}

} // verus!
