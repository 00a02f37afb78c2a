//! Core of an ARMv8-A boot image for a Raspberry-Pi-class board.
//!
//! The crate covers the pieces of the firmware that must be right at the
//! instruction level: the bitfield arithmetic behind the typed
//! memory-mapped-register abstraction, the peripheral address map, the
//! decisions of the early boot sequence, and the classification and service
//! logic of the exception dispatcher.  Everything here is plain computation
//! on register words and addresses, proved against its contract; the thin
//! runtime shell that performs the volatile loads and stores, the inline
//! assembly, and the serial output lives outside the library and only
//! carries values between the hardware and these functions.

use vstd::prelude::*;

pub mod boot;
pub mod cpu;
pub mod gpio;
pub mod interrupts;
pub mod memory;
pub mod register;
pub mod uart;

use crate::register::{fits, masked_update};

verus! {

/// Read-modify-write of the bit span `[start, end)` of a register word held
/// in `target`: the span is cleared through a precomputed mask and the
/// shifted value is or-ed in, exactly as `RegField<ReadWrite>::write` does
/// for a typed field.
pub fn set_bits(target: &mut u32, start: u32, end: u32, val: u32)
    requires
        start <= end,
        end <= 32,
        fits(val, (end - start) as u32),
    ensures
        *final(target) == masked_update(*old(target), start, (end - start) as u32, val),
{
    let width = end - start;
    if width == 0 {
        proof {
            let w = *target;
            assert(masked_update(w, start, 0, val) == w) by (bit_vector)
                requires
                    fits(val, 0),
            ;
        }
    } else {
        let m = crate::register::mask_low(width);
        let mut t = *target;
        t &= !(m << start);
        t |= val << start;
        *target = t;
    }
}

} // verus!
