//! Processor state decoding.

use vstd::prelude::*;

verus! {

/// The processor's privilege tier; EL3 is the most privileged.
#[derive(Debug, PartialEq, Eq, Structural, Clone, Copy)]
pub enum ExceptionLevel {
    EL3,
    EL2,
    EL1,
    EL0,
}

impl ExceptionLevel {
    /// The level named by bits 3:2 of the processor's current-level register.
    pub open spec fn of_register(bits: u64) -> ExceptionLevel {
        if (bits >> 2) & 0b11 == 0b11 {
            ExceptionLevel::EL3
        } else if (bits >> 2) & 0b11 == 0b10 {
            ExceptionLevel::EL2
        } else if (bits >> 2) & 0b11 == 0b01 {
            ExceptionLevel::EL1
        } else {
            ExceptionLevel::EL0
        }
    }

    /// Decode the current-level register value the runtime shell read.
    pub fn decode(current_el: u64) -> (r: ExceptionLevel)
        ensures
            r == ExceptionLevel::of_register(current_el),
    {
        let code = (current_el >> 2) & 0b11;
        if code == 0b11 {
            ExceptionLevel::EL3
        } else if code == 0b10 {
            ExceptionLevel::EL2
        } else if code == 0b01 {
            ExceptionLevel::EL1
        } else {
            ExceptionLevel::EL0
        }
    }
}

} // verus!
