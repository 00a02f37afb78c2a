//! The GPIO pin driver, built directly on `RegField`.
//!
//! Each pin owns three documented bitfields: a 3-bit function-select field
//! in the `GPFSELn` bank (ten pins per register, three bits per pin), and a
//! 1-bit field each in the write-to-set `GPSETn` and write-to-clear `GPCLRn`
//! banks (32 pins per register).  The functions here compute those fields
//! and the register words that drive a pin; the volatile stores are the
//! runtime shell's.

use vstd::prelude::*;

use crate::memory::GPIO_BASE;
use crate::register::{fits, masked_update, MmioWrite, ReadOnly, ReadWrite, RegField, WriteOnly};

verus! {

/// The function a GPIO pin is selected to perform.
#[derive(Debug, PartialEq, Eq, Structural, Clone, Copy)]
pub enum Func {
    Input,
    Output,
    Alt0,
    Alt1,
    Alt2,
    Alt3,
    Alt4,
    Alt5,
}

impl Func {
    /// The documented three-bit encoding of the function.
    pub open spec fn bits(self) -> u32 {
        match self {
            Func::Input => 0b000,
            Func::Output => 0b001,
            Func::Alt0 => 0b100,
            Func::Alt1 => 0b101,
            Func::Alt2 => 0b110,
            Func::Alt3 => 0b111,
            Func::Alt4 => 0b011,
            Func::Alt5 => 0b010,
        }
    }

    /// The three function-select bits the function is written as.
    pub fn val(&self) -> (v: u32)
        ensures
            v == self.bits(),
            fits(v, 3),
    {
        let v: u32 = match self {
            Func::Input => 0b000,
            Func::Output => 0b001,
            Func::Alt0 => 0b100,
            Func::Alt1 => 0b101,
            Func::Alt2 => 0b110,
            Func::Alt3 => 0b111,
            Func::Alt4 => 0b011,
            Func::Alt5 => 0b010,
        };
        proof {
            assert(v <= 7 ==> fits(v, 3)) by (bit_vector);
        }
        v
    }
}

/// Bit offset of a pin's function-select field within its `GPFSELn` word.
pub open spec fn fsel_offset(pin: u8) -> u32 {
    (((pin as u32) % 10) * 3) as u32
}

/// Bit position of a pin within its set/clear/level word.
pub open spec fn pin_bit(pin: u8) -> u32 {
    ((pin as u32) % 32) as u32
}

/// One GPIO pin.  The board has 54 pins in two banks; the caller keeps at
/// most one live value per pin, since the function-select words are shared
/// between neighbouring pins.
#[derive(Debug, PartialEq, Eq, Structural, Clone, Copy)]
pub struct Gpio {
    pub pin: u8,
}

impl Gpio {
    pub fn new(pin: u8) -> (r: Self)
        requires
            pin < 54,
        ensures
            r.pin == pin,
    {
        Self { pin }
    }

    /// The pin's function-select field: three read-modify-write bits at byte
    /// offset `4 * (pin / 10)` from the GPIO base.
    pub fn gpfsel(pin: u8) -> (r: RegField<ReadWrite>)
        requires
            pin < 54,
        ensures
            r.access.0 == GPIO_BASE + 4 * (pin as u64 / 10),
            r.size == 3,
            r.offset == fsel_offset(pin),
            r.wf(),
    {
        let fsel = GPIO_BASE + 4 * ((pin / 10) as u64);
        let offset = (pin as u32 % 10) * 3;
        RegField::new(ReadWrite(fsel), 3, offset)
    }

    /// The pin's write-to-set field: one bit at byte offset
    /// `4 * (7 + pin / 32)` from the GPIO base.
    pub fn gpset(pin: u8) -> (r: RegField<WriteOnly>)
        requires
            pin < 54,
        ensures
            r.access.0 == GPIO_BASE + 4 * (7 + pin as u64 / 32),
            r.size == 1,
            r.offset == pin_bit(pin),
            r.wf(),
    {
        let gpset = GPIO_BASE + 4 * (7 + (pin / 32) as u64);
        let offset = pin as u32 % 32;
        RegField::new(WriteOnly(gpset), 1, offset)
    }

    /// The pin's write-to-clear field: one bit at byte offset
    /// `4 * (10 + pin / 32)` from the GPIO base.
    pub fn gpclr(pin: u8) -> (r: RegField<WriteOnly>)
        requires
            pin < 54,
        ensures
            r.access.0 == GPIO_BASE + 4 * (10 + pin as u64 / 32),
            r.size == 1,
            r.offset == pin_bit(pin),
            r.wf(),
    {
        let gpclr = GPIO_BASE + 4 * (10 + (pin / 32) as u64);
        let offset = pin as u32 % 32;
        RegField::new(WriteOnly(gpclr), 1, offset)
    }

    /// The pin's level field: one read-only bit at byte offset
    /// `4 * (13 + pin / 32)` from the GPIO base.
    pub fn gplev(pin: u8) -> (r: RegField<ReadOnly>)
        requires
            pin < 54,
        ensures
            r.access.0 == GPIO_BASE + 4 * (13 + pin as u64 / 32),
            r.size == 1,
            r.offset == pin_bit(pin),
            r.wf(),
    {
        let gplev = GPIO_BASE + 4 * (13 + (pin / 32) as u64);
        let offset = pin as u32 % 32;
        RegField::new(ReadOnly(gplev), 1, offset)
    }

    /// Select `func` for the pin: a read-modify-write of the pin's three
    /// function-select bits inside the `GPFSELn` word held in `fsel_word`.
    pub fn configure(&mut self, fsel_word: &mut u32, func: Func)
        requires
            old(self).pin < 54,
        ensures
            *final(self) == *old(self),
            *final(fsel_word) == masked_update(
                *old(fsel_word),
                fsel_offset(old(self).pin),
                3,
                func.bits(),
            ),
    {
        let v = func.val();
        Self::gpfsel(self.pin).write(fsel_word, v);
    }

    /// The store that drives the pin high: its bit, alone, in the pin's
    /// write-to-set register.
    pub fn high(&mut self) -> (w: MmioWrite)
        requires
            old(self).pin < 54,
        ensures
            *final(self) == *old(self),
            w.addr == GPIO_BASE + 4 * (7 + old(self).pin as u64 / 32),
            w.value == (1u32 << pin_bit(old(self).pin)),
    {
        proof {
            assert(fits(1u32, 1)) by (bit_vector);
        }
        Self::gpset(self.pin).write(1)
    }

    /// The store that drives the pin low: its bit, alone, in the pin's
    /// write-to-clear register.
    pub fn low(&mut self) -> (w: MmioWrite)
        requires
            old(self).pin < 54,
        ensures
            *final(self) == *old(self),
            w.addr == GPIO_BASE + 4 * (10 + old(self).pin as u64 / 32),
            w.value == (1u32 << pin_bit(old(self).pin)),
    {
        proof {
            assert(fits(1u32, 1)) by (bit_vector);
        }
        Self::gpclr(self.pin).write(1)
    }
}

} // verus!
