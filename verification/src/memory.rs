//! The peripheral address map: the physical base address and the documented
//! per-peripheral offsets, as plain compile-time constants.  Pure data,
//! consumed by `RegField` instances and by the drivers built on them.
//! (The documentation gives these registers in bus coordinates at
//! `0x7E00_0000`; the physical window starts at `0x3F00_0000`.)

use vstd::prelude::*;

verus! {

/// Physical base of the memory-mapped peripheral window.
pub const IO_BASE: u64 = 0x3F00_0000;

/// Base of the GPIO register bank.
pub const GPIO_BASE: u64 = IO_BASE + 0x20_0000;

/// Base of the interrupt controller's register bank.
pub const INTERRUPT_BASE: u64 = IO_BASE + 0xB000;

/// Basic-pending register: which interrupt banks have something pending.
pub const IRQ_PEND_BASIC: u64 = INTERRUPT_BASE + 0x200;

/// Pending register of GPU interrupt bank 1.
pub const IRQ_PEND_1: u64 = INTERRUPT_BASE + 0x204;

/// Pending register of GPU interrupt bank 2.
pub const IRQ_PEND_2: u64 = INTERRUPT_BASE + 0x208;

/// FIQ routing control register.
pub const FIQ_CTL: u64 = INTERRUPT_BASE + 0x20C;

/// Enable register for the lines of bank 1.
pub const IRQ_ENABLE_1: u64 = INTERRUPT_BASE + 0x210;

/// Enable register for the lines of bank 2.
pub const IRQ_ENABLE_2: u64 = INTERRUPT_BASE + 0x214;

/// Enable register for the basic lines.
pub const IRQ_ENABLE_BASIC: u64 = INTERRUPT_BASE + 0x218;

/// Disable register for the lines of bank 1.
pub const IRQ_DISABLE_1: u64 = INTERRUPT_BASE + 0x21C;

/// Disable register for the lines of bank 2.
pub const IRQ_DISABLE_2: u64 = INTERRUPT_BASE + 0x220;

/// Disable register for the basic lines.
pub const IRQ_DISABLE_BASIC: u64 = INTERRUPT_BASE + 0x224;

/// Base of the system timer's register bank.
pub const TIMER_BASE: u64 = IO_BASE + 0x3000;

/// System timer control/status register: one match bit per channel.
pub const TIMER_CONTROL_STATUS: u64 = TIMER_BASE + 0x0;

/// Low word of the free-running counter.
pub const TIMER_COUNTER_LO: u64 = TIMER_BASE + 0x4;

/// High word of the free-running counter.
pub const TIMER_COUNTER_HI: u64 = TIMER_BASE + 0x8;

/// Compare register of timer channel 0.
pub const TIMER_COMPARE_0: u64 = TIMER_BASE + 0xC;

/// Compare register of timer channel 1.
pub const TIMER_COMPARE_1: u64 = TIMER_BASE + 0x10;

/// Compare register of timer channel 2.
pub const TIMER_COMPARE_2: u64 = TIMER_BASE + 0x14;

/// Compare register of timer channel 3.
pub const TIMER_COMPARE_3: u64 = TIMER_BASE + 0x18;

/// Mini-UART data register.
pub const AUX_MU_IO_REG: u64 = IO_BASE + 0x21_5040;

/// Mini-UART line control register.
pub const AUX_MU_LCR_REG: u64 = IO_BASE + 0x21_504C;

/// Mini-UART extra control register.
pub const AUX_MU_CNTL_REG: u64 = IO_BASE + 0x21_5060;

/// Mini-UART extra status register.
pub const AUX_MU_STAT_REG: u64 = IO_BASE + 0x21_5064;

/// Mini-UART baud-rate divisor register.
pub const AUX_MU_BAUD: u64 = IO_BASE + 0x21_5068;

} // verus!
