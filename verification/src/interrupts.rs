//! The exception vector table's layout and the common dispatch logic.
//!
//! The hardware enters one of 16 trampolines laid out at a fixed 128-byte
//! stride from a 2048-byte-aligned base: four exception origins, each with
//! the four event classes Synchronous, IRQ, FIQ and SError.  Every
//! trampoline calls one dispatch routine, which recovers the entry index
//! from its own link address, decodes the syndrome register, and for IRQs
//! decides which controller and timer registers to read and acknowledge.
//! All of those decisions are computed and proved here; the runtime shell
//! only reads the banked registers, performs the planned stores and prints
//! the report.

use vstd::prelude::*;

verus! {

/// The four event classes, in the order of their entries within a group.
#[derive(Debug, PartialEq, Eq, Structural, Clone, Copy)]
pub enum ExceptionClass {
    Synchronous,
    Irq,
    Fiq,
    SError,
}

/// The class of the table entry with index `k`: entries cycle through the
/// four classes within each origin group of four.
pub open spec fn class_of(k: u64) -> ExceptionClass {
    if k % 4 == 0 {
        ExceptionClass::Synchronous
    } else if k % 4 == 1 {
        ExceptionClass::Irq
    } else if k % 4 == 2 {
        ExceptionClass::Fiq
    } else {
        ExceptionClass::SError
    }
}

/// Recover which of the 16 trampolines was entered: the hardware enters at
/// exactly `base + k * 128`, so the distance from the base, divided by the
/// 128-byte entry stride, is the entry index.
pub fn entry_index(link: u64, vector_base: u64) -> (k: u64)
    requires
        vector_base <= link,
        link - vector_base < 2048,
    ensures
        k == (link - vector_base) / 128,
        k < 16,
{
    let d = link - vector_base;
    let k = d / 128;
    proof {
        assert(d < 2048 ==> d / 128 < 16) by (bit_vector);
    }
    k
}

/// The class of entry index `k`.
pub fn classify(k: u64) -> (c: ExceptionClass)
    ensures
        c == class_of(k),
{
    let m = k % 4;
    if m == 0 {
        ExceptionClass::Synchronous
    } else if m == 1 {
        ExceptionClass::Irq
    } else if m == 2 {
        ExceptionClass::Fiq
    } else {
        ExceptionClass::SError
    }
}

/// Law: a trampoline invoked at `base + k * 128` is recovered as entry `k`,
/// and `k mod 4` names its class — Synchronous for 0, 4, 8, 12; IRQ for
/// 1, 5, 9, 13; FIQ for 2, 6, 10, 14; SError for 3, 7, 11, 15.
pub proof fn lemma_entry_index_recovery(vector_base: u64, k: u64)
    requires
        k < 16,
        vector_base + 128 * k <= u64::MAX,
    ensures
        ((vector_base + 128 * k) as u64 - vector_base) / 128 == k,
        k % 4 == 0 ==> class_of(k) == ExceptionClass::Synchronous,
        k % 4 == 1 ==> class_of(k) == ExceptionClass::Irq,
        k % 4 == 2 ==> class_of(k) == ExceptionClass::Fiq,
        k % 4 == 3 ==> class_of(k) == ExceptionClass::SError,
{
    assert((128 * k) / 128 == k) by (bit_vector)
        requires
            k < 16,
    ;
}

/// The two syndrome-register fields the diagnostic line reports.
#[derive(Debug, PartialEq, Eq, Structural, Clone, Copy)]
pub struct Syndrome {
    /// Bits 31:26 of the syndrome register: what caused the exception.
    pub exception_class: u64,
    /// Bit 25 of the syndrome register: the trapped instruction's length.
    pub instruction_length: u64,
}

/// Decode the syndrome register value the runtime shell read.
pub fn decode_syndrome(esr: u64) -> (s: Syndrome)
    ensures
        s.exception_class == (esr >> 26) & 0b111111,
        s.instruction_length == (esr >> 25) & 0b1,
        s.exception_class < 64,
        s.instruction_length < 2,
{
    let exception_class = (esr >> 26) & 0b111111;
    let instruction_length = (esr >> 25) & 0b1;
    proof {
        assert((esr >> 26) & 0b111111 < 64 && (esr >> 25) & 0b1 < 2) by (bit_vector);
    }
    Syndrome { exception_class, instruction_length }
}

/// Everything captured when an exception traps, for the diagnostic report:
/// which entry was taken, the link address, the event class, the decoded
/// syndrome, the faulting address and the resume address.  Used only for
/// output and discarded afterwards.
#[derive(Debug, PartialEq, Eq, Structural, Clone, Copy)]
pub struct ExceptionReport {
    pub entry: u64,
    pub link: u64,
    pub class: ExceptionClass,
    pub syndrome: Syndrome,
    pub fault_address: u64,
    pub resume_address: u64,
}

/// Assemble the report from the banked registers the runtime shell read at
/// the trapped level: the link register, the syndrome register, the fault
/// address register and the exception-link (resume) register.
pub fn capture_report(link: u64, vector_base: u64, esr: u64, far: u64, elr: u64) -> (r:
    ExceptionReport)
    requires
        vector_base <= link,
        link - vector_base < 2048,
    ensures
        r.entry == (link - vector_base) / 128,
        r.entry < 16,
        r.class == class_of(r.entry),
        r.syndrome.exception_class == (esr >> 26) & 0b111111,
        r.syndrome.instruction_length == (esr >> 25) & 0b1,
        r.link == link,
        r.fault_address == far,
        r.resume_address == elr,
{
    let entry = entry_index(link, vector_base);
    ExceptionReport {
        entry,
        link,
        class: classify(entry),
        syndrome: decode_syndrome(esr),
        fault_address: far,
        resume_address: elr,
    }
}

/// "GPU IRQ bank 1 pending" bit of the basic-pending register.
pub fn gpu_bank1_pending(basic: u32) -> (r: bool)
    ensures
        r == (basic & 0b1_0000_0000 != 0),
{
    basic & 0b1_0000_0000 != 0
}

/// "GPU IRQ bank 2 pending" bit of the basic-pending register.
pub fn gpu_bank2_pending(basic: u32) -> (r: bool)
    ensures
        r == (basic & 0b10_0000_0000 != 0),
{
    basic & 0b10_0000_0000 != 0
}

/// System-timer match-channel-1 bit of bank 1's pending register.
pub fn timer_match1_pending(irq1: u32) -> (r: bool)
    ensures
        r == (irq1 & 0b10 != 0),
{
    irq1 & 0b10 != 0
}

/// What the IRQ branch of the dispatcher does beyond reporting.
#[derive(Debug, PartialEq, Eq, Structural, Clone, Copy)]
pub struct IrqService {
    /// Read bank 1's pending register, report it, and clear it.
    pub service_bank1: bool,
    /// Read the timer's control/status word, report it, and acknowledge the
    /// match-channel-1 bit.
    pub ack_timer: bool,
    /// Read and report bank 2's pending register, without clearing it.
    pub report_bank2: bool,
}

/// Decide the IRQ service actions from the basic-pending word and, when
/// bank 1 is pending, from bank 1's pending word (`irq1` is consulted only
/// then).
pub fn plan_irq_service(basic: u32, irq1: u32) -> (p: IrqService)
    ensures
        p.service_bank1 == (basic & 0b1_0000_0000 != 0),
        p.ack_timer == ((basic & 0b1_0000_0000 != 0) && (irq1 & 0b10 != 0)),
        p.report_bank2 == (basic & 0b10_0000_0000 != 0),
{
    let service_bank1 = gpu_bank1_pending(basic);
    IrqService {
        service_bank1,
        ack_timer: service_bank1 && timer_match1_pending(irq1),
        report_bank2: gpu_bank2_pending(basic),
    }
}

/// The low eleven bits of the vector table's base address; the hardware
/// demands that they all be zero.
pub fn vector_base_misalignment(base: u64) -> (r: u64)
    ensures
        r == base & 0b111_1111_1111,
        (r == 0) <==> (base % 2048 == 0),
{
    proof {
        lemma_alignment_mask(base);
    }
    base & 0b111_1111_1111
}

/// Whether the vector table's base address may be installed: the table
/// must sit on a 2048-byte boundary.
pub fn vector_base_aligned(base: u64) -> (r: bool)
    ensures
        r == (base % 2048 == 0),
{
    vector_base_misalignment(base) == 0
}

/// Law: the low-eleven-bits test is exactly 2048-byte alignment.
pub proof fn lemma_alignment_mask(base: u64)
    ensures
        (base & 0b111_1111_1111 == 0) <==> (base % 2048 == 0),
{
    assert((base & 0b111_1111_1111 == 0) <==> (base % 2048 == 0)) by (bit_vector);
}

/// Routing bits of the secure configuration register: take SError/External
/// Abort, FIQ and IRQ at the current (highest) level.
pub const SCR_ROUTE_TO_EL3: u64 = 0b1110;

/// Processor interrupt-mask bits (9:6) all clear: every class unmasked.
pub const DAIF_UNMASK_ALL: u64 = 0;

/// The word the setup path stores to the controller's basic-enable
/// register: every line above the GPU's own low eight.
pub const IRQ_ENABLE_BASIC_LINES: u32 = !0b1111_1111u32;

/// Bank-1 enable word for the system-timer match channel 1.
pub const TIMER_MATCH1_ENABLE: u32 = 0b10;

/// The store that acknowledges the system timer's match channel 1 in its
/// control/status register.
pub const TIMER_MATCH1_ACK: u32 = 0b10;

/// The word stored to bank 1's pending register after reporting it.
pub const IRQ_PEND1_CLEAR: u32 = 0;

/// The secure configuration register's new value when interrupt routing is
/// switched on: the old value with the routing bits or-ed in, every other
/// bit kept.
pub fn scr_after_routing(scr: u64) -> (r: u64)
    ensures
        r == (scr | SCR_ROUTE_TO_EL3),
{
    scr | SCR_ROUTE_TO_EL3
}

} // verus!
