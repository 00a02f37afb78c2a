use bootcore::interrupts::{
    capture_report, classify, decode_syndrome, entry_index, plan_irq_service,
    scr_after_routing, vector_base_aligned, vector_base_misalignment, ExceptionClass,
    DAIF_UNMASK_ALL, IRQ_ENABLE_BASIC_LINES, IRQ_PEND1_CLEAR, SCR_ROUTE_TO_EL3,
    TIMER_MATCH1_ACK, TIMER_MATCH1_ENABLE,
};

#[test]
fn alignment_check_examples() {
    // Low eleven bits nonzero: misaligned.
    assert!(!vector_base_aligned(0x3F20_1004));
    assert!(!vector_base_aligned(0x3F20_1400));
    assert_eq!(vector_base_misalignment(0x3F20_1004), 0x4);
    // On a 2048-byte boundary: aligned.
    assert!(vector_base_aligned(0x0008_0000));
    assert!(vector_base_aligned(0x3F20_1000));
    assert_eq!(vector_base_misalignment(0x0008_0000), 0);
}

#[test]
fn alignment_check_each_low_bit() {
    for b in 0..11u32 {
        let base = 0x0008_0000u64 | (1u64 << b);
        assert!(!vector_base_aligned(base));
        assert_eq!(vector_base_misalignment(base), 1u64 << b);
    }
    for b in 11..20u32 {
        assert!(vector_base_aligned(1u64 << b));
    }
    assert!(vector_base_aligned(0));
}

#[test]
fn entry_index_recovers_every_trampoline() {
    let base = 0x0008_0000u64;
    let classes = [
        ExceptionClass::Synchronous,
        ExceptionClass::Irq,
        ExceptionClass::Fiq,
        ExceptionClass::SError,
    ];
    for k in 0..16u64 {
        let link = base + k * 128;
        let idx = entry_index(link, base);
        assert_eq!(idx, k);
        assert_eq!(classify(idx), classes[(k % 4) as usize]);
    }
}

#[test]
fn classify_groups_by_residue() {
    for k in [0u64, 4, 8, 12] {
        assert_eq!(classify(k), ExceptionClass::Synchronous);
    }
    for k in [1u64, 5, 9, 13] {
        assert_eq!(classify(k), ExceptionClass::Irq);
    }
    for k in [2u64, 6, 10, 14] {
        assert_eq!(classify(k), ExceptionClass::Fiq);
    }
    for k in [3u64, 7, 11, 15] {
        assert_eq!(classify(k), ExceptionClass::SError);
    }
}

#[test]
fn syndrome_fields_are_cut_from_the_right_bits() {
    // Class 0b100101 (data abort), 32-bit instruction, some low bits set.
    let esr: u64 = (0b100101 << 26) | (1 << 25) | 0x1234;
    let s = decode_syndrome(esr);
    assert_eq!(s.exception_class, 0b100101);
    assert_eq!(s.instruction_length, 1);

    let s = decode_syndrome(0);
    assert_eq!(s.exception_class, 0);
    assert_eq!(s.instruction_length, 0);

    let s = decode_syndrome(u64::MAX);
    assert_eq!(s.exception_class, 0b111111);
    assert_eq!(s.instruction_length, 1);
}

#[test]
fn captured_report_holds_every_register() {
    let base = 0x0008_0000u64;
    let r = capture_report(base + 5 * 128, base, (0b100101u64 << 26) | (1 << 25), 0x8000_0F00, 0x0009_1234);
    assert_eq!(r.entry, 5);
    assert_eq!(r.class, ExceptionClass::Irq);
    assert_eq!(r.link, base + 5 * 128);
    assert_eq!(r.syndrome.exception_class, 0b100101);
    assert_eq!(r.syndrome.instruction_length, 1);
    assert_eq!(r.fault_address, 0x8000_0F00);
    assert_eq!(r.resume_address, 0x0009_1234);
}

#[test]
fn irq_service_plan_follows_the_pending_bits() {
    // Nothing pending: nothing to do.
    let p = plan_irq_service(0, 0);
    assert!(!p.service_bank1 && !p.ack_timer && !p.report_bank2);

    // Bank 1 pending, timer match set within it.
    let p = plan_irq_service(0b1_0000_0000, 0b10);
    assert!(p.service_bank1);
    assert!(p.ack_timer);
    assert!(!p.report_bank2);

    // Bank 1 pending, but not the timer line.
    let p = plan_irq_service(0b1_0000_0000, 0b101);
    assert!(p.service_bank1);
    assert!(!p.ack_timer);

    // Bank 2 pending alone: report only; bank 1's word is irrelevant.
    let p = plan_irq_service(0b10_0000_0000, 0b10);
    assert!(!p.service_bank1);
    assert!(!p.ack_timer);
    assert!(p.report_bank2);

    // Both banks pending.
    let p = plan_irq_service(0b11_0000_0000, 0b10);
    assert!(p.service_bank1 && p.ack_timer && p.report_bank2);
}

#[test]
fn setup_words_match_the_documented_lines() {
    assert_eq!(SCR_ROUTE_TO_EL3, 0b1110);
    assert_eq!(DAIF_UNMASK_ALL, 0);
    assert_eq!(IRQ_ENABLE_BASIC_LINES, 0xFFFF_FF00);
    assert_eq!(TIMER_MATCH1_ENABLE, 0b10);
    assert_eq!(TIMER_MATCH1_ACK, 0b10);
    assert_eq!(IRQ_PEND1_CLEAR, 0);
}

#[test]
fn routing_sets_the_three_lines_and_keeps_the_rest() {
    assert_eq!(scr_after_routing(0), 0b1110);
    assert_eq!(scr_after_routing(0b1), 0b1111);
    assert_eq!(scr_after_routing(0x501), 0x50F);
    assert_eq!(scr_after_routing(u64::MAX), u64::MAX);
}
