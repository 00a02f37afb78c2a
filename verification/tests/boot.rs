use bootcore::boot::{bss_span, is_primary_core, zero_region};
use bootcore::cpu::ExceptionLevel;
use bootcore::memory::{
    AUX_MU_BAUD, AUX_MU_CNTL_REG, AUX_MU_IO_REG, AUX_MU_LCR_REG, AUX_MU_STAT_REG, GPIO_BASE,
    INTERRUPT_BASE, IO_BASE, IRQ_ENABLE_1, IRQ_ENABLE_BASIC, IRQ_PEND_1, IRQ_PEND_2,
    IRQ_PEND_BASIC, TIMER_COMPARE_1, TIMER_CONTROL_STATUS, TIMER_COUNTER_LO,
};

fn zeroing_check(n: usize) {
    // A span pre-filled with non-zero data.
    let mut region: Vec<u8> = (0..n).map(|i| (i % 251 + 1) as u8).collect();
    for &b in region.iter() {
        assert_ne!(b, 0);
    }
    zero_region(&mut region);
    assert_eq!(region.len(), n);
    for &b in region.iter() {
        assert_eq!(b, 0);
    }
}

#[test]
fn bss_zeroing_empty_span() {
    zeroing_check(0);
}

#[test]
fn bss_zeroing_single_byte() {
    zeroing_check(1);
}

#[test]
fn bss_zeroing_full_page_span() {
    zeroing_check(4096);
}

#[test]
fn core_gating_parks_secondary_cores() {
    assert!(is_primary_core(0));
    assert!(!is_primary_core(1));
    assert!(!is_primary_core(2));
    assert!(!is_primary_core(3));
    // Only the low two affinity bits gate the boot.
    assert!(is_primary_core(0x8000_0000));
    assert!(!is_primary_core(0x8000_0001));
}

#[test]
fn bss_span_is_the_distance_between_the_bounds() {
    assert_eq!(bss_span(0x8_0000, 0x8_0000), 0);
    assert_eq!(bss_span(0x8_0000, 0x8_1000), 0x1000);
}

#[test]
fn exception_level_decoding() {
    assert_eq!(ExceptionLevel::decode(0b1100), ExceptionLevel::EL3);
    assert_eq!(ExceptionLevel::decode(0b1000), ExceptionLevel::EL2);
    assert_eq!(ExceptionLevel::decode(0b0100), ExceptionLevel::EL1);
    assert_eq!(ExceptionLevel::decode(0b0000), ExceptionLevel::EL0);
    // Bits outside 3:2 are ignored.
    assert_eq!(ExceptionLevel::decode(0xFFF3), ExceptionLevel::EL0);
}

#[test]
fn peripheral_addresses_match_the_documented_map() {
    assert_eq!(IO_BASE, 0x3F00_0000);
    assert_eq!(GPIO_BASE, 0x3F20_0000);
    assert_eq!(INTERRUPT_BASE, 0x3F00_B000);
    assert_eq!(IRQ_PEND_BASIC, 0x3F00_B200);
    assert_eq!(IRQ_PEND_1, 0x3F00_B204);
    assert_eq!(IRQ_PEND_2, 0x3F00_B208);
    assert_eq!(IRQ_ENABLE_1, 0x3F00_B210);
    assert_eq!(IRQ_ENABLE_BASIC, 0x3F00_B218);
    assert_eq!(TIMER_CONTROL_STATUS, 0x3F00_3000);
    assert_eq!(TIMER_COUNTER_LO, 0x3F00_3004);
    assert_eq!(TIMER_COMPARE_1, 0x3F00_3010);
    assert_eq!(AUX_MU_IO_REG, 0x3F21_5040);
    assert_eq!(AUX_MU_LCR_REG, 0x3F21_504C);
    assert_eq!(AUX_MU_CNTL_REG, 0x3F21_5060);
    assert_eq!(AUX_MU_STAT_REG, 0x3F21_5064);
    assert_eq!(AUX_MU_BAUD, 0x3F21_5068);
}
