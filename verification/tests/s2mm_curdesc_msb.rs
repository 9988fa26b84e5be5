use rv_csr_test::s2mm_curdesc_msb::{R, RESET_VALUE, S2MM_CURDESC_MSB_SPEC, W};

#[test]
fn reader_gives_all_thirty_two_bits() {
    assert_eq!(R::new(0).curdesc_ptr(), 0);
    assert_eq!(R::new(0xdead_beef).curdesc_ptr(), 0xdead_beef);
    assert_eq!(R::new(u32::MAX).curdesc_ptr(), u32::MAX);
}

#[test]
fn writer_starts_from_the_reset_value() {
    assert_eq!(RESET_VALUE, 0);
    assert_eq!(W::new().into_bits(), 0);
    assert_eq!(S2MM_CURDESC_MSB_SPEC, S2MM_CURDESC_MSB_SPEC);
}

#[test]
fn writer_field_and_raw_bits() {
    let mut w = W::new();
    *w.curdesc_ptr() = 0x1234_5678;
    assert_eq!(*w.curdesc_ptr(), 0x1234_5678);
    w.bits(0x8000_0001);
    assert_eq!(*w.curdesc_ptr(), 0x8000_0001);
    *w.bits(7).curdesc_ptr() = 9;
    assert_eq!(w.into_bits(), 9);
}
