use rv_csr_test::flags::HartFlags;

#[test]
fn new_flags_are_clear() {
    let flags = HartFlags::new(4);
    assert_eq!(flags.len(), 4);
    for hart in 0..4 {
        assert!(!flags.get(hart));
    }
    assert_eq!(HartFlags::new(0).len(), 0);
}

#[test]
fn set_and_clear_touch_one_hart() {
    let mut flags = HartFlags::new(3);
    flags.set(1);
    assert!(!flags.get(0));
    assert!(flags.get(1));
    assert!(!flags.get(2));
    flags.set(2);
    flags.clear(1);
    assert!(!flags.get(0));
    assert!(!flags.get(1));
    assert!(flags.get(2));
    flags.clear(1);
    assert!(!flags.get(1));
}

#[test]
fn barrier_waits_for_every_secondary() {
    let mut flags = HartFlags::new(3);
    assert!(!flags.all_set_except(0));
    flags.set(1);
    assert!(!flags.all_set_except(0));
    flags.set(2);
    assert!(flags.all_set_except(0));
    assert!(!flags.all_set_except(1));
    assert!(!flags.all_set_except(7));
    flags.set(0);
    assert!(flags.all_set_except(7));
}

#[test]
fn barrier_of_a_single_hart_is_open() {
    let flags = HartFlags::new(1);
    assert!(flags.all_set_except(0));
    assert!(HartFlags::new(0).all_set_except(0));
}
