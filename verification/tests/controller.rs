use rv_csr_test::controller::Plic;
use rv_csr_test::plic::{get_context, PlicOp, Priority};

fn controller() -> Plic {
    Plic::new(3, 32, 6).unwrap()
}

#[test]
fn new_rejects_bad_sizes() {
    assert!(Plic::new(32, 32, 6).is_none());
    assert!(Plic::new(3, 0, 6).is_none());
    assert!(Plic::new(3, 0x1_0001, 6).is_none());
    assert!(Plic::new(31, 0x1_0000, 0).is_some());
    assert!(Plic::new(0, 1, 1).is_some());
}

#[test]
fn new_reports_its_sizes() {
    let plic = controller();
    assert_eq!(plic.sources(), 32);
    assert_eq!(plic.contexts(), 6);
}

#[test]
fn claim_without_pending_source_returns_none() {
    let mut plic = controller();
    plic.set_priority(14, Priority::Lowest);
    plic.enable(1, 14);
    assert_eq!(plic.claim(1), None);
}

#[test]
fn claim_of_pending_source_that_is_not_enabled_returns_none() {
    let mut plic = controller();
    plic.set_priority(14, Priority::Lowest);
    plic.raise(14);
    assert_eq!(plic.claim(1), None);
}

#[test]
fn claim_returns_the_single_candidate_once() {
    let mut plic = controller();
    plic.set_priority(14, Priority::Lowest);
    plic.enable(1, 14);
    plic.set_threshold(1, Priority::Any);
    plic.raise(14);
    assert_eq!(plic.claim(1), Some(14));
    assert_eq!(plic.claim(1), None);
    assert!(plic.is_claimed_by(1, 14));
}

#[test]
fn claimed_source_is_held_until_completed_and_raised_again() {
    let mut plic = controller();
    plic.set_priority(14, Priority::Lowest);
    plic.enable(1, 14);
    plic.enable(4, 14);
    plic.raise(14);
    assert_eq!(plic.claim(1), Some(14));
    plic.raise(14);
    assert_eq!(plic.claim(1), None);
    assert_eq!(plic.claim(4), None);
    plic.complete(1, 14);
    assert!(!plic.is_claimed_by(1, 14));
    assert_eq!(plic.claim(1), None);
    plic.raise(14);
    assert_eq!(plic.claim(4), Some(14));
    assert!(plic.is_claimed_by(4, 14));
}

#[test]
fn priority_zero_never_interrupts() {
    let mut plic = controller();
    plic.enable(1, 14);
    plic.raise(14);
    assert_eq!(plic.claim(1), None);
    plic.set_priority(14, Priority::Never);
    assert_eq!(plic.claim(1), None);
    plic.set_priority(14, Priority::Lowest);
    assert_eq!(plic.claim(1), Some(14));
}

#[test]
fn threshold_masks_sources_at_or_below_it() {
    let mut plic = controller();
    plic.set_priority(14, Priority::Lowest);
    plic.set_priority(15, Priority::Highest);
    plic.enable(1, 14);
    plic.enable(1, 15);
    plic.raise(14);
    plic.raise(15);
    plic.set_threshold(1, Priority::Lowest);
    assert_eq!(plic.claim(1), Some(15));
    assert_eq!(plic.claim(1), None);
    plic.set_threshold(1, Priority::Any);
    assert_eq!(plic.claim(1), Some(14));
}

#[test]
fn threshold_never_shuts_the_context_off() {
    let mut plic = controller();
    plic.set_priority(15, Priority::Highest);
    plic.enable(0, 15);
    plic.set_threshold(0, Priority::Never);
    plic.raise(15);
    assert_eq!(plic.claim(0), None);
}

#[test]
fn claim_prefers_higher_priority_then_lower_number() {
    let mut plic = controller();
    plic.set_priority(3, Priority::Lowest);
    plic.set_priority(9, Priority::Highest);
    plic.set_priority(5, Priority::Highest);
    plic.set_priority(2, Priority::Lowest);
    for irq in [2u16, 3, 5, 9] {
        plic.enable(1, irq);
        plic.raise(irq);
    }
    assert_eq!(plic.claim(1), Some(5));
    assert_eq!(plic.claim(1), Some(9));
    assert_eq!(plic.claim(1), Some(2));
    assert_eq!(plic.claim(1), Some(3));
    assert_eq!(plic.claim(1), None);
}

#[test]
fn enable_does_not_change_what_another_context_sees() {
    let mut plic = controller();
    plic.set_priority(14, Priority::Lowest);
    plic.enable(get_context(0, 'S'), 14);
    plic.raise(14);
    assert_eq!(plic.claim(get_context(0, 'U')), None);
    assert_eq!(plic.claim(get_context(1, 'S')), None);
    plic.disable(get_context(1, 'S'), 14);
    assert_eq!(plic.claim(get_context(0, 'S')), Some(14));
}

#[test]
fn disable_hides_the_source() {
    let mut plic = controller();
    plic.set_priority(14, Priority::Lowest);
    plic.enable(1, 14);
    plic.raise(14);
    plic.disable(1, 14);
    assert_eq!(plic.claim(1), None);
    plic.enable(1, 14);
    assert_eq!(plic.claim(1), Some(14));
}

#[test]
fn clear_enable_hides_one_word_of_sources() {
    let mut plic = Plic::new(3, 64, 2).unwrap();
    for irq in [1u16, 31, 32, 63] {
        plic.set_priority(irq, Priority::Lowest);
        plic.enable(0, irq);
        plic.enable(1, irq);
        plic.raise(irq);
    }
    plic.clear_enable(0, 0);
    assert_eq!(plic.claim(0), Some(32));
    assert_eq!(plic.claim(0), Some(63));
    assert_eq!(plic.claim(0), None);
    plic.clear_enable(1, 1);
    assert_eq!(plic.claim(1), Some(1));
    assert_eq!(plic.claim(1), Some(31));
    assert_eq!(plic.claim(1), None);
    plic.clear_enable(1, 7);
}

#[test]
fn apply_carries_out_each_operation() {
    let mut plic = controller();
    plic.apply(PlicOp::SetPriority { irq: 7, priority: Priority::Lowest });
    plic.apply(PlicOp::Enable { context: 4, irq: 7 });
    plic.apply(PlicOp::SetThreshold { context: 4, threshold: Priority::Any });
    plic.raise(7);
    assert_eq!(plic.claim(4), Some(7));
    plic.apply(PlicOp::Complete { context: 4, irq: 7 });
    assert!(!plic.is_claimed_by(4, 7));
    plic.raise(7);
    plic.apply(PlicOp::Disable { context: 4, irq: 7 });
    assert_eq!(plic.claim(4), None);
    plic.apply(PlicOp::Enable { context: 4, irq: 7 });
    plic.apply(PlicOp::ClearEnable { context: 4, word: 0 });
    assert_eq!(plic.claim(4), None);
}

#[test]
fn lowest_priority_of_a_zero_width_field_is_zero() {
    let mut plic = Plic::new(0, 4, 1).unwrap();
    plic.set_priority(1, Priority::Highest);
    plic.enable(0, 1);
    plic.raise(1);
    assert_eq!(plic.claim(0), None);
}

#[test]
fn apply_all_carries_out_a_list_in_order() {
    let mut plic = controller();
    plic.apply_all(&vec![
        PlicOp::SetPriority { irq: 7, priority: Priority::Highest },
        PlicOp::Enable { context: 4, irq: 7 },
        PlicOp::Disable { context: 4, irq: 7 },
        PlicOp::Enable { context: 1, irq: 7 },
    ]);
    plic.raise(7);
    assert_eq!(plic.claim(4), None);
    assert_eq!(plic.claim(1), Some(7));
    plic.apply_all(&Vec::new());
    assert!(plic.is_claimed_by(1, 7));
}
