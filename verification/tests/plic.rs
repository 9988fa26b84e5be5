use rv_csr_test::config::Board;
use rv_csr_test::controller::Plic;
use rv_csr_test::flags::HartFlags;
use rv_csr_test::plic::{
    context_of, get_context, handle_external_interrupt, init, init_hart, record_claim,
    run_consumer_steps, service_pending, ConsumerAction, ContextError, PlicOp, Priority,
};

#[test]
fn context_is_three_per_hart_plus_mode_offset() {
    assert_eq!(get_context(0, 'M'), 0);
    assert_eq!(get_context(0, 'S'), 1);
    assert_eq!(get_context(0, 'U'), 2);
    assert_eq!(get_context(1, 'M'), 3);
    assert_eq!(get_context(1, 'S'), 4);
    assert_eq!(get_context(1, 'U'), 5);
    assert_eq!(get_context(7, 'S'), 22);
}

#[test]
fn context_of_rejects_unknown_mode() {
    assert_eq!(context_of(0, 'X'), Err(ContextError::InvalidMode));
    assert_eq!(context_of(3, 's'), Err(ContextError::InvalidMode));
    assert_eq!(context_of(usize::MAX, 'H'), Err(ContextError::InvalidMode));
}

#[test]
fn context_of_rejects_hart_that_does_not_fit() {
    assert_eq!(context_of(usize::MAX, 'M'), Err(ContextError::HartOutOfRange));
    assert_eq!(context_of(usize::MAX / 3, 'M'), Ok(usize::MAX));
    assert_eq!(context_of(usize::MAX / 3, 'S'), Err(ContextError::HartOutOfRange));
    assert_eq!(context_of(usize::MAX / 3, 'U'), Err(ContextError::HartOutOfRange));
}

#[test]
fn context_of_agrees_with_get_context() {
    for hart in 0..8usize {
        for mode in ['M', 'S', 'U'] {
            assert_eq!(context_of(hart, mode), Ok(get_context(hart, mode)));
        }
    }
}

#[test]
fn contexts_do_not_collide() {
    let mut seen: Vec<usize> = Vec::new();
    for hart in 0..16usize {
        for mode in ['M', 'S', 'U'] {
            let context = get_context(hart, mode);
            assert!(!seen.contains(&context));
            seen.push(context);
        }
    }
    assert_eq!(seen.len(), 48);
}

#[test]
fn init_gives_both_serial_sources_the_lowest_priority() {
    assert_eq!(
        init(Board::Qemu),
        vec![
            PlicOp::SetPriority { irq: 14, priority: Priority::Lowest },
            PlicOp::SetPriority { irq: 15, priority: Priority::Lowest },
        ]
    );
    assert_eq!(
        init(Board::Lrv),
        vec![
            PlicOp::SetPriority { irq: 6, priority: Priority::Lowest },
            PlicOp::SetPriority { irq: 7, priority: Priority::Lowest },
        ]
    );
}

#[test]
fn init_hart_on_the_emulated_board() {
    assert_eq!(
        init_hart(Board::Qemu, 1),
        vec![
            PlicOp::Enable { context: 4, irq: 15 },
            PlicOp::SetThreshold { context: 4, threshold: Priority::Any },
        ]
    );
}

#[test]
fn init_hart_on_the_fpga_board() {
    assert_eq!(
        init_hart(Board::Lrv, 1),
        vec![
            PlicOp::ClearEnable { context: 4, word: 0 },
            PlicOp::ClearEnable { context: 5, word: 0 },
            PlicOp::Enable { context: 4, irq: 7 },
            PlicOp::SetThreshold { context: 4, threshold: Priority::Any },
            PlicOp::SetThreshold { context: 3, threshold: Priority::Never },
        ]
    );
}

#[test]
fn record_claim_sets_only_the_harts_own_flag() {
    let mut flags = HartFlags::new(3);
    assert!(record_claim(&mut flags, 1, Some(14)));
    assert!(!flags.get(0));
    assert!(flags.get(1));
    assert!(!flags.get(2));
    assert!(!record_claim(&mut flags, 2, None));
    assert!(!flags.get(2));
    assert!(flags.get(1));
}

#[test]
fn consumer_does_nothing_while_its_flag_is_clear() {
    assert_eq!(service_pending(false, 1, 4, 15), Vec::new());
    assert_eq!(service_pending(false, 0, 0, 0), Vec::new());
}

#[test]
fn consumer_services_then_completes_then_clears_its_own_flag() {
    assert_eq!(
        service_pending(true, 1, 4, 15),
        vec![
            ConsumerAction::Service,
            ConsumerAction::Complete { context: 4, irq: 15 },
            ConsumerAction::ClearPending { hart: 1 },
        ]
    );
    assert_eq!(
        service_pending(true, 0, 2, 6),
        vec![
            ConsumerAction::Service,
            ConsumerAction::Complete { context: 2, irq: 6 },
            ConsumerAction::ClearPending { hart: 0 },
        ]
    );
}

#[test]
fn consumer_round_releases_the_claim_and_leaves_other_harts_alone() {
    let mut plic = Plic::new(3, 32, 6).unwrap();
    let mut flags = HartFlags::new(2);
    plic.apply_all(&init(Board::Qemu));
    plic.apply_all(&init_hart(Board::Qemu, 1));
    plic.raise(15);
    flags.set(0);
    handle_external_interrupt(&mut plic, &mut flags, 1, 'S');
    assert!(flags.get(1));
    assert!(plic.is_claimed_by(4, 15));

    let steps = service_pending(flags.get(1), 1, 4, 15);
    run_consumer_steps(&mut plic, &mut flags, &steps);
    assert!(!flags.get(1));
    assert!(flags.get(0));
    assert!(!plic.is_claimed_by(4, 15));

    let steps = service_pending(flags.get(1), 1, 4, 15);
    run_consumer_steps(&mut plic, &mut flags, &steps);
    assert!(flags.get(0));
    plic.raise(15);
    assert_eq!(plic.claim(4), Some(15));
}

#[test]
fn drain_claims_everything_and_sets_the_flag_once() {
    let mut plic = Plic::new(3, 32, 6).unwrap();
    let mut flags = HartFlags::new(2);
    for op in init(Board::Qemu) {
        plic.apply(op);
    }
    for op in init_hart(Board::Qemu, 0) {
        plic.apply(op);
    }
    plic.enable(1, 15);
    plic.raise(14);
    plic.raise(15);
    handle_external_interrupt(&mut plic, &mut flags, 0, 'S');
    assert!(flags.get(0));
    assert!(!flags.get(1));
    assert!(plic.is_claimed_by(1, 14));
    assert!(plic.is_claimed_by(1, 15));
    assert_eq!(plic.claim(1), None);
}

#[test]
fn drain_with_nothing_pending_leaves_the_flag_clear() {
    let mut plic = Plic::new(3, 32, 6).unwrap();
    let mut flags = HartFlags::new(2);
    for op in init_hart(Board::Qemu, 1) {
        plic.apply(op);
    }
    handle_external_interrupt(&mut plic, &mut flags, 1, 'S');
    assert!(!flags.get(0));
    assert!(!flags.get(1));
}

#[test]
fn bring_up_lets_the_serial_source_through_to_the_supervisor_context() {
    for board in [Board::Qemu, Board::Lrv] {
        for hart in 0..2usize {
            let mut plic = Plic::new(3, 32, 6).unwrap();
            plic.enable(get_context(hart, 'S'), 1);
            plic.enable(get_context(hart, 'U'), 1);
            plic.set_threshold(get_context(hart, 'S'), Priority::Never);
            plic.apply_all(&init(board));
            plic.apply_all(&init_hart(board, hart));
            let irq = init_hart(board, hart)
                .iter()
                .find_map(|op| match op {
                    PlicOp::Enable { irq, .. } => Some(*irq),
                    _ => None,
                })
                .unwrap();
            plic.raise(irq);
            assert_eq!(plic.claim(get_context(hart, 'U')), None);
            assert_eq!(plic.claim(get_context(hart, 'M')), None);
            assert_eq!(plic.claim(get_context(1 - hart, 'S')), None);
            assert_eq!(plic.claim(get_context(hart, 'S')), Some(irq));
        }
    }
}
