use rv_csr_test::csr::{Csr, CsrOp, InterruptBits, Privilege, Source, Sstatus, Ustatus};
use rv_csr_test::hart::Hart;
use rv_csr_test::trap::{
    decode_cause, init, init_u, trap_handler, user_trap_handler, Exception, Interrupt, Trap,
    TrapContext, TrapOutcome, TrapReport, UnsupportedPolicy, UserTrapContext, VectorError,
    CONTEXT_SIZE,
    CONTEXT_WORDS, WORD_SIZE,
};

const INTERRUPT: usize = usize::MAX / 2 + 1;

fn supervisor_context() -> TrapContext {
    let mut x = [0usize; 32];
    for (i, r) in x.iter_mut().enumerate() {
        *r = 0x1000 + i;
    }
    TrapContext { x, sstatus: Sstatus { bits: 0x120 }, sepc: 0x8020_0000 }
}

#[test]
fn record_is_thirty_four_words() {
    assert_eq!(CONTEXT_SIZE, CONTEXT_WORDS * WORD_SIZE);
    assert_eq!(CONTEXT_SIZE, 272);
}

#[test]
fn user_context_holds_entry_stack_and_saved_registers() {
    let s: [usize; 12] = [100, 101, 102, 103, 104, 105, 106, 107, 108, 109, 110, 111];
    let cx = UserTrapContext::init(0x8020_1234, 0x8030_0400, s, Ustatus { bits: 0 });
    assert_eq!(cx.uepc, 0x8020_1234);
    let mut x = [0usize; 32];
    x[2] = 0x8030_0400;
    x[8] = 100;
    x[9] = 101;
    x[18] = 102;
    x[19] = 103;
    x[20] = 104;
    x[21] = 105;
    x[22] = 106;
    x[23] = 107;
    x[24] = 108;
    x[25] = 109;
    x[26] = 110;
    x[27] = 111;
    assert_eq!(cx.x, x);
    assert_eq!(cx.ustatus, Ustatus { bits: 0x10 });
}

#[test]
fn user_context_forces_the_prior_enable_and_keeps_other_status_bits() {
    let cx = UserTrapContext::init(0, 0, [0; 12], Ustatus { bits: 0x1 });
    assert_eq!(cx.ustatus.bits, 0x11);
    assert!(cx.ustatus.upie());
    assert!(cx.ustatus.uie());
    let cx = UserTrapContext::init(0, 0, [0; 12], Ustatus { bits: 0x10 });
    assert_eq!(cx.ustatus.bits, 0x10);
    assert!(!cx.ustatus.uie());
}

#[test]
fn cause_with_top_bit_is_an_interrupt() {
    assert_eq!(decode_cause(INTERRUPT), Trap::Interrupt(Interrupt::UserSoft));
    assert_eq!(decode_cause(INTERRUPT + 1), Trap::Interrupt(Interrupt::SupervisorSoft));
    assert_eq!(decode_cause(INTERRUPT + 4), Trap::Interrupt(Interrupt::UserTimer));
    assert_eq!(decode_cause(INTERRUPT + 5), Trap::Interrupt(Interrupt::SupervisorTimer));
    assert_eq!(decode_cause(INTERRUPT + 8), Trap::Interrupt(Interrupt::UserExternal));
    assert_eq!(decode_cause(INTERRUPT + 9), Trap::Interrupt(Interrupt::SupervisorExternal));
    assert_eq!(decode_cause(INTERRUPT + 2), Trap::Interrupt(Interrupt::Unknown));
    assert_eq!(decode_cause(INTERRUPT + 11), Trap::Interrupt(Interrupt::Unknown));
    assert_eq!(decode_cause(usize::MAX), Trap::Interrupt(Interrupt::Unknown));
}

#[test]
fn cause_without_top_bit_is_an_exception() {
    assert_eq!(decode_cause(0), Trap::Exception(Exception::InstructionMisaligned));
    assert_eq!(decode_cause(1), Trap::Exception(Exception::InstructionFault));
    assert_eq!(decode_cause(2), Trap::Exception(Exception::IllegalInstruction));
    assert_eq!(decode_cause(3), Trap::Exception(Exception::Breakpoint));
    assert_eq!(decode_cause(4), Trap::Exception(Exception::Unknown));
    assert_eq!(decode_cause(5), Trap::Exception(Exception::LoadFault));
    assert_eq!(decode_cause(6), Trap::Exception(Exception::StoreMisaligned));
    assert_eq!(decode_cause(7), Trap::Exception(Exception::StoreFault));
    assert_eq!(decode_cause(8), Trap::Exception(Exception::UserEnvCall));
    assert_eq!(decode_cause(12), Trap::Exception(Exception::InstructionPageFault));
    assert_eq!(decode_cause(13), Trap::Exception(Exception::LoadPageFault));
    assert_eq!(decode_cause(15), Trap::Exception(Exception::StorePageFault));
    assert_eq!(decode_cause(14), Trap::Exception(Exception::Unknown));
    assert_eq!(decode_cause(usize::MAX / 2), Trap::Exception(Exception::Unknown));
}

#[test]
fn supervisor_soft_is_acknowledged_and_nothing_else_changes() {
    let mut cx = supervisor_context();
    let mut pending = InterruptBits { bits: 0x223 };
    let outcome =
        trap_handler(&mut cx, &mut pending, INTERRUPT + 1, 0, 0x8020_0000, UnsupportedPolicy::Halt);
    assert_eq!(
        outcome,
        TrapOutcome::Acknowledged { op: CsrOp::ClearBits { csr: Csr::Sip, mask: 0x2 } }
    );
    assert_eq!(pending.bits, 0x221);
    assert_eq!(cx, supervisor_context());
}

#[test]
fn user_soft_is_acknowledged_by_the_user_dispatcher() {
    let mut cx = UserTrapContext::init(0x100, 0x200, [7; 12], Ustatus { bits: 0 });
    let before = cx;
    let mut pending = InterruptBits { bits: 0x103 };
    let outcome = user_trap_handler(&mut cx, &mut pending, INTERRUPT, 0, UnsupportedPolicy::Resume);
    assert_eq!(
        outcome,
        TrapOutcome::Acknowledged { op: CsrOp::ClearBits { csr: Csr::Uip, mask: 0x1 } }
    );
    assert_eq!(pending.bits, 0x102);
    assert_eq!(cx, before);
}

#[test]
fn acknowledging_a_clear_bit_changes_nothing() {
    let mut cx = UserTrapContext::init(0x100, 0x200, [7; 12], Ustatus { bits: 0 });
    let mut pending = InterruptBits { bits: 0x332 };
    let outcome = user_trap_handler(&mut cx, &mut pending, INTERRUPT, 0, UnsupportedPolicy::Resume);
    assert_eq!(
        outcome,
        TrapOutcome::Acknowledged { op: CsrOp::ClearBits { csr: Csr::Uip, mask: 0x1 } }
    );
    assert_eq!(pending.bits, 0x332);
}

#[test]
fn unsupported_cause_at_supervisor_level_reports_the_faulting_pc() {
    let mut cx = supervisor_context();
    let mut pending = InterruptBits { bits: 0x3 };
    let report = TrapReport {
        level: Privilege::Supervisor,
        cause: 2,
        trap: Trap::Exception(Exception::IllegalInstruction),
        tval: 0xdead,
        epc: Some(0x8020_0044),
    };
    let outcome = trap_handler(&mut cx, &mut pending, 2, 0xdead, 0x8020_0044, UnsupportedPolicy::Halt);
    assert_eq!(outcome, TrapOutcome::Halt { report });
    let outcome =
        trap_handler(&mut cx, &mut pending, 2, 0xdead, 0x8020_0044, UnsupportedPolicy::Resume);
    assert_eq!(outcome, TrapOutcome::Resume { report });
    assert_eq!(pending.bits, 0x3);
    assert_eq!(cx, supervisor_context());
}

#[test]
fn unsupported_cause_at_user_level_reports_no_pc() {
    let mut cx = UserTrapContext::init(0x100, 0x200, [7; 12], Ustatus { bits: 0 });
    let before = cx;
    let mut pending = InterruptBits { bits: 0x1 };
    let outcome =
        user_trap_handler(&mut cx, &mut pending, INTERRUPT + 8, 0x55, UnsupportedPolicy::Resume);
    assert_eq!(
        outcome,
        TrapOutcome::Resume {
            report: TrapReport {
                level: Privilege::User,
                cause: INTERRUPT + 8,
                trap: Trap::Interrupt(Interrupt::UserExternal),
                tval: 0x55,
                epc: None,
            }
        }
    );
    assert_eq!(pending.bits, 0x1);
    assert_eq!(cx, before);
}

#[test]
fn software_interrupt_of_the_other_level_is_unsupported() {
    let mut cx = supervisor_context();
    let mut pending = InterruptBits { bits: 0x3 };
    let outcome = trap_handler(&mut cx, &mut pending, INTERRUPT, 0, 0x40, UnsupportedPolicy::Resume);
    assert_eq!(
        outcome,
        TrapOutcome::Resume {
            report: TrapReport {
                level: Privilege::Supervisor,
                cause: INTERRUPT,
                trap: Trap::Interrupt(Interrupt::UserSoft),
                tval: 0,
                epc: Some(0x40),
            }
        }
    );
    assert_eq!(pending.bits, 0x3);
    let mut ucx = UserTrapContext::init(0x100, 0x200, [7; 12], Ustatus { bits: 0 });
    let outcome =
        user_trap_handler(&mut ucx, &mut pending, INTERRUPT + 1, 0, UnsupportedPolicy::Halt);
    assert_eq!(
        outcome,
        TrapOutcome::Halt {
            report: TrapReport {
                level: Privilege::User,
                cause: INTERRUPT + 1,
                trap: Trap::Interrupt(Interrupt::SupervisorSoft),
                tval: 0,
                epc: None,
            }
        }
    );
    assert_eq!(pending.bits, 0x3);
}

#[test]
fn vectors_are_installed_in_direct_mode() {
    let mut hart = Hart::new(0);
    assert_eq!(
        init(&mut hart, 0x8020_0100),
        Ok(CsrOp::Write { csr: Csr::Stvec, value: 0x8020_0100 })
    );
    assert_eq!(hart.stvec, Some(0x8020_0100));
    assert_eq!(hart.utvec, None);
    assert_eq!(
        init_u(&mut hart, 0x8020_0200),
        Ok(CsrOp::Write { csr: Csr::Utvec, value: 0x8020_0200 })
    );
    assert_eq!(hart.utvec, Some(0x8020_0200));
    assert_eq!(hart.stvec, Some(0x8020_0100));
    assert!(!hart.enabled.is_set(Privilege::Supervisor, Source::Soft));
}

#[test]
fn installing_a_vector_changes_no_interrupt_bit() {
    let mut hart = Hart::new(0);
    hart.pending.set(Privilege::Supervisor, Source::Soft);
    hart.sedeleg = 0x100;
    let before = hart;
    init(&mut hart, 0x8020_0100).unwrap();
    assert_eq!(hart.enabled, before.enabled);
    assert_eq!(hart.pending, before.pending);
    assert_eq!(hart.delegated, before.delegated);
    assert_eq!(hart.sedeleg, before.sedeleg);
    assert_eq!(hart.mode, before.mode);
    assert_eq!(hart.stvec.unwrap() & 3, 0);
}

#[test]
fn misaligned_vector_is_refused() {
    let mut hart = Hart::new(0);
    for entry in [0x8020_0101usize, 0x8020_0102, 0x8020_0103, usize::MAX] {
        assert_eq!(init(&mut hart, entry), Err(VectorError::Misaligned { entry }));
        assert_eq!(init_u(&mut hart, entry), Err(VectorError::Misaligned { entry }));
    }
    assert_eq!(hart, Hart::new(0));
    assert!(init(&mut hart, 0).is_ok());
}

#[test]
fn supervisor_vector_is_out_of_reach_at_user_level() {
    let mut hart = Hart::new(0);
    hart.mode = Privilege::User;
    let before = hart;
    assert_eq!(init(&mut hart, 0x8020_0100), Err(VectorError::UserLevel));
    assert_eq!(hart, before);
    assert_eq!(init(&mut hart, 0x8020_0101), Err(VectorError::Misaligned { entry: 0x8020_0101 }));
    assert!(init_u(&mut hart, 0x8020_0200).is_ok());
    hart.mode = Privilege::Machine;
    assert!(init(&mut hart, 0x8020_0100).is_ok());
}
