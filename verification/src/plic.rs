//! Facade of the platform-level interrupt controller.
//!
//! The controller keeps one register set per (hart, privilege level) pair,
//! its context. This module numbers the contexts, names the operations of
//! the controller, says which operations bring it up, and holds the two
//! halves of interrupt service: the trap path, which claims until nothing
//! is left and raises the hart's flag, and the polling consumer, which
//! completes what was claimed.

use vstd::prelude::*;
use crate::config::Board;
use crate::controller::{count_set, lemma_after_all_add, lemma_after_all_one, lemma_drained_step};
use crate::controller::{Plic, PlicState};
use crate::flags::HartFlags;

verus! {

/// Address of the controller's registers.
pub const PLIC_BASE: usize = 0xc00_0000;

/// Width in bits of a priority field.
pub const PLIC_PRIORITY_BIT: usize = 3;

/// Register sets that the controller keeps for each hart, one per privilege level.
pub const MODE_PER_HART: usize = 3;

/// Position of a privilege level's register set within a hart's group, if
/// `mode` is one of the tags `'M'`, `'S'` and `'U'`.
pub open spec fn mode_offset(mode: char) -> Option<int> {
    if mode == 'M' {
        Some(0)
    } else if mode == 'S' {
        Some(1)
    } else if mode == 'U' {
        Some(2)
    } else {
        None
    }
}

/// Index of the register set that belongs to `hartid` at privilege level `mode`.
pub open spec fn context_index(hartid: int, mode: char) -> int
    recommends
        mode_offset(mode) is Some,
{
    hartid * 3 + mode_offset(mode).unwrap()
}

/// Index of the controller context of `hartid` at privilege level `mode`.
pub fn get_context(hartid: usize, mode: char) -> (context: usize)
    requires
        mode_offset(mode) is Some,
        context_index(hartid as int, mode) <= usize::MAX,
    ensures
        context == context_index(hartid as int, mode),
{
    let offset: usize = match mode {
        'M' => 0,
        'S' => 1,
        _ => 2,
    };
    hartid * MODE_PER_HART + offset
}

/// Why a (hart, mode) pair has no context.
#[derive(Clone, Copy, Debug, PartialEq, Eq, Structural)]
pub enum ContextError {
    /// The mode tag is none of `'M'`, `'S'` and `'U'`.
    InvalidMode,
    /// The index does not fit a machine word.
    HartOutOfRange,
}

/// Index of the controller context of `hart` at privilege level `mode`, or
/// the reason why there is none.
pub fn context_of(hart: usize, mode: char) -> (r: Result<usize, ContextError>)
    ensures
        mode_offset(mode) is None ==> r == Err::<usize, ContextError>(ContextError::InvalidMode),
        mode_offset(mode) is Some && context_index(hart as int, mode) > usize::MAX ==> r == Err::<
            usize,
            ContextError,
        >(ContextError::HartOutOfRange),
        mode_offset(mode) is Some && context_index(hart as int, mode) <= usize::MAX ==> r == Ok::<
            usize,
            ContextError,
        >(context_index(hart as int, mode) as usize),
{
    let offset: usize = match mode {
        'M' => 0,
        'S' => 1,
        'U' => 2,
        _ => {
            return Err(ContextError::InvalidMode);
        },
    };
    let base = match hart.checked_mul(MODE_PER_HART) {
        Some(base) => base,
        None => {
            return Err(ContextError::HartOutOfRange);
        },
    };
    match base.checked_add(offset) {
        Some(context) => Ok(context),
        None => Err(ContextError::HartOutOfRange),
    }
}

/// No two different (hart, mode) pairs have the same context.
pub proof fn lemma_context_injective(h1: int, m1: char, h2: int, m2: char)
    requires
        0 <= h1,
        0 <= h2,
        mode_offset(m1) is Some,
        mode_offset(m2) is Some,
        context_index(h1, m1) == context_index(h2, m2),
    ensures
        h1 == h2,
        m1 == m2,
{
}

/// A priority or threshold level, by name.
#[derive(Clone, Copy, Debug, PartialEq, Eq, Structural)]
pub enum Priority {
    /// As the priority of a source: the source never interrupts. As a
    /// threshold: no source gets through.
    Never,
    /// The lowest priority that interrupts.
    Lowest,
    /// The highest priority.
    Highest,
    /// As a threshold: every source that interrupts at all gets through.
    Any,
}

/// One operation of the interrupt controller, to be carried out by the caller.
#[derive(Clone, Copy, Debug, PartialEq, Eq, Structural)]
pub enum PlicOp {
    /// Give the source `irq` the priority `priority`.
    SetPriority { irq: u16, priority: Priority },
    /// Let only sources above `threshold` through to `context`.
    SetThreshold { context: usize, threshold: Priority },
    /// Make the source `irq` visible to `context`.
    Enable { context: usize, irq: u16 },
    /// Hide the source `irq` from `context`.
    Disable { context: usize, irq: u16 },
    /// Hide the thirty-two sources of enable word `word` from `context`.
    ClearEnable { context: usize, word: usize },
    /// Release the claim of `context` on the source `irq`.
    Complete { context: usize, irq: u16 },
}

/// The first of the two serial ports' interrupt sources that the harts use.
pub open spec fn first_serial_irq(board: Board) -> u16 {
    match board {
        Board::Qemu => 14,
        Board::Lrv => 6,
    }
}

/// The operations that bring up the registers shared by all contexts.
pub open spec fn init_ops(board: Board) -> Seq<PlicOp> {
    seq![
        PlicOp::SetPriority { irq: first_serial_irq(board), priority: Priority::Lowest },
        PlicOp::SetPriority { irq: (first_serial_irq(board) + 1) as u16, priority: Priority::Lowest },
    ]
}

/// The operations that bring up the contexts of `hart_id`.
pub open spec fn init_hart_ops(board: Board, hart_id: int) -> Seq<PlicOp> {
    let s = context_index(hart_id, 'S') as usize;
    let irq = (first_serial_irq(board) + hart_id) as u16;
    match board {
        Board::Qemu => seq![
            PlicOp::Enable { context: s, irq },
            PlicOp::SetThreshold { context: s, threshold: Priority::Any },
        ],
        Board::Lrv => seq![
            PlicOp::ClearEnable { context: s, word: 0 },
            PlicOp::ClearEnable { context: context_index(hart_id, 'U') as usize, word: 0 },
            PlicOp::Enable { context: s, irq },
            PlicOp::SetThreshold { context: s, threshold: Priority::Any },
            PlicOp::SetThreshold {
                context: context_index(hart_id, 'M') as usize,
                threshold: Priority::Never,
            },
        ],
    }
}

/// Brings up the registers shared by all contexts: the two serial ports'
/// sources get the lowest priority that interrupts.
pub fn init(board: Board) -> (ops: Vec<PlicOp>)
    ensures
        ops@ == init_ops(board),
{
    let first: u16 = match board {
        Board::Qemu => 14,
        Board::Lrv => 6,
    };
    let mut ops: Vec<PlicOp> = Vec::new();
    ops.push(PlicOp::SetPriority { irq: first, priority: Priority::Lowest });
    ops.push(PlicOp::SetPriority { irq: first + 1, priority: Priority::Lowest });
    assert(ops@ =~= init_ops(board));
    ops
}

/// Brings up the contexts of `hart_id`: the hart's serial port becomes
/// visible to its supervisor context, whose threshold lets every source
/// through. On the FPGA board the first enable word of the supervisor and
/// user contexts is cleared before, and the machine context is shut off.
pub fn init_hart(board: Board, hart_id: usize) -> (ops: Vec<PlicOp>)
    requires
        first_serial_irq(board) + hart_id <= u16::MAX,
    ensures
        ops@ == init_hart_ops(board, hart_id as int),
{
    let context = get_context(hart_id, 'S');
    let mut ops: Vec<PlicOp> = Vec::new();
    match board {
        Board::Qemu => {
            ops.push(PlicOp::Enable { context, irq: 14 + hart_id as u16 });
            ops.push(PlicOp::SetThreshold { context, threshold: Priority::Any });
        },
        Board::Lrv => {
            ops.push(PlicOp::ClearEnable { context, word: 0 });
            ops.push(PlicOp::ClearEnable { context: get_context(hart_id, 'U'), word: 0 });
            ops.push(PlicOp::Enable { context, irq: 6 + hart_id as u16 });
            ops.push(PlicOp::SetThreshold { context, threshold: Priority::Any });
            ops.push(
                PlicOp::SetThreshold {
                    context: get_context(hart_id, 'M'),
                    threshold: Priority::Never,
                },
            );
        },
    }
    assert(ops@ =~= init_hart_ops(board, hart_id as int));
    ops
}

/// The controller can carry out the bring-up of the shared registers and of
/// the contexts of one of the first two harts, and after it a request of
/// the hart's serial port is one that the hart's supervisor context may
/// claim: the source is visible to that context, and its priority lies
/// above the context's threshold.
pub proof fn lemma_bring_up_arms_serial(s: PlicState, board: Board, hart: int)
    requires
        s.wf(),
        s.max_priority >= 1,
        0 <= hart < 2,
        context_index(hart, 'U') < s.contexts(),
        first_serial_irq(board) + 1 < s.sources(),
    ensures
        s.accepts_all(init_ops(board) + init_hart_ops(board, hart)),
        s.after_all(init_ops(board) + init_hart_ops(board, hart)).wf(),
        s.after_all(init_ops(board) + init_hart_ops(board, hart)).enabled[context_index(
            hart,
            'S',
        )][first_serial_irq(board) + hart],
        s.after_all(init_ops(board) + init_hart_ops(board, hart)).priority[first_serial_irq(board)
            + hart] > s.after_all(init_ops(board) + init_hart_ops(board, hart)).threshold[context_index(
            hart,
            'S',
        )],
{
    let first = first_serial_irq(board);
    let irq = (first + hart) as u16;
    let sc = context_index(hart, 'S') as usize;
    let uc = context_index(hart, 'U') as usize;
    let mc = context_index(hart, 'M') as usize;
    let p0 = PlicOp::SetPriority { irq: first, priority: Priority::Lowest };
    let p1 = PlicOp::SetPriority { irq: (first + 1) as u16, priority: Priority::Lowest };
    let en = PlicOp::Enable { context: sc, irq };
    let th = PlicOp::SetThreshold { context: sc, threshold: Priority::Any };
    let cs = PlicOp::ClearEnable { context: sc, word: 0 };
    let cu = PlicOp::ClearEnable { context: uc, word: 0 };
    let tm = PlicOp::SetThreshold { context: mc, threshold: Priority::Never };

    let s1 = s.after(p0);
    let s2 = s1.after(p1);
    assert(s1.wf());
    assert(s2.wf());
    lemma_after_all_one(s, p0);
    lemma_after_all_one(s1, p1);
    lemma_after_all_add(s, seq![p0], seq![p1]);
    assert(init_ops(board) =~= seq![p0] + seq![p1]);
    assert(s.accepts_all(init_ops(board)) && s.after_all(init_ops(board)) == s2);
    assert(s2.priority[irq as int] == 1);

    match board {
        Board::Qemu => {
            let s3 = s2.after(en);
            let s4 = s3.after(th);
            assert(s3.wf()) by {
                assert forall|c: int| 0 <= c < s3.contexts() implies (#[trigger] s3.enabled[c]).len()
                    == s3.sources() by {
                    assert(s2.enabled[c].len() == s2.sources());
                }
            }
            assert(s4.wf());
            lemma_after_all_one(s2, en);
            lemma_after_all_one(s3, th);
            lemma_after_all_add(s2, seq![en], seq![th]);
            assert(init_hart_ops(board, hart) =~= seq![en] + seq![th]);
            lemma_after_all_add(s, init_ops(board), init_hart_ops(board, hart));
            assert(s2.enabled[sc as int].len() == s2.sources());
        },
        Board::Lrv => {
            let s3 = s2.after(cs);
            let s4 = s3.after(cu);
            let s5 = s4.after(en);
            let s6 = s5.after(th);
            let s7 = s6.after(tm);
            assert(s2.enabled[sc as int].len() == s2.sources());
            assert(s2.enabled[uc as int].len() == s2.sources());
            assert(s3.wf()) by {
                assert forall|c: int| 0 <= c < s3.contexts() implies (#[trigger] s3.enabled[c]).len()
                    == s3.sources() by {
                    assert(s2.enabled[c].len() == s2.sources());
                }
            }
            assert(s3.enabled[uc as int].len() == s3.sources());
            assert(s4.wf()) by {
                assert forall|c: int| 0 <= c < s4.contexts() implies (#[trigger] s4.enabled[c]).len()
                    == s4.sources() by {
                    assert(s3.enabled[c].len() == s3.sources());
                }
            }
            assert(s4.enabled[sc as int].len() == s4.sources());
            assert(s5.wf()) by {
                assert forall|c: int| 0 <= c < s5.contexts() implies (#[trigger] s5.enabled[c]).len()
                    == s5.sources() by {
                    assert(s4.enabled[c].len() == s4.sources());
                }
            }
            assert(s6.wf());
            assert(s7.wf());
            lemma_after_all_one(s2, cs);
            lemma_after_all_one(s3, cu);
            lemma_after_all_one(s4, en);
            lemma_after_all_one(s5, th);
            lemma_after_all_one(s6, tm);
            lemma_after_all_add(s2, seq![cs], seq![cu]);
            lemma_after_all_add(s2, seq![cs] + seq![cu], seq![en]);
            lemma_after_all_add(s2, seq![cs] + seq![cu] + seq![en], seq![th]);
            lemma_after_all_add(s2, seq![cs] + seq![cu] + seq![en] + seq![th], seq![tm]);
            assert(init_hart_ops(board, hart) =~= seq![cs] + seq![cu] + seq![en] + seq![th] + seq![
                tm,
            ]);
            lemma_after_all_add(s, init_ops(board), init_hart_ops(board, hart));
        },
    }
}

/// What a hart's trap path does with the answer to one claim: a claimed
/// source sets the hart's pending flag and asks for another claim; no
/// source ends the round.
pub fn record_claim(flags: &mut HartFlags, hart_id: usize, claimed: Option<u16>) -> (again: bool)
    requires
        hart_id < old(flags)@.len(),
    ensures
        again == claimed is Some,
        claimed is Some ==> final(flags)@ == old(flags)@.update(hart_id as int, true),
        claimed is None ==> final(flags)@ == old(flags)@,
{
    match claimed {
        Some(_irq) => {
            flags.set(hart_id);
            true
        },
        None => false,
    }
}

/// Drains the external interrupts of `hart_id` at privilege level `mode`:
/// claims from the hart's context until the controller has nothing left
/// for it, and sets the hart's pending flag if anything was claimed. No
/// claim is completed here; that is left to the hart's polling consumer.
pub fn handle_external_interrupt(
    plic: &mut Plic,
    flags: &mut HartFlags,
    hart_id: usize,
    mode: char,
)
    requires
        old(plic)@.wf(),
        mode_offset(mode) is Some,
        context_index(hart_id as int, mode) < old(plic)@.contexts(),
        hart_id < old(flags)@.len(),
    ensures
        final(plic)@.wf(),
        final(plic)@ == old(plic)@.drained(context_index(hart_id as int, mode)),
        !final(plic)@.has_candidate(context_index(hart_id as int, mode)),
        old(plic)@.has_candidate(context_index(hart_id as int, mode)) ==> final(flags)@ == old(
            flags,
        )@.update(hart_id as int, true),
        !old(plic)@.has_candidate(context_index(hart_id as int, mode)) ==> final(flags)@ == old(
            flags,
        )@,
{
    let context = get_context(hart_id, mode);
    let mut any = false;
    loop
        invariant
            plic@.wf(),
            mode_offset(mode) is Some,
            context == context_index(hart_id as int, mode),
            context < plic@.contexts(),
            hart_id < flags@.len(),
            hart_id < old(flags)@.len(),
            plic@.drained(context as int) == old(plic)@.drained(context as int),
            any ==> flags@ == old(flags)@.update(hart_id as int, true) && old(
                plic,
            )@.has_candidate(context as int),
            !any ==> flags@ == old(flags)@ && plic@ == old(plic)@,
        ensures
            !plic@.has_candidate(context as int),
        decreases count_set(plic@.pending),
    {
        let ghost before = plic@;
        let claimed = plic.claim(context);
        proof {
            if let Some(irq) = claimed {
                lemma_drained_step(before, context as int, irq as int);
                assert(before.candidate(context as int, irq as int));
            }
        }
        if !record_claim(flags, hart_id, claimed) {
            break ;
        }
        proof {
            if !any {
                assert(old(plic)@.candidate(context as int, claimed.unwrap() as int));
            }
            assert(flags@ =~= old(flags)@.update(hart_id as int, true));
        }
        any = true;
    }
    proof {
        lemma_drained_step(plic@, context as int, 0);
    }
}

/// One step of a hart's polling consumer, to be carried out by the caller.
#[derive(Clone, Copy, Debug, PartialEq, Eq, Structural)]
pub enum ConsumerAction {
    /// Run the interrupt handler of the device behind the claimed source.
    Service,
    /// Release the claim of `context` on the source `irq`.
    Complete { context: usize, irq: u16 },
    /// Clear the pending flag of `hart`.
    ClearPending { hart: usize },
}

/// What the polling consumer of `hart_id` does when it has read its own
/// pending flag as `own_flag`.
pub open spec fn consumer_steps(own_flag: bool, hart_id: usize, context: usize, irq: u16) -> Seq<
    ConsumerAction,
> {
    if own_flag {
        seq![
            ConsumerAction::Service,
            ConsumerAction::Complete { context, irq },
            ConsumerAction::ClearPending { hart: hart_id },
        ]
    } else {
        Seq::empty()
    }
}

/// The step of a hart's polling consumer, given the hart's own pending flag
/// as it was just read. Where the flag is set, the device is serviced once,
/// then the claim of `context` on `irq` is completed once, and only then
/// the hart's own flag is cleared. Where it is not set there is nothing to
/// do. The flag of no other hart is read or named.
pub fn service_pending(own_flag: bool, hart_id: usize, context: usize, irq: u16) -> (steps: Vec<
    ConsumerAction,
>)
    ensures
        steps@ == consumer_steps(own_flag, hart_id, context, irq),
        !own_flag ==> steps@ == Seq::<ConsumerAction>::empty(),
        own_flag ==> steps@ == seq![
            ConsumerAction::Service,
            ConsumerAction::Complete { context, irq },
            ConsumerAction::ClearPending { hart: hart_id },
        ],
{
    let mut steps: Vec<ConsumerAction> = Vec::new();
    if own_flag {
        steps.push(ConsumerAction::Service);
        steps.push(ConsumerAction::Complete { context, irq });
        steps.push(ConsumerAction::ClearPending { hart: hart_id });
    }
    assert(steps@ =~= consumer_steps(own_flag, hart_id, context, irq));
    steps
}

/// Carries out the steps of a polling consumer on the controller and the
/// flags, in their order; servicing the device leaves both as they are.
pub fn run_consumer_steps(plic: &mut Plic, flags: &mut HartFlags, steps: &Vec<ConsumerAction>)
    requires
        old(plic)@.wf(),
        consumer_effect_ok(old(plic)@, old(flags)@, steps@),
    ensures
        final(plic)@.wf(),
        final(plic)@ == consumer_effect(old(plic)@, old(flags)@, steps@).0,
        final(flags)@ == consumer_effect(old(plic)@, old(flags)@, steps@).1,
{
    let mut i: usize = 0;
    assert(steps@.subrange(0, steps@.len() as int) =~= steps@);
    while i < steps.len()
        invariant
            i <= steps@.len(),
            plic@.wf(),
            consumer_effect_ok(plic@, flags@, steps@.subrange(i as int, steps@.len() as int)),
            consumer_effect(plic@, flags@, steps@.subrange(i as int, steps@.len() as int))
                == consumer_effect(old(plic)@, old(flags)@, steps@),
        decreases steps@.len() - i,
    {
        let ghost rest = steps@.subrange(i as int, steps@.len() as int);
        assert(rest[0] == steps@[i as int]);
        assert(rest.drop_first() =~= steps@.subrange(i + 1, steps@.len() as int));
        match steps[i] {
            ConsumerAction::Service => {},
            ConsumerAction::Complete { context, irq } => plic.complete(context, irq),
            ConsumerAction::ClearPending { hart } => flags.clear(hart),
        }
        i += 1;
    }
}

/// Whether the controller and the flags can take the steps `steps`: every
/// completion names a claim that its context holds, every flag exists.
pub open spec fn consumer_effect_ok(state: PlicState, flags: Seq<bool>, steps: Seq<ConsumerAction>)
    -> bool
    decreases steps.len(),
{
    if steps.len() == 0 {
        true
    } else {
        let ok = match steps[0] {
            ConsumerAction::Service => true,
            ConsumerAction::Complete { context, irq } => state.accepts(
                PlicOp::Complete { context, irq },
            ),
            ConsumerAction::ClearPending { hart } => hart < flags.len(),
        };
        ok && consumer_effect_ok(
            consumer_step_effect(state, flags, steps[0]).0,
            consumer_step_effect(state, flags, steps[0]).1,
            steps.drop_first(),
        )
    }
}

/// The controller and the flags after one step of a polling consumer.
pub open spec fn consumer_step_effect(state: PlicState, flags: Seq<bool>, step: ConsumerAction) -> (
    PlicState,
    Seq<bool>,
) {
    match step {
        ConsumerAction::Service => (state, flags),
        ConsumerAction::Complete { context, irq } => (state.after_complete(irq as int), flags),
        ConsumerAction::ClearPending { hart } => (state, flags.update(hart as int, false)),
    }
}

/// The controller and the flags after the steps `steps`, in their order.
pub open spec fn consumer_effect(state: PlicState, flags: Seq<bool>, steps: Seq<ConsumerAction>)
    -> (PlicState, Seq<bool>)
    decreases steps.len(),
{
    if steps.len() == 0 {
        (state, flags)
    } else {
        consumer_effect(
            consumer_step_effect(state, flags, steps[0]).0,
            consumer_step_effect(state, flags, steps[0]).1,
            steps.drop_first(),
        )
    }
}

/// A round of the polling consumer on a set flag ends the claim, clears the
/// hart's own flag, and leaves the flag of every other hart and everything
/// else of the controller as it was.
pub proof fn lemma_service_pending(
    state: PlicState,
    flags: Seq<bool>,
    hart_id: usize,
    context: usize,
    irq: u16,
)
    requires
        state.wf(),
        hart_id < flags.len(),
        context < state.contexts(),
        0 < irq < state.sources(),
        state.claimed[irq as int] == Some(context),
    ensures
        consumer_effect_ok(state, flags, consumer_steps(true, hart_id, context, irq)),
        consumer_effect(state, flags, consumer_steps(true, hart_id, context, irq)) == (
            state.after_complete(irq as int),
            flags.update(hart_id as int, false),
        ),
        consumer_effect(state, flags, consumer_steps(false, hart_id, context, irq)) == (
            state,
            flags,
        ),
{
    let steps = consumer_steps(true, hart_id, context, irq);
    let s1 = steps.drop_first();
    let s2 = s1.drop_first();
    assert(steps[0] == ConsumerAction::Service);
    assert(s1[0] == (ConsumerAction::Complete { context, irq }));
    assert(s2[0] == (ConsumerAction::ClearPending { hart: hart_id }));
    assert(s2.drop_first().len() == 0);
    reveal_with_fuel(consumer_effect_ok, 4);
    reveal_with_fuel(consumer_effect, 4);
}

} // verus!
