//! Trap contexts, trap vectors and the two trap dispatchers.
//!
//! The layout of a context record is fixed by the entry and exit stubs that
//! save and restore it: the thirty-two general registers in order, then the
//! status register, then the resume program counter, one machine word each.
//! The sizes given here are those of a hart with 64-bit registers.

use vstd::prelude::*;
use riscv::register::scause;
use crate::csr::{Csr, CsrOp, InterruptBits, Privilege, Source, Sstatus, Ustatus};
use crate::csr::{interrupt_mask, mask_of};
use crate::hart::Hart;

verus! {

/// Machine words of one context record.
pub const CONTEXT_WORDS: usize = 34;

/// Bytes of one machine word.
pub const WORD_SIZE: usize = 8;

/// Bytes of one context record, supervisor or user.
pub const CONTEXT_SIZE: usize = CONTEXT_WORDS * WORD_SIZE;

/// Registers as saved on a trap into supervisor level.
#[derive(Clone, Copy, Debug, PartialEq, Eq)]
pub struct TrapContext {
    pub x: [usize; 32],
    pub sstatus: Sstatus,
    pub sepc: usize,
}

/// Registers as restored on entry to user level.
#[derive(Clone, Copy, Debug, PartialEq, Eq)]
pub struct UserTrapContext {
    pub x: [usize; 32],
    pub ustatus: Ustatus,
    pub uepc: usize,
}

/// The general register that holds the `k`-th callee-saved register
/// (`s0` to `s11`): `x8`, `x9`, then `x18` to `x27`.
pub open spec fn saved_register(k: int) -> int
    recommends
        0 <= k < 12,
{
    if k < 2 {
        k + 8
    } else {
        k + 16
    }
}

/// The register file of a fresh user context: the stack pointer, the twelve
/// callee-saved registers of the snapshot, and zero everywhere else.
pub open spec fn user_registers(sp: usize, s: Seq<usize>) -> Seq<usize>
    recommends
        s.len() == 12,
{
    Seq::new(
        32,
        |i: int|
            if i == 2 {
                sp
            } else if i == 8 {
                s[0]
            } else if i == 9 {
                s[1]
            } else if 18 <= i <= 27 {
                s[i - 16]
            } else {
                0usize
            },
    )
}

/// Whether `cx` is the context for a first entry to user level at `entry`,
/// on the stack `sp`, with the callee-saved registers `s`, made from the
/// status `ustatus`.
pub open spec fn is_initial_context(
    cx: UserTrapContext,
    entry: usize,
    sp: usize,
    s: Seq<usize>,
    ustatus: Ustatus,
) -> bool {
    &&& cx.uepc == entry
    &&& cx.x@ == user_registers(sp, s)
    &&& cx.ustatus == ustatus.with_upie(true)
}

impl UserTrapContext {
    /// Builds the context with which a hart first enters user level: it
    /// resumes at `entry` on the stack `sp`, with the callee-saved registers
    /// of the snapshot `s`, and with `ustatus` as read from the hart but for
    /// the prior interrupt enable, which is forced on.
    pub fn init(entry: usize, sp: usize, s: [usize; 12], ustatus: Ustatus) -> (cx: Self)
        ensures
            is_initial_context(cx, entry, sp, s@, ustatus),
            cx.ustatus.upie(),
    {
        let mut status = ustatus;
        status.set_upie(true);
        let mut x = [0usize;32];
        x[2] = sp;
        x[8] = s[0];
        x[9] = s[1];
        let mut i: usize = 18;
        while i <= 27
            invariant
                18 <= i <= 28,
                x@.len() == 32,
                s@.len() == 12,
                forall|j: int| 0 <= j < 18 ==> x@[j] == user_registers(sp, s@)[j],
                forall|j: int| 18 <= j < i ==> x@[j] == s@[j - 16],
                forall|j: int| i <= j < 32 ==> x@[j] == 0,
            decreases 28 - i,
        {
            x[i] = s[i - 16];
            i += 1;
        }
        assert(x@ =~= user_registers(sp, s@));
        UserTrapContext { x, ustatus: status, uepc: entry }
    }
}

/// Cause of an interrupt, by its code.
#[derive(Clone, Copy, Debug, PartialEq, Eq, Structural)]
pub enum Interrupt {
    UserSoft,
    SupervisorSoft,
    UserTimer,
    SupervisorTimer,
    UserExternal,
    SupervisorExternal,
    Unknown,
}

/// Cause of an exception, by its code.
#[derive(Clone, Copy, Debug, PartialEq, Eq, Structural)]
pub enum Exception {
    InstructionMisaligned,
    InstructionFault,
    IllegalInstruction,
    Breakpoint,
    LoadFault,
    StoreMisaligned,
    StoreFault,
    UserEnvCall,
    InstructionPageFault,
    LoadPageFault,
    StorePageFault,
    Unknown,
}

/// Cause of a trap.
#[derive(Clone, Copy, Debug, PartialEq, Eq, Structural)]
pub enum Trap {
    Interrupt(Interrupt),
    Exception(Exception),
}

/// The interrupt that a cause code stands for.
pub open spec fn interrupt_of_code(nr: usize) -> Interrupt {
    if nr == 0 {
        Interrupt::UserSoft
    } else if nr == 1 {
        Interrupt::SupervisorSoft
    } else if nr == 4 {
        Interrupt::UserTimer
    } else if nr == 5 {
        Interrupt::SupervisorTimer
    } else if nr == 8 {
        Interrupt::UserExternal
    } else if nr == 9 {
        Interrupt::SupervisorExternal
    } else {
        Interrupt::Unknown
    }
}

/// The exception that a cause code stands for.
pub open spec fn exception_of_code(nr: usize) -> Exception {
    if nr == 0 {
        Exception::InstructionMisaligned
    } else if nr == 1 {
        Exception::InstructionFault
    } else if nr == 2 {
        Exception::IllegalInstruction
    } else if nr == 3 {
        Exception::Breakpoint
    } else if nr == 5 {
        Exception::LoadFault
    } else if nr == 6 {
        Exception::StoreMisaligned
    } else if nr == 7 {
        Exception::StoreFault
    } else if nr == 8 {
        Exception::UserEnvCall
    } else if nr == 12 {
        Exception::InstructionPageFault
    } else if nr == 13 {
        Exception::LoadPageFault
    } else if nr == 15 {
        Exception::StorePageFault
    } else {
        Exception::Unknown
    }
}

/// Calls `riscv::register::scause::Interrupt::from`, which maps the codes
/// 0, 1, 4, 5, 8 and 9 to the software, timer and external interrupts of
/// user and supervisor level, and every other code to `Unknown`.
#[verifier::external_body]
fn interrupt_from(nr: usize) -> (i: Interrupt)
    ensures
        i == interrupt_of_code(nr),
{
    match scause::Interrupt::from(nr) {
        scause::Interrupt::UserSoft => Interrupt::UserSoft,
        scause::Interrupt::SupervisorSoft => Interrupt::SupervisorSoft,
        scause::Interrupt::UserTimer => Interrupt::UserTimer,
        scause::Interrupt::SupervisorTimer => Interrupt::SupervisorTimer,
        scause::Interrupt::UserExternal => Interrupt::UserExternal,
        scause::Interrupt::SupervisorExternal => Interrupt::SupervisorExternal,
        scause::Interrupt::Unknown => Interrupt::Unknown,
    }
}

/// Calls `riscv::register::scause::Exception::from`, which maps the codes
/// 0 to 3, 5 to 8, 12, 13 and 15 to the exceptions of those numbers, and
/// every other code to `Unknown`.
#[verifier::external_body]
fn exception_from(nr: usize) -> (e: Exception)
    ensures
        e == exception_of_code(nr),
{
    match scause::Exception::from(nr) {
        scause::Exception::InstructionMisaligned => Exception::InstructionMisaligned,
        scause::Exception::InstructionFault => Exception::InstructionFault,
        scause::Exception::IllegalInstruction => Exception::IllegalInstruction,
        scause::Exception::Breakpoint => Exception::Breakpoint,
        scause::Exception::LoadFault => Exception::LoadFault,
        scause::Exception::StoreMisaligned => Exception::StoreMisaligned,
        scause::Exception::StoreFault => Exception::StoreFault,
        scause::Exception::UserEnvCall => Exception::UserEnvCall,
        scause::Exception::InstructionPageFault => Exception::InstructionPageFault,
        scause::Exception::LoadPageFault => Exception::LoadPageFault,
        scause::Exception::StorePageFault => Exception::StorePageFault,
        scause::Exception::Unknown => Exception::Unknown,
    }
}

/// Whether the top bit of a cause register is set: the trap is an interrupt.
pub open spec fn cause_is_interrupt(bits: usize) -> bool {
    bits > usize::MAX / 2
}

/// A cause register without its top bit.
pub open spec fn cause_code(bits: usize) -> usize {
    if cause_is_interrupt(bits) {
        (bits - usize::MAX / 2 - 1) as usize
    } else {
        bits
    }
}

/// The trap that the contents of a cause register stand for.
pub open spec fn trap_of(bits: usize) -> Trap {
    if cause_is_interrupt(bits) {
        Trap::Interrupt(interrupt_of_code(cause_code(bits)))
    } else {
        Trap::Exception(exception_of_code(cause_code(bits)))
    }
}

/// Decodes the contents of a cause register. The supervisor and the user
/// cause register share one layout and one table of codes.
pub fn decode_cause(bits: usize) -> (trap: Trap)
    ensures
        trap == trap_of(bits),
{
    let half: usize = usize::MAX / 2;
    if bits > half {
        Trap::Interrupt(interrupt_from(bits - half - 1))
    } else {
        Trap::Exception(exception_from(bits))
    }
}

/// What a dispatcher does with a cause that it does not handle.
#[derive(Clone, Copy, Debug, PartialEq, Eq, Structural)]
pub enum UnsupportedPolicy {
    /// Park the hart in an idle loop.
    Halt,
    /// Return to the interrupted code.
    Resume,
}

/// What is reported of a trap that a dispatcher does not handle.
#[derive(Clone, Copy, Debug, PartialEq, Eq, Structural)]
pub struct TrapReport {
    /// The level whose dispatcher saw the trap.
    pub level: Privilege,
    /// Raw contents of the cause register.
    pub cause: usize,
    /// The cause, decoded.
    pub trap: Trap,
    /// Contents of the trap value register.
    pub tval: usize,
    /// The faulting program counter; reported at supervisor level only.
    pub epc: Option<usize>,
}

/// What the caller of a dispatcher has to do before it resumes the context.
#[derive(Clone, Copy, Debug, PartialEq, Eq, Structural)]
pub enum TrapOutcome {
    /// A software interrupt of the dispatcher's own level: carry out `op`,
    /// which clears its pending bit, and resume.
    Acknowledged { op: CsrOp },
    /// Unsupported cause: log the report and park the hart.
    Halt { report: TrapReport },
    /// Unsupported cause: log the report and resume.
    Resume { report: TrapReport },
}

/// The outcome for a cause that a dispatcher does not handle.
pub open spec fn unsupported(policy: UnsupportedPolicy, report: TrapReport) -> TrapOutcome {
    match policy {
        UnsupportedPolicy::Halt => TrapOutcome::Halt { report },
        UnsupportedPolicy::Resume => TrapOutcome::Resume { report },
    }
}

/// The access that clears the pending bit of the software interrupt of
/// `level`, as seen from that level.
pub open spec fn acknowledge_op(level: Privilege) -> CsrOp {
    CsrOp::ClearBits {
        csr: if level == Privilege::User {
            Csr::Uip
        } else {
            Csr::Sip
        },
        mask: interrupt_mask(level, Source::Soft),
    }
}

/// The software interrupt of `level`, as a trap cause.
pub open spec fn software_interrupt(level: Privilege) -> Trap {
    match level {
        Privilege::User => Trap::Interrupt(Interrupt::UserSoft),
        Privilege::Supervisor => Trap::Interrupt(Interrupt::SupervisorSoft),
        Privilege::Machine => Trap::Interrupt(Interrupt::Unknown),
    }
}

/// What the dispatcher of `level` returns for a trap with the given cause,
/// trap value and faulting program counter.
pub open spec fn dispatch_outcome(
    level: Privilege,
    cause: usize,
    tval: usize,
    epc: Option<usize>,
    policy: UnsupportedPolicy,
) -> TrapOutcome {
    if level != Privilege::Machine && trap_of(cause) == software_interrupt(level) {
        TrapOutcome::Acknowledged { op: acknowledge_op(level) }
    } else {
        unsupported(policy, TrapReport { level, cause, trap: trap_of(cause), tval, epc })
    }
}

/// The pending bits after the dispatcher of `level` has seen a trap with the
/// given cause.
pub open spec fn dispatch_pending(level: Privilege, cause: usize, pending: InterruptBits)
    -> InterruptBits {
    if level != Privilege::Machine && trap_of(cause) == software_interrupt(level) {
        pending.without(level, Source::Soft)
    } else {
        pending
    }
}

/// The dispatcher that both levels share.
fn dispatch(
    level: Privilege,
    pending: &mut InterruptBits,
    cause: usize,
    tval: usize,
    epc: Option<usize>,
    policy: UnsupportedPolicy,
) -> (outcome: TrapOutcome)
    requires
        level != Privilege::Machine,
    ensures
        outcome == dispatch_outcome(level, cause, tval, epc, policy),
        *final(pending) == dispatch_pending(level, cause, *old(pending)),
{
    let trap = decode_cause(cause);
    let own = match (level, trap) {
        (Privilege::User, Trap::Interrupt(Interrupt::UserSoft)) => true,
        (Privilege::Supervisor, Trap::Interrupt(Interrupt::SupervisorSoft)) => true,
        _ => false,
    };
    if own {
        pending.clear(level, Source::Soft);
        let csr = match level {
            Privilege::User => Csr::Uip,
            _ => Csr::Sip,
        };
        TrapOutcome::Acknowledged { op: CsrOp::ClearBits { csr, mask: mask_of(level, Source::Soft) } }
    } else {
        let report = TrapReport { level, cause, trap, tval, epc };
        match policy {
            UnsupportedPolicy::Halt => TrapOutcome::Halt { report },
            UnsupportedPolicy::Resume => TrapOutcome::Resume { report },
        }
    }
}

/// Dispatcher of traps into supervisor level. `scause`, `stval` and `sepc`
/// are the contents of those registers at entry; `pending` stands for the
/// hart's pending register.
///
/// A supervisor software interrupt is acknowledged: its pending bit is
/// cleared and nothing else changes. Every other cause is reported with its
/// raw cause, trap value and faulting program counter, and `policy` decides
/// between parking the hart and resuming. The context is never touched.
pub fn trap_handler(
    cx: &mut TrapContext,
    pending: &mut InterruptBits,
    scause: usize,
    stval: usize,
    sepc: usize,
    policy: UnsupportedPolicy,
) -> (outcome: TrapOutcome)
    ensures
        *final(cx) == *old(cx),
        outcome == dispatch_outcome(Privilege::Supervisor, scause, stval, Some(sepc), policy),
        *final(pending) == dispatch_pending(Privilege::Supervisor, scause, *old(pending)),
{
    dispatch(Privilege::Supervisor, pending, scause, stval, Some(sepc), policy)
}

/// Dispatcher of traps into user level. `ucause` and `utval` are the
/// contents of those registers at entry; `pending` stands for the hart's
/// pending register.
///
/// A user software interrupt is acknowledged: its pending bit is cleared and
/// nothing else changes. Every other cause is reported with its raw cause
/// and trap value, and `policy` decides between parking the hart and
/// resuming. The context is never touched.
pub fn user_trap_handler(
    cx: &mut UserTrapContext,
    pending: &mut InterruptBits,
    ucause: usize,
    utval: usize,
    policy: UnsupportedPolicy,
) -> (outcome: TrapOutcome)
    ensures
        *final(cx) == *old(cx),
        outcome == dispatch_outcome(Privilege::User, ucause, utval, None, policy),
        *final(pending) == dispatch_pending(Privilege::User, ucause, *old(pending)),
{
    dispatch(Privilege::User, pending, ucause, utval, None, policy)
}

/// Why a trap vector cannot be installed.
#[derive(Clone, Copy, Debug, PartialEq, Eq, Structural)]
pub enum VectorError {
    /// The entry does not lie on a four-byte boundary, so its low two bits
    /// would be taken for the vector's mode.
    Misaligned { entry: usize },
    /// The hart runs at user level, from where the supervisor vector is out
    /// of reach.
    UserLevel,
}

/// Installs the supervisor trap vector in direct mode: every trap into
/// supervisor level enters at `entry`. Returns the register write that does
/// it; the value written has its low two bits clear. Nothing else of the
/// hart changes: no enable, pending or delegation bit. An entry that is not
/// aligned, or a hart at user level, is an error and changes nothing.
pub fn init(hart: &mut Hart, entry: usize) -> (r: Result<CsrOp, VectorError>)
    ensures
        entry % 4 != 0 ==> r == Err::<CsrOp, VectorError>(VectorError::Misaligned { entry })
            && *final(hart) == *old(hart),
        entry % 4 == 0 && old(hart).mode == Privilege::User ==> r == Err::<CsrOp, VectorError>(
            VectorError::UserLevel,
        ) && *final(hart) == *old(hart),
        entry % 4 == 0 && old(hart).mode != Privilege::User ==> r == Ok::<CsrOp, VectorError>(
            CsrOp::Write { csr: Csr::Stvec, value: entry },
        ) && *final(hart) == (Hart { stvec: Some(entry), ..*old(hart) }),
        final(hart).enabled == old(hart).enabled,
        final(hart).pending == old(hart).pending,
        final(hart).delegated == old(hart).delegated,
        final(hart).sedeleg == old(hart).sedeleg,
        old(hart).wf() ==> final(hart).wf(),
{
    if entry % 4 != 0 {
        return Err(VectorError::Misaligned { entry });
    }
    match hart.mode {
        Privilege::User => Err(VectorError::UserLevel),
        _ => {
            hart.stvec = Some(entry);
            Ok(CsrOp::Write { csr: Csr::Stvec, value: entry })
        },
    }
}

/// Installs the user trap vector in direct mode: every trap into user level
/// enters at `entry`. Returns the register write that does it; the value
/// written has its low two bits clear. Nothing else of the hart changes. An
/// entry that is not aligned is an error and changes nothing.
pub fn init_u(hart: &mut Hart, entry: usize) -> (r: Result<CsrOp, VectorError>)
    ensures
        entry % 4 != 0 ==> r == Err::<CsrOp, VectorError>(VectorError::Misaligned { entry })
            && *final(hart) == *old(hart),
        entry % 4 == 0 ==> r == Ok::<CsrOp, VectorError>(
            CsrOp::Write { csr: Csr::Utvec, value: entry },
        ) && *final(hart) == (Hart { utvec: Some(entry), ..*old(hart) }),
        final(hart).enabled == old(hart).enabled,
        final(hart).pending == old(hart).pending,
        final(hart).delegated == old(hart).delegated,
        final(hart).sedeleg == old(hart).sedeleg,
        old(hart).wf() ==> final(hart).wf(),
{
    if entry % 4 != 0 {
        return Err(VectorError::Misaligned { entry });
    }
    hart.utvec = Some(entry);
    Ok(CsrOp::Write { csr: Csr::Utvec, value: entry })
}

} // verus!
