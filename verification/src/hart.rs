//! State of one hart as far as the privilege switch and the delegation of
//! interrupts are concerned, and the steps that change it.
//!
//! Each step updates the model and returns the register accesses that the
//! caller carries out on the hart itself. A step that arms an interrupt at a
//! privilege level asks that the level's trap vector is installed, so a
//! sequence of steps that verifies never enables a source whose trap would
//! have no target.

use vstd::prelude::*;
use crate::csr::{Csr, CsrOp, InterruptBits, Privilege, Source, Sstatus, Ustatus};
use crate::csr::{interrupt_mask, mask_of, STATUS_SIE, STATUS_SPP, STATUS_UIE, STATUS_UPIE};
use crate::trap::{is_initial_context, saved_register, UserTrapContext};

verus! {

/// One hart.
#[derive(Clone, Copy, Debug, PartialEq, Eq)]
pub struct Hart {
    /// Number of the hart.
    pub id: usize,
    /// Privilege level that the hart runs at.
    pub mode: Privilege,
    /// Program counter at the last privilege switch.
    pub pc: usize,
    /// General registers at the last privilege switch.
    pub x: [usize; 32],
    /// Supervisor status register.
    pub sstatus: Sstatus,
    /// User status register.
    pub ustatus: Ustatus,
    /// Supervisor trap vector, once installed.
    pub stvec: Option<usize>,
    /// User trap vector, once installed.
    pub utvec: Option<usize>,
    /// Interrupt enable bits.
    pub enabled: InterruptBits,
    /// Interrupt pending bits.
    pub pending: InterruptBits,
    /// Interrupts that supervisor level hands down to user level.
    pub delegated: InterruptBits,
    /// Exceptions that supervisor level hands down to user level.
    pub sedeleg: usize,
}

/// Whether any source is set for `level` in `bits`.
pub open spec fn armed(bits: InterruptBits, level: Privilege) -> bool {
    bits.has(level, Source::Soft) || bits.has(level, Source::Timer) || bits.has(
        level,
        Source::External,
    )
}

/// The register through which code at `level` reaches the enable bits.
pub open spec fn enable_csr(level: Privilege) -> Csr {
    if level == Privilege::User {
        Csr::Uie
    } else {
        Csr::Sie
    }
}

/// The register through which code that runs at `mode` reaches the pending bits.
pub open spec fn pending_csr(mode: Privilege) -> Csr {
    if mode == Privilege::User {
        Csr::Uip
    } else {
        Csr::Sip
    }
}

/// The user status register after a return to user level: the interrupt
/// enable takes the value of the prior enable, which is then set.
pub open spec fn resumed_status(status: Ustatus) -> Ustatus {
    if status.upie() {
        Ustatus { bits: status.bits | STATUS_UIE | STATUS_UPIE }
    } else {
        Ustatus { bits: (status.bits & !STATUS_UIE) | STATUS_UPIE }
    }
}

/// After a return to user level, interrupts are enabled exactly if the prior
/// enable was set in the status that was restored.
pub proof fn lemma_resumed_status(status: Ustatus)
    ensures
        resumed_status(status).uie() == status.upie(),
        resumed_status(status).upie(),
{
    let b = status.bits;
    assert((b | 0x1 | 0x10) & 0x1 != 0) by (bit_vector);
    assert((b | 0x1 | 0x10) & 0x10 != 0) by (bit_vector);
    assert(((b & !0x1usize) | 0x10) & 0x1 == 0) by (bit_vector);
    assert(((b & !0x1usize) | 0x10) & 0x10 != 0) by (bit_vector);
}

impl Hart {
    /// The trap vector of `level`, if one is installed.
    pub open spec fn vector(self, level: Privilege) -> Option<usize> {
        match level {
            Privilege::User => self.utvec,
            Privilege::Supervisor => self.stvec,
            Privilege::Machine => None,
        }
    }

    /// No interrupt is enabled at, or delegated to, a level whose trap vector
    /// is not installed.
    pub open spec fn wf(self) -> bool {
        &&& armed(self.enabled, Privilege::Supervisor) ==> self.stvec is Some
        &&& armed(self.enabled, Privilege::User) ==> self.utvec is Some
        &&& armed(self.delegated, Privilege::User) ==> self.utvec is Some
        &&& !armed(self.enabled, Privilege::Machine)
        &&& !armed(self.delegated, Privilege::Supervisor)
        &&& !armed(self.delegated, Privilege::Machine)
    }

    /// Checks `wf`.
    pub fn is_wf(&self) -> (ok: bool)
        ensures
            ok == self.wf(),
    {
        let supervisor = self.enabled.is_set(Privilege::Supervisor, Source::Soft)
            || self.enabled.is_set(Privilege::Supervisor, Source::Timer) || self.enabled.is_set(
            Privilege::Supervisor,
            Source::External,
        );
        let user = self.enabled.is_set(Privilege::User, Source::Soft) || self.enabled.is_set(
            Privilege::User,
            Source::Timer,
        ) || self.enabled.is_set(Privilege::User, Source::External);
        let machine = self.enabled.is_set(Privilege::Machine, Source::Soft) || self.enabled.is_set(
            Privilege::Machine,
            Source::Timer,
        ) || self.enabled.is_set(Privilege::Machine, Source::External);
        let to_user = self.delegated.is_set(Privilege::User, Source::Soft)
            || self.delegated.is_set(Privilege::User, Source::Timer) || self.delegated.is_set(
            Privilege::User,
            Source::External,
        );
        let to_supervisor = self.delegated.is_set(Privilege::Supervisor, Source::Soft)
            || self.delegated.is_set(Privilege::Supervisor, Source::Timer)
            || self.delegated.is_set(Privilege::Supervisor, Source::External);
        let to_machine = self.delegated.is_set(Privilege::Machine, Source::Soft)
            || self.delegated.is_set(Privilege::Machine, Source::Timer) || self.delegated.is_set(
            Privilege::Machine,
            Source::External,
        );
        (!supervisor || self.stvec.is_some()) && (!user || self.utvec.is_some()) && (!to_user
            || self.utvec.is_some()) && !machine && !to_supervisor && !to_machine
    }

    /// A hart as the platform firmware hands it over: at supervisor level,
    /// no vector installed, nothing enabled, pending or delegated.
    pub fn new(id: usize) -> (hart: Hart)
        ensures
            hart.wf(),
            hart.id == id,
            hart.mode == Privilege::Supervisor,
            hart.stvec is None,
            hart.utvec is None,
            hart.enabled.bits == 0,
            hart.pending.bits == 0,
            hart.delegated.bits == 0,
            hart.sedeleg == 0,
            hart.sstatus.bits == 0,
            hart.ustatus.bits == 0,
            hart.pc == 0,
            forall|i: int| 0 <= i < 32 ==> hart.x@[i] == 0,
    {
        Hart {
            id,
            mode: Privilege::Supervisor,
            pc: 0,
            x: [0usize;32],
            sstatus: Sstatus { bits: 0 },
            ustatus: Ustatus { bits: 0 },
            stvec: None,
            utvec: None,
            enabled: InterruptBits::empty(),
            pending: InterruptBits::empty(),
            delegated: InterruptBits::empty(),
            sedeleg: 0,
        }
    }

    /// Resets both delegation registers: supervisor level hands nothing down.
    pub fn reset_delegation(&mut self) -> (ops: (CsrOp, CsrOp))
        requires
            old(self).wf(),
            old(self).mode == Privilege::Supervisor,
        ensures
            ops.0 == (CsrOp::Write { csr: Csr::Sideleg, value: 0 }),
            ops.1 == (CsrOp::Write { csr: Csr::Sedeleg, value: 0 }),
            *final(self) == (Hart {
                delegated: InterruptBits { bits: 0 },
                sedeleg: 0,
                ..*old(self)
            }),
            final(self).wf(),
    {
        self.delegated = InterruptBits::empty();
        self.sedeleg = 0;
        (CsrOp::Write { csr: Csr::Sideleg, value: 0 }, CsrOp::Write { csr: Csr::Sedeleg, value: 0 })
    }

    /// Hands the user-level interrupt of `source` down to user level.
    pub fn delegate_to_user(&mut self, source: Source) -> (op: CsrOp)
        requires
            old(self).wf(),
            old(self).mode == Privilege::Supervisor,
            old(self).utvec is Some,
        ensures
            op == (CsrOp::SetBits {
                csr: Csr::Sideleg,
                mask: interrupt_mask(Privilege::User, source),
            }),
            *final(self) == (Hart {
                delegated: old(self).delegated.with(Privilege::User, source),
                ..*old(self)
            }),
            final(self).delegated.has(Privilege::User, source),
            final(self).wf(),
    {
        proof {
            crate::csr::lemma_set_bit(self.delegated, Privilege::User, source);
        }
        self.delegated.set(Privilege::User, source);
        CsrOp::SetBits { csr: Csr::Sideleg, mask: mask_of(Privilege::User, source) }
    }

    /// Enables the interrupt of `source` at `level`. The trap vector of
    /// `level` has to be installed, and the hart has to run at `level` or above.
    pub fn enable(&mut self, level: Privilege, source: Source) -> (op: CsrOp)
        requires
            old(self).wf(),
            level != Privilege::Machine,
            old(self).vector(level) is Some,
            level == Privilege::Supervisor ==> old(self).mode != Privilege::User,
        ensures
            op == (CsrOp::SetBits { csr: enable_csr(level), mask: interrupt_mask(level, source) }),
            *final(self) == (Hart { enabled: old(self).enabled.with(level, source), ..*old(self) }),
            final(self).enabled.has(level, source),
            final(self).wf(),
    {
        proof {
            crate::csr::lemma_set_bit(self.enabled, level, source);
        }
        self.enabled.set(level, source);
        let csr = match level {
            Privilege::User => Csr::Uie,
            _ => Csr::Sie,
        };
        CsrOp::SetBits { csr, mask: mask_of(level, source) }
    }

    /// Disables the interrupt of `source` at `level`.
    pub fn disable(&mut self, level: Privilege, source: Source) -> (op: CsrOp)
        requires
            old(self).wf(),
            level != Privilege::Machine,
            level == Privilege::Supervisor ==> old(self).mode != Privilege::User,
        ensures
            op == (CsrOp::ClearBits {
                csr: enable_csr(level),
                mask: interrupt_mask(level, source),
            }),
            *final(self) == (Hart {
                enabled: old(self).enabled.without(level, source),
                ..*old(self)
            }),
            !final(self).enabled.has(level, source),
            final(self).wf(),
    {
        proof {
            crate::csr::lemma_clear_bit(self.enabled, level, source);
        }
        self.enabled.clear(level, source);
        let csr = match level {
            Privilege::User => Csr::Uie,
            _ => Csr::Sie,
        };
        CsrOp::ClearBits { csr, mask: mask_of(level, source) }
    }

    /// Posts the software interrupt of `level`: its pending bit is set.
    pub fn post_software_interrupt(&mut self, level: Privilege) -> (op: CsrOp)
        requires
            level != Privilege::Machine,
            level == Privilege::Supervisor ==> old(self).mode != Privilege::User,
        ensures
            op == (CsrOp::SetBits {
                csr: pending_csr(old(self).mode),
                mask: interrupt_mask(level, Source::Soft),
            }),
            *final(self) == (Hart {
                pending: old(self).pending.with(level, Source::Soft),
                ..*old(self)
            }),
            final(self).pending.has(level, Source::Soft),
            final(self).wf() == old(self).wf(),
    {
        self.pending.set(level, Source::Soft);
        let csr = match self.mode {
            Privilege::User => Csr::Uip,
            _ => Csr::Sip,
        };
        CsrOp::SetBits { csr, mask: mask_of(level, Source::Soft) }
    }

    /// Prepares the supervisor status register for the switch to user level:
    /// supervisor interrupts are disabled and the previous privilege level is
    /// set to user.
    pub fn prepare_user_entry(&mut self) -> (ops: (CsrOp, CsrOp))
        requires
            old(self).mode == Privilege::Supervisor,
        ensures
            ops.0 == (CsrOp::ClearBits { csr: Csr::Sstatus, mask: STATUS_SIE }),
            ops.1 == (CsrOp::ClearBits { csr: Csr::Sstatus, mask: STATUS_SPP }),
            *final(self) == (Hart {
                sstatus: Sstatus { bits: old(self).sstatus.bits & !STATUS_SIE & !STATUS_SPP },
                ..*old(self)
            }),
            !final(self).sstatus.sie(),
            !final(self).sstatus.spp_supervisor(),
            final(self).wf() == old(self).wf(),
    {
        let bits = self.sstatus.bits;
        assert((bits & !0x2usize & !0x100usize) & 0x2 == 0) by (bit_vector);
        assert((bits & !0x2usize & !0x100usize) & 0x100 == 0) by (bit_vector);
        self.sstatus = Sstatus { bits: bits & !STATUS_SIE & !STATUS_SPP };
        (
            CsrOp::ClearBits { csr: Csr::Sstatus, mask: STATUS_SIE },
            CsrOp::ClearBits { csr: Csr::Sstatus, mask: STATUS_SPP },
        )
    }

    /// The hart after it has been switched to user level with the record `cx`.
    pub open spec fn entered(self, cx: UserTrapContext) -> Hart {
        Hart {
            mode: Privilege::User,
            pc: cx.uepc,
            x: cx.x,
            ustatus: resumed_status(cx.ustatus),
            ..self
        }
    }

    /// Switches the hart from supervisor to user level with the record `cx`:
    /// every general register, the program counter and the status bits are
    /// taken from the record. There is no way back but a trap.
    pub fn enter_user(&mut self, cx: &UserTrapContext)
        requires
            old(self).wf(),
            old(self).mode == Privilege::Supervisor,
            old(self).utvec is Some,
            !old(self).sstatus.spp_supervisor(),
        ensures
            *final(self) == old(self).entered(*cx),
            final(self).mode == Privilege::User,
            final(self).pc == cx.uepc,
            final(self).x == cx.x,
            final(self).ustatus.uie() == cx.ustatus.upie(),
            final(self).wf(),
    {
        proof {
            lemma_resumed_status(cx.ustatus);
        }
        let bits = cx.ustatus.bits;
        let status = if cx.ustatus.upie() {
            Ustatus { bits: bits | STATUS_UIE | STATUS_UPIE }
        } else {
            Ustatus { bits: (bits & !STATUS_UIE) | STATUS_UPIE }
        };
        self.mode = Privilege::User;
        self.pc = cx.uepc;
        self.x = cx.x;
        self.ustatus = status;
    }
}

/// A hart that is switched to user level with the context built for the
/// entry `entry`, the stack pointer `sp` and the snapshot `s` runs at user
/// level at `entry`, on the stack `sp`, with the twelve callee-saved
/// registers equal to `s`, and with interrupts enabled.
pub proof fn lemma_user_entry(
    hart: Hart,
    cx: UserTrapContext,
    entry: usize,
    sp: usize,
    s: Seq<usize>,
    ustatus: Ustatus,
)
    requires
        s.len() == 12,
        is_initial_context(cx, entry, sp, s, ustatus),
    ensures
        hart.entered(cx).mode == Privilege::User,
        hart.entered(cx).pc == entry,
        hart.entered(cx).x@[2] == sp,
        forall|k: int| 0 <= k < 12 ==> hart.entered(cx).x@[saved_register(k)] == s[k],
        hart.entered(cx).ustatus.uie(),
{
    let b = ustatus.bits;
    assert((b | 0x10) & 0x10 != 0) by (bit_vector);
    lemma_resumed_status(cx.ustatus);
}

/// A mode tag that names no level at which external interrupts can be enabled.
#[derive(Clone, Copy, Debug, PartialEq, Eq, Structural)]
pub enum ModeError {
    /// The tag is neither `'S'` nor `'U'`.
    NotSupported { mode: char },
}

/// Enables the external interrupt at the level that `mode` names: `'S'` for
/// supervisor, `'U'` for user. Any other tag is reported and changes nothing.
pub fn enable_external(hart: &mut Hart, mode: char) -> (r: Result<CsrOp, ModeError>)
    requires
        old(hart).wf(),
        mode == 'S' ==> old(hart).stvec is Some && old(hart).mode != Privilege::User,
        mode == 'U' ==> old(hart).utvec is Some,
    ensures
        final(hart).wf(),
        mode == 'S' ==> r == Ok::<CsrOp, ModeError>(
            CsrOp::SetBits {
                csr: Csr::Sie,
                mask: interrupt_mask(Privilege::Supervisor, Source::External),
            },
        ) && *final(hart) == (Hart {
            enabled: old(hart).enabled.with(Privilege::Supervisor, Source::External),
            ..*old(hart)
        }),
        mode == 'U' ==> r == Ok::<CsrOp, ModeError>(
            CsrOp::SetBits { csr: Csr::Uie, mask: interrupt_mask(Privilege::User, Source::External) },
        ) && *final(hart) == (Hart {
            enabled: old(hart).enabled.with(Privilege::User, Source::External),
            ..*old(hart)
        }),
        mode != 'S' && mode != 'U' ==> r == Err::<CsrOp, ModeError>(
            ModeError::NotSupported { mode },
        ) && *final(hart) == *old(hart),
{
    match mode {
        'S' => Ok(hart.enable(Privilege::Supervisor, Source::External)),
        'U' => Ok(hart.enable(Privilege::User, Source::External)),
        _ => Err(ModeError::NotSupported { mode }),
    }
}

/// Disables the external interrupt at the level that `mode` names: `'S'` for
/// supervisor, `'U'` for user. Any other tag is reported and changes nothing.
pub fn disable_external(hart: &mut Hart, mode: char) -> (r: Result<CsrOp, ModeError>)
    requires
        old(hart).wf(),
        mode == 'S' ==> old(hart).mode != Privilege::User,
    ensures
        final(hart).wf(),
        mode == 'S' ==> r == Ok::<CsrOp, ModeError>(
            CsrOp::ClearBits {
                csr: Csr::Sie,
                mask: interrupt_mask(Privilege::Supervisor, Source::External),
            },
        ) && *final(hart) == (Hart {
            enabled: old(hart).enabled.without(Privilege::Supervisor, Source::External),
            ..*old(hart)
        }),
        mode == 'U' ==> r == Ok::<CsrOp, ModeError>(
            CsrOp::ClearBits {
                csr: Csr::Uie,
                mask: interrupt_mask(Privilege::User, Source::External),
            },
        ) && *final(hart) == (Hart {
            enabled: old(hart).enabled.without(Privilege::User, Source::External),
            ..*old(hart)
        }),
        mode != 'S' && mode != 'U' ==> r == Err::<CsrOp, ModeError>(
            ModeError::NotSupported { mode },
        ) && *final(hart) == *old(hart),
{
    match mode {
        'S' => Ok(hart.disable(Privilege::Supervisor, Source::External)),
        'U' => Ok(hart.disable(Privilege::User, Source::External)),
        _ => Err(ModeError::NotSupported { mode }),
    }
}

} // verus!
