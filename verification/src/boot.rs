//! Multi-hart bootstrap: the partition of the boot stack area, the sequence
//! of steps that the primary hart and the secondary harts go through, and
//! the judgement of the platform's answer to a request to start a hart.

use vstd::prelude::*;
use crate::config::{BOOT_STACK_SIZE, PAGE_SIZE};
use crate::csr::{interrupt_mask, Csr, CsrOp, InterruptBits, Privilege, Source, Sstatus, Ustatus};
use crate::csr::{STATUS_SIE, STATUS_SPP};
use crate::hart::{resumed_status, Hart};
use crate::stack::{ContextHandle, ContextRecord, StackArena};
use crate::trap::{init_u, is_initial_context, saved_register, UserTrapContext, CONTEXT_SIZE};

verus! {

/// Address one past the boot stack of `hart`, where the area of `harts`
/// stacks starts at `base`. Hart 0 has the highest stack.
pub open spec fn boot_stack_top_at(base: int, harts: int, hart: int) -> int {
    base + harts * BOOT_STACK_SIZE - hart * BOOT_STACK_SIZE
}

/// Lowest address of the boot stack of `hart`.
pub open spec fn boot_stack_bottom_at(base: int, harts: int, hart: int) -> int {
    boot_stack_top_at(base, harts, hart) - BOOT_STACK_SIZE
}

/// The hart whose boot stack holds the address `addr`.
pub open spec fn boot_stack_owner(base: int, harts: int, addr: int) -> int {
    harts - 1 - (addr - base) / (BOOT_STACK_SIZE as int)
}

/// Initial stack pointer of `hart`: the address one past its boot stack.
/// `None` if there is no such hart among `harts`, or if the area does not
/// end within the address space.
pub fn boot_stack_top(base: usize, harts: usize, hart: usize) -> (top: Option<usize>)
    ensures
        top is Some <==> hart < harts && base + harts * BOOT_STACK_SIZE <= usize::MAX,
        top matches Some(t) ==> t == boot_stack_top_at(base as int, harts as int, hart as int),
{
    if hart >= harts {
        return None;
    }
    let total = match harts.checked_mul(BOOT_STACK_SIZE) {
        Some(total) => total,
        None => {
            return None;
        },
    };
    if base > usize::MAX - total {
        return None;
    }
    assert(hart * BOOT_STACK_SIZE <= harts * BOOT_STACK_SIZE) by (nonlinear_arith)
        requires
            hart < harts,
    ;
    Some(base + total - hart * BOOT_STACK_SIZE)
}

/// The boot stacks partition the boot stack area: the stack of every hart
/// lies inside the area, the stacks of two different harts share no byte,
/// and both ends of every stack lie on page boundaries if the area starts
/// on one.
pub proof fn lemma_boot_stacks_partition(base: int, harts: int, h1: int, h2: int)
    requires
        0 <= h1 < harts,
        0 <= h2 < harts,
        h1 != h2,
    ensures
        base <= boot_stack_bottom_at(base, harts, h1),
        boot_stack_top_at(base, harts, h1) <= base + harts * BOOT_STACK_SIZE,
        boot_stack_top_at(base, harts, h1) <= boot_stack_bottom_at(base, harts, h2)
            || boot_stack_top_at(base, harts, h2) <= boot_stack_bottom_at(base, harts, h1),
        base % (PAGE_SIZE as int) == 0 ==> boot_stack_top_at(base, harts, h1) % (PAGE_SIZE as int)
            == 0 && boot_stack_bottom_at(base, harts, h1) % (PAGE_SIZE as int) == 0,
{
    let n = harts - h1;
    assert(harts * BOOT_STACK_SIZE - h1 * BOOT_STACK_SIZE == n * 0x4_0000) by (nonlinear_arith)
        requires
            n == harts - h1,
    ;
    assert(harts * BOOT_STACK_SIZE - h2 * BOOT_STACK_SIZE == (harts - h2) * 0x4_0000)
        by (nonlinear_arith);
    assert(harts * BOOT_STACK_SIZE == harts * 0x4_0000);
    assert((base + n * 0x4_0000) % 4096 == base % 4096) by (nonlinear_arith);
    assert((base + (n - 1) * 0x4_0000) % 4096 == base % 4096) by (nonlinear_arith);
}

/// Every address of the boot stack area lies in the boot stack of exactly
/// one hart.
pub proof fn lemma_boot_stack_owner(base: int, harts: int, addr: int)
    requires
        base <= addr < base + harts * BOOT_STACK_SIZE,
    ensures
        0 <= boot_stack_owner(base, harts, addr) < harts,
        boot_stack_bottom_at(base, harts, boot_stack_owner(base, harts, addr)) <= addr
            < boot_stack_top_at(base, harts, boot_stack_owner(base, harts, addr)),
        forall|h: int|
            boot_stack_bottom_at(base, harts, h) <= addr < #[trigger] boot_stack_top_at(
                base,
                harts,
                h,
            ) ==> h == boot_stack_owner(base, harts, addr),
{
    let off = addr - base;
    let q = off / 0x4_0000;
    let owner = boot_stack_owner(base, harts, addr);
    assert(harts * BOOT_STACK_SIZE == harts * 0x4_0000);
    assert(0 <= q < harts && q * 0x4_0000 <= off < q * 0x4_0000 + 0x4_0000) by (nonlinear_arith)
        requires
            0 <= off < harts * 0x4_0000,
            q == off / 0x4_0000,
    ;
    assert(harts * BOOT_STACK_SIZE - owner * BOOT_STACK_SIZE == (q + 1) * 0x4_0000)
        by (nonlinear_arith)
        requires
            owner == harts - 1 - q,
    ;
    assert forall|h: int|
        boot_stack_bottom_at(base, harts, h) <= addr < #[trigger] boot_stack_top_at(
            base,
            harts,
            h,
        ) implies h == owner by {
        assert(harts * BOOT_STACK_SIZE - h * BOOT_STACK_SIZE == (harts - h) * 0x4_0000)
            by (nonlinear_arith);
        let m = harts - h;
        assert(m == q + 1) by (nonlinear_arith)
            requires
                m * 0x4_0000 - 0x4_0000 <= off < m * 0x4_0000,
                q * 0x4_0000 <= off < q * 0x4_0000 + 0x4_0000,
        ;
    }
}

/// One step of a hart's way from its entry point to the main routine.
#[derive(Clone, Copy, Debug, PartialEq, Eq, Structural)]
pub enum BootAction {
    /// Zero the uninitialized-data segment.
    ClearBss,
    /// Bring up the diagnostics output.
    InitLogger,
    /// Install the hart's supervisor trap vector.
    InstallTrapVector,
    /// Set up the interrupt controller's shared registers.
    InitPlic,
    /// Hand the heap region to the allocator.
    InitHeap,
    /// Ask the platform to start `hart` at the secondary entry point.
    StartHart { hart: usize },
    /// Spin until every secondary hart has published that it is ready.
    AwaitSecondaries,
    /// Publish that this hart is ready.
    PublishReady,
    /// Go on with the main routine.
    EnterMain,
}

/// The requests to start the harts below `upto`, in ascending order, without
/// the primary hart.
pub open spec fn start_actions(primary: int, upto: int) -> Seq<BootAction> {
    Seq::new(
        (if primary < upto {
            upto - 1
        } else {
            upto
        }) as nat,
        |k: int|
            BootAction::StartHart {
                hart: (if k < primary {
                    k
                } else {
                    k + 1
                }) as usize,
            },
    )
}

/// What the primary hart does before it starts any other hart.
pub open spec fn primary_prologue() -> Seq<BootAction> {
    seq![
        BootAction::ClearBss,
        BootAction::InitLogger,
        BootAction::InstallTrapVector,
        BootAction::InitPlic,
        BootAction::InitHeap,
    ]
}

/// The steps of the primary hart among `harts` harts: it clears the
/// uninitialized data once, brings up diagnostics, installs its trap
/// vector, and then, if it is not alone, starts every other hart and waits
/// for all of them.
pub open spec fn primary_plan(primary: int, harts: int) -> Seq<BootAction> {
    if harts > 1 {
        primary_prologue() + start_actions(primary, harts) + seq![
            BootAction::AwaitSecondaries,
            BootAction::EnterMain,
        ]
    } else {
        primary_prologue() + seq![BootAction::EnterMain]
    }
}

/// The steps of a secondary hart: it installs its own trap vector, publishes
/// that it is ready, and goes on.
pub open spec fn secondary_plan() -> Seq<BootAction> {
    seq![BootAction::InstallTrapVector, BootAction::PublishReady, BootAction::EnterMain]
}

/// The steps of the hart `hart_id` when it is the one that boots first.
pub fn rust_main_init(hart_id: usize, harts: usize) -> (plan: Vec<BootAction>)
    requires
        hart_id < harts,
    ensures
        plan@ == primary_plan(hart_id as int, harts as int),
{
    let mut plan: Vec<BootAction> = Vec::new();
    plan.push(BootAction::ClearBss);
    plan.push(BootAction::InitLogger);
    plan.push(BootAction::InstallTrapVector);
    plan.push(BootAction::InitPlic);
    plan.push(BootAction::InitHeap);
    assert(plan@ =~= primary_prologue());
    if harts > 1 {
        let mut i: usize = 0;
        assert(plan@ =~= primary_prologue() + start_actions(hart_id as int, 0));
        while i < harts
            invariant
                i <= harts,
                plan@ == primary_prologue() + start_actions(hart_id as int, i as int),
            decreases harts - i,
        {
            if i != hart_id {
                plan.push(BootAction::StartHart { hart: i });
            }
            assert(plan@ =~= primary_prologue() + start_actions(hart_id as int, i + 1));
            i += 1;
        }
        plan.push(BootAction::AwaitSecondaries);
        plan.push(BootAction::EnterMain);
        assert(plan@ =~= primary_plan(hart_id as int, harts as int));
    } else {
        plan.push(BootAction::EnterMain);
        assert(plan@ =~= primary_plan(hart_id as int, harts as int));
    }
    plan
}

/// The steps of a hart that was started by the primary hart.
pub fn rust_main_init_other() -> (plan: Vec<BootAction>)
    ensures
        plan@ == secondary_plan(),
{
    let mut plan: Vec<BootAction> = Vec::new();
    plan.push(BootAction::InstallTrapVector);
    plan.push(BootAction::PublishReady);
    plan.push(BootAction::EnterMain);
    assert(plan@ =~= secondary_plan());
    plan
}

/// Whether `plan` asks the platform to start `hart`.
pub open spec fn starts_hart(plan: Seq<BootAction>, hart: int) -> bool {
    plan.contains(BootAction::StartHart { hart: hart as usize })
}

/// In the plan of the primary hart, the uninitialized data is cleared
/// exactly once and before anything else, the trap vector is installed
/// before any hart is started, and a hart is started exactly if it is not
/// the primary hart: exactly one hart is primary.
pub proof fn lemma_primary_plan(primary: int, harts: int)
    requires
        0 <= primary < harts,
        harts <= usize::MAX,
    ensures
        primary_plan(primary, harts)[0] == BootAction::ClearBss,
        forall|k: int|
            0 < k < primary_plan(primary, harts).len() ==> primary_plan(primary, harts)[k]
                != BootAction::ClearBss,
        primary_plan(primary, harts)[2] == BootAction::InstallTrapVector,
        forall|k: int|
            0 <= k < primary_plan(primary, harts).len() && primary_plan(primary, harts)[k]
                is StartHart ==> k > 2,
        forall|h: int|
            0 <= h < harts ==> (#[trigger] starts_hart(primary_plan(primary, harts), h) <==> h
                != primary),
        primary_plan(primary, harts).last() == BootAction::EnterMain,
{
    let plan = primary_plan(primary, harts);
    let starts = start_actions(primary, harts);
    assert forall|h: int| 0 <= h < harts implies (#[trigger] starts_hart(plan, h) <==> h
        != primary) by {
        let wanted = BootAction::StartHart { hart: h as usize };
        if h != primary && harts > 1 {
            let k = if h < primary {
                h
            } else {
                h - 1
            };
            assert(starts[k] == wanted);
            assert(plan[5 + k] == wanted);
        }
        if plan.contains(wanted) {
            let k = choose|k: int| 0 <= k < plan.len() && plan[k] == wanted;
            if harts > 1 {
                assert(5 <= k < 5 + starts.len());
                assert(plan[k] == starts[k - 5]);
            }
        }
    }
}

/// The platform refused to start a secondary hart. Boot cannot go on.
#[derive(Clone, Copy, Debug, PartialEq, Eq, Structural)]
pub enum BootError {
    SecondaryHartStartFailure { hart: usize, error: usize },
}

/// Calls `SbiRet::is_ok` of `sbi_rt` on the pair that a platform call
/// returned: the call succeeded exactly if the error number is zero.
#[verifier::external_body]
fn sbi_ret_is_ok(error: usize, value: usize) -> (ok: bool)
    ensures
        ok == (error == 0),
{
    sbi_rt::SbiRet { error, value }.is_ok()
}

/// Judges the platform's answer to the request to start `hart`, given as
/// the error number and the value that the call returned. Anything but
/// success is fatal.
pub fn check_hart_start(hart: usize, error: usize, value: usize) -> (r: Result<(), BootError>)
    ensures
        error == 0 ==> r is Ok,
        error != 0 ==> r == Err::<(), BootError>(
            BootError::SecondaryHartStartFailure { hart, error },
        ),
{
    if sbi_ret_is_ok(error, value) {
        Ok(())
    } else {
        Err(BootError::SecondaryHartStartFailure { hart, error })
    }
}

/// What a hart's switch to user level consists of.
#[derive(Debug)]
pub struct UserEntry {
    /// Register accesses to carry out at supervisor level before the
    /// switch, in this order.
    pub before: Vec<CsrOp>,
    /// The context record to switch with.
    pub cx: UserTrapContext,
    /// Handle of the record on the hart's kernel stack.
    pub handle: ContextHandle,
    /// Register accesses to carry out at user level after the switch, in
    /// this order.
    pub after: Vec<CsrOp>,
}

/// The register accesses before the switch to user level: both software
/// interrupts are posted, supervisor interrupts are disabled and the
/// previous privilege level set to user, the user trap vector is installed,
/// and only then the delegation registers are reset and the user software
/// and external interrupts handed down.
pub open spec fn user_entry_before(user_vector: usize) -> Seq<CsrOp> {
    seq![
        CsrOp::SetBits { csr: Csr::Sip, mask: interrupt_mask(Privilege::Supervisor, Source::Soft) },
        CsrOp::SetBits { csr: Csr::Sip, mask: interrupt_mask(Privilege::User, Source::Soft) },
        CsrOp::ClearBits { csr: Csr::Sstatus, mask: STATUS_SIE },
        CsrOp::ClearBits { csr: Csr::Sstatus, mask: STATUS_SPP },
        CsrOp::Write { csr: Csr::Utvec, value: user_vector },
        CsrOp::Write { csr: Csr::Sideleg, value: 0 },
        CsrOp::Write { csr: Csr::Sedeleg, value: 0 },
        CsrOp::SetBits { csr: Csr::Sideleg, mask: interrupt_mask(Privilege::User, Source::Soft) },
        CsrOp::SetBits {
            csr: Csr::Sideleg,
            mask: interrupt_mask(Privilege::User, Source::External),
        },
    ]
}

/// The register accesses after the switch to user level: the user software
/// interrupt is enabled and posted.
pub open spec fn user_entry_after() -> Seq<CsrOp> {
    seq![
        CsrOp::SetBits { csr: Csr::Uie, mask: interrupt_mask(Privilege::User, Source::Soft) },
        CsrOp::SetBits { csr: Csr::Uip, mask: interrupt_mask(Privilege::User, Source::Soft) },
    ]
}

/// The hart `h` after it has gone through the switch to user level with
/// the record `cx` and the user trap vector `user_vector`.
pub open spec fn after_user_entry(h: Hart, cx: UserTrapContext, user_vector: usize) -> Hart {
    Hart {
        mode: Privilege::User,
        pc: cx.uepc,
        x: cx.x,
        ustatus: resumed_status(cx.ustatus),
        sstatus: Sstatus { bits: h.sstatus.bits & !STATUS_SIE & !STATUS_SPP },
        utvec: Some(user_vector),
        delegated: InterruptBits { bits: 0 }.with(Privilege::User, Source::Soft).with(
            Privilege::User,
            Source::External,
        ),
        sedeleg: 0,
        enabled: h.enabled.with(Privilege::User, Source::Soft),
        pending: h.pending.with(Privilege::Supervisor, Source::Soft).with(
            Privilege::User,
            Source::Soft,
        ).with(Privilege::User, Source::Soft),
        ..h
    }
}

/// Why a hart cannot be taken to user level.
#[derive(Clone, Copy, Debug, PartialEq, Eq, Structural)]
pub enum EntryError {
    /// The hart is not at supervisor level with its supervisor trap vector
    /// installed, or it has an interrupt armed at a level without a vector.
    HartNotReady,
    /// The arena has no stacks for the hart.
    NoStack { hart: usize },
    /// The entry of the user trap stub does not lie on a four-byte boundary.
    MisalignedVector { entry: usize },
}

/// Whether `hart` can be taken to user level from where it stands.
pub open spec fn ready_for_user_entry(hart: Hart) -> bool {
    hart.wf() && hart.mode == Privilege::Supervisor && hart.stvec is Some
}

/// The error that keeps `hart` from going to user level with the user trap
/// vector `user_vector` in an arena of `harts` harts, if there is one.
pub open spec fn entry_error(hart: Hart, harts: nat, user_vector: usize) -> Option<EntryError> {
    if !ready_for_user_entry(hart) {
        Some(EntryError::HartNotReady)
    } else if hart.id >= harts {
        Some(EntryError::NoStack { hart: hart.id })
    } else if user_vector % 4 != 0 {
        Some(EntryError::MisalignedVector { entry: user_vector })
    } else {
        None
    }
}

/// Takes the hart from supervisor level to user level: arms the delegation
/// of user interrupts, builds the user context that resumes at `entry` with
/// the callee-saved registers `s` on the hart's user stack, pushes it onto
/// the hart's kernel stack, and switches. `ustatus` is the user status
/// register as read from the hart, `user_vector` the entry of the user trap
/// stub. No interrupt is delegated or enabled before the vector of its
/// level is installed.
///
/// After the switch the hart runs at user level at `entry`, on its own user
/// stack, with the callee-saved registers equal to `s` and with interrupts
/// enabled. The record lies on the hart's own kernel stack, directly below
/// its top; no stack of another hart is touched.
///
/// A hart that is not ready, that has no stacks, or a user vector that is
/// not aligned is an error, and then neither the hart nor a stack changes.
pub fn rust_main(
    hart: &mut Hart,
    stacks: &mut StackArena,
    entry: usize,
    user_vector: usize,
    s: [usize; 12],
    ustatus: Ustatus,
) -> (r: Result<UserEntry, EntryError>)
    ensures
        entry_error(*old(hart), old(stacks).harts(), user_vector) matches Some(e) ==> r matches Err(
            got,
        ) && got == e && *final(hart) == *old(hart) && *final(stacks) == *old(stacks),
        entry_error(*old(hart), old(stacks).harts(), user_vector) is None ==> r is Ok,
        r matches Ok(ue) ==> {
            &&& ue.before@ == user_entry_before(user_vector)
            &&& ue.after@ == user_entry_after()
            &&& is_initial_context(
                ue.cx,
                entry,
                old(stacks).user(old(hart).id as int).sp() as usize,
                s@,
                ustatus,
            )
            &&& ue.handle.addr() == old(stacks).kernel(old(hart).id as int).sp() - CONTEXT_SIZE
            &&& final(stacks).harts() == old(stacks).harts()
            &&& final(stacks).kernel(old(hart).id as int).record() == Some(
                ContextRecord::User(ue.cx),
            )
            &&& final(stacks).kernel(old(hart).id as int).holds(&ue.handle)
            &&& forall|h: int|
                0 <= h < old(stacks).harts() && h != old(hart).id ==> final(stacks).kernel(h)
                    == old(stacks).kernel(h)
            &&& forall|h: int|
                0 <= h < old(stacks).harts() ==> final(stacks).user(h) == old(stacks).user(h)
            &&& *final(hart) == after_user_entry(*old(hart), ue.cx, user_vector)
            &&& final(hart).wf()
            &&& final(hart).mode == Privilege::User
            &&& final(hart).pc == entry
            &&& final(hart).x@[2] == old(stacks).user(old(hart).id as int).sp()
            &&& forall|k: int| 0 <= k < 12 ==> final(hart).x@[saved_register(k)] == s@[k]
            &&& final(hart).ustatus.uie()
        },
{
    if !(hart.is_wf() && hart.mode == Privilege::Supervisor && hart.stvec.is_some()) {
        return Err(EntryError::HartNotReady);
    }
    if hart.id >= stacks.hart_count() {
        return Err(EntryError::NoStack { hart: hart.id });
    }
    if user_vector % 4 != 0 {
        return Err(EntryError::MisalignedVector { entry: user_vector });
    }
    let mut before: Vec<CsrOp> = Vec::new();
    before.push(hart.post_software_interrupt(Privilege::Supervisor));
    before.push(hart.post_software_interrupt(Privilege::User));
    let (sie, spp) = hart.prepare_user_entry();
    before.push(sie);
    before.push(spp);
    match init_u(hart, user_vector) {
        Ok(op) => before.push(op),
        Err(_) => {
            return Err(EntryError::MisalignedVector { entry: user_vector });
        },
    }
    let (sideleg, sedeleg) = hart.reset_delegation();
    before.push(sideleg);
    before.push(sedeleg);
    before.push(hart.delegate_to_user(Source::Soft));
    before.push(hart.delegate_to_user(Source::External));
    assert(before@ =~= user_entry_before(user_vector));

    let sp = stacks.user_sp(hart.id);
    let cx = UserTrapContext::init(entry, sp, s, ustatus);
    let handle = stacks.push_user_context(hart.id, cx);
    hart.enter_user(&cx);

    let mut after: Vec<CsrOp> = Vec::new();
    after.push(hart.enable(Privilege::User, Source::Soft));
    after.push(hart.post_software_interrupt(Privilege::User));
    assert(after@ =~= user_entry_after());
    proof {
        crate::hart::lemma_user_entry(*old(hart), cx, entry, sp, s@, ustatus);
    }
    Ok(UserEntry { before, cx, handle, after })
}

} // verus!
