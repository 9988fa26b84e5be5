//! The stack arena: one kernel stack and one user stack per hart, each a
//! page-aligned region of fixed size, and the slot at the top of a stack
//! that holds the context record pushed last.
//!
//! A stack is described by the address of its region. Pushing a record
//! stores it in the stack's slot and returns an owned handle with the
//! address at which the record lies. A handle is live until the next push or
//! restore on the same stack: each of them gives the stack the next serial
//! number, and a handle is live only while it bears the stack's number.

use vstd::prelude::*;
use crate::config::{KERNEL_STACK_SIZE, PAGE_SIZE, USER_STACK_SIZE};
use crate::trap::{TrapContext, UserTrapContext, CONTEXT_SIZE};

verus! {

/// A context record, tagged by the privilege level that it belongs to.
#[derive(Clone, Copy, Debug, PartialEq, Eq)]
pub enum ContextRecord {
    Supervisor(TrapContext),
    User(UserTrapContext),
}

/// Handle of a pushed context record.
#[derive(Debug, PartialEq, Eq)]
pub struct ContextHandle {
    addr: usize,
    serial: u64,
}

impl ContextHandle {
    /// Address at which the record lies.
    pub closed spec fn spec_addr(&self) -> usize {
        self.addr
    }

    /// Number of the push that made the handle.
    pub closed spec fn serial(&self) -> u64 {
        self.serial
    }

    /// Address at which the record lies.
    #[verifier::when_used_as_spec(spec_addr)]
    pub fn addr(&self) -> (a: usize)
        ensures
            a == self.addr(),
    {
        self.addr
    }
}

/// The number that follows `serial`: one more, and zero after the largest.
pub open spec fn next_serial(serial: u64) -> u64 {
    if serial == u64::MAX {
        0
    } else {
        (serial + 1) as u64
    }
}

/// Whether a region of `size` bytes at `base` starts on a page boundary and
/// ends within the address space.
pub open spec fn region_ok(base: usize, size: usize) -> bool {
    base % PAGE_SIZE == 0 && base + size <= usize::MAX
}

/// Kernel stack of one hart.
#[derive(Debug)]
pub struct KernelStack {
    base: usize,
    record: Option<ContextRecord>,
    serial: u64,
}

/// User stack of one hart.
#[derive(Debug)]
pub struct UserStack {
    base: usize,
    record: Option<UserTrapContext>,
    serial: u64,
}

impl KernelStack {
    #[verifier::type_invariant]
    spec fn inv(&self) -> bool {
        region_ok(self.base, KERNEL_STACK_SIZE)
    }

    /// Lowest address of the region.
    pub closed spec fn spec_base(&self) -> usize {
        self.base
    }

    /// The record in the slot, if there is one.
    pub closed spec fn record(&self) -> Option<ContextRecord> {
        self.record
    }

    /// Number of the last push or restore.
    pub closed spec fn serial(&self) -> u64 {
        self.serial
    }

    /// Address one past the region: the initial stack pointer.
    pub open spec fn sp(&self) -> int {
        self.spec_base() + KERNEL_STACK_SIZE
    }

    /// Whether `handle` is the handle of the record in the slot.
    pub open spec fn holds(&self, handle: &ContextHandle) -> bool {
        &&& self.record() is Some
        &&& handle.serial() == self.serial()
        &&& handle.addr() == self.sp() - CONTEXT_SIZE
    }

    /// The stack whose region starts at `base`, with an empty slot; `None`
    /// unless the region starts on a page boundary and ends within the
    /// address space.
    pub fn new(base: usize) -> (stack: Option<KernelStack>)
        ensures
            stack is Some <==> region_ok(base, KERNEL_STACK_SIZE),
            stack matches Some(s) ==> s.spec_base() == base && s.record() is None && s.serial()
                == 0,
    {
        if base % PAGE_SIZE == 0 && base <= usize::MAX - KERNEL_STACK_SIZE {
            Some(KernelStack { base, record: None, serial: 0 })
        } else {
            None
        }
    }

    /// Lowest address of the region.
    #[verifier::when_used_as_spec(spec_base)]
    pub fn base(&self) -> (b: usize)
        ensures
            b == self.base(),
            region_ok(b, KERNEL_STACK_SIZE),
    {
        proof {
            use_type_invariant(self);
        }
        self.base
    }

    /// Initial stack pointer: the address one past the region.
    pub fn get_sp(&self) -> (sp: usize)
        ensures
            sp == self.sp(),
            sp == self.base() + KERNEL_STACK_SIZE,
    {
        proof {
            use_type_invariant(self);
        }
        self.base + KERNEL_STACK_SIZE
    }

    fn push(&mut self, record: ContextRecord) -> (handle: ContextHandle)
        ensures
            final(self).base() == old(self).base(),
            final(self).record() == Some(record),
            final(self).serial() == next_serial(old(self).serial()),
            forall|h: ContextHandle| old(self).holds(&h) ==> !final(self).holds(&h),
            final(self).holds(&handle),
            handle.addr() == old(self).sp() - CONTEXT_SIZE,
    {
        proof {
            use_type_invariant(&*self);
        }
        let serial = self.serial.wrapping_add(1);
        let addr = self.base + KERNEL_STACK_SIZE - CONTEXT_SIZE;
        self.record = Some(record);
        self.serial = serial;
        ContextHandle { addr, serial }
    }

    /// Pushes a supervisor context: the record is stored directly below the
    /// top of the stack, and the handle that comes back is live. A handle
    /// made earlier on this stack no longer is.
    pub fn push_context(&mut self, cx: TrapContext) -> (handle: ContextHandle)
        ensures
            final(self).base() == old(self).base(),
            final(self).record() == Some(ContextRecord::Supervisor(cx)),
            final(self).serial() == next_serial(old(self).serial()),
            forall|h: ContextHandle| old(self).holds(&h) ==> !final(self).holds(&h),
            final(self).holds(&handle),
            handle.addr() == old(self).sp() - CONTEXT_SIZE,
    {
        self.push(ContextRecord::Supervisor(cx))
    }

    /// Pushes a user context: the record is stored directly below the top of
    /// the stack, and the handle that comes back is live. A handle made
    /// earlier on this stack no longer is.
    pub fn push_ucontext(&mut self, cx: UserTrapContext) -> (handle: ContextHandle)
        ensures
            final(self).base() == old(self).base(),
            final(self).record() == Some(ContextRecord::User(cx)),
            final(self).serial() == next_serial(old(self).serial()),
            forall|h: ContextHandle| old(self).holds(&h) ==> !final(self).holds(&h),
            final(self).holds(&handle),
            handle.addr() == old(self).sp() - CONTEXT_SIZE,
    {
        self.push(ContextRecord::User(cx))
    }

    /// Whether `handle` is live: it is the handle of the record in the slot.
    pub fn is_live(&self, handle: &ContextHandle) -> (live: bool)
        ensures
            live == self.holds(handle),
    {
        proof {
            use_type_invariant(self);
        }
        self.record.is_some() && handle.serial == self.serial && handle.addr == self.base
            + KERNEL_STACK_SIZE - CONTEXT_SIZE
    }

    /// The record behind a live handle; `None` for a handle that is not live.
    pub fn context(&self, handle: &ContextHandle) -> (record: Option<ContextRecord>)
        ensures
            record == if self.holds(handle) {
                self.record()
            } else {
                None
            },
    {
        if self.is_live(handle) {
            self.record
        } else {
            None
        }
    }

    /// Takes the record behind a live handle out of the slot, as the switch
    /// to that context does; the handle is used up. For a handle that is not
    /// live, returns `None` and changes nothing.
    pub fn restore(&mut self, handle: ContextHandle) -> (record: Option<ContextRecord>)
        ensures
            final(self).base() == old(self).base(),
            old(self).holds(&handle) ==> record == old(self).record() && final(self).record()
                is None && final(self).serial() == next_serial(old(self).serial()),
            !old(self).holds(&handle) ==> record is None && final(self).record() == old(
                self,
            ).record() && final(self).serial() == old(self).serial(),
    {
        proof {
            use_type_invariant(&*self);
        }
        if self.is_live(&handle) {
            let record = self.record;
            self.record = None;
            self.serial = self.serial.wrapping_add(1);
            record
        } else {
            None
        }
    }
}

impl UserStack {
    #[verifier::type_invariant]
    spec fn inv(&self) -> bool {
        region_ok(self.base, USER_STACK_SIZE)
    }

    /// Lowest address of the region.
    pub closed spec fn spec_base(&self) -> usize {
        self.base
    }

    /// The record in the slot, if there is one.
    pub closed spec fn record(&self) -> Option<UserTrapContext> {
        self.record
    }

    /// Number of the last push.
    pub closed spec fn serial(&self) -> u64 {
        self.serial
    }

    /// Address one past the region: the initial stack pointer.
    pub open spec fn sp(&self) -> int {
        self.spec_base() + USER_STACK_SIZE
    }

    /// Whether `handle` is the handle of the record in the slot.
    pub open spec fn holds(&self, handle: &ContextHandle) -> bool {
        &&& self.record() is Some
        &&& handle.serial() == self.serial()
        &&& handle.addr() == self.sp() - CONTEXT_SIZE
    }

    /// The stack whose region starts at `base`, with an empty slot; `None`
    /// unless the region starts on a page boundary and ends within the
    /// address space.
    pub fn new(base: usize) -> (stack: Option<UserStack>)
        ensures
            stack is Some <==> region_ok(base, USER_STACK_SIZE),
            stack matches Some(s) ==> s.spec_base() == base && s.record() is None && s.serial()
                == 0,
    {
        if base % PAGE_SIZE == 0 && base <= usize::MAX - USER_STACK_SIZE {
            Some(UserStack { base, record: None, serial: 0 })
        } else {
            None
        }
    }

    /// Lowest address of the region.
    #[verifier::when_used_as_spec(spec_base)]
    pub fn base(&self) -> (b: usize)
        ensures
            b == self.base(),
            region_ok(b, USER_STACK_SIZE),
    {
        proof {
            use_type_invariant(self);
        }
        self.base
    }

    /// Initial stack pointer: the address one past the region.
    pub fn get_sp(&self) -> (sp: usize)
        ensures
            sp == self.sp(),
            sp == self.base() + USER_STACK_SIZE,
    {
        proof {
            use_type_invariant(self);
        }
        self.base + USER_STACK_SIZE
    }

    /// Pushes a user context: the record is stored directly below the top of
    /// the stack, and the handle that comes back is live. A handle made
    /// earlier on this stack no longer is.
    pub fn push_context(&mut self, cx: UserTrapContext) -> (handle: ContextHandle)
        ensures
            final(self).base() == old(self).base(),
            final(self).record() == Some(cx),
            final(self).serial() == next_serial(old(self).serial()),
            forall|h: ContextHandle| old(self).holds(&h) ==> !final(self).holds(&h),
            final(self).holds(&handle),
            handle.addr() == old(self).sp() - CONTEXT_SIZE,
    {
        proof {
            use_type_invariant(&*self);
        }
        let serial = self.serial.wrapping_add(1);
        let addr = self.base + USER_STACK_SIZE - CONTEXT_SIZE;
        self.record = Some(cx);
        self.serial = serial;
        ContextHandle { addr, serial }
    }

    /// Whether `handle` is live: it is the handle of the record in the slot.
    pub fn is_live(&self, handle: &ContextHandle) -> (live: bool)
        ensures
            live == self.holds(handle),
    {
        proof {
            use_type_invariant(self);
        }
        self.record.is_some() && handle.serial == self.serial && handle.addr == self.base
            + USER_STACK_SIZE - CONTEXT_SIZE
    }
}

/// At most one context record is live on a kernel stack: two handles that
/// are both live on it are the same handle.
pub proof fn lemma_one_live_record(stack: KernelStack, h1: ContextHandle, h2: ContextHandle)
    requires
        stack.holds(&h1),
        stack.holds(&h2),
    ensures
        h1 == h2,
{
}

/// Bytes from the region of one hart's stack to that of the next: every
/// stack has a page to itself.
pub const STACK_STRIDE: usize = 4096;

/// Lowest address of the stack of `hart` in a row of stacks that starts at `first`.
pub open spec fn stack_base(first: int, hart: int) -> int {
    first + hart * STACK_STRIDE
}

/// The stacks of two different harts, kernel or user, share no byte, and
/// each starts on a page boundary if the row does.
pub proof fn lemma_stacks_disjoint(first: int, h1: int, h2: int)
    requires
        0 <= h1,
        0 <= h2,
        h1 != h2,
    ensures
        stack_base(first, h1) + KERNEL_STACK_SIZE <= stack_base(first, h2) || stack_base(first, h2)
            + KERNEL_STACK_SIZE <= stack_base(first, h1),
        stack_base(first, h1) + USER_STACK_SIZE <= stack_base(first, h2) || stack_base(first, h2)
            + USER_STACK_SIZE <= stack_base(first, h1),
        first % (PAGE_SIZE as int) == 0 ==> stack_base(first, h1) % (PAGE_SIZE as int) == 0,
{
    assert(h1 * 4096 + 4096 <= h2 * 4096 || h2 * 4096 + 4096 <= h1 * 4096);
    assert((first + h1 * 4096) % 4096 == first % 4096) by (nonlinear_arith);
}

/// The kernel and user stacks of every hart.
#[derive(Debug)]
pub struct StackArena {
    kernel: Vec<KernelStack>,
    user: Vec<UserStack>,
}

impl StackArena {
    #[verifier::type_invariant]
    spec fn inv(&self) -> bool {
        self.kernel.len() == self.user.len()
    }

    /// Number of harts that the arena serves.
    pub closed spec fn harts(&self) -> nat {
        self.kernel.len() as nat
    }

    /// Kernel stack of `hart`.
    pub closed spec fn kernel(&self, hart: int) -> KernelStack {
        self.kernel[hart]
    }

    /// User stack of `hart`.
    pub closed spec fn user(&self, hart: int) -> UserStack {
        self.user[hart]
    }

    /// Whether rows of `harts` stacks at `kernel_first` and `user_first`
    /// start on page boundaries and end within the address space.
    pub open spec fn rows_ok(kernel_first: usize, user_first: usize, harts: usize) -> bool {
        &&& kernel_first % PAGE_SIZE == 0
        &&& user_first % PAGE_SIZE == 0
        &&& kernel_first + harts * STACK_STRIDE <= usize::MAX
        &&& user_first + harts * STACK_STRIDE <= usize::MAX
    }

    /// The arena of `harts` harts whose kernel stacks start at `kernel_first`
    /// and whose user stacks start at `user_first`, one page per stack;
    /// `None` unless both rows start on a page boundary and end within the
    /// address space.
    pub fn new(kernel_first: usize, user_first: usize, harts: usize) -> (arena: Option<StackArena>)
        ensures
            arena is Some <==> StackArena::rows_ok(kernel_first, user_first, harts),
            arena matches Some(a) ==> a.harts() == harts && forall|h: int|
                0 <= h < harts ==> #[trigger] a.kernel(h).base() == stack_base(
                    kernel_first as int,
                    h,
                ) && #[trigger] a.user(h).base() == stack_base(user_first as int, h)
                    && a.kernel(h).record() is None && a.user(h).record() is None,
    {
        if kernel_first % PAGE_SIZE != 0 || user_first % PAGE_SIZE != 0 {
            return None;
        }
        let span = match harts.checked_mul(STACK_STRIDE) {
            Some(span) => span,
            None => {
                return None;
            },
        };
        if kernel_first > usize::MAX - span || user_first > usize::MAX - span {
            return None;
        }
        let mut kernel: Vec<KernelStack> = Vec::new();
        let mut user: Vec<UserStack> = Vec::new();
        let mut h: usize = 0;
        while h < harts
            invariant
                h <= harts,
                span == harts * STACK_STRIDE,
                kernel_first % PAGE_SIZE == 0,
                user_first % PAGE_SIZE == 0,
                kernel_first + span <= usize::MAX,
                user_first + span <= usize::MAX,
                kernel.len() == h,
                user.len() == h,
                forall|i: int|
                    0 <= i < h ==> (#[trigger] kernel[i]).base() == stack_base(
                        kernel_first as int,
                        i,
                    ) && kernel[i].record() is None,
                forall|i: int|
                    0 <= i < h ==> (#[trigger] user[i]).base() == stack_base(user_first as int, i)
                        && user[i].record() is None,
            decreases harts - h,
        {
            assert(h * STACK_STRIDE + STACK_STRIDE <= span) by (nonlinear_arith)
                requires
                    h < harts,
                    span == harts * STACK_STRIDE,
            ;
            let offset = h * STACK_STRIDE;
            assert((kernel_first + h * 4096) % 4096 == kernel_first % 4096) by (nonlinear_arith);
            assert((user_first + h * 4096) % 4096 == user_first % 4096) by (nonlinear_arith);
            let k = KernelStack::new(kernel_first + offset);
            let u = UserStack::new(user_first + offset);
            match (k, u) {
                (Some(k), Some(u)) => {
                    kernel.push(k);
                    user.push(u);
                },
                _ => {
                    return None;
                },
            }
            h += 1;
        }
        Some(StackArena { kernel, user })
    }

    /// Number of harts that the arena serves.
    pub fn hart_count(&self) -> (n: usize)
        ensures
            n == self.harts(),
    {
        self.kernel.len()
    }

    /// Initial stack pointer of the user stack of `hart`.
    pub fn user_sp(&self, hart: usize) -> (sp: usize)
        requires
            hart < self.harts(),
        ensures
            sp == self.user(hart as int).sp(),
    {
        proof {
            use_type_invariant(self);
        }
        self.user[hart].get_sp()
    }

    /// Initial stack pointer of the kernel stack of `hart`.
    pub fn kernel_sp(&self, hart: usize) -> (sp: usize)
        requires
            hart < self.harts(),
        ensures
            sp == self.kernel(hart as int).sp(),
    {
        self.kernel[hart].get_sp()
    }

    /// Pushes a user context onto the kernel stack of `hart`, directly below
    /// its top. No other stack changes.
    pub fn push_user_context(&mut self, hart: usize, cx: UserTrapContext) -> (handle: ContextHandle)
        requires
            hart < old(self).harts(),
        ensures
            final(self).harts() == old(self).harts(),
            final(self).kernel(hart as int).base() == old(self).kernel(hart as int).base(),
            final(self).kernel(hart as int).record() == Some(ContextRecord::User(cx)),
            final(self).kernel(hart as int).holds(&handle),
            final(self).kernel(hart as int).serial() == next_serial(
                old(self).kernel(hart as int).serial(),
            ),
            forall|h: ContextHandle|
                old(self).kernel(hart as int).holds(&h) ==> !final(self).kernel(hart as int).holds(
                    &h,
                ),
            handle.addr() == old(self).kernel(hart as int).sp() - CONTEXT_SIZE,
            forall|h: int|
                0 <= h < old(self).harts() && h != hart ==> final(self).kernel(h) == old(
                    self,
                ).kernel(h),
            forall|h: int| 0 <= h < old(self).harts() ==> final(self).user(h) == old(self).user(h),
    {
        proof {
            use_type_invariant(&*self);
        }
        let handle = self.kernel[hart].push_ucontext(cx);
        handle
    }
}

} // verus!
