//! Plain-value models of the control and status registers that the trap
//! machinery reads and writes, and the operations that are handed to the
//! caller to be carried out on the hardware.

use vstd::prelude::*;

verus! {

/// Privilege level of a hart.
#[derive(Clone, Copy, Debug, PartialEq, Eq, Structural)]
pub enum Privilege {
    User,
    Supervisor,
    Machine,
}

/// Kind of interrupt.
#[derive(Clone, Copy, Debug, PartialEq, Eq, Structural)]
pub enum Source {
    Soft,
    Timer,
    External,
}

/// The bit that stands for `source` at `level` in the pending, enable and
/// delegation registers.
pub open spec fn interrupt_mask(level: Privilege, source: Source) -> usize {
    match (source, level) {
        (Source::Soft, Privilege::User) => 0x001,
        (Source::Soft, Privilege::Supervisor) => 0x002,
        (Source::Soft, Privilege::Machine) => 0x008,
        (Source::Timer, Privilege::User) => 0x010,
        (Source::Timer, Privilege::Supervisor) => 0x020,
        (Source::Timer, Privilege::Machine) => 0x080,
        (Source::External, Privilege::User) => 0x100,
        (Source::External, Privilege::Supervisor) => 0x200,
        (Source::External, Privilege::Machine) => 0x800,
    }
}

/// Computes `interrupt_mask`.
pub fn mask_of(level: Privilege, source: Source) -> (mask: usize)
    ensures
        mask == interrupt_mask(level, source),
{
    match (source, level) {
        (Source::Soft, Privilege::User) => 0x001,
        (Source::Soft, Privilege::Supervisor) => 0x002,
        (Source::Soft, Privilege::Machine) => 0x008,
        (Source::Timer, Privilege::User) => 0x010,
        (Source::Timer, Privilege::Supervisor) => 0x020,
        (Source::Timer, Privilege::Machine) => 0x080,
        (Source::External, Privilege::User) => 0x100,
        (Source::External, Privilege::Supervisor) => 0x200,
        (Source::External, Privilege::Machine) => 0x800,
    }
}

/// Two different (level, source) pairs never share a bit.
pub proof fn lemma_masks_disjoint(l1: Privilege, s1: Source, l2: Privilege, s2: Source)
    requires
        l1 != l2 || s1 != s2,
    ensures
        interrupt_mask(l1, s1) & interrupt_mask(l2, s2) == 0,
{
    assert(forall|j: usize, k: usize|
        j < 12 && k < 12 && j != k ==> #[trigger] ((1usize << j) & (1usize << k)) == 0)
        by (bit_vector);
    assert(1usize << 0usize == 0x001 && 1usize << 1usize == 0x002 && 1usize << 3usize == 0x008
        && 1usize << 4usize == 0x010 && 1usize << 5usize == 0x020 && 1usize << 7usize == 0x080
        && 1usize << 8usize == 0x100 && 1usize << 9usize == 0x200 && 1usize << 11usize == 0x800)
        by (bit_vector);
    let j1 = mask_position(l1, s1);
    let j2 = mask_position(l2, s2);
    assert(interrupt_mask(l1, s1) == 1usize << j1);
    assert(interrupt_mask(l2, s2) == 1usize << j2);
    assert(((1usize << j1) & (1usize << j2)) == 0);
}

/// Position of the bit of `interrupt_mask`.
pub open spec fn mask_position(level: Privilege, source: Source) -> usize {
    match (source, level) {
        (Source::Soft, Privilege::User) => 0,
        (Source::Soft, Privilege::Supervisor) => 1,
        (Source::Soft, Privilege::Machine) => 3,
        (Source::Timer, Privilege::User) => 4,
        (Source::Timer, Privilege::Supervisor) => 5,
        (Source::Timer, Privilege::Machine) => 7,
        (Source::External, Privilege::User) => 8,
        (Source::External, Privilege::Supervisor) => 9,
        (Source::External, Privilege::Machine) => 11,
    }
}

/// One bit per (level, source) pair: the contents of a pending, an enable or
/// a delegation register.
#[derive(Clone, Copy, Debug, PartialEq, Eq, Structural)]
pub struct InterruptBits {
    pub bits: usize,
}

impl InterruptBits {
    /// Whether the bit of `source` at `level` is set.
    pub open spec fn has(self, level: Privilege, source: Source) -> bool {
        self.bits & interrupt_mask(level, source) != 0
    }

    /// The register with the bit of `source` at `level` set.
    pub open spec fn with(self, level: Privilege, source: Source) -> InterruptBits {
        InterruptBits { bits: self.bits | interrupt_mask(level, source) }
    }

    /// The register with the bit of `source` at `level` cleared.
    pub open spec fn without(self, level: Privilege, source: Source) -> InterruptBits {
        InterruptBits { bits: self.bits & !interrupt_mask(level, source) }
    }

    /// A register with no bit set.
    pub fn empty() -> (r: InterruptBits)
        ensures
            r.bits == 0,
            forall|l: Privilege, s: Source| !r.has(l, s),
    {
        assert(forall|m: usize| 0usize & m == 0) by (bit_vector);
        InterruptBits { bits: 0 }
    }

    /// Reads the bit of `source` at `level`.
    pub fn is_set(&self, level: Privilege, source: Source) -> (b: bool)
        ensures
            b == self.has(level, source),
    {
        self.bits & mask_of(level, source) != 0
    }

    /// Sets the bit of `source` at `level` and leaves every other bit as it was.
    pub fn set(&mut self, level: Privilege, source: Source)
        ensures
            *final(self) == old(self).with(level, source),
            final(self).has(level, source),
            forall|l: Privilege, s: Source|
                (l != level || s != source) ==> final(self).has(l, s) == old(self).has(l, s),
    {
        let mask = mask_of(level, source);
        proof {
            lemma_set_bit(*self, level, source);
        }
        self.bits = self.bits | mask;
    }

    /// Clears the bit of `source` at `level` and leaves every other bit as it was.
    pub fn clear(&mut self, level: Privilege, source: Source)
        ensures
            *final(self) == old(self).without(level, source),
            !final(self).has(level, source),
            forall|l: Privilege, s: Source|
                (l != level || s != source) ==> final(self).has(l, s) == old(self).has(l, s),
            !old(self).has(level, source) ==> *final(self) == *old(self),
    {
        let mask = mask_of(level, source);
        proof {
            lemma_clear_bit(*self, level, source);
        }
        self.bits = self.bits & !mask;
    }
}

/// What setting one bit does to a register: the bit is set afterwards and no
/// other bit changes.
pub proof fn lemma_set_bit(r: InterruptBits, level: Privilege, source: Source)
    ensures
        r.with(level, source).has(level, source),
        forall|l: Privilege, s: Source|
            (l != level || s != source) ==> r.with(level, source).has(l, s) == r.has(l, s),
{
    let bits = r.bits;
    let m = interrupt_mask(level, source);
    assert((bits | m) & m == m) by (bit_vector);
    assert forall|l: Privilege, s: Source| (l != level || s != source) implies r.with(
        level,
        source,
    ).has(l, s) == r.has(l, s) by {
        let o = interrupt_mask(l, s);
        lemma_masks_disjoint(level, source, l, s);
        assert((bits | m) & o == bits & o) by (bit_vector)
            requires
                m & o == 0,
        ;
    }
}

/// What clearing one bit does to a register: the bit is clear afterwards, no
/// other bit changes, and clearing a bit that was clear already leaves the
/// whole register as it was.
pub proof fn lemma_clear_bit(r: InterruptBits, level: Privilege, source: Source)
    ensures
        !r.without(level, source).has(level, source),
        forall|l: Privilege, s: Source|
            (l != level || s != source) ==> r.without(level, source).has(l, s) == r.has(l, s),
        !r.has(level, source) ==> r.without(level, source) == r,
        forall|o: usize|
            o & interrupt_mask(level, source) == 0 ==> #[trigger] (r.without(level, source).bits
                & o) == r.bits & o,
{
    let bits = r.bits;
    let m = interrupt_mask(level, source);
    assert(forall|o: usize| o & m == 0 ==> #[trigger] ((bits & !m) & o) == bits & o)
        by (bit_vector);
    assert((bits & !m) & m == 0) by (bit_vector);
    assert(bits & m == 0 ==> bits & !m == bits) by (bit_vector);
    assert forall|l: Privilege, s: Source| (l != level || s != source) implies r.without(
        level,
        source,
    ).has(l, s) == r.has(l, s) by {
        let o = interrupt_mask(l, s);
        lemma_masks_disjoint(level, source, l, s);
        assert((bits & !m) & o == bits & o) by (bit_vector)
            requires
                m & o == 0,
        ;
    }
}

/// A control and status register that the trap machinery touches.
#[derive(Clone, Copy, Debug, PartialEq, Eq, Structural)]
pub enum Csr {
    Sstatus,
    Sie,
    Sip,
    Sideleg,
    Sedeleg,
    Stvec,
    Uie,
    Uip,
    Utvec,
}

/// One access to a control and status register, to be carried out by the
/// caller on the hart that it runs on.
#[derive(Clone, Copy, Debug, PartialEq, Eq, Structural)]
pub enum CsrOp {
    /// Replace the register's contents by `value`.
    Write { csr: Csr, value: usize },
    /// Set the bits of `mask` and leave the others.
    SetBits { csr: Csr, mask: usize },
    /// Clear the bits of `mask` and leave the others.
    ClearBits { csr: Csr, mask: usize },
}

/// Bit of the user-level interrupt enable in a status register.
pub const STATUS_UIE: usize = 0x1;

/// Bit of the supervisor-level interrupt enable in the supervisor status register.
pub const STATUS_SIE: usize = 0x2;

/// Bit of the user-level prior interrupt enable in a status register.
pub const STATUS_UPIE: usize = 0x10;

/// Bit of the previous privilege level in the supervisor status register.
pub const STATUS_SPP: usize = 0x100;

/// Snapshot of the user status register.
#[derive(Clone, Copy, Debug, PartialEq, Eq, Structural)]
pub struct Ustatus {
    pub bits: usize,
}

impl Ustatus {
    /// User interrupt enable.
    pub open spec fn spec_uie(&self) -> bool {
        self.bits & STATUS_UIE != 0
    }

    /// User prior interrupt enable.
    pub open spec fn spec_upie(&self) -> bool {
        self.bits & STATUS_UPIE != 0
    }

    /// User interrupt enable.
    #[verifier::when_used_as_spec(spec_uie)]
    pub fn uie(&self) -> (b: bool)
        ensures
            b == self.spec_uie(),
    {
        self.bits & STATUS_UIE != 0
    }

    /// User prior interrupt enable.
    #[verifier::when_used_as_spec(spec_upie)]
    pub fn upie(&self) -> (b: bool)
        ensures
            b == self.spec_upie(),
    {
        self.bits & STATUS_UPIE != 0
    }

    /// The snapshot with the prior interrupt enable set to `val`.
    pub open spec fn with_upie(self, val: bool) -> Ustatus {
        if val {
            Ustatus { bits: self.bits | STATUS_UPIE }
        } else {
            Ustatus { bits: self.bits & !STATUS_UPIE }
        }
    }

    /// Sets the prior interrupt enable to `val` and leaves every other bit.
    pub fn set_upie(&mut self, val: bool)
        ensures
            *final(self) == old(self).with_upie(val),
            final(self).upie() == val,
            final(self).uie() == old(self).uie(),
            forall|m: usize| m & STATUS_UPIE == 0 ==> final(self).bits & m == old(self).bits & m,
    {
        let bits = self.bits;
        assert((bits | 0x10) & 0x10 != 0) by (bit_vector);
        assert((bits & !0x10usize) & 0x10 == 0) by (bit_vector);
        assert(forall|m: usize| m & 0x10 == 0 ==> #[trigger] ((bits | 0x10) & m) == bits & m)
            by (bit_vector);
        assert(forall|m: usize|
            m & 0x10 == 0 ==> #[trigger] ((bits & !0x10usize) & m) == bits & m) by (bit_vector);
        assert(0x1usize & 0x10 == 0) by (bit_vector);
        if val {
            self.bits = bits | STATUS_UPIE;
        } else {
            self.bits = bits & !STATUS_UPIE;
        }
    }
}

/// Snapshot of the supervisor status register.
#[derive(Clone, Copy, Debug, PartialEq, Eq, Structural)]
pub struct Sstatus {
    pub bits: usize,
}

impl Sstatus {
    /// Supervisor interrupt enable.
    pub open spec fn spec_sie(&self) -> bool {
        self.bits & STATUS_SIE != 0
    }

    /// Whether the previous privilege level is supervisor (else user).
    pub open spec fn spec_spp_supervisor(&self) -> bool {
        self.bits & STATUS_SPP != 0
    }

    /// Supervisor interrupt enable.
    #[verifier::when_used_as_spec(spec_sie)]
    pub fn sie(&self) -> (b: bool)
        ensures
            b == self.spec_sie(),
    {
        self.bits & STATUS_SIE != 0
    }

    /// Whether the previous privilege level is supervisor (else user).
    #[verifier::when_used_as_spec(spec_spp_supervisor)]
    pub fn spp_supervisor(&self) -> (b: bool)
        ensures
            b == self.spec_spp_supervisor(),
    {
        self.bits & STATUS_SPP != 0
    }
}

} // verus!
