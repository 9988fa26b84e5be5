//! Per-hart flags: one cell for each hart, reached only by naming the hart.

use vstd::prelude::*;

verus! {

/// One flag per hart.
///
/// It serves as the record of pending external interrupts, where a hart's
/// trap path sets the hart's own flag and its polling consumer clears it,
/// and as the readiness barrier, where each secondary hart publishes its
/// flag and the primary hart waits for all of them.
#[derive(Debug, PartialEq, Eq)]
pub struct HartFlags {
    cells: Vec<bool>,
}

impl View for HartFlags {
    type V = Seq<bool>;

    closed spec fn view(&self) -> Seq<bool> {
        self.cells@
    }
}

/// Whether every flag but that of `except` is set.
pub open spec fn all_set_except(flags: Seq<bool>, except: int) -> bool {
    forall|h: int| 0 <= h < flags.len() && h != except ==> flags[h]
}

impl HartFlags {
    /// The flags of `harts` harts, none of them set.
    pub fn new(harts: usize) -> (flags: HartFlags)
        ensures
            flags@.len() == harts,
            forall|h: int| 0 <= h < harts ==> !flags@[h],
    {
        let mut cells: Vec<bool> = Vec::new();
        let mut h: usize = 0;
        while h < harts
            invariant
                h <= harts,
                cells@.len() == h,
                forall|i: int| 0 <= i < h ==> !cells@[i],
            decreases harts - h,
        {
            cells.push(false);
            h += 1;
        }
        HartFlags { cells }
    }

    /// Number of harts.
    pub fn len(&self) -> (n: usize)
        ensures
            n == self@.len(),
    {
        self.cells.len()
    }

    /// Reads the flag of `hart`.
    pub fn get(&self, hart: usize) -> (set: bool)
        requires
            hart < self@.len(),
        ensures
            set == self@[hart as int],
    {
        self.cells[hart]
    }

    /// Sets the flag of `hart` and leaves those of the other harts.
    pub fn set(&mut self, hart: usize)
        requires
            hart < old(self)@.len(),
        ensures
            final(self)@ == old(self)@.update(hart as int, true),
    {
        self.cells[hart] = true;
    }

    /// Clears the flag of `hart` and leaves those of the other harts.
    pub fn clear(&mut self, hart: usize)
        requires
            hart < old(self)@.len(),
        ensures
            final(self)@ == old(self)@.update(hart as int, false),
    {
        self.cells[hart] = false;
    }

    /// Whether every hart but `except` has its flag set: what the primary
    /// hart waits for at the readiness barrier.
    pub fn all_set_except(&self, except: usize) -> (all: bool)
        ensures
            all == all_set_except(self@, except as int),
    {
        let mut h: usize = 0;
        while h < self.cells.len()
            invariant
                h <= self.cells@.len(),
                forall|i: int| 0 <= i < h && i != except ==> self.cells@[i],
            decreases self.cells@.len() - h,
        {
            if h != except && !self.cells[h] {
                return false;
            }
            h += 1;
        }
        true
    }
}

} // verus!
