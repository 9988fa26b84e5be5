//! The interrupt controller as a state machine: which sources are pending,
//! which context sees which source, and how claim and complete hand a
//! source to a context and take it back.

use vstd::prelude::*;
use crate::plic::{PlicOp, Priority};

verus! {

/// The largest level that a priority field of `bits` bits holds.
pub open spec fn max_level(bits: nat) -> nat
    decreases bits,
{
    if bits == 0 {
        0
    } else {
        2 * max_level((bits - 1) as nat) + 1
    }
}

proof fn lemma_max_level_monotonic(j: nat, k: nat)
    requires
        j <= k,
    ensures
        max_level(j) <= max_level(k),
    decreases k,
{
    if j < k {
        lemma_max_level_monotonic(j, (k - 1) as nat);
    }
}

proof fn lemma_max_level_31()
    ensures
        max_level(31) == 0x7fff_ffff,
{
    reveal_with_fuel(max_level, 32);
}

/// The number that a named level stands for as the priority of a source.
pub open spec fn priority_value(level: Priority, max: u32) -> u32 {
    match level {
        Priority::Never => 0,
        Priority::Lowest => if max == 0 {
            0
        } else {
            1
        },
        Priority::Highest => max,
        Priority::Any => 0,
    }
}

/// The number that a named level stands for as the threshold of a context.
pub open spec fn threshold_value(level: Priority, max: u32) -> u32 {
    match level {
        Priority::Never => max,
        Priority::Lowest => if max == 0 {
            0
        } else {
            1
        },
        Priority::Highest => max,
        Priority::Any => 0,
    }
}

/// What the controller holds.
#[verifier::ext_equal]
pub struct PlicState {
    /// The highest priority.
    pub max_priority: u32,
    /// Priority of each source; a source is named by its index.
    pub priority: Seq<u32>,
    /// Whether a request of the source waits to be claimed.
    pub pending: Seq<bool>,
    /// The context that has claimed the source and not yet completed it.
    pub claimed: Seq<Option<usize>>,
    /// For each context, whether it sees the source.
    pub enabled: Seq<Seq<bool>>,
    /// Threshold of each context.
    pub threshold: Seq<u32>,
}

impl PlicState {
    /// Number of sources, the reserved source 0 included.
    pub open spec fn sources(self) -> nat {
        self.priority.len()
    }

    /// Number of contexts.
    pub open spec fn contexts(self) -> nat {
        self.threshold.len()
    }

    /// The state is consistent: every table has its size, no level exceeds
    /// the highest, the reserved source 0 is idle, and a source that is
    /// claimed has no request pending.
    pub open spec fn wf(self) -> bool {
        &&& 1 <= self.sources() <= 0x1_0000
        &&& self.contexts() <= usize::MAX
        &&& self.pending.len() == self.sources()
        &&& self.claimed.len() == self.sources()
        &&& self.enabled.len() == self.contexts()
        &&& forall|c: int| 0 <= c < self.contexts() ==> (#[trigger] self.enabled[c]).len() == self.sources()
        &&& forall|i: int| 0 <= i < self.sources() ==> #[trigger] self.priority[i] <= self.max_priority
        &&& forall|c: int| 0 <= c < self.contexts() ==> #[trigger] self.threshold[c] <= self.max_priority
        &&& !self.pending[0]
        &&& self.claimed[0] is None
        &&& forall|i: int|
            0 <= i < self.sources() && (#[trigger] self.claimed[i]) is Some ==> !self.pending[i]
                && self.claimed[i].unwrap() < self.contexts()
    }

    /// Whether `context` may claim `irq`: a request of the source is
    /// pending, the context sees the source, and the source's priority lies
    /// above the context's threshold.
    pub open spec fn candidate(self, context: int, irq: int) -> bool {
        &&& 0 < irq < self.sources()
        &&& self.pending[irq]
        &&& self.enabled[context][irq]
        &&& self.priority[irq] > self.threshold[context]
    }

    /// Whether `irq` is the source that a claim of `context` returns: among
    /// the sources that the context may claim, it has the highest priority,
    /// and among those of that priority the lowest number.
    pub open spec fn best(self, context: int, irq: int) -> bool {
        &&& self.candidate(context, irq)
        &&& forall|j: int| #[trigger]
            self.candidate(context, j) ==> self.priority[j] < self.priority[irq] || (
            self.priority[j] == self.priority[irq] && irq <= j)
    }

    /// The state after `context` has claimed `irq`.
    pub open spec fn after_claim(self, context: int, irq: int) -> PlicState {
        PlicState {
            pending: self.pending.update(irq, false),
            claimed: self.claimed.update(irq, Some(context as usize)),
            ..self
        }
    }

    /// The state after the claim on `irq` has been completed.
    pub open spec fn after_complete(self, irq: int) -> PlicState {
        PlicState { claimed: self.claimed.update(irq, None), ..self }
    }

    /// The state after the device behind `irq` has asserted its line: a
    /// request becomes pending unless the source is claimed.
    pub open spec fn after_raise(self, irq: int) -> PlicState {
        if self.claimed[irq] is None {
            PlicState { pending: self.pending.update(irq, true), ..self }
        } else {
            self
        }
    }

    /// The state after the visibility of `irq` to `context` has been set to `on`.
    pub open spec fn after_enable(self, context: int, irq: int, on: bool) -> PlicState {
        PlicState {
            enabled: self.enabled.update(context, self.enabled[context].update(irq, on)),
            ..self
        }
    }

    /// The state after the sources of enable word `word` have been hidden
    /// from `context`.
    pub open spec fn after_clear_enable(self, context: int, word: int) -> PlicState {
        PlicState {
            enabled: self.enabled.update(
                context,
                Seq::new(
                    self.enabled[context].len(),
                    |i: int| self.enabled[context][i] && !(32 * word <= i < 32 * word + 32),
                ),
            ),
            ..self
        }
    }

    /// The state after `irq` has been given the priority `level`.
    pub open spec fn after_set_priority(self, irq: int, level: Priority) -> PlicState {
        PlicState {
            priority: self.priority.update(irq, priority_value(level, self.max_priority)),
            ..self
        }
    }

    /// The state after `context` has been given the threshold `level`.
    pub open spec fn after_set_threshold(self, context: int, level: Priority) -> PlicState {
        PlicState {
            threshold: self.threshold.update(context, threshold_value(level, self.max_priority)),
            ..self
        }
    }

    /// Whether the controller can carry out `op`: it names a source and a
    /// context that exist, and it completes only what its context has claimed.
    pub open spec fn accepts(self, op: PlicOp) -> bool {
        match op {
            PlicOp::SetPriority { irq, priority } => 0 < irq < self.sources(),
            PlicOp::SetThreshold { context, threshold } => context < self.contexts(),
            PlicOp::Enable { context, irq } => context < self.contexts() && 0 < irq
                < self.sources(),
            PlicOp::Disable { context, irq } => context < self.contexts() && 0 < irq
                < self.sources(),
            PlicOp::ClearEnable { context, word } => context < self.contexts(),
            PlicOp::Complete { context, irq } => context < self.contexts() && 0 < irq
                < self.sources() && self.claimed[irq as int] == Some(context),
        }
    }

    /// The state after `op`.
    pub open spec fn after(self, op: PlicOp) -> PlicState {
        match op {
            PlicOp::SetPriority { irq, priority } => self.after_set_priority(irq as int, priority),
            PlicOp::SetThreshold { context, threshold } => self.after_set_threshold(
                context as int,
                threshold,
            ),
            PlicOp::Enable { context, irq } => self.after_enable(context as int, irq as int, true),
            PlicOp::Disable { context, irq } => self.after_enable(
                context as int,
                irq as int,
                false,
            ),
            PlicOp::ClearEnable { context, word } => self.after_clear_enable(
                context as int,
                word as int,
            ),
            PlicOp::Complete { context, irq } => self.after_complete(irq as int),
        }
    }

    /// Whether the controller can carry out the operations `ops` one after
    /// the other.
    pub open spec fn accepts_all(self, ops: Seq<PlicOp>) -> bool
        decreases ops.len(),
    {
        ops.len() == 0 || (self.accepts(ops[0]) && self.after(ops[0]).accepts_all(
            ops.drop_first(),
        ))
    }

    /// The state after the operations `ops`, carried out one after the other.
    pub open spec fn after_all(self, ops: Seq<PlicOp>) -> PlicState
        decreases ops.len(),
    {
        if ops.len() == 0 {
            self
        } else {
            self.after(ops[0]).after_all(ops.drop_first())
        }
    }

    /// Whether there is a source that `context` may claim.
    pub open spec fn has_candidate(self, context: int) -> bool {
        exists|i: int| self.candidate(context, i)
    }

    /// The state after `context` has claimed, one after the other, every
    /// source that it may claim.
    pub open spec fn drained(self, context: int) -> PlicState {
        PlicState {
            pending: Seq::new(
                self.pending.len(),
                |i: int| self.pending[i] && !self.candidate(context, i),
            ),
            claimed: Seq::new(
                self.claimed.len(),
                |i: int|
                    if self.candidate(context, i) {
                        Some(context as usize)
                    } else {
                        self.claimed[i]
                    },
            ),
            ..self
        }
    }
}

/// Number of set flags in `s`.
pub open spec fn count_set(s: Seq<bool>) -> nat
    decreases s.len(),
{
    if s.len() == 0 {
        0
    } else {
        count_set(s.drop_last()) + if s.last() {
            1nat
        } else {
            0nat
        }
    }
}

proof fn lemma_count_clear(s: Seq<bool>, i: int)
    requires
        0 <= i < s.len(),
        s[i],
    ensures
        count_set(s.update(i, false)) + 1 == count_set(s),
    decreases s.len(),
{
    if i == s.len() - 1 {
        assert(s.update(i, false).drop_last() =~= s.drop_last());
    } else {
        lemma_count_clear(s.drop_last(), i);
        assert(s.update(i, false).drop_last() =~= s.drop_last().update(i, false));
    }
}

/// Draining is the same before and after one claim of the context, and
/// changes nothing once the context has nothing left to claim.
pub proof fn lemma_drained_step(s: PlicState, context: int, irq: int)
    requires
        s.wf(),
        0 <= context < s.contexts(),
    ensures
        s.best(context, irq) ==> s.after_claim(context, irq).drained(context) == s.drained(context),
        !s.has_candidate(context) ==> s.drained(context) == s,
{
    if s.best(context, irq) {
        let t = s.after_claim(context, irq);
        assert forall|i: int| 0 <= i < s.sources() implies t.candidate(context, i) == (s.candidate(
            context,
            i,
        ) && i != irq) by {}
        assert(t.drained(context).pending =~= s.drained(context).pending);
        assert(t.drained(context).claimed =~= s.drained(context).claimed);
        assert(t.drained(context) =~= s.drained(context));
    }
    if !s.has_candidate(context) {
        assert forall|i: int| !s.candidate(context, i) by {}
        assert(s.drained(context).pending =~= s.pending);
        assert(s.drained(context).claimed =~= s.claimed);
        assert(s.drained(context) =~= s);
    }
}

/// Carrying out one list of operations after another is carrying out the
/// two lists joined.
pub proof fn lemma_after_all_add(s: PlicState, a: Seq<PlicOp>, b: Seq<PlicOp>)
    ensures
        s.accepts_all(a + b) == (s.accepts_all(a) && s.after_all(a).accepts_all(b)),
        s.after_all(a + b) == s.after_all(a).after_all(b),
    decreases a.len(),
{
    if a.len() == 0 {
        assert(a + b =~= b);
    } else {
        assert((a + b)[0] == a[0]);
        assert((a + b).drop_first() =~= a.drop_first() + b);
        lemma_after_all_add(s.after(a[0]), a.drop_first(), b);
    }
}

/// Carrying out a list of one operation is carrying out that operation.
pub proof fn lemma_after_all_one(s: PlicState, op: PlicOp)
    ensures
        s.accepts_all(seq![op]) == s.accepts(op),
        s.after_all(seq![op]) == s.after(op),
{
    let ops = seq![op];
    assert(ops[0] == op);
    assert(ops.drop_first().len() == 0);
    reveal_with_fuel(PlicState::accepts_all, 2);
    reveal_with_fuel(PlicState::after_all, 2);
}

/// A claim has one answer: two sources that both are the best for a context
/// are the same source.
pub proof fn lemma_best_unique(s: PlicState, context: int, a: int, b: int)
    requires
        s.best(context, a),
        s.best(context, b),
    ensures
        a == b,
{
}

/// Where a context may claim exactly one source, that source is the answer
/// to its claim.
pub proof fn lemma_single_candidate(s: PlicState, context: int, irq: int)
    requires
        s.candidate(context, irq),
        forall|j: int| j != irq ==> !s.candidate(context, j),
    ensures
        s.best(context, irq),
        forall|k: int| s.best(context, k) ==> k == irq,
{
}

/// A source that has been claimed is not handed out again, to any context,
/// until the claim has been completed and the device has asserted its line
/// anew: neither before the completion, whether or not the line is
/// asserted, nor after the completion while the line is idle. Once both
/// have happened the request is pending again.
pub proof fn lemma_claim_holds_source(s: PlicState, context: int, irq: int, other: int)
    requires
        s.wf(),
        0 <= context < s.contexts(),
        0 <= other < s.contexts(),
        s.best(context, irq),
    ensures
        s.after_claim(context, irq).wf(),
        !s.after_claim(context, irq).candidate(other, irq),
        !s.after_claim(context, irq).after_raise(irq).candidate(other, irq),
        !s.after_claim(context, irq).after_complete(irq).candidate(other, irq),
        s.after_claim(context, irq).after_complete(irq).after_raise(irq).pending[irq],
        s.after_claim(context, irq).after_complete(irq).after_raise(irq).candidate(other, irq)
            == (s.enabled[other][irq] && s.priority[irq] > s.threshold[other]),
{
}

/// While a source is claimed, no context may claim it, and nothing but the
/// completion of that source ends the claim: not another operation, not the
/// device's line, not a claim of another source.
pub proof fn lemma_claimed_is_held(s: PlicState, context: int, irq: int)
    requires
        s.wf(),
        0 <= irq < s.sources(),
        s.claimed[irq] is Some,
    ensures
        !s.candidate(context, irq),
        s.after_raise(irq).claimed[irq] == s.claimed[irq],
        forall|c: int, other: int|
            0 <= other < s.sources() && other != irq ==> #[trigger] s.after_claim(
                c,
                other,
            ).claimed[irq] == s.claimed[irq],
        forall|op: PlicOp|
            s.accepts(op) && !(op matches PlicOp::Complete { irq: i, .. } && i == irq) ==> (
            #[trigger] s.after(op)).claimed[irq] == s.claimed[irq],
{
}

fn highest_level(bits: usize) -> (max: u32)
    requires
        bits <= 31,
    ensures
        max == max_level(bits as nat),
{
    let mut max: u32 = 0;
    let mut b: usize = 0;
    while b < bits
        invariant
            b <= bits <= 31,
            max == max_level(b as nat),
        decreases bits - b,
    {
        proof {
            assert(max_level((b + 1) as nat) == 2 * max_level(b as nat) + 1);
            lemma_max_level_monotonic((b + 1) as nat, 31);
            lemma_max_level_31();
        }
        max = 2 * max + 1;
        b += 1;
    }
    max
}

fn zero_levels(n: usize) -> (v: Vec<u32>)
    ensures
        v@.len() == n,
        forall|k: int| 0 <= k < n ==> v@[k] == 0,
{
    let mut v: Vec<u32> = Vec::new();
    let mut i: usize = 0;
    while i < n
        invariant
            i <= n,
            v@.len() == i,
            forall|k: int| 0 <= k < i ==> v@[k] == 0,
        decreases n - i,
    {
        v.push(0);
        i += 1;
    }
    v
}

fn clear_flags(n: usize) -> (v: Vec<bool>)
    ensures
        v@.len() == n,
        forall|k: int| 0 <= k < n ==> !v@[k],
{
    let mut v: Vec<bool> = Vec::new();
    let mut i: usize = 0;
    while i < n
        invariant
            i <= n,
            v@.len() == i,
            forall|k: int| 0 <= k < i ==> !v@[k],
        decreases n - i,
    {
        v.push(false);
        i += 1;
    }
    v
}

fn no_claims(n: usize) -> (v: Vec<Option<usize>>)
    ensures
        v@.len() == n,
        forall|k: int| 0 <= k < n ==> v@[k] is None,
{
    let mut v: Vec<Option<usize>> = Vec::new();
    let mut i: usize = 0;
    while i < n
        invariant
            i <= n,
            v@.len() == i,
            forall|k: int| 0 <= k < i ==> v@[k] is None,
        decreases n - i,
    {
        v.push(None);
        i += 1;
    }
    v
}

fn clear_rows(rows: usize, n: usize) -> (v: Vec<Vec<bool>>)
    ensures
        v@.len() == rows,
        forall|c: int| 0 <= c < rows ==> (#[trigger] v@[c])@.len() == n,
        forall|c: int, k: int| 0 <= c < rows && 0 <= k < n ==> !#[trigger] v@[c]@[k],
{
    let mut v: Vec<Vec<bool>> = Vec::new();
    let mut c: usize = 0;
    while c < rows
        invariant
            c <= rows,
            v@.len() == c,
            forall|r: int| 0 <= r < c ==> (#[trigger] v@[r])@.len() == n,
            forall|r: int, k: int| 0 <= r < c && 0 <= k < n ==> !#[trigger] v@[r]@[k],
        decreases rows - c,
    {
        v.push(clear_flags(n));
        c += 1;
    }
    v
}

/// The controller.
#[derive(Debug)]
pub struct Plic {
    max_priority: u32,
    priority: Vec<u32>,
    pending: Vec<bool>,
    claimed: Vec<Option<usize>>,
    enabled: Vec<Vec<bool>>,
    threshold: Vec<u32>,
}

impl View for Plic {
    type V = PlicState;

    closed spec fn view(&self) -> PlicState {
        PlicState {
            max_priority: self.max_priority,
            priority: self.priority@,
            pending: self.pending@,
            claimed: self.claimed@,
            enabled: Seq::new(self.enabled@.len(), |c: int| self.enabled@[c]@),
            threshold: self.threshold@,
        }
    }
}

impl Plic {
    /// A controller with priority fields of `priority_bits` bits, `sources`
    /// sources (the reserved source 0 included) and `contexts` contexts:
    /// every priority and threshold is zero, nothing is enabled, pending or
    /// claimed. `None` unless the width is at most 31 and the number of
    /// sources between 1 and 65536.
    pub fn new(priority_bits: usize, sources: usize, contexts: usize) -> (plic: Option<Plic>)
        ensures
            plic is Some <==> priority_bits <= 31 && 1 <= sources <= 0x1_0000,
            plic matches Some(p) ==> {
                &&& p@.wf()
                &&& p@.max_priority == max_level(priority_bits as nat)
                &&& p@.sources() == sources
                &&& p@.contexts() == contexts
                &&& forall|i: int| 0 <= i < sources ==> p@.priority[i] == 0 && !p@.pending[i]
                    && p@.claimed[i] is None
                &&& forall|c: int| 0 <= c < contexts ==> p@.threshold[c] == 0
                &&& forall|c: int, i: int|
                    0 <= c < contexts && 0 <= i < sources ==> !#[trigger] p@.enabled[c][i]
            },
    {
        if priority_bits > 31 || sources < 1 || sources > 0x1_0000 {
            return None;
        }
        let plic = Plic {
            max_priority: highest_level(priority_bits),
            priority: zero_levels(sources),
            pending: clear_flags(sources),
            claimed: no_claims(sources),
            enabled: clear_rows(contexts, sources),
            threshold: zero_levels(contexts),
        };
        proof {
            assert forall|c: int| 0 <= c < contexts implies (#[trigger] plic@.enabled[c]).len()
                == sources by {
                assert(plic@.enabled[c] == plic.enabled@[c]@);
            }
            assert forall|c: int, i: int| 0 <= c < contexts && 0 <= i < sources implies !#[trigger]
            plic@.enabled[c][i] by {
                assert(plic@.enabled[c] == plic.enabled@[c]@);
            }
        }
        Some(plic)
    }

    /// Gives the source `irq` the priority `level`. Priority belongs to the
    /// source and is the same for every context.
    pub fn set_priority(&mut self, irq: u16, level: Priority)
        requires
            old(self)@.wf(),
            0 < irq < old(self)@.sources(),
        ensures
            final(self)@ == old(self)@.after_set_priority(irq as int, level),
            final(self)@.wf(),
    {
        let max = self.max_priority;
        let value = match level {
            Priority::Never => 0,
            Priority::Lowest => if max == 0 {
                0
            } else {
                1
            },
            Priority::Highest => max,
            Priority::Any => 0,
        };
        self.priority[irq as usize] = value;
        assert(self@.enabled =~~= old(self)@.enabled);
    }

    /// Gives `context` the threshold `level`. No other context changes.
    pub fn set_threshold(&mut self, context: usize, level: Priority)
        requires
            old(self)@.wf(),
            context < old(self)@.contexts(),
        ensures
            final(self)@ == old(self)@.after_set_threshold(context as int, level),
            final(self)@.wf(),
    {
        let max = self.max_priority;
        let value = match level {
            Priority::Never => max,
            Priority::Lowest => if max == 0 {
                0
            } else {
                1
            },
            Priority::Highest => max,
            Priority::Any => 0,
        };
        self.threshold[context] = value;
        assert(self@.enabled =~~= old(self)@.enabled);
    }

    fn set_enable(&mut self, context: usize, irq: u16, on: bool)
        requires
            old(self)@.wf(),
            context < old(self)@.contexts(),
            0 < irq < old(self)@.sources(),
        ensures
            final(self)@ == old(self)@.after_enable(context as int, irq as int, on),
            final(self)@.wf(),
    {
        assert(old(self)@.enabled[context as int].len() == old(self)@.sources());
        self.enabled[context][irq as usize] = on;
        assert(self@.enabled =~~= old(self)@.after_enable(context as int, irq as int, on).enabled);
        assert forall|c: int| 0 <= c < self@.contexts() implies (#[trigger] self@.enabled[c]).len()
            == self@.sources() by {
            assert(old(self)@.enabled[c].len() == old(self)@.sources());
        }
    }

    /// Makes the source `irq` visible to `context`. What any other context
    /// sees of the source does not change.
    pub fn enable(&mut self, context: usize, irq: u16)
        requires
            old(self)@.wf(),
            context < old(self)@.contexts(),
            0 < irq < old(self)@.sources(),
        ensures
            final(self)@ == old(self)@.after_enable(context as int, irq as int, true),
            final(self)@.wf(),
    {
        self.set_enable(context, irq, true)
    }

    /// Hides the source `irq` from `context`. What any other context sees of
    /// the source does not change.
    pub fn disable(&mut self, context: usize, irq: u16)
        requires
            old(self)@.wf(),
            context < old(self)@.contexts(),
            0 < irq < old(self)@.sources(),
        ensures
            final(self)@ == old(self)@.after_enable(context as int, irq as int, false),
            final(self)@.wf(),
    {
        self.set_enable(context, irq, false)
    }

    /// Hides the thirty-two sources of enable word `word` from `context`.
    pub fn clear_enable(&mut self, context: usize, word: usize)
        requires
            old(self)@.wf(),
            context < old(self)@.contexts(),
        ensures
            final(self)@ == old(self)@.after_clear_enable(context as int, word as int),
            final(self)@.wf(),
    {
        let sources = self.priority.len();
        assert(self@.enabled[context as int].len() == sources);
        let mut row: Vec<bool> = Vec::new();
        let mut i: usize = 0;
        while i < sources
            invariant
                i <= sources,
                context < self.enabled@.len(),
                self.enabled@[context as int]@.len() == sources,
                row@.len() == i,
                forall|k: int|
                    0 <= k < i ==> row@[k] == (self.enabled@[context as int]@[k] && !(32 * word <= k
                        < 32 * word + 32)),
            decreases sources - i,
        {
            row.push(self.enabled[context][i] && i / 32 != word);
            i += 1;
        }
        self.enabled[context] = row;
        assert(self@.enabled[context as int] =~= old(self)@.after_clear_enable(
            context as int,
            word as int,
        ).enabled[context as int]);
        assert(self@.enabled =~~= old(self)@.after_clear_enable(
            context as int,
            word as int,
        ).enabled);
        assert forall|c: int| 0 <= c < self@.contexts() implies (#[trigger] self@.enabled[c]).len()
            == self@.sources() by {
            assert(old(self)@.enabled[c].len() == old(self)@.sources());
        }
    }

    /// The device behind `irq` asserts its line: a request becomes pending,
    /// unless the source is claimed, in which case nothing changes.
    pub fn raise(&mut self, irq: u16)
        requires
            old(self)@.wf(),
            0 < irq < old(self)@.sources(),
        ensures
            final(self)@ == old(self)@.after_raise(irq as int),
            final(self)@.wf(),
    {
        if self.claimed[irq as usize].is_none() {
            self.pending[irq as usize] = true;
        }
        assert(self@.enabled =~~= old(self)@.enabled);
    }

    /// Hands to `context` the pending source of highest priority that the
    /// context sees and whose priority lies above the context's threshold;
    /// among sources of that priority, the one with the lowest number. The
    /// source is then claimed and its request no longer pending. Where there
    /// is no such source, returns `None` and changes nothing.
    pub fn claim(&mut self, context: usize) -> (r: Option<u16>)
        requires
            old(self)@.wf(),
            context < old(self)@.contexts(),
        ensures
            final(self)@.wf(),
            r is None ==> final(self)@ == old(self)@ && forall|i: int|
                !old(self)@.candidate(context as int, i),
            r matches Some(irq) ==> old(self)@.best(context as int, irq as int) && final(self)@
                == old(self)@.after_claim(context as int, irq as int),
            r is Some ==> count_set(final(self)@.pending) + 1 == count_set(old(self)@.pending),
    {
        let sources = self.priority.len();
        let threshold = self.threshold[context];
        assert(self@.enabled[context as int].len() == sources);
        let mut found: Option<usize> = None;
        let mut i: usize = 1;
        while i < sources
            invariant
                1 <= i <= sources,
                self == old(self),
                self@.wf(),
                sources == self@.sources(),
                context < self@.contexts(),
                threshold == self@.threshold[context as int],
                found is None ==> forall|j: int| 0 <= j < i ==> !self@.candidate(context as int, j),
                found matches Some(b) ==> 0 < b < i && self@.candidate(context as int, b as int)
                    && forall|j: int|
                    0 <= j < i && #[trigger] self@.candidate(context as int, j) ==> self@.priority[j]
                        < self@.priority[b as int] || (self@.priority[j] == self@.priority[b as int]
                        && b <= j),
            decreases sources - i,
        {
            assert(self@.enabled[context as int].len() == sources);
            let is_candidate = self.pending[i] && self.enabled[context][i] && self.priority[i]
                > threshold;
            assert(is_candidate == self@.candidate(context as int, i as int));
            if is_candidate {
                match found {
                    None => {
                        found = Some(i);
                    },
                    Some(b) => {
                        if self.priority[i] > self.priority[b] {
                            found = Some(i);
                        }
                    },
                }
            }
            i += 1;
        }
        match found {
            None => {
                None
            },
            Some(b) => {
                proof {
                    lemma_count_clear(self.pending@, b as int);
                }
                self.pending[b] = false;
                self.claimed[b] = Some(context);
                assert(self@.enabled =~~= old(self)@.enabled);
                assert(self@ =~= old(self)@.after_claim(context as int, b as int));
                Some(b as u16)
            },
        }
    }

    /// Releases the claim of `context` on `irq`, which re-arms the source.
    /// The context must hold the claim.
    pub fn complete(&mut self, context: usize, irq: u16)
        requires
            old(self)@.wf(),
            context < old(self)@.contexts(),
            0 < irq < old(self)@.sources(),
            old(self)@.claimed[irq as int] == Some(context),
        ensures
            final(self)@ == old(self)@.after_complete(irq as int),
            final(self)@.wf(),
    {
        self.claimed[irq as usize] = None;
        assert(self@.enabled =~~= old(self)@.enabled);
    }

    /// Carries out `op`.
    pub fn apply(&mut self, op: PlicOp)
        requires
            old(self)@.wf(),
            old(self)@.accepts(op),
        ensures
            final(self)@ == old(self)@.after(op),
            final(self)@.wf(),
    {
        match op {
            PlicOp::SetPriority { irq, priority } => self.set_priority(irq, priority),
            PlicOp::SetThreshold { context, threshold } => self.set_threshold(context, threshold),
            PlicOp::Enable { context, irq } => self.enable(context, irq),
            PlicOp::Disable { context, irq } => self.disable(context, irq),
            PlicOp::ClearEnable { context, word } => self.clear_enable(context, word),
            PlicOp::Complete { context, irq } => self.complete(context, irq),
        }
    }

    /// Carries out the operations `ops` one after the other.
    pub fn apply_all(&mut self, ops: &Vec<PlicOp>)
        requires
            old(self)@.wf(),
            old(self)@.accepts_all(ops@),
        ensures
            final(self)@ == old(self)@.after_all(ops@),
            final(self)@.wf(),
    {
        let mut i: usize = 0;
        assert(ops@.subrange(0, ops@.len() as int) =~= ops@);
        while i < ops.len()
            invariant
                i <= ops@.len(),
                self@.wf(),
                self@.accepts_all(ops@.subrange(i as int, ops@.len() as int)),
                self@.after_all(ops@.subrange(i as int, ops@.len() as int)) == old(self)@.after_all(
                    ops@,
                ),
            decreases ops@.len() - i,
        {
            let ghost rest = ops@.subrange(i as int, ops@.len() as int);
            assert(rest[0] == ops@[i as int]);
            assert(rest.drop_first() =~= ops@.subrange(i + 1, ops@.len() as int));
            self.apply(ops[i]);
            i += 1;
        }
    }

    /// Whether the source `irq` is claimed by `context`.
    pub fn is_claimed_by(&self, context: usize, irq: u16) -> (b: bool)
        requires
            self@.wf(),
            irq < self@.sources(),
        ensures
            b == (self@.claimed[irq as int] == Some(context)),
    {
        match self.claimed[irq as usize] {
            Some(c) => c == context,
            None => false,
        }
    }

    /// Number of sources, the reserved source 0 included.
    pub fn sources(&self) -> (n: usize)
        ensures
            n == self@.sources(),
    {
        self.priority.len()
    }

    /// Number of contexts.
    pub fn contexts(&self) -> (n: usize)
        ensures
            n == self@.contexts(),
    {
        self.threshold.len()
    }
}

} // verus!
