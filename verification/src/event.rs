//! One-shot, one-waiter event latch.
//!
//! A [`Source`] is the owning side of the latch: a sticky trigger flag plus a
//! slot that holds at most one weak reference to a sleeper.  A [`Waiter`] is a
//! transient handle over one source (or over no source at all, in which case
//! it is always ready).  The [`PrimitiveWaiter`] trait is the uniform wait
//! capability contract — poll / bind / finish — that every waitable kind must
//! satisfy.
//!
//! Waiters name their source by its slot in a wait set (a vector of sources),
//! and a source names its sleeper by a weak identifier: neither reference
//! keeps its target alive, and signalling a sleeper is a lookup the caller of
//! [`Source::trigger`] performs with the returned handle.

use vstd::prelude::*;

use crate::util::vec_index_mut;

verus! {

/// A weak, copyable, signal-capable handle onto a sleeper.
///
/// Holding one never keeps the sleeper alive; delivering `signal` through it
/// is the embedder's lookup, and must be a harmless no-op once the sleeper is
/// gone.
#[derive(Clone, Copy, Debug, PartialEq, Eq, Structural)]
pub struct SleeperRef {
    pub id: u64,
}

/// A general-purpose wait event: when the flag is set, the attached waiter
/// (if any) is informed.
///
/// Only a single waiter can be attached to a source at one time; attaching a
/// second overwrites the first.  The flag is a sticky latch: no operation of
/// this primitive ever clears it.
pub struct Source {
    flag: bool,
    waiter: Option<SleeperRef>,
}

/// Event waiter: a transient handle over at most one [`Source`], named by its
/// slot in the wait set the caller holds.  A waiter with no source is always
/// immediately ready.
#[derive(Clone, Copy, Debug, PartialEq, Eq, Structural)]
pub struct Waiter {
    /// Slot of the event source in the caller's wait set, or `None` for the
    /// permanently-ready placeholder waiter.
    pub source: Option<usize>,
}

/// One operation of a producer or a consumer on a source: raising the event,
/// or binding a sleeper into the waiter slot.
#[derive(PartialEq, Eq, Structural)]
pub enum SourceOp {
    Trigger,
    Bind(SleeperRef),
}

impl Source {
    /// Whether the trigger flag is set.
    pub closed spec fn flag_set(self) -> bool {
        self.flag
    }

    /// The sleeper reference currently attached, if any.
    pub closed spec fn attached(self) -> Option<SleeperRef> {
        self.waiter
    }

    /// A source as `new` returns it: flag clear, no attached sleeper.
    pub open spec fn is_fresh(self) -> bool {
        !self.flag_set() && self.attached() is None
    }

    /// Create a new event source.
    pub fn new() -> (s: Source)
        ensures
            s.is_fresh(),
    {
        Source { flag: false, waiter: None }
    }

    /// Return a wait handle for this event source.
    ///
    /// The waiter reaches the source again through the wait set of whoever
    /// drives the wait cycle, so the caller names the slot this source
    /// occupies there.
    pub fn wait(&self, slot: usize) -> (w: Waiter)
        ensures
            w.source == Some(slot),
    {
        Waiter { source: Some(slot) }
    }

    /// Raise the event.
    ///
    /// Sets the sticky flag and hands back the attached sleeper reference, if
    /// any, for the caller to signal; with no waiter attached the event is
    /// merely latched for the next poller.  Triggering is safe at any time,
    /// before any waiter exists or after the attached one was consumed.
    pub fn trigger(&mut self) -> (signal: Option<SleeperRef>)
        ensures
            *final(self) == apply_op(*old(self), SourceOp::Trigger),
            final(self).flag_set(),
            final(self).attached() == old(self).attached(),
            signal == old(self).attached(),
    {
        self.flag = true;
        self.waiter
    }

    /// Attach a sleeper reference to the single waiter slot, replacing
    /// whatever was attached before (last writer wins).  The flag is not
    /// touched.
    pub fn attach(&mut self, sleeper: SleeperRef)
        ensures
            *final(self) == apply_op(*old(self), SourceOp::Bind(sleeper)),
            final(self).attached() == Some(sleeper),
            final(self).flag_set() == old(self).flag_set(),
    {
        self.waiter = Some(sleeper);
    }

    /// Executable read of the trigger flag.
    pub fn flag_set_exec(&self) -> (r: bool)
        ensures
            r == self.flag_set(),
    {
        self.flag
    }
}

/// The source state after one operation: `Trigger` sets the sticky flag and
/// leaves the slot alone; `Bind` replaces the slot and leaves the flag alone.
pub closed spec fn apply_op(s: Source, op: SourceOp) -> Source {
    match op {
        SourceOp::Trigger => Source { flag: true, ..s },
        SourceOp::Bind(r) => Source { waiter: Some(r), ..s },
    }
}

/// The source state after a whole history of operations, first to last.
pub open spec fn apply_ops(s: Source, ops: Seq<SourceOp>) -> Source
    decreases ops.len(),
{
    if ops.len() == 0 {
        s
    } else {
        apply_ops(apply_op(s, ops[0]), ops.drop_first())
    }
}

/// How one operation reads back through the observers of a source.
pub proof fn lemma_apply_op_effect(s: Source, op: SourceOp)
    ensures
        apply_op(s, op).flag_set() == (s.flag_set() || op == SourceOp::Trigger),
        apply_op(s, op).attached() == (match op {
            SourceOp::Trigger => s.attached(),
            SourceOp::Bind(r) => Some(r),
        }),
{
}

/// The trigger flag is sticky: no operation of the primitive clears it.
pub proof fn lemma_flag_sticky(s: Source, ops: Seq<SourceOp>)
    requires
        s.flag_set(),
    ensures
        apply_ops(s, ops).flag_set(),
    decreases ops.len(),
{
    if ops.len() > 0 {
        lemma_flag_sticky(apply_op(s, ops[0]), ops.drop_first());
    }
}

/// No missed wakeup: however `trigger` and `bind` calls interleave on a
/// source, once `trigger` has run at any point in the history, the flag reads
/// set from then on — so a poll made after binding reports ready.
pub proof fn lemma_no_missed_wakeup(s: Source, ops: Seq<SourceOp>)
    requires
        ops.contains(SourceOp::Trigger),
    ensures
        apply_ops(s, ops).flag_set(),
    decreases ops.len(),
{
    if ops[0] == SourceOp::Trigger {
        lemma_flag_sticky(apply_op(s, ops[0]), ops.drop_first());
    } else {
        assert(ops.drop_first().contains(SourceOp::Trigger)) by {
            let i = choose|i: int| 0 <= i < ops.len() && ops[i] == SourceOp::Trigger;
            assert(ops.drop_first()[i - 1] == SourceOp::Trigger);
        }
        lemma_no_missed_wakeup(apply_op(s, ops[0]), ops.drop_first());
    }
}

/// One shot per attach: binding a second waiter while one is attached
/// replaces the first outright, and leaves the source-wide flag alone — a
/// waiter polled through the replaced binding still reflects the flag state.
pub proof fn lemma_rebind_replaces(s: Source, first: SleeperRef, second: SleeperRef)
    ensures
        apply_op(apply_op(s, SourceOp::Bind(first)), SourceOp::Bind(second)) == apply_op(
            s,
            SourceOp::Bind(second),
        ),
        apply_op(apply_op(s, SourceOp::Bind(first)), SourceOp::Bind(second)).flag_set()
            == s.flag_set(),
{
}

/// Readiness is source-wide, not waiter-local: two waiters over the same slot
/// always poll alike.
pub proof fn lemma_poll_is_source_wide(w1: Waiter, w2: Waiter, sources: Seq<Source>)
    requires
        w1.source == w2.source,
    ensures
        w1.is_ready(sources) == w2.is_ready(sources),
{
}

/// Idempotent trigger: triggering twice in a row leaves the same source state
/// as triggering once, and offers the same sleeper reference to signal both
/// times — so with an idempotent `signal`, the sleeper is woken at most
/// meaningfully once per attach.
pub proof fn lemma_trigger_idempotent(s: Source)
    ensures
        apply_op(apply_op(s, SourceOp::Trigger), SourceOp::Trigger) == apply_op(
            s,
            SourceOp::Trigger,
        ),
        apply_op(s, SourceOp::Trigger).attached() == s.attached(),
{
}

/// Source isolation: an operation applied to one slot of a wait set leaves
/// every other slot untouched — distinct sources share no mutable state, so a
/// fault in the context that owns one source cannot corrupt another.
pub proof fn lemma_source_isolation(sources: Seq<Source>, i: int, op: SourceOp, j: int)
    requires
        0 <= i < sources.len(),
        0 <= j < sources.len(),
        i != j,
    ensures
        sources.update(i, apply_op(sources[i], op))[j] == sources[j],
{
}

/// A waiter with no source is always immediately ready, whatever the wait set
/// holds.
pub proof fn lemma_no_source_waiter_ready(sources: Seq<Source>)
    ensures
        (Waiter { source: None }).is_ready(sources),
{
}

/// The uniform wait capability contract: non-blocking readiness (`poll`),
/// interest registration before blocking (`bind_signal`), and a post-wake
/// completion hook (`run_completion`).
///
/// Every waitable kind layered on the wait core satisfies these three
/// operations; the aggregation protocol in [`crate::aggregate`] is written
/// against this contract alone.
pub trait PrimitiveWaiter: Sized {
    /// The wait-set slot this waiter is bound to, if any.
    spec fn target(&self) -> Option<int>;

    /// Whether the waiter may be used against this wait set (its slot, if it
    /// has one, names a source).
    spec fn wf(&self, sources: Seq<Source>) -> bool;

    /// Whether the waiter reports ready against this wait set.
    spec fn is_ready(&self, sources: Seq<Source>) -> bool;

    /// Whether this waiter accepts a binding at all.  The wait-event
    /// primitive always does; a one-shot kind that was already consumed may
    /// refuse.
    spec fn accepts_bind(&self) -> bool;

    /// The waiter as `run_completion` leaves it.  For the wait-event
    /// primitive that is the waiter unchanged; a kind that consumes a value
    /// on completion says so here.
    spec fn completion_result(&self) -> Self;

    /// A well-formed waiter's target, if it has one, names a source of the
    /// wait set.
    proof fn target_in_range(&self, sources: Seq<Source>)
        requires
            self.wf(sources),
        ensures
            match self.target() {
                Some(t) => 0 <= t < sources.len(),
                None => true,
            },
    ;

    /// Non-blocking readiness check: safe to call repeatedly, reflects a
    /// trigger with no binding required.
    fn poll(&self, sources: &Vec<Source>) -> (r: bool)
        requires
            self.wf(sources@),
        ensures
            r == self.is_ready(sources@),
    ;

    /// Register interest: attach the sleeper's weak handle to the waiter's
    /// source, last writer wins.  Must be called before blocking; a `true`
    /// return says the binding took.  Binding never changes any source's
    /// flag, never touches a slot other than its own target, and never
    /// changes what this waiter is waiting for.
    fn bind_signal(&mut self, sources: &mut Vec<Source>, sleeper: SleeperRef) -> (r: bool)
        requires
            old(self).wf(old(sources)@),
        ensures
            r == old(self).accepts_bind(),
            *final(self) == *old(self),
            final(sources)@.len() == old(sources)@.len(),
            forall|j: int|
                0 <= j < old(sources)@.len()
                    ==> (#[trigger] final(sources)@[j]).flag_set() == old(sources)@[j].flag_set(),
            forall|j: int|
                0 <= j < old(sources)@.len() && old(self).target() != Some(j)
                    ==> #[trigger] final(sources)@[j] == old(sources)@[j],
            r ==> (match old(self).target() {
                Some(i) => final(sources)@[i].attached() == Some(sleeper),
                None => true,
            }),
            forall|other: Self| #[trigger]
                other.wf(final(sources)@) == other.wf(old(sources)@),
            forall|other: Self|
                other.wf(old(sources)@) ==> #[trigger] other.is_ready(final(sources)@)
                    == other.is_ready(old(sources)@),
    ;

    /// Post-wake completion hook: leaves the waiter exactly as
    /// `completion_result` says.  What it consumes is the waitable kind's
    /// business, but it never retargets the waiter and never changes which
    /// wait sets the waiter is well-formed against.
    fn run_completion(&mut self)
        ensures
            *final(self) == old(self).completion_result(),
            final(self).target() == old(self).target(),
            forall|sources: Seq<Source>| #[trigger]
                final(self).wf(sources) == old(self).wf(sources),
    ;
}

impl PrimitiveWaiter for Waiter {
    open spec fn target(&self) -> Option<int> {
        match self.source {
            Some(i) => Some(i as int),
            None => None,
        }
    }

    open spec fn wf(&self, sources: Seq<Source>) -> bool {
        match self.source {
            Some(i) => i < sources.len(),
            None => true,
        }
    }

    open spec fn is_ready(&self, sources: Seq<Source>) -> bool {
        match self.source {
            Some(i) => sources[i as int].flag_set(),
            None => true,
        }
    }

    open spec fn accepts_bind(&self) -> bool {
        true
    }

    open spec fn completion_result(&self) -> Waiter {
        *self
    }

    proof fn target_in_range(&self, sources: Seq<Source>) {
    }

    fn poll(&self, sources: &Vec<Source>) -> (r: bool) {
        match self.source {
            Some(i) => sources[i].flag_set_exec(),
            None => true,
        }
    }

    fn bind_signal(&mut self, sources: &mut Vec<Source>, sleeper: SleeperRef) -> (r: bool) {
        match self.source {
            Some(i) => {
                let src = vec_index_mut(sources, i);
                src.attach(sleeper);
            },
            None => {},
        }
        true
    }

    fn run_completion(&mut self) {
        // The readiness signal is the whole result for this primitive.
    }
}

} // verus!
