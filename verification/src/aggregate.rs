//! Multi-waiter aggregation: folding any number of waitables into a single
//! blocking step.
//!
//! The protocol a caller blocking on more than one waitable must follow:
//! poll every waitable and skip blocking when one is already ready (the fast
//! path); otherwise bind every waitable against one shared sleeper and poll
//! again, to catch a trigger that raced ahead of binding; only then block,
//! exactly once.  After the wake, poll each waitable once more and run the
//! completion hook of every one that fired.
//!
//! Blocking itself parks a physical execution context and belongs to the
//! sleeper collaborator: [`prepare_wait`] therefore returns a decision — the
//! embedder blocks only on [`WaitOutcome::MustBlock`], and in every case
//! finishes the cycle with [`complete_wait`] afterwards.

use vstd::prelude::*;

use crate::event::PrimitiveWaiter;
use crate::event::SleeperRef;
use crate::event::Source;
use crate::util::vec_index_mut;

verus! {

/// Decision of the pre-block phases of a wait cycle.
#[derive(Clone, Copy, Debug, PartialEq, Eq, Structural)]
pub enum WaitOutcome {
    /// Some waitable is already ready: skip blocking entirely.
    Ready,
    /// Nothing is ready and every waitable is bound to the sleeper: block
    /// once, then complete.
    MustBlock,
}

/// Whether some waiter of the set reports ready against this wait set.
pub open spec fn any_ready<W: PrimitiveWaiter>(waiters: Seq<W>, sources: Seq<Source>) -> bool {
    exists|i: int| 0 <= i < waiters.len() && (#[trigger] waiters[i]).is_ready(sources)
}

/// Whether every waiter of the set may be used against this wait set.
pub open spec fn all_wf<W: PrimitiveWaiter>(waiters: Seq<W>, sources: Seq<Source>) -> bool {
    forall|i: int| 0 <= i < waiters.len() ==> (#[trigger] waiters[i]).wf(sources)
}

/// Whether every waiter's target slot holds this sleeper's handle.
pub open spec fn all_bound<W: PrimitiveWaiter>(
    waiters: Seq<W>,
    sources: Seq<Source>,
    sleeper: SleeperRef,
) -> bool {
    forall|i: int|
        0 <= i < waiters.len() ==> (match (#[trigger] waiters[i]).target() {
            Some(t) => sources[t].attached() == Some(sleeper),
            None => true,
        })
}

/// Pre-block phases of the aggregation protocol: poll all, else bind all
/// against `sleeper` and poll again, and say whether blocking is still
/// needed.
///
/// The decision is exact: `Ready` comes back if and only if some waiter was
/// ready, and on that fast path the wait set is left entirely untouched — no
/// sleeper is ever involved.  On `MustBlock`, every waiter's source holds the
/// sleeper's handle, so any later trigger of one of them offers that handle
/// for signalling; no trigger flag is changed either way.
pub fn prepare_wait<W: PrimitiveWaiter>(
    sources: &mut Vec<Source>,
    waiters: &mut Vec<W>,
    sleeper: SleeperRef,
) -> (outcome: WaitOutcome)
    requires
        all_wf(old(waiters)@, old(sources)@),
        forall|i: int|
            0 <= i < old(waiters)@.len() ==> (#[trigger] old(waiters)@[i]).accepts_bind(),
    ensures
        final(waiters)@ == old(waiters)@,
        final(sources)@.len() == old(sources)@.len(),
        all_wf(old(waiters)@, final(sources)@),
        forall|j: int|
            0 <= j < old(sources)@.len()
                ==> (#[trigger] final(sources)@[j]).flag_set() == old(sources)@[j].flag_set(),
        outcome == WaitOutcome::Ready <==> any_ready(old(waiters)@, old(sources)@),
        any_ready(old(waiters)@, old(sources)@) ==> final(sources)@ == old(sources)@,
        outcome == WaitOutcome::MustBlock ==> all_bound(old(waiters)@, final(sources)@, sleeper),
{
    let ghost sources0 = sources@;
    let n = waiters.len();

    // Fast path: poll every waitable; if any is ready, skip blocking with no
    // sleeper involvement at all.
    let mut ready = false;
    let mut i: usize = 0;
    while i < n
        invariant
            n == waiters@.len(),
            all_wf(waiters@, sources@),
            i <= n,
            ready == exists|k: int| 0 <= k < i && (#[trigger] waiters@[k]).is_ready(sources@),
        decreases n - i,
    {
        if waiters[i].poll(sources) {
            ready = true;
        }
        i += 1;
    }
    if ready {
        return WaitOutcome::Ready;
    }

    // Register interest: bind every waitable against the one shared sleeper.
    i = 0;
    while i < n
        invariant
            n == waiters@.len(),
            waiters@ == old(waiters)@,
            sources@.len() == sources0.len(),
            all_wf(waiters@, sources@),
            forall|k: int| 0 <= k < n ==> (#[trigger] waiters@[k]).accepts_bind(),
            i <= n,
            forall|j: int|
                0 <= j < sources0.len()
                    ==> (#[trigger] sources@[j]).flag_set() == sources0[j].flag_set(),
            forall|w: W| #[trigger] w.wf(sources@) == w.wf(sources0),
            forall|w: W| w.wf(sources0) ==> #[trigger] w.is_ready(sources@) == w.is_ready(sources0),
            forall|k: int|
                0 <= k < i ==> (match (#[trigger] waiters@[k]).target() {
                    Some(t) => sources@[t].attached() == Some(sleeper),
                    None => true,
                }),
        decreases n - i,
    {
        let ghost pre = sources@;
        let w = vec_index_mut(waiters, i);
        let bound = w.bind_signal(sources, sleeper);
        proof {
            assert(waiters@ =~= old(waiters)@);
            assert(old(waiters)@[i as int].accepts_bind());
            assert(bound);
            assert forall|w2: W| w2.wf(sources0) implies #[trigger] w2.is_ready(sources@)
                == w2.is_ready(sources0) by {
                assert(w2.wf(pre) == w2.wf(sources0));
                assert(w2.is_ready(sources@) == w2.is_ready(pre));
                assert(w2.is_ready(pre) == w2.is_ready(sources0));
            }
            assert forall|k: int|
                0 <= k < i + 1 implies (match (#[trigger] waiters@[k]).target() {
                Some(t) => sources@[t].attached() == Some(sleeper),
                None => true,
            }) by {
                waiters@[k].target_in_range(pre);
                if k < i {
                    match waiters@[k].target() {
                        Some(t) => {
                            if waiters@[i as int].target() != Some(t) {
                                assert(sources@[t] == pre[t]);
                            }
                        },
                        None => {},
                    }
                }
            }
        }
        i += 1;
    }

    // Close the bind/trigger race: poll once more before deciding to block.
    ready = false;
    i = 0;
    while i < n
        invariant
            n == waiters@.len(),
            waiters@ == old(waiters)@,
            all_wf(waiters@, sources@),
            i <= n,
            ready == exists|k: int| 0 <= k < i && (#[trigger] waiters@[k]).is_ready(sources@),
        decreases n - i,
    {
        if waiters[i].poll(sources) {
            ready = true;
        }
        i += 1;
    }
    if ready {
        WaitOutcome::Ready
    } else {
        WaitOutcome::MustBlock
    }
}

/// Post-wake phase of the aggregation protocol: poll each waitable once
/// more, run the completion hook of exactly those that are now ready —
/// several may have fired before the context resumed — and hand back which
/// fired.
pub fn complete_wait<W: PrimitiveWaiter>(sources: &Vec<Source>, waiters: &mut Vec<W>) -> (fired:
    Vec<bool>)
    requires
        all_wf(old(waiters)@, sources@),
    ensures
        fired@.len() == old(waiters)@.len(),
        forall|i: int|
            0 <= i < old(waiters)@.len() ==> fired@[i] == (#[trigger] old(waiters)@[i]).is_ready(
                sources@,
            ),
        final(waiters)@.len() == old(waiters)@.len(),
        forall|i: int|
            0 <= i < old(waiters)@.len() && fired@[i] ==> (#[trigger] final(waiters)@[i]) == old(
                waiters,
            )@[i].completion_result(),
        forall|i: int|
            0 <= i < old(waiters)@.len() && !fired@[i] ==> (#[trigger] final(waiters)@[i]) == old(
                waiters,
            )@[i],
        forall|i: int|
            0 <= i < old(waiters)@.len() ==> (#[trigger] final(waiters)@[i]).target() == old(
                waiters,
            )@[i].target(),
        all_wf(final(waiters)@, sources@),
{
    let n = waiters.len();
    let mut fired: Vec<bool> = Vec::new();
    let mut i: usize = 0;
    while i < n
        invariant
            n == waiters@.len(),
            n == old(waiters)@.len(),
            all_wf(waiters@, sources@),
            i <= n,
            fired@.len() == i,
            forall|k: int| i <= k < n ==> waiters@[k] == old(waiters)@[k],
            forall|k: int|
                0 <= k < i ==> fired@[k] == (#[trigger] old(waiters)@[k]).is_ready(sources@),
            forall|k: int|
                0 <= k < i && fired@[k] ==> (#[trigger] waiters@[k]) == old(
                    waiters,
                )@[k].completion_result(),
            forall|k: int| 0 <= k < i && !fired@[k] ==> (#[trigger] waiters@[k]) == old(waiters)@[k],
            forall|k: int|
                0 <= k < n ==> (#[trigger] waiters@[k]).target() == old(waiters)@[k].target(),
        decreases n - i,
    {
        let is_ready = waiters[i].poll(sources);
        if is_ready {
            let w = vec_index_mut(waiters, i);
            w.run_completion();
        }
        fired.push(is_ready);
        i += 1;
    }
    fired
}

} // verus!
