//! User-space reactor: the aggregation protocol applied across a syscall
//! boundary.
//!
//! Each pass of the reactor collects wait items from a set of controllers
//! into one shared buffer, hands the whole buffer to the blocking wait
//! syscall, and then hands every controller back exactly the contiguous
//! region it populated — in controller order, with offsets taken from a
//! running sum of the counts recorded while populating.  The buffer is
//! rebuilt from scratch every pass; controllers own any persistent
//! subscription state themselves.
//!
//! The blocking syscall belongs to the kernel: the embedder runs the loop by
//! calling [`gather`], performing one wait over the buffer with an unbounded
//! timeout, and finishing the pass with [`dispatch`].

use vstd::prelude::*;

use crate::util::vec_index_mut;

verus! {

/// A syscall-level wait descriptor: an object handle plus the interest (and,
/// after the wait, result) flags the kernel reads and writes in place.
#[derive(Clone, Copy, Debug, PartialEq, Eq, Structural)]
pub struct WaitItem {
    pub object: u32,
    pub flags: u32,
}

/// A supplier and consumer of wait items, one of any number of heterogeneous
/// implementers driven by one reactor.
///
/// A controller must be able to recompute its own outcomes purely from the
/// items it supplied, in order: the reactor guarantees that the slice handed
/// to `handle` sits exactly where `populate` wrote.
pub trait WaitController: Sized {
    /// The wait items this controller currently stands to supply.
    spec fn wait_items(&self) -> Seq<WaitItem>;

    /// The events the latest `handle` call received, or `None` before the
    /// first.  This is what lets the reactor's contract say which slice each
    /// controller was handed.
    spec fn last_handled(&self) -> Option<Seq<WaitItem>>;

    /// How many wait item slots this controller needs this pass.
    fn get_count(&self) -> (n: usize)
        ensures
            n == self.wait_items().len(),
    ;

    /// Append exactly `get_count()` wait items to the shared buffer.
    fn populate(&self, dest: &mut Vec<WaitItem>)
        ensures
            final(dest)@ == old(dest)@ + self.wait_items(),
    ;

    /// Consume the outcome: exactly the region this controller populated, as
    /// the wait syscall left it.
    fn handle(&mut self, events: &[WaitItem])
        requires
            events@.len() == old(self).wait_items().len(),
        ensures
            final(self).last_handled() == Some(events@),
    ;
}

/// The wait items of a whole controller set, in controller order.
pub open spec fn items_concat<C: WaitController>(cs: Seq<C>) -> Seq<WaitItem>
    decreases cs.len(),
{
    if cs.len() == 0 {
        Seq::empty()
    } else {
        items_concat(cs.drop_last()) + cs.last().wait_items()
    }
}

/// Sum of the first `i` counts: the buffer offset of region `i`.
pub open spec fn counts_prefix(counts: Seq<usize>, i: int) -> int
    decreases i,
{
    if i <= 0 {
        0
    } else {
        counts_prefix(counts, i - 1) + counts[i - 1]
    }
}

/// A prefix sum of counts is never negative.
pub proof fn lemma_counts_prefix_nonneg(counts: Seq<usize>, i: int)
    requires
        i <= counts.len(),
    ensures
        0 <= counts_prefix(counts, i),
    decreases i,
{
    if i > 0 {
        lemma_counts_prefix_nonneg(counts, i - 1);
    }
}

/// Region offsets grow with the region index.
pub proof fn lemma_counts_prefix_monotone(counts: Seq<usize>, i: int, j: int)
    requires
        0 <= i <= j <= counts.len(),
    ensures
        0 <= counts_prefix(counts, i) <= counts_prefix(counts, j),
    decreases j - i,
{
    lemma_counts_prefix_nonneg(counts, i);
    if i < j {
        lemma_counts_prefix_monotone(counts, i, j - 1);
    }
}

/// Growing the controller set by one appends its items to the concatenation.
proof fn lemma_items_concat_step<C: WaitController>(cs: Seq<C>, i: int)
    requires
        0 <= i < cs.len(),
    ensures
        items_concat(cs.take(i + 1)) == items_concat(cs.take(i)) + cs[i].wait_items(),
{
    assert(cs.take(i + 1).drop_last() =~= cs.take(i));
    assert(cs.take(i + 1).last() == cs[i]);
}

/// Collect one pass's wait items: clear the shared buffer, let every
/// controller append its items in controller order, and record each
/// controller's count for the dispatch offsets.
pub fn gather<C: WaitController>(
    controllers: &Vec<C>,
    items: &mut Vec<WaitItem>,
    counts: &mut Vec<usize>,
)
    ensures
        final(items)@ == items_concat(controllers@),
        final(counts)@.len() == controllers@.len(),
        forall|i: int|
            0 <= i < controllers@.len() ==> final(counts)@[i] == (#[trigger] controllers@[i]).wait_items().len(),
        final(items)@.len() == counts_prefix(final(counts)@, controllers@.len() as int),
{
    items.clear();
    counts.clear();
    let n = controllers.len();
    let mut i: usize = 0;
    while i < n
        invariant
            n == controllers@.len(),
            i <= n,
            items@ == items_concat(controllers@.take(i as int)),
            counts@.len() == i,
            forall|k: int|
                0 <= k < i ==> counts@[k] == (#[trigger] controllers@[k]).wait_items().len(),
            items@.len() == counts_prefix(counts@, i as int),
        decreases n - i,
    {
        let ghost counts_pre = counts@;
        counts.push(controllers[i].get_count());
        controllers[i].populate(items);
        proof {
            lemma_items_concat_step(controllers@, i as int);
            assert(counts@.take(i as int) =~= counts_pre);
            lemma_counts_prefix_push(counts_pre, counts@[i as int], i as int);
        }
        i += 1;
    }
    proof {
        assert(controllers@.take(n as int) =~= controllers@);
    }
}

/// A prefix sum is unmoved by entries appended behind it.
proof fn lemma_counts_prefix_push(counts: Seq<usize>, c: usize, i: int)
    requires
        0 <= i == counts.len(),
    ensures
        counts_prefix(counts.push(c), i + 1) == counts_prefix(counts, i) + c,
        forall|j: int| 0 <= j <= i ==> counts_prefix(counts.push(c), j) == counts_prefix(counts, j),
    decreases i,
{
    lemma_counts_prefix_stable(counts.push(c), counts, i);
    assert(counts.push(c)[i] == c);
}

/// Prefix sums agree on any shared prefix.
proof fn lemma_counts_prefix_stable(a: Seq<usize>, b: Seq<usize>, i: int)
    requires
        i <= a.len(),
        i <= b.len(),
        forall|j: int| 0 <= j < i ==> a[j] == b[j],
    ensures
        forall|j: int| 0 <= j <= i ==> counts_prefix(a, j) == counts_prefix(b, j),
    decreases i,
{
    if i > 0 {
        lemma_counts_prefix_stable(a, b, i - 1);
        assert forall|j: int| 0 <= j <= i implies counts_prefix(a, j) == counts_prefix(b, j) by {
            if j == i {
                assert(counts_prefix(a, j - 1) == counts_prefix(b, j - 1));
            }
        }
    }
}

/// Cut the shared buffer into per-controller regions: region `i` is the
/// `counts[i]` items starting at the sum of the counts before it, exactly
/// the slots controller `i` populated.
pub fn split_regions(items: &Vec<WaitItem>, counts: &Vec<usize>) -> (regions: Vec<Vec<WaitItem>>)
    requires
        counts_prefix(counts@, counts@.len() as int) == items@.len(),
    ensures
        regions@.len() == counts@.len(),
        forall|i: int|
            0 <= i < counts@.len() ==> (#[trigger] regions@[i])@ == items@.subrange(
                counts_prefix(counts@, i),
                counts_prefix(counts@, i) + counts@[i],
            ),
{
    let n = counts.len();
    let total = items.len();
    let mut regions: Vec<Vec<WaitItem>> = Vec::new();
    let mut ofs: usize = 0;
    let mut i: usize = 0;
    while i < n
        invariant
            n == counts@.len(),
            total == items@.len(),
            counts_prefix(counts@, n as int) == items@.len(),
            i <= n,
            ofs == counts_prefix(counts@, i as int),
            regions@.len() == i,
            forall|k: int|
                0 <= k < i ==> (#[trigger] regions@[k])@ == items@.subrange(
                    counts_prefix(counts@, k),
                    counts_prefix(counts@, k) + counts@[k],
                ),
        decreases n - i,
    {
        let num = counts[i];
        proof {
            lemma_counts_prefix_monotone(counts@, i as int + 1, n as int);
            lemma_counts_prefix_monotone(counts@, 0, i as int);
            assert(counts_prefix(counts@, i as int + 1) == ofs + num);
            assert(ofs + num <= total);
        }
        let mut region: Vec<WaitItem> = Vec::new();
        let mut k: usize = 0;
        while k < num
            invariant
                k <= num,
                total == items@.len(),
                ofs + num <= total,
                region@ == items@.subrange(ofs as int, ofs as int + k as int),
            decreases num - k,
        {
            region.push(items[ofs + k]);
            proof {
                assert(region@ =~= items@.subrange(ofs as int, ofs as int + k as int + 1));
            }
            k += 1;
        }
        regions.push(region);
        ofs += num;
        i += 1;
    }
    regions
}

/// Dispatch one pass's outcome: hand every controller exactly the contiguous
/// region it populated, in the same order as population, whatever the wait
/// left in the items — controller `i` handles precisely the `counts[i]`
/// items starting at the sum of the counts before it.
///
/// The offsets come from the counts recorded at gather time, so a controller
/// whose `handle` changes its own future count cannot skew the regions of
/// the controllers after it.
pub fn dispatch<C: WaitController>(
    controllers: &mut Vec<C>,
    items: &Vec<WaitItem>,
    counts: &Vec<usize>,
)
    requires
        counts@.len() == old(controllers)@.len(),
        forall|i: int|
            0 <= i < counts@.len() ==> counts@[i] == (#[trigger] old(controllers)@[i]).wait_items().len(),
        counts_prefix(counts@, counts@.len() as int) == items@.len(),
    ensures
        final(controllers)@.len() == old(controllers)@.len(),
        forall|i: int|
            0 <= i < old(controllers)@.len()
                ==> (#[trigger] final(controllers)@[i]).last_handled() == Some(
                items@.subrange(
                    counts_prefix(counts@, i),
                    counts_prefix(counts@, i) + counts@[i],
                ),
            ),
{
    let regions = split_regions(items, counts);
    let n = controllers.len();
    let mut i: usize = 0;
    while i < n
        invariant
            n == controllers@.len(),
            n == old(controllers)@.len(),
            n == counts@.len(),
            regions@.len() == n,
            counts_prefix(counts@, n as int) == items@.len(),
            forall|k: int|
                0 <= k < n ==> counts@[k] == (#[trigger] old(controllers)@[k]).wait_items().len(),
            forall|k: int|
                0 <= k < n ==> (#[trigger] regions@[k])@ == items@.subrange(
                    counts_prefix(counts@, k),
                    counts_prefix(counts@, k) + counts@[k],
                ),
            i <= n,
            forall|k: int| i <= k < n ==> controllers@[k] == old(controllers)@[k],
            forall|k: int|
                0 <= k < i ==> (#[trigger] controllers@[k]).last_handled() == Some(
                    items@.subrange(
                        counts_prefix(counts@, k),
                        counts_prefix(counts@, k) + counts@[k],
                    ),
                ),
        decreases n - i,
    {
        proof {
            lemma_counts_prefix_monotone(counts@, 0, i as int);
            lemma_counts_prefix_monotone(counts@, i as int + 1, n as int);
        }
        let c = vec_index_mut(controllers, i);
        c.handle(regions[i].as_slice());
        i += 1;
    }
}

/// The simplest implementer of the controller contract: it supplies a fixed
/// set of wait items and keeps the events last handed back to it, so the
/// outcome of a pass can be read off afterwards.
pub struct FixedController {
    /// The wait items this controller supplies, pass after pass.
    pub items: Vec<WaitItem>,
    /// The region received from the latest dispatch, if any pass completed.
    pub last_events: Option<Vec<WaitItem>>,
}

impl FixedController {
    /// A controller supplying the given items, with no pass completed yet.
    pub fn new(items: Vec<WaitItem>) -> (c: FixedController)
        ensures
            c.wait_items() == items@,
            c.last_events is None,
    {
        FixedController { items, last_events: None }
    }
}

impl WaitController for FixedController {
    open spec fn wait_items(&self) -> Seq<WaitItem> {
        self.items@
    }

    open spec fn last_handled(&self) -> Option<Seq<WaitItem>> {
        match self.last_events {
            Some(v) => Some(v@),
            None => None,
        }
    }

    fn get_count(&self) -> (n: usize) {
        self.items.len()
    }

    fn populate(&self, dest: &mut Vec<WaitItem>) {
        let n = self.items.len();
        let mut i: usize = 0;
        while i < n
            invariant
                n == self.items@.len(),
                i <= n,
                dest@ == old(dest)@ + self.items@.take(i as int),
            decreases n - i,
        {
            dest.push(self.items[i]);
            proof {
                assert(old(dest)@ + self.items@.take(i as int + 1) =~= (old(dest)@
                    + self.items@.take(i as int)).push(self.items@[i as int]));
            }
            i += 1;
        }
        proof {
            assert(self.items@.take(n as int) =~= self.items@);
        }
    }

    fn handle(&mut self, events: &[WaitItem]) {
        let n = events.len();
        let mut received: Vec<WaitItem> = Vec::new();
        let mut i: usize = 0;
        while i < n
            invariant
                n == events@.len(),
                i <= n,
                received@ == events@.take(i as int),
            decreases n - i,
        {
            received.push(events[i]);
            proof {
                assert(events@.take(i as int + 1) =~= events@.take(i as int).push(
                    events@[i as int],
                ));
            }
            i += 1;
        }
        proof {
            assert(events@.take(n as int) =~= events@);
        }
        self.last_events = Some(received);
    }
}

} // verus!
