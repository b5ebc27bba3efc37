use waitcore::event::PrimitiveWaiter;
use waitcore::event::SleeperRef;
use waitcore::event::Source;
use waitcore::event::Waiter;

#[test]
fn fresh_source_is_not_ready() {
    let sources = vec![Source::new()];
    let w = sources[0].wait(0);
    assert_eq!(w.source, Some(0));
    assert!(!w.poll(&sources));
}

#[test]
fn trigger_before_bind_is_seen_by_poll() {
    // No missed wakeup, producer first: the latch is sticky, so a trigger
    // that ran before anyone bound is still visible afterwards.
    let mut sources = vec![Source::new()];
    let sig = sources[0].trigger();
    assert_eq!(sig, None);
    let mut w = sources[0].wait(0);
    assert!(w.poll(&sources));
    let bound = w.bind_signal(&mut sources, SleeperRef { id: 1 });
    assert!(bound);
    assert!(w.poll(&sources));
}

#[test]
fn trigger_after_bind_is_seen_by_poll() {
    // No missed wakeup, consumer first: binding, then triggering, leaves the
    // poll ready and offers the bound sleeper for signalling.
    let mut sources = vec![Source::new()];
    let mut w = sources[0].wait(0);
    assert!(w.bind_signal(&mut sources, SleeperRef { id: 7 }));
    assert!(!w.poll(&sources));
    let sig = sources[0].trigger();
    assert_eq!(sig, Some(SleeperRef { id: 7 }));
    assert!(w.poll(&sources));
}

#[test]
fn second_bind_replaces_first() {
    // One shot per attach: the second binding wins the slot, and the first
    // waiter still reflects the source-wide flag.
    let mut sources = vec![Source::new()];
    let mut first = sources[0].wait(0);
    let mut second = sources[0].wait(0);
    assert!(first.bind_signal(&mut sources, SleeperRef { id: 1 }));
    assert!(second.bind_signal(&mut sources, SleeperRef { id: 2 }));
    let sig = sources[0].trigger();
    assert_eq!(sig, Some(SleeperRef { id: 2 }));
    assert!(first.poll(&sources));
    assert!(second.poll(&sources));
}

#[test]
fn no_source_waiter_is_always_ready() {
    let sources: Vec<Source> = Vec::new();
    let w = Waiter { source: None };
    assert!(w.poll(&sources));
    let more = vec![Source::new(), Source::new()];
    assert!(w.poll(&more));
}

#[test]
fn no_source_waiter_binds_without_touching_anything() {
    let mut sources = vec![Source::new()];
    let mut w = Waiter { source: None };
    assert!(w.bind_signal(&mut sources, SleeperRef { id: 9 }));
    assert_eq!(sources[0].trigger(), None);
}

#[test]
fn trigger_twice_behaves_like_once() {
    // Idempotent trigger: same flag, and the same sleeper handle offered.
    let mut sources = vec![Source::new()];
    let mut w = sources[0].wait(0);
    assert!(w.bind_signal(&mut sources, SleeperRef { id: 3 }));
    let first = sources[0].trigger();
    let second = sources[0].trigger();
    assert_eq!(first, Some(SleeperRef { id: 3 }));
    assert_eq!(second, first);
    assert!(w.poll(&sources));
}

#[test]
fn run_completion_leaves_the_waiter_alone() {
    let mut sources = vec![Source::new()];
    sources[0].trigger();
    let mut w = sources[0].wait(0);
    assert!(w.poll(&sources));
    w.run_completion();
    assert_eq!(w.source, Some(0));
    assert!(w.poll(&sources));
}

#[test]
fn distinct_sources_share_no_state() {
    // Worker isolation at the state level: triggering one source leaves the
    // other's flag and slot untouched.
    let mut sources = vec![Source::new(), Source::new()];
    let left = sources[0].wait(0);
    let right = sources[1].wait(1);
    sources[0].trigger();
    assert!(left.poll(&sources));
    assert!(!right.poll(&sources));
    assert_eq!(sources[1].trigger(), None);
}
