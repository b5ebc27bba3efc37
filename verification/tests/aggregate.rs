use waitcore::aggregate::WaitOutcome;
use waitcore::aggregate::complete_wait;
use waitcore::aggregate::prepare_wait;
use waitcore::event::SleeperRef;
use waitcore::event::Source;
use waitcore::event::Waiter;

#[test]
fn fast_path_skips_blocking_and_the_sleeper() {
    // One waitable already ready before binding: the outcome says to skip
    // blocking, and no source ever saw the sleeper (trigger still offers no
    // handle to signal).
    let mut sources = vec![Source::new(), Source::new()];
    sources[1].trigger();
    let mut waiters = vec![sources[0].wait(0), sources[1].wait(1)];
    let outcome = prepare_wait(&mut sources, &mut waiters, SleeperRef { id: 5 });
    assert_eq!(outcome, WaitOutcome::Ready);
    assert_eq!(sources[0].trigger(), None);
}

#[test]
fn all_ready_waitables_skip_blocking() {
    let mut sources = vec![Source::new()];
    sources[0].trigger();
    let mut waiters = vec![sources[0].wait(0), Waiter { source: None }];
    let outcome = prepare_wait(&mut sources, &mut waiters, SleeperRef { id: 5 });
    assert_eq!(outcome, WaitOutcome::Ready);
}

#[test]
fn nothing_ready_means_block_with_everything_bound() {
    let mut sources = vec![Source::new(), Source::new()];
    let mut waiters = vec![sources[0].wait(0), sources[1].wait(1)];
    let outcome = prepare_wait(&mut sources, &mut waiters, SleeperRef { id: 11 });
    assert_eq!(outcome, WaitOutcome::MustBlock);
    // Both sources now hold the sleeper's handle: a later trigger offers it.
    assert_eq!(sources[0].trigger(), Some(SleeperRef { id: 11 }));
    assert_eq!(sources[1].trigger(), Some(SleeperRef { id: 11 }));
}

#[test]
fn completion_reports_exactly_what_fired() {
    let mut sources = vec![Source::new(), Source::new(), Source::new()];
    let mut waiters = vec![sources[0].wait(0), sources[1].wait(1), sources[2].wait(2)];
    let outcome = prepare_wait(&mut sources, &mut waiters, SleeperRef { id: 2 });
    assert_eq!(outcome, WaitOutcome::MustBlock);
    // Two producers fire while the consumer is parked.
    sources[0].trigger();
    sources[2].trigger();
    let fired = complete_wait(&sources, &mut waiters);
    assert_eq!(fired, vec![true, false, true]);
}

#[test]
fn a_no_source_waiter_keeps_the_cycle_on_the_fast_path() {
    let mut sources = vec![Source::new()];
    let mut waiters = vec![sources[0].wait(0), Waiter { source: None }];
    let outcome = prepare_wait(&mut sources, &mut waiters, SleeperRef { id: 8 });
    assert_eq!(outcome, WaitOutcome::Ready);
    let fired = complete_wait(&sources, &mut waiters);
    assert_eq!(fired, vec![false, true]);
}
