use propensity_score::errors::Error;
use propensity_score::optimizer::{
    Backtrack, Directive, Driver, FinishReason, History, SearchStep, StepEvent,
};

#[test]
fn driver_converges_on_small_gradient() {
    let mut d = Driver::new(10);
    let r = d.advance(StepEvent::GradSmall).unwrap();
    assert_eq!(r, Directive::Finish(FinishReason::Converged));
    assert_eq!(d.finished(), Some(FinishReason::Converged));
    assert_eq!(d.iter(), 0);
}

#[test]
fn first_iteration_line_search_failure_is_fatal() {
    let mut d = Driver::new(10);
    let r = d.advance(StepEvent::LineSearchFailed);
    assert!(matches!(r, Err(Error::Optimization)));
    assert_eq!(d.finished(), None);
}

#[test]
fn later_line_search_failure_stagnates() {
    let mut d = Driver::new(10);
    let r = d.advance(StepEvent::Stepped { improved_best: true }).unwrap();
    assert_eq!(r, Directive::Continue);
    let r = d.advance(StepEvent::LineSearchFailed).unwrap();
    assert_eq!(r, Directive::Finish(FinishReason::Stagnated));
    assert_eq!(d.finished(), Some(FinishReason::Stagnated));
    assert_eq!(d.best_iter(), 1);
}

#[test]
fn driver_stops_exactly_at_the_budget() {
    let max: u64 = 5;
    let mut d = Driver::new(max);
    let mut steps: u64 = 0;
    loop {
        steps += 1;
        match d.advance(StepEvent::Stepped { improved_best: false }).unwrap() {
            Directive::Continue => continue,
            Directive::Finish(reason) => {
                assert_eq!(reason, FinishReason::MaxIters);
                break;
            },
        }
    }
    assert_eq!(steps, max);
    assert_eq!(d.iter(), max);
}

#[test]
fn driver_tracks_the_best_iteration() {
    let mut d = Driver::new(10);
    d.advance(StepEvent::Stepped { improved_best: true }).unwrap();
    d.advance(StepEvent::Stepped { improved_best: false }).unwrap();
    d.advance(StepEvent::Stepped { improved_best: true }).unwrap();
    d.advance(StepEvent::Stepped { improved_best: false }).unwrap();
    assert_eq!(d.best_iter(), 3);
    assert_eq!(d.iter(), 4);
}

#[test]
fn backtrack_accepts_an_armijo_step() {
    let mut b = Backtrack::new(8);
    assert_eq!(b.step(false), SearchStep::Shrink { shrinks: 1 });
    assert_eq!(b.step(false), SearchStep::Shrink { shrinks: 2 });
    assert_eq!(b.step(true), SearchStep::Accept { shrinks: 2 });
    assert_eq!(b.shrinks(), 2);
}

#[test]
fn backtrack_exhausts_after_its_budget() {
    let mut b = Backtrack::new(2);
    assert_eq!(b.step(false), SearchStep::Shrink { shrinks: 1 });
    assert_eq!(b.step(false), SearchStep::Shrink { shrinks: 2 });
    assert_eq!(b.step(false), SearchStep::Exhausted);
    assert_eq!(b.step(false), SearchStep::Exhausted);
}

#[test]
fn history_keeps_the_newest_pairs() {
    let mut h = History::new(2);
    assert_eq!(h.len(), 0);
    h.push(vec![1], vec![10]);
    h.push(vec![2], vec![20]);
    assert_eq!(h.len(), 2);
    h.push(vec![3], vec![30]);
    // capacity two: the oldest pair was discarded
    assert_eq!(h.len(), 2);
    assert_eq!(h.get(0).s, vec![2]);
    assert_eq!(h.get(0).y, vec![20]);
    assert_eq!(h.get(1).s, vec![3]);
    assert_eq!(h.get(1).y, vec![30]);
}
