//! Control flow of the L-BFGS optimizer with backtracking line search.
//!
//! The numeric caller evaluates cost, gradient, search direction and
//! the Armijo condition, and reports what it observed; this module
//! owns every decision: when the loop continues, when it finishes and
//! why, when a failed line search is fatal, how many times a step may
//! shrink, and how the bounded curvature-pair history evolves.  The
//! contracts guarantee the loop cannot run past its iteration budget.

use vstd::prelude::*;

verus! {

use crate::errors::Error;

/// Why the optimizer loop finished.
#[derive(Clone, Copy, Debug, PartialEq, Eq, Structural)]
pub enum FinishReason {
    /// The gradient norm fell below the numerical tolerance.
    Converged,
    /// A line search after the first iteration found no decreasing
    /// step; the best point so far stands (not an error).
    Stagnated,
    /// The iteration budget was spent.
    MaxIters,
}

/// What the numeric caller observed in one iteration.
#[derive(Clone, Copy, Debug)]
pub enum StepEvent {
    /// The gradient norm fell below the numerical tolerance.
    GradSmall,
    /// The line search exhausted its shrink attempts without finding
    /// an acceptable step.
    LineSearchFailed,
    /// An Armijo-acceptable step was taken; the flag says whether the
    /// new point's cost is the lowest observed so far.
    Stepped { improved_best: bool },
}

/// What the driver tells the numeric caller to do next.
#[derive(Clone, Copy, Debug, PartialEq, Eq, Structural)]
pub enum Directive {
    /// Run another iteration.
    Continue,
    /// Stop; the best parameter vector observed so far is the result.
    Finish(FinishReason),
}

/// The optimizer loop's state: iteration counter, budget, the
/// iteration that produced the best point so far, and whether (and
/// why) the loop has finished.
pub struct Driver {
    iter: u64,
    max_iters: u64,
    best_iter: u64,
    finished: Option<FinishReason>,
}

impl Driver {
    #[verifier::type_invariant]
    closed spec fn inv(self) -> bool {
        &&& self.iter <= self.max_iters
        &&& 1 <= self.max_iters
        &&& self.best_iter <= self.iter
        &&& (self.finished is None ==> self.iter < self.max_iters)
    }

    /// Iterations completed so far.
    pub closed spec fn spec_iter(self) -> u64 {
        self.iter
    }

    /// The iteration budget.
    pub closed spec fn spec_max_iters(self) -> u64 {
        self.max_iters
    }

    /// The iteration after which the best point so far was recorded.
    pub closed spec fn spec_best_iter(self) -> u64 {
        self.best_iter
    }

    /// Why the loop finished, once it has.
    pub closed spec fn spec_finished(self) -> Option<FinishReason> {
        self.finished
    }

    /// Starts a run with the given iteration budget.
    pub fn new(max_iters: u64) -> (r: Driver)
        requires
            1 <= max_iters,
        ensures
            r.spec_iter() == 0,
            r.spec_max_iters() == max_iters,
            r.spec_best_iter() == 0,
            r.spec_finished() is None,
    {
        Driver { iter: 0, max_iters, best_iter: 0, finished: None }
    }

    /// Iterations completed so far.
    pub fn iter(&self) -> (r: u64)
        ensures
            r == self.spec_iter(),
    {
        self.iter
    }

    /// The iteration after which the best point so far was recorded.
    pub fn best_iter(&self) -> (r: u64)
        ensures
            r == self.spec_best_iter(),
    {
        self.best_iter
    }

    /// Why the loop finished, or `None` while it still runs.
    pub fn finished(&self) -> (r: Option<FinishReason>)
        ensures
            r == self.spec_finished(),
    {
        self.finished
    }

    /// Advances the state machine by one observed iteration.
    ///
    /// A small gradient converges.  A failed line search on the very
    /// first iteration is the fatal optimization error (no progress is
    /// possible); afterwards it is mere stagnation and keeps the best
    /// point.  An accepted step spends one unit of the budget, and the
    /// run finishes once the budget is spent.  Every `Continue` comes
    /// with a strictly smaller remaining budget, so no caller that
    /// obeys the directive can loop forever.
    pub fn advance(&mut self, ev: StepEvent) -> (r: Result<Directive, Error>)
        requires
            old(self).spec_finished() is None,
        ensures
            final (self).spec_max_iters() == old(self).spec_max_iters(),
            match ev {
                StepEvent::GradSmall => {
                    &&& (r matches Ok(d) && d == Directive::Finish(FinishReason::Converged))
                    &&& final (self).spec_finished() == Some(FinishReason::Converged)
                    &&& final (self).spec_iter() == old(self).spec_iter()
                    &&& final (self).spec_best_iter() == old(self).spec_best_iter()
                },
                StepEvent::LineSearchFailed => {
                    if old(self).spec_iter() == 0 {
                        &&& (r matches Err(e) && e matches Error::Optimization)
                        &&& final (self).spec_finished() is None
                        &&& final (self).spec_iter() == 0
                    } else {
                        &&& (r matches Ok(d) && d == Directive::Finish(FinishReason::Stagnated))
                        &&& final (self).spec_finished() == Some(FinishReason::Stagnated)
                        &&& final (self).spec_iter() == old(self).spec_iter()
                        &&& final (self).spec_best_iter() == old(self).spec_best_iter()
                    }
                },
                StepEvent::Stepped { improved_best } => {
                    &&& final (self).spec_iter() == old(self).spec_iter() + 1
                    &&& final (self).spec_best_iter() == (if improved_best {
                        final (self).spec_iter()
                    } else {
                        old(self).spec_best_iter()
                    })
                    &&& if old(self).spec_iter() + 1 == old(self).spec_max_iters() {
                        &&& (r matches Ok(d) && d == Directive::Finish(FinishReason::MaxIters))
                        &&& final (self).spec_finished() == Some(FinishReason::MaxIters)
                    } else {
                        &&& (r matches Ok(d) && d == Directive::Continue)
                        &&& final (self).spec_finished() is None
                    }
                },
            },
            (r matches Ok(d) && d == Directive::Continue) ==> final (self).spec_max_iters()
                - final (self).spec_iter() < old(self).spec_max_iters() - old(self).spec_iter(),
    {
        proof {
            use_type_invariant(&*self);
        }
        match ev {
            StepEvent::GradSmall => {
                self.finished = Some(FinishReason::Converged);
                Ok(Directive::Finish(FinishReason::Converged))
            },
            StepEvent::LineSearchFailed => {
                if self.iter == 0 {
                    Err(Error::Optimization)
                } else {
                    self.finished = Some(FinishReason::Stagnated);
                    Ok(Directive::Finish(FinishReason::Stagnated))
                }
            },
            StepEvent::Stepped { improved_best } => {
                let new_iter = self.iter + 1;
                let new_best = if improved_best {
                    new_iter
                } else {
                    self.best_iter
                };
                if new_iter == self.max_iters {
                    *self = Driver {
                        iter: new_iter,
                        max_iters: self.max_iters,
                        best_iter: new_best,
                        finished: Some(FinishReason::MaxIters),
                    };
                    Ok(Directive::Finish(FinishReason::MaxIters))
                } else {
                    *self = Driver {
                        iter: new_iter,
                        max_iters: self.max_iters,
                        best_iter: new_best,
                        finished: None,
                    };
                    Ok(Directive::Continue)
                }
            },
        }
    }
}

/// One backtracking line search: the step length starts at its full
/// value and shrinks at most `max_shrinks` times; the caller evaluates
/// the Armijo condition at each candidate and reports it.  The shrink
/// count stands for the step length (the caller applies the shrink
/// factor that many times), which keeps the search free of arithmetic
/// here while its control flow is verified.
pub struct Backtrack {
    shrinks: u64,
    max_shrinks: u64,
}

/// The line search's answer to one Armijo report.
#[derive(Clone, Copy, Debug, PartialEq, Eq, Structural)]
pub enum SearchStep {
    /// The current candidate satisfies the Armijo condition; take the
    /// step that `shrinks` shrink applications produce.
    Accept { shrinks: u64 },
    /// Shrink once more and try the next candidate.
    Shrink { shrinks: u64 },
    /// The shrink budget is spent and no candidate was acceptable.
    Exhausted,
}

impl Backtrack {
    #[verifier::type_invariant]
    closed spec fn inv(self) -> bool {
        self.shrinks <= self.max_shrinks
    }

    /// Shrinks performed so far.
    pub closed spec fn spec_shrinks(self) -> u64 {
        self.shrinks
    }

    /// Most shrinks this search will ever perform.
    pub closed spec fn spec_max_shrinks(self) -> u64 {
        self.max_shrinks
    }

    /// Starts a search at the full step length.
    pub fn new(max_shrinks: u64) -> (r: Backtrack)
        ensures
            r.spec_shrinks() == 0,
            r.spec_max_shrinks() == max_shrinks,
    {
        Backtrack { shrinks: 0, max_shrinks }
    }

    /// Shrinks performed so far.
    pub fn shrinks(&self) -> (r: u64)
        ensures
            r == self.spec_shrinks(),
    {
        self.shrinks
    }

    /// Answers one Armijo report.  An acceptable candidate is taken as
    /// it stands; otherwise the step shrinks until the budget is
    /// spent, and each shrink strictly decreases what remains of it,
    /// so the search terminates.
    pub fn step(&mut self, armijo_ok: bool) -> (r: SearchStep)
        ensures
            final (self).spec_max_shrinks() == old(self).spec_max_shrinks(),
            old(self).spec_shrinks() <= old(self).spec_max_shrinks(),
            armijo_ok ==> (r == (SearchStep::Accept { shrinks: old(self).spec_shrinks() })
                && final (self).spec_shrinks() == old(self).spec_shrinks()),
            (!armijo_ok && old(self).spec_shrinks() < old(self).spec_max_shrinks()) ==> (r == (
            SearchStep::Shrink { shrinks: (old(self).spec_shrinks() + 1) as u64 }) && final (
            self).spec_shrinks() == old(self).spec_shrinks() + 1),
            (!armijo_ok && old(self).spec_shrinks() == old(self).spec_max_shrinks()) ==> (r
                == SearchStep::Exhausted && final (self).spec_shrinks() == old(
            self).spec_shrinks()),
    {
        proof {
            use_type_invariant(&*self);
        }
        if armijo_ok {
            SearchStep::Accept { shrinks: self.shrinks }
        } else if self.shrinks < self.max_shrinks {
            self.shrinks = self.shrinks + 1;
            SearchStep::Shrink { shrinks: self.shrinks }
        } else {
            SearchStep::Exhausted
        }
    }
}

/// One curvature pair kept by L-BFGS: the step delta `s` and the
/// gradient delta `y` of one accepted iteration, as scalar words.
pub struct CurvaturePair {
    /// Difference between consecutive parameter vectors.
    pub s: Vec<u64>,
    /// Difference between consecutive gradient vectors.
    pub y: Vec<u64>,
}

/// Bounded ring of the most recent curvature pairs: once `cap` pairs
/// are held, pushing a new pair discards the oldest one.
pub struct History {
    cap: usize,
    pairs: Vec<CurvaturePair>,
}

impl View for History {
    type V = Seq<(Seq<u64>, Seq<u64>)>;

    closed spec fn view(&self) -> Seq<(Seq<u64>, Seq<u64>)> {
        Seq::new(self.pairs@.len(), |i: int| (self.pairs@[i].s@, self.pairs@[i].y@))
    }
}

impl History {
    /// The ring never holds more pairs than its capacity, and the
    /// capacity is at least one.  Constructors establish this and
    /// `push` preserves it.
    pub closed spec fn wf(self) -> bool {
        &&& 1 <= self.cap
        &&& self.pairs@.len() <= self.cap
    }

    /// The fixed capacity.
    pub closed spec fn spec_cap(self) -> usize {
        self.cap
    }

    /// Starts empty, with the given capacity.
    pub fn new(cap: usize) -> (r: History)
        requires
            1 <= cap,
        ensures
            r.wf(),
            r@ =~= Seq::<(Seq<u64>, Seq<u64>)>::empty(),
            r.spec_cap() == cap,
    {
        History { cap, pairs: Vec::new() }
    }

    /// Pairs currently held; never more than the capacity.
    pub fn len(&self) -> (r: usize)
        requires
            self.wf(),
        ensures
            r == self@.len(),
            r <= self.spec_cap(),
    {
        self.pairs.len()
    }

    /// Appends the newest pair, discarding the oldest one when the
    /// ring is full.
    pub fn push(&mut self, s: Vec<u64>, y: Vec<u64>)
        requires
            old(self).wf(),
        ensures
            final (self).wf(),
            final (self).spec_cap() == old(self).spec_cap(),
            old(self)@.len() < old(self).spec_cap() ==> final (self)@ =~= old(self)@.push(
                (s@, y@),
            ),
            old(self)@.len() == old(self).spec_cap() ==> final (self)@ =~= old(
                self,
            )@.drop_first().push((s@, y@)),
    {
        if self.pairs.len() == self.cap {
            self.pairs.remove(0);
        }
        self.pairs.push(CurvaturePair { s, y });
    }

    /// Borrows pair `i`, oldest first.
    pub fn get(&self, i: usize) -> (r: &CurvaturePair)
        requires
            i < self@.len(),
        ensures
            (r.s@, r.y@) == self@[i as int],
    {
        &self.pairs[i]
    }
}

} // verus!
