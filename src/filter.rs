use vstd::prelude::*;

use crate::estimate::{Direction, GradientReport};

verus! {

/// Number of stencil sizes tried by the outer loop (`h0 * 0.25^level`).
pub const MAX_LEVELS: u32 = 20;

/// Number of estimate-and-search rounds at one stencil size.
pub const MAX_ITERS: u32 = 10;

/// Number of step lengths tried by one line search (`0.7^trial`).
pub const MAX_TRIALS: u32 = 10;

/// What the caller must do next. The caller holds four points, each a
/// parameter value with its loss: `best`, `start`, `current`, `candidate`.
#[derive(Clone, Copy, Debug, PartialEq, Eq, Structural)]
pub enum Stage {
    /// `best := (x0, oracle(x0, h0))`.
    EvaluateStart,
    /// With `h := h0 * 0.25^level`: `start := current := (best.x, oracle(best.x, h))`.
    OpenStencil { level: u32 },
    /// Estimate gradient and curvature at `current` and report the comparisons.
    Estimate { level: u32, iter: u32 },
    /// With `p` the given direction and `a := 0.7^trial`:
    /// `candidate := (current.x + a * p, oracle(current.x + a * p, h))`; report
    /// whether the Armijo sufficient-decrease test holds.
    Trial { level: u32, iter: u32, direction: Direction, trial: u32 },
    /// `current := candidate`.
    Adopt { level: u32, iter: u32 },
    /// Compare `current` with `start` and with `best`, and report.
    Close { level: u32 },
    /// `best := current`.
    Promote { level: u32, converged: bool },
    /// The search is over; `best` is the result.
    Finished,
}

/// What the caller reports at the end of a pass that moved the point.
#[derive(Clone, Copy, Debug, PartialEq, Eq, Structural)]
pub struct Comparison {
    /// `current` equals `start`, parameter and loss.
    pub same_point: bool,
    /// The loss of `current` is not strictly below that of `start`.
    pub not_lower: bool,
    /// `|best.x - current.x| <= tol`.
    pub within_tol: bool,
}

/// The caller's answer to the stage it was given.
#[derive(Clone, Copy, Debug, PartialEq, Eq, Structural)]
pub enum Event {
    /// The stage's assignments were carried out.
    Done,
    /// Answer to `Estimate`.
    Estimated(GradientReport),
    /// Answer to `Trial`.
    Tried { sufficient_decrease: bool },
    /// Answer to `Close`.
    Compared(Comparison),
}

impl Comparison {
    /// The pass produced a different point with strictly lower loss.
    pub open spec fn improved(self) -> bool {
        !self.same_point && !self.not_lower
    }
}

/// The state of one optimisation run.
#[derive(Clone, Copy, Debug, PartialEq, Eq, Structural)]
pub struct Filter {
    /// What the caller must do next.
    pub stage: Stage,
    /// Number of passes whose result replaced `best`.
    pub improvements: u32,
}

/// The stage after the pass at `level` has ended; `iter` rounds were adopted.
pub open spec fn pass_end(level: u32, iter: u32) -> Stage {
    if iter > 0 {
        Stage::Close { level }
    } else {
        next_level(level)
    }
}

/// The stage after the stencil at `level` is done with.
pub open spec fn next_level(level: u32) -> Stage {
    if level + 1 < MAX_LEVELS {
        Stage::OpenStencil { level: (level + 1) as u32 }
    } else {
        Stage::Finished
    }
}

/// Steps left before the run can be finished, across all remaining levels.
pub open spec fn tail(level: u32) -> int {
    3 + (19 - level) * 124
}

impl Filter {
    /// The state before anything has been evaluated.
    pub open spec fn start() -> Filter {
        Filter { stage: Stage::EvaluateStart, improvements: 0 }
    }

    /// Counters are within their loops' bounds, and at most one improvement
    /// has been accepted per stencil level.
    pub open spec fn wf(self) -> bool {
        match self.stage {
            Stage::EvaluateStart => self.improvements == 0,
            Stage::OpenStencil { level } => level < MAX_LEVELS && self.improvements <= level,
            Stage::Estimate { level, iter } => level < MAX_LEVELS && iter < MAX_ITERS
                && self.improvements <= level,
            Stage::Trial { level, iter, direction, trial } => level < MAX_LEVELS && iter
                < MAX_ITERS && trial < MAX_TRIALS && self.improvements <= level,
            Stage::Adopt { level, iter } => level < MAX_LEVELS && iter < MAX_ITERS
                && self.improvements <= level,
            Stage::Close { level } => level < MAX_LEVELS && self.improvements <= level,
            Stage::Promote { level, converged } => level < MAX_LEVELS && self.improvements
                <= level + 1,
            Stage::Finished => self.improvements <= MAX_LEVELS,
        }
    }

    /// Whether `e` answers the current stage. A finished run expects nothing.
    pub open spec fn expects(self, e: Event) -> bool {
        match self.stage {
            Stage::EvaluateStart | Stage::OpenStencil { .. } | Stage::Adopt { .. }
            | Stage::Promote { .. } => e is Done,
            Stage::Estimate { .. } => e is Estimated,
            Stage::Trial { .. } => e is Tried,
            Stage::Close { .. } => e is Compared,
            Stage::Finished => false,
        }
    }

    /// The state after event `e`; an event that does not answer the stage
    /// leaves the state as it is.
    pub open spec fn next(self, e: Event) -> Filter {
        if !self.expects(e) {
            self
        } else {
            match self.stage {
                Stage::EvaluateStart => Filter { stage: Stage::OpenStencil { level: 0 }, ..self },
                Stage::OpenStencil { level } => Filter {
                    stage: Stage::Estimate { level, iter: 0 },
                    ..self
                },
                Stage::Estimate { level, iter } => {
                    let g = e->Estimated_0;
                    if g.fails_spec() {
                        Filter { stage: pass_end(level, iter), ..self }
                    } else {
                        Filter {
                            stage: Stage::Trial {
                                level,
                                iter,
                                direction: g.direction_spec(),
                                trial: 0,
                            },
                            ..self
                        }
                    }
                },
                Stage::Trial { level, iter, direction, trial } => {
                    if e->sufficient_decrease {
                        Filter { stage: Stage::Adopt { level, iter }, ..self }
                    } else if trial + 1 < MAX_TRIALS {
                        Filter {
                            stage: Stage::Trial { level, iter, direction, trial: (trial + 1) as u32 },
                            ..self
                        }
                    } else {
                        Filter { stage: pass_end(level, iter), ..self }
                    }
                },
                Stage::Adopt { level, iter } => {
                    if iter + 1 < MAX_ITERS {
                        Filter { stage: Stage::Estimate { level, iter: (iter + 1) as u32 }, ..self }
                    } else {
                        Filter { stage: Stage::Close { level }, ..self }
                    }
                },
                Stage::Close { level } => {
                    let c = e->Compared_0;
                    if c.improved() {
                        Filter {
                            stage: Stage::Promote { level, converged: c.within_tol },
                            improvements: (self.improvements + 1) as u32,
                        }
                    } else {
                        Filter { stage: next_level(level), ..self }
                    }
                },
                Stage::Promote { level, converged } => {
                    if converged {
                        Filter { stage: Stage::Finished, ..self }
                    } else {
                        Filter { stage: next_level(level), ..self }
                    }
                },
                Stage::Finished => self,
            }
        }
    }

    /// The state after answering with each event of `evs` in turn.
    pub open spec fn run(self, evs: Seq<Event>) -> Filter
        decreases evs.len(),
    {
        if evs.len() == 0 {
            self
        } else {
            self.next(evs[0]).run(evs.drop_first())
        }
    }

    /// Every event of `evs` answers the stage it is given to.
    pub open spec fn answered(self, evs: Seq<Event>) -> bool
        decreases evs.len(),
    {
        evs.len() == 0 || (self.expects(evs[0]) && self.next(evs[0]).answered(evs.drop_first()))
    }

    /// An upper bound on the number of events still to be answered.
    pub open spec fn remaining(self) -> int {
        match self.stage {
            Stage::EvaluateStart => 2481,
            Stage::OpenStencil { level } => (20 - level) * 124,
            Stage::Estimate { level, iter } => tail(level) + (10 - iter) * 12,
            Stage::Trial { level, iter, trial, .. } => tail(level) + (10 - iter) * 12 - 1 - trial,
            Stage::Adopt { level, iter } => tail(level) + (9 - iter) * 12 + 1,
            Stage::Close { level } => 2 + (19 - level) * 124,
            Stage::Promote { level, .. } => 1 + (19 - level) * 124,
            Stage::Finished => 0,
        }
    }
}

fn end_of_pass(level: u32, iter: u32) -> (r: Stage)
    requires
        level < MAX_LEVELS,
    ensures
        r == pass_end(level, iter),
{
    if iter > 0 {
        Stage::Close { level }
    } else {
        after_level(level)
    }
}

fn after_level(level: u32) -> (r: Stage)
    requires
        level < MAX_LEVELS,
    ensures
        r == next_level(level),
{
    if level + 1 < MAX_LEVELS {
        Stage::OpenStencil { level: level + 1 }
    } else {
        Stage::Finished
    }
}

impl Filter {
    /// A run that has evaluated nothing yet.
    pub fn new() -> (r: Filter)
        ensures
            r == Filter::start(),
            r.wf(),
    {
        Filter { stage: Stage::EvaluateStart, improvements: 0 }
    }

    /// Whether the run is over.
    pub fn is_finished(&self) -> (r: bool)
        ensures
            r == (self.stage is Finished),
    {
        match self.stage {
            Stage::Finished => true,
            _ => false,
        }
    }

    /// Whether `e` answers the current stage.
    pub fn accepts(&self, e: &Event) -> (r: bool)
        ensures
            r == self.expects(*e),
    {
        match self.stage {
            Stage::EvaluateStart | Stage::OpenStencil { .. } | Stage::Adopt { .. }
            | Stage::Promote { .. } => matches!(e, Event::Done),
            Stage::Estimate { .. } => matches!(e, Event::Estimated(_)),
            Stage::Trial { .. } => matches!(e, Event::Tried { .. }),
            Stage::Close { .. } => matches!(e, Event::Compared(_)),
            Stage::Finished => false,
        }
    }

    /// Answers the current stage with `e` and moves to the next stage.
    pub fn step(&mut self, e: Event)
        requires
            old(self).wf(),
        ensures
            *final(self) == old(self).next(e),
            final(self).wf(),
            old(self).expects(e) ==> final(self).remaining() < old(self).remaining(),
    {
        proof {
            lemma_progress(*self, e);
        }
        if !self.accepts(&e) {
            return;
        }
        match self.stage {
            Stage::EvaluateStart => {
                self.stage = Stage::OpenStencil { level: 0 };
            },
            Stage::OpenStencil { level } => {
                self.stage = Stage::Estimate { level, iter: 0 };
            },
            Stage::Estimate { level, iter } => {
                if let Event::Estimated(g) = e {
                    if g.stencil_failure() {
                        self.stage = end_of_pass(level, iter);
                    } else {
                        self.stage = Stage::Trial { level, iter, direction: g.direction(), trial: 0 };
                    }
                }
            },
            Stage::Trial { level, iter, direction, trial } => {
                if let Event::Tried { sufficient_decrease } = e {
                    if sufficient_decrease {
                        self.stage = Stage::Adopt { level, iter };
                    } else if trial + 1 < MAX_TRIALS {
                        self.stage = Stage::Trial { level, iter, direction, trial: trial + 1 };
                    } else {
                        self.stage = end_of_pass(level, iter);
                    }
                }
            },
            Stage::Adopt { level, iter } => {
                if iter + 1 < MAX_ITERS {
                    self.stage = Stage::Estimate { level, iter: iter + 1 };
                } else {
                    self.stage = Stage::Close { level };
                }
            },
            Stage::Close { level } => {
                if let Event::Compared(c) = e {
                    if !c.same_point && !c.not_lower {
                        self.stage = Stage::Promote { level, converged: c.within_tol };
                        self.improvements = self.improvements + 1;
                    } else {
                        self.stage = after_level(level);
                    }
                }
            },
            Stage::Promote { level, converged } => {
                if converged {
                    self.stage = Stage::Finished;
                } else {
                    self.stage = after_level(level);
                }
            },
            Stage::Finished => {},
        }
    }
}

/// Every answered event keeps the state well formed and strictly lowers the
/// bound on the number of events still to come.
pub proof fn lemma_progress(f: Filter, e: Event)
    requires
        f.wf(),
    ensures
        f.next(e).wf(),
        f.expects(e) ==> f.next(e).remaining() < f.remaining(),
{
}

/// Every event of `evs` that reports a derivative estimate reports a stencil
/// failure, as a constant objective does.
pub open spec fn all_estimates_fail(evs: Seq<Event>) -> bool {
    forall|i: int| 0 <= i < evs.len() && (#[trigger] evs[i]) is Estimated ==> evs[i]->Estimated_0.fails_spec()
}

/// Every event of `evs` that compares a pass's result reports a move within
/// the tolerance.
pub open spec fn all_within_tol(evs: Seq<Event>) -> bool {
    forall|i: int| 0 <= i < evs.len() && (#[trigger] evs[i]) is Compared ==> evs[i]->Compared_0.within_tol
}

/// No line search was started in the current pass and nothing was accepted.
pub open spec fn untouched(f: Filter) -> bool {
    &&& f.improvements == 0
    &&& match f.stage {
        Stage::EvaluateStart | Stage::OpenStencil { .. } | Stage::Finished => true,
        Stage::Estimate { iter, .. } => iter == 0,
        _ => false,
    }
}

/// At most one improvement was accepted, and once it is the run finishes.
pub open spec fn stops_after_first(f: Filter) -> bool {
    ||| f.improvements == 0
    ||| f.improvements == 1 && (f.stage is Finished || f.stage matches Stage::Promote {
        converged: true,
        ..
    })
}

/// Answering a well-formed state with any events leaves it well formed: the
/// loop counters stay within their bounds.
pub proof fn lemma_run_wf(f: Filter, evs: Seq<Event>)
    requires
        f.wf(),
    ensures
        f.run(evs).wf(),
    decreases evs.len(),
{
    if evs.len() > 0 {
        lemma_progress(f, evs[0]);
        lemma_run_wf(f.next(evs[0]), evs.drop_first());
    }
}

/// A run asks for a bounded number of answers: from a well-formed state at
/// most `remaining()`, and from the start at most 2481.
pub proof fn lemma_runs_are_bounded(f: Filter, evs: Seq<Event>)
    requires
        f.wf(),
        f.answered(evs),
    ensures
        evs.len() <= f.remaining(),
        f == Filter::start() ==> evs.len() <= 2481,
    decreases evs.len(),
{
    if evs.len() > 0 {
        lemma_progress(f, evs[0]);
        lemma_runs_are_bounded(f.next(evs[0]), evs.drop_first());
    }
}

proof fn lemma_flat_from(f: Filter, evs: Seq<Event>)
    requires
        untouched(f),
        all_estimates_fail(evs),
    ensures
        untouched(f.run(evs)),
    decreases evs.len(),
{
    if evs.len() > 0 {
        let rest = evs.drop_first();
        assert forall|i: int| 0 <= i < rest.len() && (#[trigger] rest[i]) is Estimated implies rest[i]->Estimated_0.fails_spec() by {
            assert(rest[i] == evs[i + 1]);
        }
        lemma_flat_from(f.next(evs[0]), rest);
    }
}

/// When the objective is flat, every derivative estimate is a stencil
/// failure: no line search is ever started, no improvement is accepted, and
/// the run ends with the starting point as its result.
pub proof fn lemma_flat_objective(evs: Seq<Event>)
    requires
        all_estimates_fail(evs),
    ensures
        untouched(Filter::start().run(evs)),
        Filter::start().run(evs).improvements == 0,
{
    lemma_flat_from(Filter::start(), evs);
}

proof fn lemma_first_from(f: Filter, evs: Seq<Event>)
    requires
        stops_after_first(f),
        all_within_tol(evs),
    ensures
        stops_after_first(f.run(evs)),
    decreases evs.len(),
{
    if evs.len() > 0 {
        let rest = evs.drop_first();
        assert forall|i: int| 0 <= i < rest.len() && (#[trigger] rest[i]) is Compared implies rest[i]->Compared_0.within_tol by {
            assert(rest[i] == evs[i + 1]);
        }
        lemma_first_from(f.next(evs[0]), rest);
    }
}

/// When every accepted pass moves the point by at most the tolerance, the
/// outer loop accepts exactly one improvement before it finishes: at most
/// one is ever accepted, and once it is, the next stage replaces `best` and
/// the one after it is `Finished`.
pub proof fn lemma_large_tolerance(evs: Seq<Event>)
    requires
        all_within_tol(evs),
    ensures
        stops_after_first(Filter::start().run(evs)),
{
    lemma_first_from(Filter::start(), evs);
}

/// Every event of `evs` reports a line-search trial.
pub open spec fn all_trials(evs: Seq<Event>) -> bool {
    forall|i: int| 0 <= i < evs.len() ==> (#[trigger] evs[i]) is Tried
}

/// A line search that has made `trial` tries ends within `MAX_TRIALS - trial`
/// further answers: it either accepts a step or gives up, and in both cases
/// no further trial is requested.
pub proof fn lemma_line_search_bounded(f: Filter, evs: Seq<Event>)
    requires
        f.wf(),
        all_trials(evs),
        f.stage is Trial ==> evs.len() >= MAX_TRIALS - f.stage->trial,
    ensures
        f.run(evs).stage !is Trial,
    decreases evs.len(),
{
    if evs.len() > 0 {
        let rest = evs.drop_first();
        assert forall|i: int| 0 <= i < rest.len() implies (#[trigger] rest[i]) is Tried by {
            assert(rest[i] == evs[i + 1]);
        }
        lemma_progress(f, evs[0]);
        lemma_line_search_bounded(f.next(evs[0]), rest);
    }
}

} // verus!
