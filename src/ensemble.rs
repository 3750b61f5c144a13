//! The decisions of the drivers that run the forward-modelling pipeline
//! repeatedly: a Monte Carlo ensemble, which forces noise on for its duration,
//! and a batch sweep. Both run strictly in order, stop at the first failure,
//! and leave the pipeline's noise setting as they found it.
use vstd::prelude::*;

verus! {

/// What came of one run of the pipeline.
#[derive(Clone, Copy, Debug, PartialEq, Eq, Structural)]
pub enum Outcome {
    Succeeded,
    Failed,
}

/// What the caller does next.
#[derive(Clone, Copy, Debug, PartialEq, Eq, Structural)]
pub enum Step {
    /// Run the pipeline for the `index`-th element with its noise setting
    /// set to `add_noise`.
    Run { index: usize, add_noise: bool },
    /// Stop, and set the pipeline's noise setting back to `add_noise`;
    /// `complete` tells whether every run succeeded.
    Finish { add_noise: bool, complete: bool },
}

/// A sequence of pipeline runs in progress.
pub struct RunSchedule {
    total: usize,
    completed: usize,
    run_add_noise: bool,
    saved_add_noise: bool,
    aborted: bool,
}

/// The state of a [`RunSchedule`].
pub struct ScheduleView {
    /// Number of runs asked for.
    pub total: nat,
    /// Number of runs that have succeeded.
    pub completed: nat,
    /// Noise setting that each run gets.
    pub run_add_noise: bool,
    /// Noise setting that the pipeline had before the first run.
    pub saved_add_noise: bool,
    /// A run has failed.
    pub aborted: bool,
}

impl View for RunSchedule {
    type V = ScheduleView;

    closed spec fn view(&self) -> ScheduleView {
        ScheduleView {
            total: self.total as nat,
            completed: self.completed as nat,
            run_add_noise: self.run_add_noise,
            saved_add_noise: self.saved_add_noise,
            aborted: self.aborted,
        }
    }
}

/// The step that a schedule in state `s` calls for.
pub open spec fn step_of(s: ScheduleView) -> Step {
    if s.aborted {
        Step::Finish { add_noise: s.saved_add_noise, complete: false }
    } else if s.completed < s.total {
        Step::Run { index: s.completed as usize, add_noise: s.run_add_noise }
    } else {
        Step::Finish { add_noise: s.saved_add_noise, complete: true }
    }
}

/// The state after recording `outcome` in state `s`: while a run is due, a
/// success counts it and a failure aborts; otherwise nothing changes.
pub open spec fn record_spec(s: ScheduleView, outcome: Outcome) -> ScheduleView {
    if step_of(s) is Run {
        match outcome {
            Outcome::Succeeded => ScheduleView { completed: s.completed + 1, ..s },
            Outcome::Failed => ScheduleView { aborted: true, ..s },
        }
    } else {
        s
    }
}

/// The state after recording each of `outcomes` in turn, from `s`.
pub open spec fn replay(s: ScheduleView, outcomes: Seq<Outcome>) -> ScheduleView
    decreases outcomes.len(),
{
    if outcomes.len() == 0 {
        s
    } else {
        record_spec(replay(s, outcomes.drop_last()), outcomes.last())
    }
}

/// A fresh Monte Carlo schedule of `n` realizations on a pipeline whose
/// noise setting is `add_noise`.
pub open spec fn monte_carlo_start(add_noise: bool, n: nat) -> ScheduleView {
    ScheduleView { total: n, completed: 0, run_add_noise: true, saved_add_noise: add_noise, aborted: false }
}

/// Whatever the runs' outcomes, a Monte Carlo schedule never asks for more
/// than `n` runs, runs them in index order with noise on, and when it
/// finishes hands back the noise setting it started from. When every run
/// succeeds, it asks for exactly the runs `0..n` and then finishes complete.
pub proof fn monte_carlo_schedule_law(add_noise: bool, n: nat, outcomes: Seq<Outcome>)
    requires
        n <= usize::MAX,
    ensures
        ({
            let s = replay(monte_carlo_start(add_noise, n), outcomes);
            &&& s.total == n
            &&& s.run_add_noise
            &&& s.saved_add_noise == add_noise
            &&& s.completed <= n
            &&& s.completed <= outcomes.len()
            &&& match step_of(s) {
                Step::Run { index, add_noise: during } => index == s.completed && index < n && during,
                Step::Finish { add_noise: after, complete } => after == add_noise && (complete
                    ==> s.completed == n),
            }
        }),
        (forall|i: int| 0 <= i < outcomes.len() ==> outcomes[i] == Outcome::Succeeded)
            && outcomes.len() <= n ==> step_of(replay(monte_carlo_start(add_noise, n), outcomes))
            == if outcomes.len() < n {
            Step::Run { index: outcomes.len() as usize, add_noise: true }
        } else {
            Step::Finish { add_noise, complete: true }
        },
    decreases outcomes.len(),
{
    if outcomes.len() > 0 {
        let earlier = outcomes.drop_last();
        monte_carlo_schedule_law(add_noise, n, earlier);
        if forall|i: int| 0 <= i < outcomes.len() ==> outcomes[i] == Outcome::Succeeded {
            assert forall|i: int| 0 <= i < earlier.len() implies earlier[i] == Outcome::Succeeded by {
                assert(earlier[i] == outcomes[i]);
            }
            assert(outcomes.last() == outcomes[outcomes.len() - 1]);
        }
    }
}

impl RunSchedule {
    /// Well-formed: no more runs have succeeded than were asked for.
    pub closed spec fn wf(&self) -> bool {
        self.completed <= self.total
    }

    /// A Monte Carlo ensemble of `n` realizations, on a pipeline whose noise
    /// setting is `add_noise`: every realization runs with noise on.
    pub fn monte_carlo(add_noise: bool, n: usize) -> (r: RunSchedule)
        ensures
            r.wf(),
            r@ == (ScheduleView {
                total: n as nat,
                completed: 0,
                run_add_noise: true,
                saved_add_noise: add_noise,
                aborted: false,
            }),
    {
        RunSchedule { total: n, completed: 0, run_add_noise: true, saved_add_noise: add_noise, aborted: false }
    }

    /// A batch sweep over `n` elements, on a pipeline whose noise setting is
    /// `add_noise`: every run keeps that setting.
    pub fn batch(add_noise: bool, n: usize) -> (r: RunSchedule)
        ensures
            r.wf(),
            r@ == (ScheduleView {
                total: n as nat,
                completed: 0,
                run_add_noise: add_noise,
                saved_add_noise: add_noise,
                aborted: false,
            }),
    {
        RunSchedule { total: n, completed: 0, run_add_noise: add_noise, saved_add_noise: add_noise, aborted: false }
    }

    /// The next step: the next run in index order while runs remain and none
    /// failed; else finishing, which restores the saved noise setting.
    pub fn next_step(&self) -> (r: Step)
        requires
            self.wf(),
        ensures
            r == step_of(self@),
    {
        if self.aborted {
            Step::Finish { add_noise: self.saved_add_noise, complete: false }
        } else if self.completed < self.total {
            Step::Run { index: self.completed, add_noise: self.run_add_noise }
        } else {
            Step::Finish { add_noise: self.saved_add_noise, complete: true }
        }
    }

    /// Records the outcome of the run that `next_step` called for. A success
    /// moves on to the next index; a failure ends the schedule. Outside a
    /// run (finished or aborted) nothing changes.
    pub fn record(&mut self, outcome: Outcome)
        requires
            old(self).wf(),
        ensures
            final(self).wf(),
            final(self)@ == record_spec(old(self)@, outcome),
    {
        if !self.aborted && self.completed < self.total {
            match outcome {
                Outcome::Succeeded => {
                    self.completed = self.completed + 1;
                },
                Outcome::Failed => {
                    self.aborted = true;
                },
            }
        }
    }
}

} // verus!
