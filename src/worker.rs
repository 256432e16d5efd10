use vstd::prelude::*;

verus! {

/// The decision rule: a trial whose energy key is not above the current one is
/// accepted whatever the acceptance probability; any other trial is accepted
/// exactly when the probability exceeded the fresh uniform draw.
pub open spec fn accept_spec(current_key: u64, trial_key: u64, probability_exceeds_draw: bool) -> bool {
    trial_key <= current_key || probability_exceeds_draw
}

/// Applies the decision rule of the worker loop.
pub fn accept_trial(current_key: u64, trial_key: u64, probability_exceeds_draw: bool) -> (r: bool)
    ensures
        r == accept_spec(current_key, trial_key, probability_exceeds_draw),
        trial_key <= current_key ==> r,
{
    trial_key <= current_key || probability_exceeds_draw
}

/// Whether a key improves on a running best (no best yet: every key does).
pub open spec fn improves(best: Option<u64>, key: u64) -> bool {
    match best {
        Some(b) => key < b,
        None => true,
    }
}

/// A best key that is at least as low as another one.
pub open spec fn best_not_above(new_best: Option<u64>, old_best: Option<u64>) -> bool {
    match (new_best, old_best) {
        (Some(n), Some(o)) => n <= o,
        (Some(_), None) => true,
        (None, None) => true,
        (None, Some(_)) => false,
    }
}

/// The best keys that a worker records, one after each iteration, never go up:
/// where each step keeps the best at or below the one before, every later best
/// is at or below every earlier one.
pub proof fn lemma_best_keys_non_increasing(bests: Seq<Option<u64>>, i: int, j: int)
    requires
        forall|k: int|
            0 <= k < bests.len() - 1 ==> best_not_above(#[trigger] bests[k + 1], bests[k]),
        0 <= i <= j < bests.len(),
    ensures
        best_not_above(bests[j], bests[i]),
    decreases j - i,
{
    if i < j {
        lemma_best_keys_non_increasing(bests, i, j - 1);
        let k = j - 1;
        assert(best_not_above(bests[k + 1], bests[k]));
    }
}

/// What one iteration decided.
#[derive(Clone, Copy, Debug, PartialEq, Eq, Structural)]
pub struct StepOutcome {
    /// The trial replaces the current state.
    pub accepted: bool,
    /// The trial is the worker's new best state.
    pub improved: bool,
}

/// The decisions of one worker of the annealing loop, over energy keys: it
/// counts the iterations, applies the decision rule and keeps the best key
/// seen. Generating trials, evaluating them and meeting the other workers is
/// done by the caller, which hands each iteration's results to `step`.
pub struct WorkerLoop {
    iteration: u64,
    max_iterations: u64,
    best_key: Option<u64>,
}

impl WorkerLoop {
    pub closed spec fn iteration_spec(&self) -> nat {
        self.iteration as nat
    }

    pub closed spec fn max_iterations_spec(&self) -> nat {
        self.max_iterations as nat
    }

    pub closed spec fn best_key_spec(&self) -> Option<u64> {
        self.best_key
    }

    pub open spec fn finished_spec(&self) -> bool {
        self.iteration_spec() >= self.max_iterations_spec()
    }

    /// A loop that runs `max_iterations` iterations and has no best yet.
    pub fn new(max_iterations: u64) -> (r: WorkerLoop)
        ensures
            r.iteration_spec() == 0,
            r.max_iterations_spec() == max_iterations,
            r.best_key_spec() is None,
    {
        WorkerLoop { iteration: 0, max_iterations, best_key: None }
    }

    /// Iterations done so far.
    pub fn iteration(&self) -> (r: u64)
        ensures
            r == self.iteration_spec(),
    {
        self.iteration
    }

    /// The lowest energy key that was accepted so far, if any.
    pub fn best_key(&self) -> (r: Option<u64>)
        ensures
            r == self.best_key_spec(),
    {
        self.best_key
    }

    /// Whether the iteration budget is spent.
    pub fn is_finished(&self) -> (r: bool)
        ensures
            r == self.finished_spec(),
    {
        self.iteration >= self.max_iterations
    }

    /// The counter handed to the temperature schedule after the current
    /// iteration. Counting starts at 1, so that the schedules that divide by
    /// the counter, or by its logarithm, never see 0.
    pub fn schedule_counter(&self) -> (r: u64)
        requires
            !self.finished_spec(),
        ensures
            r == self.iteration_spec() + 1,
            r >= 1,
    {
        self.iteration + 1
    }

    /// Records one iteration: the energy keys of the current and the trial
    /// state, and whether the acceptance probability exceeded the uniform draw.
    pub fn step(&mut self, current_key: u64, trial_key: u64, probability_exceeds_draw: bool) -> (r:
        StepOutcome)
        requires
            !old(self).finished_spec(),
        ensures
            r.accepted == accept_spec(current_key, trial_key, probability_exceeds_draw),
            r.improved == (r.accepted && improves(old(self).best_key_spec(), trial_key)),
            final(self).best_key_spec() == (if r.improved {
                Some(trial_key)
            } else {
                old(self).best_key_spec()
            }),
            final(self).iteration_spec() == old(self).iteration_spec() + 1,
            final(self).max_iterations_spec() == old(self).max_iterations_spec(),
            best_not_above(final(self).best_key_spec(), old(self).best_key_spec()),
    {
        let accepted = accept_trial(current_key, trial_key, probability_exceeds_draw);
        let improved = accepted && match self.best_key {
            Some(b) => trial_key < b,
            None => true,
        };
        if improved {
            self.best_key = Some(trial_key);
        }
        self.iteration = self.iteration + 1;
        StepOutcome { accepted, improved }
    }
}

} // verus!
