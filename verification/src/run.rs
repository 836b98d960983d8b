//! The order of a bench run: which concurrency step to drive next, and the
//! results collected so far.
//!
//! A run validates its configuration before any load is driven, then drives
//! every configured concurrency step once, in the configured order, and
//! collects one result per step. Driving a step is outside work done by the
//! caller; this schedule decides what comes next and keeps the results.
use vstd::prelude::*;

use crate::config::BenchConfig;
use crate::error::BenchError;

verus! {

/// Progress of one bench run: the planned concurrency steps and the results
/// of the steps completed so far, in order.
pub struct RunSchedule<S> {
    steps: Vec<usize>,
    results: Vec<S>,
}

impl<S> RunSchedule<S> {
    #[verifier::type_invariant]
    closed spec fn within_plan(&self) -> bool {
        self.results@.len() <= self.steps@.len()
    }

    /// The concurrency steps this run drives, in order.
    pub closed spec fn planned(&self) -> Seq<usize> {
        self.steps@
    }

    /// The results recorded so far, one per completed step, in order.
    pub closed spec fn recorded(&self) -> Seq<S> {
        self.results@
    }

    /// Starts a run for `config`. Fails with `NoSteps`, before any load is
    /// driven, exactly when the configuration names no concurrency step.
    pub fn start<T>(config: &BenchConfig<T>) -> (r: Result<Self, BenchError>)
        ensures
            config.concurrency_steps@.len() == 0 <==> r is Err,
            r matches Err(e) ==> e is NoSteps,
            r matches Ok(s) ==> s.planned() == config.concurrency_steps@ && s.recorded().len()
                == 0,
    {
        let n = config.concurrency_steps.len();
        if n == 0 {
            return Err(BenchError::NoSteps);
        }
        let mut steps: Vec<usize> = Vec::new();
        let mut i: usize = 0;
        while i < n
            invariant
                n == config.concurrency_steps@.len(),
                i <= n,
                steps@ == config.concurrency_steps@.subrange(0, i as int),
            decreases n - i,
        {
            steps.push(config.concurrency_steps[i]);
            i = i + 1;
            assert(steps@ =~= config.concurrency_steps@.subrange(0, i as int));
        }
        assert(steps@ =~= config.concurrency_steps@);
        Ok(RunSchedule { steps, results: Vec::new() })
    }

    /// The concurrency of the next step to drive; `None` once every planned
    /// step has a result.
    pub fn next_concurrency(&self) -> (c: Option<usize>)
        ensures
            c == if self.recorded().len() < self.planned().len() {
                Some(self.planned()[self.recorded().len() as int])
            } else {
                None::<usize>
            },
    {
        proof {
            use_type_invariant(self);
        }
        let done = self.results.len();
        if done < self.steps.len() {
            Some(self.steps[done])
        } else {
            None
        }
    }

    /// Whether every planned step has a result.
    pub fn is_finished(&self) -> (b: bool)
        ensures
            b == (self.recorded().len() == self.planned().len()),
    {
        proof {
            use_type_invariant(self);
        }
        self.results.len() == self.steps.len()
    }

    /// Records the result of the step just driven.
    pub fn record(&mut self, result: S)
        requires
            old(self).recorded().len() < old(self).planned().len(),
        ensures
            final(self).planned() == old(self).planned(),
            final(self).recorded() == old(self).recorded().push(result),
    {
        proof {
            use_type_invariant(&*self);
        }
        let mut results: Vec<S> = Vec::new();
        std::mem::swap(&mut results, &mut self.results);
        results.push(result);
        self.results = results;
    }

    /// Ends the run and hands back its results: exactly one per planned step,
    /// in the planned order.
    pub fn finish(self) -> (results: Vec<S>)
        requires
            self.recorded().len() == self.planned().len(),
        ensures
            results@ == self.recorded(),
            results@.len() == self.planned().len(),
    {
        self.results
    }
}

} // verus!
