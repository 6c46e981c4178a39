use vstd::prelude::*;

verus! {

/// Where an iterative run stands.
#[derive(PartialEq, Eq, Structural, Clone, Copy, Debug)]
pub enum Phase {
    Iterating,
    Converged,
    MaxIterationsReached,
}

/// The stopping rule of an iterative refinement: at most `max_rounds`
/// rounds, ending early on the first round reported as converged.
#[derive(Clone, Copy, Debug)]
pub struct Run {
    pub rounds: u32,
    pub max_rounds: u32,
    pub phase: Phase,
}

impl Run {
    /// The run is consistent: it never passes its cap, and it is still
    /// going only while rounds remain.
    pub open spec fn wf(&self) -> bool {
        &&& self.rounds <= self.max_rounds
        &&& (self.phase == Phase::Iterating ==> self.rounds < self.max_rounds)
        &&& (self.phase == Phase::MaxIterationsReached ==> self.rounds == self.max_rounds)
        &&& (self.phase == Phase::Converged ==> self.rounds >= 1)
    }

    /// A fresh run; with a cap of zero it is over before it starts.
    pub fn new(max_rounds: u32) -> (r: Run)
        ensures
            r.wf(),
            r.rounds == 0,
            r.max_rounds == max_rounds,
            r.phase == (if max_rounds == 0 {
                Phase::MaxIterationsReached
            } else {
                Phase::Iterating
            }),
    {
        let phase = if max_rounds == 0 {
            Phase::MaxIterationsReached
        } else {
            Phase::Iterating
        };
        Run { rounds: 0, max_rounds, phase }
    }

    /// Whether another round is to be run.
    pub fn is_running(&self) -> (r: bool)
        ensures
            r == (self.phase == Phase::Iterating),
    {
        self.phase == Phase::Iterating
    }

    /// Records one finished round and whether it met the convergence test.
    pub fn record_round(&mut self, converged: bool)
        requires
            old(self).wf(),
            old(self).phase == Phase::Iterating,
        ensures
            final(self).wf(),
            final(self).rounds == old(self).rounds + 1,
            final(self).max_rounds == old(self).max_rounds,
            final(self).phase == (if converged {
                Phase::Converged
            } else if old(self).rounds + 1 == old(self).max_rounds {
                Phase::MaxIterationsReached
            } else {
                Phase::Iterating
            }),
    {
        self.rounds = self.rounds + 1;
        if converged {
            self.phase = Phase::Converged;
        } else if self.rounds == self.max_rounds {
            self.phase = Phase::MaxIterationsReached;
        }
    }
}

} // verus!
