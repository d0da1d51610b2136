use std::time::Duration;
use vstd::prelude::*;

verus! {

/// When a resource that failed in a way that allows another try is made anew.
#[derive(Clone, Copy, Debug, PartialEq, Eq)]
pub enum RestartPolicy {
    /// It is not: the first such failure ends the supervision.
    Never,
    /// At once.
    Immediate,
    /// After a fixed wait.
    Delay { restart_after: Duration },
}

/// What a policy says about one restart.
#[derive(Clone, Copy, Debug, PartialEq, Eq)]
pub enum RestartDecision {
    /// No further try is made.
    GiveUp,
    /// The next try starts at once.
    Now,
    /// The next try starts once this much time has passed.
    After(Duration),
}

impl RestartDecision {
    /// The time to let pass before the next try, where one is made and does
    /// not start at once.
    pub open spec fn wait(self) -> Option<Duration> {
        match self {
            RestartDecision::After(wait) => Some(wait),
            _ => None,
        }
    }
}

impl RestartPolicy {
    /// The decision for the try with the given index, counted from zero. The
    /// three policies are fixed rules: none of them looks at the index.
    pub open spec fn decision(self, attempt: nat) -> RestartDecision {
        match self {
            RestartPolicy::Never => RestartDecision::GiveUp,
            RestartPolicy::Immediate => RestartDecision::Now,
            RestartPolicy::Delay { restart_after } => RestartDecision::After(restart_after),
        }
    }

    /// Decides on the try with the given index, counted from zero.
    #[allow(unused_variables)]
    pub fn decide(&self, attempt: u64) -> (decision: RestartDecision)
        ensures
            decision == self.decision(attempt as nat),
    {
        match self {
            RestartPolicy::Never => RestartDecision::GiveUp,
            RestartPolicy::Immediate => RestartDecision::Now,
            RestartPolicy::Delay { restart_after } => RestartDecision::After(*restart_after),
        }
    }
}

} // verus!
