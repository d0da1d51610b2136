use vstd::prelude::*;

verus! {

/// How bad a failure is. A recoverable failure hands back the state from which
/// the failed work can be tried again; a fatal one ends the work for good.
#[derive(Clone, Copy, Debug, PartialEq, Eq)]
pub enum Severity<R, F> {
    Recoverable(R),
    Fatal(F),
}

/// What a step of a loop asks for: another round from a new state, or the end
/// of the loop with its value.
#[derive(Clone, Copy, Debug, PartialEq, Eq)]
pub enum LoopSignal<S, V> {
    Continue(S),
    Break(V),
}

/// Whether a session is still fit for use once a consumer is done with it.
#[derive(Clone, Copy, Debug, PartialEq, Eq)]
pub enum UsingOutcome {
    Kept,
    Lost,
}

impl<R, F> Severity<R, F> {
    /// The severity without what it carries.
    pub open spec fn kind(self) -> Severity<(), ()> {
        match self {
            Severity::Recoverable(_) => Severity::Recoverable(()),
            Severity::Fatal(_) => Severity::Fatal(()),
        }
    }

    /// Drops what the severity carries and keeps which of the two it is.
    pub fn strip(self) -> (kind: Severity<(), ()>)
        ensures
            kind == self.kind(),
    {
        match self {
            Severity::Recoverable(_) => Severity::Recoverable(()),
            Severity::Fatal(_) => Severity::Fatal(()),
        }
    }
}

} // verus!
