use crate::protocol::Verdict;
use crate::severity::{LoopSignal, Severity, UsingOutcome};
use vstd::prelude::*;

verus! {

/// A loop of steps on a shared resource. Each round asks for a session, runs
/// one step on it with the loop's state, and tells the supervisor whether the
/// session is still good. The loop makes none of these calls itself: it is
/// told what happened and says what is to be done.
#[derive(Debug, PartialEq, Eq)]
pub enum RetryLoop<S> {
    /// The loop waits for a session and holds its state meanwhile.
    Waiting(S),
    /// A step is running, with the state, on a session of this generation.
    Running { generation: u64 },
    /// The loop has ended.
    Finished,
}

/// Why a loop ended without a value.
#[derive(Debug, PartialEq, Eq)]
pub enum LoopError<F> {
    /// A step failed for good.
    Fatal(F),
    /// The resource is gone for good.
    ResourceLost,
}

/// What happens to a loop.
#[derive(Debug, PartialEq, Eq)]
pub enum LoopEvent<S, V, F> {
    /// The answer to the request for a session.
    Answered(Verdict),
    /// The step has ended.
    Stepped(Result<(UsingOutcome, LoopSignal<S, V>), Severity<S, F>>),
}

/// What a loop wants done next.
#[derive(Debug, PartialEq, Eq)]
pub enum LoopNext<S, V, F> {
    /// Ask for a session.
    Acquire,
    /// Run the step with this state on the session that was granted.
    Run(S),
    /// Hand this to the caller of the loop.
    Return(Result<V, LoopError<F>>),
    /// Nothing: the event did not belong to the state it met.
    Nothing,
}

/// What a loop has to say of the session that a step was run on.
#[derive(Clone, Copy, Debug, PartialEq, Eq)]
pub struct Report {
    pub generation: u64,
    pub report: Result<UsingOutcome, Severity<(), ()>>,
}

#[derive(Debug, PartialEq, Eq)]
pub struct LoopOutput<S, V, F> {
    /// For the supervisor, if a step has ended.
    pub report: Option<Report>,
    pub next: LoopNext<S, V, F>,
}

impl<S> RetryLoop<S> {
    /// The loop after an event, and what it wants done.
    pub open spec fn next<V, F>(self, event: LoopEvent<S, V, F>) -> (
        RetryLoop<S>,
        LoopOutput<S, V, F>,
    ) {
        match (self, event) {
            (RetryLoop::Waiting(state), LoopEvent::Answered(Verdict::Granted { generation })) => (
                RetryLoop::Running { generation },
                LoopOutput { report: None, next: LoopNext::Run(state) },
            ),
            (RetryLoop::Waiting(state), LoopEvent::Answered(Verdict::Unavailable)) => (
                RetryLoop::Waiting(state),
                LoopOutput { report: None, next: LoopNext::Acquire },
            ),
            (RetryLoop::Waiting(_), LoopEvent::Answered(Verdict::ResourceLost)) => (
                RetryLoop::Finished,
                LoopOutput { report: None, next: LoopNext::Return(Err(LoopError::ResourceLost)) },
            ),
            (RetryLoop::Running { generation }, LoopEvent::Stepped(result)) => match result {
                Ok((outcome, LoopSignal::Continue(state))) => (
                    RetryLoop::Waiting(state),
                    LoopOutput {
                        report: Some(Report { generation, report: Ok(outcome) }),
                        next: LoopNext::Acquire,
                    },
                ),
                Ok((outcome, LoopSignal::Break(value))) => (
                    RetryLoop::Finished,
                    LoopOutput {
                        report: Some(Report { generation, report: Ok(outcome) }),
                        next: LoopNext::Return(Ok(value)),
                    },
                ),
                Err(Severity::Recoverable(state)) => (
                    RetryLoop::Waiting(state),
                    LoopOutput {
                        report: Some(Report { generation, report: Ok(UsingOutcome::Lost) }),
                        next: LoopNext::Acquire,
                    },
                ),
                Err(Severity::Fatal(reason)) => (
                    RetryLoop::Finished,
                    LoopOutput {
                        report: Some(
                            Report { generation, report: Err(Severity::Fatal(())) },
                        ),
                        next: LoopNext::Return(Err(LoopError::Fatal(reason))),
                    },
                ),
            },
            (unmoved, _) => (unmoved, LoopOutput { report: None, next: LoopNext::Nothing }),
        }
    }

    /// Takes in an event and says what is to be done.
    pub fn advance<V, F>(self, event: LoopEvent<S, V, F>) -> (moved: (
        RetryLoop<S>,
        LoopOutput<S, V, F>,
    ))
        ensures
            moved == self.next(event),
    {
        match self {
            RetryLoop::Waiting(state) => match event {
                LoopEvent::Answered(verdict) => answered(state, verdict),
                LoopEvent::Stepped(_) => (RetryLoop::Waiting(state), unmoved()),
            },
            RetryLoop::Running { generation } => match event {
                LoopEvent::Stepped(result) => stepped(generation, result),
                LoopEvent::Answered(_) => (RetryLoop::Running { generation }, unmoved()),
            },
            RetryLoop::Finished => (RetryLoop::Finished, unmoved()),
        }
    }
}

fn unmoved<S, V, F>() -> (out: LoopOutput<S, V, F>)
    ensures
        out == (LoopOutput::<S, V, F> { report: None, next: LoopNext::Nothing }),
{
    LoopOutput { report: None, next: LoopNext::Nothing }
}

/// A loop that waits with `state` hears of its request for a session.
fn answered<S, V, F>(state: S, verdict: Verdict) -> (moved: (RetryLoop<S>, LoopOutput<S, V, F>))
    ensures
        moved == RetryLoop::Waiting(state).next(LoopEvent::<S, V, F>::Answered(verdict)),
{
    let (stage, next) = match verdict {
        Verdict::Granted { generation } => (
            RetryLoop::Running { generation },
            LoopNext::Run(state),
        ),
        Verdict::Unavailable => (RetryLoop::Waiting(state), LoopNext::Acquire),
        Verdict::ResourceLost => (
            RetryLoop::Finished,
            LoopNext::Return(Err(LoopError::ResourceLost)),
        ),
    };
    (stage, LoopOutput { report: None, next })
}

/// A step on a session of `generation` has ended.
fn stepped<S, V, F>(
    generation: u64,
    result: Result<(UsingOutcome, LoopSignal<S, V>), Severity<S, F>>,
) -> (moved: (RetryLoop<S>, LoopOutput<S, V, F>))
    ensures
        moved == (RetryLoop::<S>::Running { generation }).next(LoopEvent::Stepped(result)),
{
    let (stage, report, next) = match result {
        Ok((outcome, signal)) => match signal {
            LoopSignal::Continue(state) => (
                RetryLoop::Waiting(state),
                Ok(outcome),
                LoopNext::Acquire,
            ),
            LoopSignal::Break(value) => (
                RetryLoop::Finished,
                Ok(outcome),
                LoopNext::Return(Ok(value)),
            ),
        },
        Err(Severity::Recoverable(state)) => (
            RetryLoop::Waiting(state),
            Ok(UsingOutcome::Lost),
            LoopNext::Acquire,
        ),
        Err(Severity::Fatal(reason)) => (
            RetryLoop::Finished,
            Err(Severity::Fatal(())),
            LoopNext::Return(Err(LoopError::Fatal(reason))),
        ),
    };
    (stage, LoopOutput { report: Some(Report { generation, report }), next })
}

/// Begins a loop from its first state: the loop waits for a session, and a
/// session is to be asked for.
pub fn using_resource_loop<S>(initial: S) -> (begun: RetryLoop<S>)
    ensures
        begun == RetryLoop::Waiting(initial),
{
    RetryLoop::Waiting(initial)
}

/// One use of a session of `generation`, outside any loop: what the
/// supervisor is told of the session, and what the caller gets. A failure is
/// handed to the caller as it is, and to the supervisor without what it
/// carries.
pub fn using_resource<V, R, F>(
    generation: u64,
    result: Result<(UsingOutcome, V), Severity<R, F>>,
) -> (used: (Report, Result<V, Severity<(), ()>>))
    ensures
        used.0.generation == generation,
        used.0.report == match result {
            Ok((outcome, _)) => Ok::<UsingOutcome, Severity<(), ()>>(outcome),
            Err(severity) => Err(severity.kind()),
        },
        used.1 == match result {
            Ok((_, value)) => Ok::<V, Severity<(), ()>>(value),
            Err(severity) => Err(severity.kind()),
        },
{
    match result {
        Ok((outcome, value)) => (Report { generation, report: Ok(outcome) }, Ok(value)),
        Err(severity) => {
            let kind = severity.strip();
            (Report { generation, report: Err(kind) }, Err(kind))
        },
    }
}

/// The loop after a run of events.
pub open spec fn loop_run<S, V, F>(
    start: RetryLoop<S>,
    events: Seq<LoopEvent<S, V, F>>,
) -> RetryLoop<S>
    decreases events.len(),
{
    if events.len() == 0 {
        start
    } else {
        loop_run(start, events.drop_last()).next(events.last()).0
    }
}

/// The state with which a step wants the loop to go on, if it does: the one
/// of its `Continue`, or the one that a failure which allows another try
/// hands back.
pub open spec fn goes_on_with<S, V, F>(
    result: Result<(UsingOutcome, LoopSignal<S, V>), Severity<S, F>>,
) -> Option<S> {
    match result {
        Ok((_, LoopSignal::Continue(state))) => Some(state),
        Err(Severity::Recoverable(state)) => Some(state),
        _ => None,
    }
}

/// A loop loses nothing of its state to a restart. Where a step wants the
/// loop to go on, be it after a failure, the loop waits with the state that
/// the step gave, however often it is told that no session can be had now,
/// and the next step is run with that very state. A failure that allows
/// another try has the session reported as lost.
pub proof fn law_state_survives_restart<S, V, F>(
    generation: u64,
    result: Result<(UsingOutcome, LoopSignal<S, V>), Severity<S, F>>,
    answers: Seq<LoopEvent<S, V, F>>,
    renewed: u64,
)
    requires
        goes_on_with(result) is Some,
        forall|i: int|
            0 <= i < answers.len() ==> answers[i] == LoopEvent::<S, V, F>::Answered(
                Verdict::Unavailable,
            ),
    ensures
        ({
            let state = goes_on_with(result).unwrap();
            let after = (RetryLoop::<S>::Running { generation }).next(LoopEvent::Stepped(result));
            let waited = loop_run(after.0, answers);
            &&& after.1.next == LoopNext::<S, V, F>::Acquire
            &&& result is Err ==> after.1.report == Some(
                Report { generation, report: Ok(UsingOutcome::Lost) },
            )
            &&& waited == RetryLoop::Waiting(state)
            &&& waited.next(
                LoopEvent::<S, V, F>::Answered(Verdict::Granted { generation: renewed }),
            ) == (
                RetryLoop::<S>::Running { generation: renewed },
                LoopOutput::<S, V, F> { report: None, next: LoopNext::Run(state) },
            )
        }),
    decreases answers.len(),
{
    if answers.len() > 0 {
        law_state_survives_restart(generation, result, answers.drop_last(), renewed);
    }
}

/// Whether the event is the end of a step that signals `Break` with the value.
pub open spec fn signals_break<S, V, F>(event: LoopEvent<S, V, F>, value: V) -> bool {
    event matches LoopEvent::Stepped(Ok((_, LoopSignal::Break(broken)))) && broken == value
}

/// A loop hands a value to its caller exactly when a step that was running
/// signals `Break`, and the value is the one of that signal.
pub proof fn law_break_ends_loop<S, V, F>(
    stage: RetryLoop<S>,
    event: LoopEvent<S, V, F>,
    value: V,
)
    ensures
        stage.next(event).1.next == LoopNext::<S, V, F>::Return(Ok(value)) <==> (stage is Running
            && signals_break(event, value)),
{
}

/// A loop ends when it hands something to its caller, and only then; once
/// ended it stays so and wants nothing done.
pub proof fn law_loop_returns_once<S, V, F>(stage: RetryLoop<S>, event: LoopEvent<S, V, F>)
    ensures
        stage.next(event).1.next is Return <==> !(stage is Finished) && stage.next(event).0
            is Finished,
        stage is Finished ==> stage.next(event) == (
            RetryLoop::<S>::Finished,
            LoopOutput::<S, V, F> { report: None, next: LoopNext::Nothing },
        ),
{
}

} // verus!
