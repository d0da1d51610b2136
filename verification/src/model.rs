use crate::policy::{RestartDecision, RestartPolicy};
use crate::protocol::{CallView, Event, Exit, Heed, OutputView, ReplyView, Stage, VerdictView};
use crate::severity::{Severity, UsingOutcome};
use std::time::Duration;
use vstd::prelude::*;

verus! {

/// A supervisor as mathematical values. `P` is what an instance is made
/// from.
pub struct SupervisorView<P> {
    pub stage: Stage,
    /// What the first instance is to be made from, while nothing has been
    /// made yet.
    pub params: Option<P>,
    /// The number of the instance that is live or was live last: the first
    /// instance has number zero.
    pub generation: nat,
    /// Whether the instance of that number has been made and handed to
    /// `close`.
    pub spent: bool,
    /// How many times `init` has been called since an instance was last live.
    pub attempt: nat,
    pub policy: RestartPolicy,
    /// How many requests may wait for a session at a time.
    pub capacity: nat,
    /// The requests that wait for a session, oldest first.
    pub waiting: Seq<u64>,
    /// Whether a shutdown has been asked for.
    pub stopping: bool,
}

impl<P> SupervisorView<P> {
    /// A supervisor that has made nothing yet and holds what its first
    /// instance is to be made from.
    pub open spec fn idle(policy: RestartPolicy, capacity: nat, params: P) -> SupervisorView<P> {
        SupervisorView {
            stage: Stage::Idle,
            params: Some(params),
            generation: 0,
            spent: false,
            attempt: 0,
            policy,
            capacity,
            waiting: Seq::empty(),
            stopping: false,
        }
    }

    /// Whether the supervisor is as it was made: it has made nothing yet and
    /// holds what its first instance is to be made from.
    pub open spec fn is_fresh(self) -> bool {
        self.params matches Some(params) && self == Self::idle(self.policy, self.capacity, params)
    }

    /// The answer "lost for good" to every request that waits.
    pub open spec fn lost_replies(self) -> Seq<ReplyView> {
        self.waiting.map_values(
            |request: u64| ReplyView { request, verdict: VerdictView::ResourceLost },
        )
    }

    /// The end: after `first`, every request that waits is told that the
    /// resource is lost, and nothing is called any more.
    pub open spec fn terminate(self, first: Seq<ReplyView>, exit: Exit) -> (
        SupervisorView<P>,
        OutputView<P>,
    ) {
        (
            SupervisorView {
                stage: Stage::Terminated,
                params: None,
                waiting: Seq::empty(),
                ..self
            },
            OutputView {
                replies: first + self.lost_replies(),
                call: CallView::Nothing,
                exit: Some(exit),
                heed: Heed::Handled,
            },
        )
    }

    /// The instance is handed to `close`.
    pub open spec fn close(self, first: Seq<ReplyView>, restart: bool) -> (
        SupervisorView<P>,
        OutputView<P>,
    ) {
        (
            SupervisorView { stage: Stage::Closing(restart), spent: true, ..self },
            OutputView::call(first, CallView::Close),
        )
    }

    /// `init` from `params` is asked for, to begin at once or when the given
    /// time has passed.
    pub open spec fn begin(self, params: P, wait: Option<Duration>) -> (
        SupervisorView<P>,
        OutputView<P>,
    ) {
        (
            SupervisorView {
                stage: Stage::Initializing,
                params: None,
                attempt: self.attempt + 1,
                ..self
            },
            OutputView::call(Seq::empty(), CallView::Init { params, attempt: self.attempt, wait }),
        )
    }

    /// No instance exists and another try from `params` is allowed: the
    /// policy decides whether it is made.
    pub open spec fn retry(self, params: P) -> (SupervisorView<P>, OutputView<P>) {
        match self.policy.decision(self.attempt) {
            RestartDecision::GiveUp => self.terminate(Seq::empty(), Exit::GaveUp),
            restart => self.begin(params, restart.wait()),
        }
    }

    /// The instance is live and no call on it is running: it is closed if a
    /// shutdown was asked for; else the oldest request that waits is served;
    /// else the supervisor waits.
    pub open spec fn settle(self, first: Seq<ReplyView>) -> (SupervisorView<P>, OutputView<P>) {
        if self.stopping {
            self.close(first, false)
        } else if self.waiting.len() > 0 {
            (
                SupervisorView {
                    stage: Stage::Acquiring(self.waiting[0]),
                    waiting: self.waiting.subrange(1, self.waiting.len() as int),
                    ..self
                },
                OutputView::call(first, CallView::Acquire { request: self.waiting[0] }),
            )
        } else {
            (SupervisorView { stage: Stage::Ready, ..self }, OutputView::wait(first))
        }
    }

    /// A request that cannot be served at once waits if there is room, and is
    /// turned away for now if there is none.
    pub open spec fn enqueue(self, request: u64) -> (SupervisorView<P>, OutputView<P>) {
        if self.waiting.len() < self.capacity {
            (
                SupervisorView { waiting: self.waiting.push(request), ..self },
                OutputView::wait(Seq::empty()),
            )
        } else {
            (
                self,
                OutputView::wait(seq![ReplyView { request, verdict: VerdictView::Unavailable }]),
            )
        }
    }

    pub open spec fn unheeded(self, heed: Heed) -> (SupervisorView<P>, OutputView<P>) {
        (self, OutputView::unheeded(heed))
    }

    pub open spec fn on_start(self) -> (SupervisorView<P>, OutputView<P>) {
        match (self.stage, self.params) {
            (Stage::Idle, Some(params)) => self.begin(params, None),
            _ => self.unheeded(Heed::Ignored),
        }
    }

    pub open spec fn on_init_done(self, result: Result<(), Severity<P, ()>>) -> (
        SupervisorView<P>,
        OutputView<P>,
    ) {
        match self.stage {
            Stage::Initializing => match result {
                Ok(()) => (SupervisorView {
                    generation: if self.spent {
                        self.generation + 1
                    } else {
                        self.generation
                    },
                    spent: false,
                    attempt: 0,
                    ..self
                }).settle(Seq::empty()),
                Err(Severity::Recoverable(params)) => if self.stopping {
                    self.terminate(Seq::empty(), Exit::Shutdown)
                } else {
                    self.retry(params)
                },
                Err(Severity::Fatal(())) => self.terminate(Seq::empty(), Exit::Fatal),
            },
            _ => self.unheeded(Heed::Ignored),
        }
    }

    pub open spec fn on_request(self, request: u64) -> (SupervisorView<P>, OutputView<P>) {
        match self.stage {
            Stage::Terminated => (
                self,
                OutputView::wait(seq![ReplyView { request, verdict: VerdictView::ResourceLost }]),
            ),
            Stage::Ready => (
                SupervisorView { stage: Stage::Acquiring(request), ..self },
                OutputView::call(Seq::empty(), CallView::Acquire { request }),
            ),
            _ => self.enqueue(request),
        }
    }

    pub open spec fn on_acquire_done(self, result: Result<(), Severity<(), ()>>) -> (
        SupervisorView<P>,
        OutputView<P>,
    ) {
        match self.stage {
            Stage::Acquiring(request) => match result {
                Ok(()) => self.settle(
                    seq![
                        ReplyView {
                            request,
                            verdict: VerdictView::Granted { generation: self.generation },
                        },
                    ],
                ),
                Err(Severity::Recoverable(())) => self.close(
                    seq![ReplyView { request, verdict: VerdictView::Unavailable }],
                    !self.stopping,
                ),
                Err(Severity::Fatal(())) => self.close(
                    seq![ReplyView { request, verdict: VerdictView::ResourceLost }],
                    false,
                ),
            },
            _ => self.unheeded(Heed::Ignored),
        }
    }

    pub open spec fn on_used(
        self,
        generation: u64,
        report: Result<UsingOutcome, Severity<(), ()>>,
    ) -> (SupervisorView<P>, OutputView<P>) {
        if generation as nat != self.generation {
            self.unheeded(Heed::Ignored)
        } else {
            match self.stage {
                Stage::Ready => match report {
                    Ok(UsingOutcome::Kept) => (
                        SupervisorView { stage: Stage::Releasing, ..self },
                        OutputView::call(Seq::empty(), CallView::Release),
                    ),
                    Ok(UsingOutcome::Lost) => self.close(Seq::empty(), true),
                    Err(Severity::Recoverable(())) => self.close(Seq::empty(), true),
                    Err(Severity::Fatal(())) => self.close(Seq::empty(), false),
                },
                Stage::Acquiring(_) => self.unheeded(Heed::Deferred),
                Stage::Releasing => self.unheeded(Heed::Deferred),
                _ => self.unheeded(Heed::Ignored),
            }
        }
    }

    pub open spec fn on_release_done(self, result: Result<(), Severity<(), ()>>) -> (
        SupervisorView<P>,
        OutputView<P>,
    ) {
        match self.stage {
            Stage::Releasing => match result {
                Ok(()) => self.settle(Seq::empty()),
                Err(Severity::Recoverable(())) => self.close(Seq::empty(), !self.stopping),
                Err(Severity::Fatal(())) => self.close(Seq::empty(), false),
            },
            _ => self.unheeded(Heed::Ignored),
        }
    }

    pub open spec fn on_close_done(self, result: Result<P, ()>) -> (
        SupervisorView<P>,
        OutputView<P>,
    ) {
        match self.stage {
            Stage::Closing(restart) => match result {
                Err(()) => self.terminate(Seq::empty(), Exit::Fatal),
                Ok(params) => if self.stopping {
                    self.terminate(Seq::empty(), Exit::Shutdown)
                } else if restart {
                    self.retry(params)
                } else {
                    self.terminate(Seq::empty(), Exit::Fatal)
                },
            },
            _ => self.unheeded(Heed::Ignored),
        }
    }

    pub open spec fn on_shutdown(self) -> (SupervisorView<P>, OutputView<P>) {
        let asked = SupervisorView { stopping: true, ..self };
        match self.stage {
            Stage::Idle => asked.terminate(Seq::empty(), Exit::Shutdown),
            Stage::Ready => asked.close(Seq::empty(), false),
            Stage::Terminated => (
                self,
                OutputView {
                    replies: Seq::empty(),
                    call: CallView::Nothing,
                    exit: Some(Exit::Shutdown),
                    heed: Heed::Handled,
                },
            ),
            _ => (asked, OutputView::wait(Seq::empty())),
        }
    }

    /// The supervisor after an event, and what it wants done.
    pub open spec fn next(self, event: Event<P>) -> (SupervisorView<P>, OutputView<P>) {
        match event {
            Event::Start => self.on_start(),
            Event::InitDone(result) => self.on_init_done(result),
            Event::Request(request) => self.on_request(request),
            Event::AcquireDone(result) => self.on_acquire_done(result),
            Event::Used { generation, report } => self.on_used(generation, report),
            Event::ReleaseDone(result) => self.on_release_done(result),
            Event::CloseDone(result) => self.on_close_done(result),
            Event::Shutdown => self.on_shutdown(),
        }
    }
}

} // verus!
