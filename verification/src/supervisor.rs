use crate::model::SupervisorView;
use crate::policy::{RestartDecision, RestartPolicy};
use crate::protocol::{
    reply_views, Call, Event, Exit, Heed, Output, OutputView, Phase, Reply, ReplyView, Stage,
    Verdict,
};
use crate::severity::{Severity, UsingOutcome};
use std::collections::VecDeque;
use std::time::Duration;
use vstd::prelude::*;

verus! {

/// What a request meets that cannot be served at once.
#[derive(Clone, Copy, Debug, PartialEq, Eq)]
pub enum Admission {
    /// It is turned away for now.
    FailFast,
    /// It waits, as long as no more than `capacity` requests do.
    Queue { capacity: usize },
}

impl Admission {
    /// How many requests may wait at a time.
    pub open spec fn capacity(self) -> nat {
        match self {
            Admission::FailFast => 0,
            Admission::Queue { capacity } => capacity as nat,
        }
    }
}

/// The keeper of one resource: it decides when the resource is made, handed
/// out, given back and torn down. It makes none of these calls itself: it is
/// told what happened and says what is to be done. `P` is what an instance
/// is made from.
pub struct Supervisor<P> {
    stage: Stage,
    params: Option<P>,
    generation: u64,
    spent: bool,
    attempt: u64,
    policy: RestartPolicy,
    capacity: usize,
    waiting: VecDeque<u64>,
    stopping: bool,
}

impl<P> View for Supervisor<P> {
    type V = SupervisorView<P>;

    closed spec fn view(&self) -> SupervisorView<P> {
        SupervisorView {
            stage: self.stage,
            params: self.params,
            generation: self.generation as nat,
            spent: self.spent,
            attempt: self.attempt as nat,
            policy: self.policy,
            capacity: self.capacity as nat,
            waiting: self.waiting@,
            stopping: self.stopping,
        }
    }
}

impl<P> Supervisor<P> {
    /// Whether the counters have room for one more instance and one more try.
    pub open spec fn within_limits(self) -> bool {
        self@.generation < u64::MAX && self@.attempt < u64::MAX
    }

    /// A supervisor that has made nothing yet and holds what its first
    /// instance is to be made from.
    pub fn new(policy: RestartPolicy, admission: Admission, params: P) -> (supervisor: Supervisor<
        P,
    >)
        ensures
            supervisor@ == SupervisorView::idle(policy, admission.capacity(), params),
    {
        let capacity: usize = match admission {
            Admission::FailFast => 0,
            Admission::Queue { capacity } => capacity,
        };
        Supervisor {
            stage: Stage::Idle,
            params: Some(params),
            generation: 0,
            spent: false,
            attempt: 0,
            policy,
            capacity,
            waiting: VecDeque::new(),
            stopping: false,
        }
    }

    pub fn stage(&self) -> (stage: Stage)
        ensures
            stage == self@.stage,
    {
        self.stage
    }

    pub fn phase(&self) -> (phase: Phase)
        ensures
            phase == self@.stage.phase(),
    {
        match self.stage {
            Stage::Idle => Phase::Idle,
            Stage::Initializing => Phase::Initializing,
            Stage::Ready => Phase::Ready,
            Stage::Acquiring(_) => Phase::Ready,
            Stage::Releasing => Phase::Ready,
            Stage::Closing(_) => Phase::Closing,
            Stage::Terminated => Phase::Terminated,
        }
    }

    /// The number of the instance that is live or was live last.
    pub fn generation(&self) -> (generation: u64)
        ensures
            generation as nat == self@.generation,
    {
        self.generation
    }

    /// How many requests wait for a session.
    pub fn waiting(&self) -> (n: usize)
        ensures
            n as nat == self@.waiting.len(),
    {
        self.waiting.len()
    }

    /// How many requests may wait for a session at a time.
    pub fn capacity(&self) -> (capacity: usize)
        ensures
            capacity as nat == self@.capacity,
    {
        self.capacity
    }

    /// How many times `init` has been asked for since an instance was last
    /// live.
    pub fn attempt(&self) -> (attempt: u64)
        ensures
            attempt as nat == self@.attempt,
    {
        self.attempt
    }

    pub fn policy(&self) -> (policy: RestartPolicy)
        ensures
            policy == self@.policy,
    {
        self.policy
    }

    pub fn is_stopping(&self) -> (stopping: bool)
        ensures
            stopping == self@.stopping,
    {
        self.stopping
    }

    /// Whether the counters have room for one more instance and one more
    /// try: a supervisor steps only while they have.
    pub fn has_room(&self) -> (room: bool)
        ensures
            room == self.within_limits(),
    {
        self.generation < u64::MAX && self.attempt < u64::MAX
    }

    /// Ends the supervision: after `first`, every request that waits is told
    /// of the loss.
    fn terminate(&mut self, first: Vec<Reply>, exit: Exit) -> (out: Output<P>)
        ensures
            (final(self)@, out@) == old(self)@.terminate(reply_views(first@), exit),
    {
        let ghost begin = reply_views(first@);
        let ghost lost = self@.lost_replies();
        let mut replies = first;
        let n = self.waiting.len();
        let mut i: usize = 0;
        while i < n
            invariant
                i <= n == self.waiting@.len(),
                *self == *old(self),
                lost == old(self)@.lost_replies(),
                reply_views(replies@) == begin + lost.take(i as int),
            decreases n - i,
        {
            let reply = Reply { request: self.waiting[i], verdict: Verdict::ResourceLost };
            assert(reply_views(replies@.push(reply)) =~= begin + lost.take(i + 1)) by {
                assert(reply@ == lost[i as int]);
                assert(reply_views(replies@.push(reply)) =~= reply_views(replies@).push(reply@));
            }
            replies.push(reply);
            i += 1;
        }
        assert(lost.take(n as int) =~= lost);
        self.waiting.clear();
        self.params = None;
        self.stage = Stage::Terminated;
        Output { replies, call: Call::Nothing, exit: Some(exit), heed: Heed::Handled }
    }

    /// Asks for `close`.
    fn close(&mut self, first: Vec<Reply>, restart: bool) -> (out: Output<P>)
        ensures
            (final(self)@, out@) == old(self)@.close(reply_views(first@), restart),
    {
        self.stage = Stage::Closing(restart);
        self.spent = true;
        Output { replies: first, call: Call::Close, exit: None, heed: Heed::Handled }
    }

    /// Asks for `init` from `params`, to begin at once or after a wait.
    fn begin(&mut self, params: P, wait: Option<Duration>) -> (out: Output<P>)
        requires
            old(self).within_limits(),
        ensures
            (final(self)@, out@) == old(self)@.begin(params, wait),
    {
        let attempt = self.attempt;
        self.stage = Stage::Initializing;
        self.params = None;
        self.attempt = attempt + 1;
        Output {
            replies: none(),
            call: Call::Init { params, attempt, wait },
            exit: None,
            heed: Heed::Handled,
        }
    }

    /// Asks for the next `init` if the policy allows one, and ends the
    /// supervision if it does not.
    fn retry(&mut self, params: P) -> (out: Output<P>)
        requires
            old(self).within_limits(),
        ensures
            (final(self)@, out@) == old(self)@.retry(params),
    {
        match self.policy.decide(self.attempt) {
            RestartDecision::GiveUp => self.terminate(none(), Exit::GaveUp),
            RestartDecision::Now => self.begin(params, None),
            RestartDecision::After(wait) => self.begin(params, Some(wait)),
        }
    }

    /// Goes on with a live instance that no call is running on.
    fn settle(&mut self, first: Vec<Reply>) -> (out: Output<P>)
        ensures
            (final(self)@, out@) == old(self)@.settle(reply_views(first@)),
    {
        if self.stopping {
            self.close(first, false)
        } else {
            match self.waiting.pop_front() {
                Some(request) => {
                    self.stage = Stage::Acquiring(request);
                    Output {
                        replies: first,
                        call: Call::Acquire { request },
                        exit: None,
                        heed: Heed::Handled,
                    }
                },
                None => {
                    self.stage = Stage::Ready;
                    Output { replies: first, call: Call::Nothing, exit: None, heed: Heed::Handled }
                },
            }
        }
    }

    /// Lets the request wait if there is room, and turns it away if not.
    fn enqueue(&mut self, request: u64) -> (out: Output<P>)
        ensures
            (final(self)@, out@) == old(self)@.enqueue(request),
    {
        if self.waiting.len() < self.capacity {
            self.waiting.push_back(request);
            wait(none())
        } else {
            wait(one(request, Verdict::Unavailable))
        }
    }

    fn on_start(&mut self) -> (out: Output<P>)
        requires
            old(self).within_limits(),
        ensures
            (final(self)@, out@) == old(self)@.on_start(),
    {
        match self.stage {
            Stage::Idle => match self.params.take() {
                Some(params) => self.begin(params, None),
                None => unheeded(Heed::Ignored),
            },
            _ => unheeded(Heed::Ignored),
        }
    }

    fn on_init_done(&mut self, result: Result<(), Severity<P, ()>>) -> (out: Output<P>)
        requires
            old(self).within_limits(),
        ensures
            (final(self)@, out@) == old(self)@.on_init_done(result),
    {
        match self.stage {
            Stage::Initializing => match result {
                Ok(()) => {
                    if self.spent {
                        self.generation = self.generation + 1;
                    }
                    self.spent = false;
                    self.attempt = 0;
                    self.settle(none())
                },
                Err(Severity::Recoverable(params)) => {
                    if self.stopping {
                        self.terminate(none(), Exit::Shutdown)
                    } else {
                        self.retry(params)
                    }
                },
                Err(Severity::Fatal(())) => self.terminate(none(), Exit::Fatal),
            },
            _ => unheeded(Heed::Ignored),
        }
    }

    fn on_request(&mut self, request: u64) -> (out: Output<P>)
        ensures
            (final(self)@, out@) == old(self)@.on_request(request),
    {
        match self.stage {
            Stage::Terminated => wait(one(request, Verdict::ResourceLost)),
            Stage::Ready => {
                self.stage = Stage::Acquiring(request);
                let out = Output {
                    replies: none(),
                    call: Call::Acquire { request },
                    exit: None,
                    heed: Heed::Handled,
                };
                out
            },
            _ => self.enqueue(request),
        }
    }

    fn on_acquire_done(&mut self, result: Result<(), Severity<(), ()>>) -> (out: Output<P>)
        ensures
            (final(self)@, out@) == old(self)@.on_acquire_done(result),
    {
        match self.stage {
            Stage::Acquiring(request) => match result {
                Ok(()) => {
                    let granted = one(request, Verdict::Granted { generation: self.generation });
                    self.settle(granted)
                },
                Err(Severity::Recoverable(())) => {
                    let restart = !self.stopping;
                    self.close(one(request, Verdict::Unavailable), restart)
                },
                Err(Severity::Fatal(())) => self.close(one(request, Verdict::ResourceLost), false),
            },
            _ => unheeded(Heed::Ignored),
        }
    }

    fn on_used(&mut self, generation: u64, report: Result<UsingOutcome, Severity<(), ()>>) -> (out:
        Output<P>)
        ensures
            (final(self)@, out@) == old(self)@.on_used(generation, report),
    {
        if generation != self.generation {
            unheeded(Heed::Ignored)
        } else {
            match self.stage {
                Stage::Ready => match report {
                    Ok(UsingOutcome::Kept) => {
                        self.stage = Stage::Releasing;
                        let out = Output {
                            replies: none(),
                            call: Call::Release,
                            exit: None,
                            heed: Heed::Handled,
                        };
                                out
                    },
                    Ok(UsingOutcome::Lost) => self.close(none(), true),
                    Err(Severity::Recoverable(())) => self.close(none(), true),
                    Err(Severity::Fatal(())) => self.close(none(), false),
                },
                Stage::Acquiring(_) => unheeded(Heed::Deferred),
                Stage::Releasing => unheeded(Heed::Deferred),
                _ => unheeded(Heed::Ignored),
            }
        }
    }

    fn on_release_done(&mut self, result: Result<(), Severity<(), ()>>) -> (out: Output<P>)
        ensures
            (final(self)@, out@) == old(self)@.on_release_done(result),
    {
        match self.stage {
            Stage::Releasing => match result {
                Ok(()) => self.settle(none()),
                Err(Severity::Recoverable(())) => {
                    let restart = !self.stopping;
                    self.close(none(), restart)
                },
                Err(Severity::Fatal(())) => self.close(none(), false),
            },
            _ => unheeded(Heed::Ignored),
        }
    }

    fn on_close_done(&mut self, result: Result<P, ()>) -> (out: Output<P>)
        requires
            old(self).within_limits(),
        ensures
            (final(self)@, out@) == old(self)@.on_close_done(result),
    {
        match self.stage {
            Stage::Closing(restart) => match result {
                Err(()) => self.terminate(none(), Exit::Fatal),
                Ok(params) => {
                    if self.stopping {
                        self.terminate(none(), Exit::Shutdown)
                    } else if restart {
                        self.retry(params)
                    } else {
                        self.terminate(none(), Exit::Fatal)
                    }
                },
            },
            _ => unheeded(Heed::Ignored),
        }
    }

    fn on_shutdown(&mut self) -> (out: Output<P>)
        ensures
            (final(self)@, out@) == old(self)@.on_shutdown(),
    {
        match self.stage {
            Stage::Idle => {
                self.stopping = true;
                self.terminate(none(), Exit::Shutdown)
            },
            Stage::Ready => {
                self.stopping = true;
                self.close(none(), false)
            },
            Stage::Terminated => {
                let out = Output {
                    replies: none(),
                    call: Call::Nothing,
                    exit: Some(Exit::Shutdown),
                    heed: Heed::Handled,
                };
                out
            },
            _ => {
                self.stopping = true;
                wait(none())
            },
        }
    }

    /// Takes in an event and says what is to be done, where the counters
    /// have room; where they have none, nothing is done and nothing said.
    pub fn try_step(&mut self, event: Event<P>) -> (out: Option<Output<P>>)
        ensures
            old(self).within_limits() ==> (out matches Some(output) && (final(self)@, output@)
                == old(self)@.next(event)),
            !old(self).within_limits() ==> out is None && *final(self) == *old(self),
    {
        if self.has_room() {
            Some(self.step(event))
        } else {
            None
        }
    }

    /// Takes in an event and says what is to be done.
    pub fn step(&mut self, event: Event<P>) -> (out: Output<P>)
        requires
            old(self).within_limits(),
        ensures
            (final(self)@, out@) == old(self)@.next(event),
    {
        match event {
            Event::Start => self.on_start(),
            Event::InitDone(result) => self.on_init_done(result),
            Event::Request(request) => self.on_request(request),
            Event::AcquireDone(result) => self.on_acquire_done(result),
            Event::Used { generation, report } => self.on_used(generation, report),
            Event::ReleaseDone(result) => self.on_release_done(result),
            Event::CloseDone(result) => self.on_close_done(result),
            Event::Shutdown => self.on_shutdown(),
        }
    }
}

/// No replies.
fn none() -> (replies: Vec<Reply>)
    ensures
        reply_views(replies@) == Seq::<ReplyView>::empty(),
{
    let replies = Vec::new();
    assert(reply_views(replies@) =~= Seq::<ReplyView>::empty());
    replies
}

/// The one reply.
fn one(request: u64, verdict: Verdict) -> (replies: Vec<Reply>)
    ensures
        reply_views(replies@) == seq![ReplyView { request, verdict: verdict@ }],
{
    let mut replies = Vec::new();
    replies.push(Reply { request, verdict });
    assert(reply_views(replies@) =~= seq![ReplyView { request, verdict: verdict@ }]);
    replies
}

/// The replies, and nothing to call.
fn wait<P>(replies: Vec<Reply>) -> (out: Output<P>)
    ensures
        out@ == OutputView::<P>::wait(reply_views(replies@)),
{
    Output { replies, call: Call::Nothing, exit: None, heed: Heed::Handled }
}

/// An event that was not taken in.
fn unheeded<P>(heed: Heed) -> (out: Output<P>)
    ensures
        out@ == OutputView::<P>::unheeded(heed),
{
    let out = Output { replies: none(), call: Call::Nothing, exit: None, heed };
    assert(out@.replies == Seq::<ReplyView>::empty());
    out
}

} // verus!
