use crate::severity::{Severity, UsingOutcome};
use std::time::Duration;
use vstd::prelude::*;

verus! {

/// The states of a supervisor's life, as its consumers see them.
#[derive(Clone, Copy, Debug, PartialEq, Eq)]
pub enum Phase {
    /// Nothing has been made yet.
    Idle,
    /// An instance is being made, or the wait before that is running.
    Initializing,
    /// An instance is live.
    Ready,
    /// The instance is being torn down.
    Closing,
    /// No instance exists and none will be made.
    Terminated,
}

/// The states of a supervisor's life, by what it waits for.
#[derive(Clone, Copy, Debug, PartialEq, Eq)]
pub enum Stage {
    Idle,
    /// `init` is running.
    Initializing,
    /// An instance is live and no call on it is running.
    Ready,
    /// An instance is live and `acquire` is running for this request.
    Acquiring(u64),
    /// An instance is live and `release` is running.
    Releasing,
    /// `close` is running; the flag says whether a new instance may follow.
    Closing(bool),
    Terminated,
}

impl Stage {
    /// The state as consumers see it.
    pub open spec fn phase(self) -> Phase {
        match self {
            Stage::Idle => Phase::Idle,
            Stage::Initializing => Phase::Initializing,
            Stage::Ready => Phase::Ready,
            Stage::Acquiring(_) => Phase::Ready,
            Stage::Releasing => Phase::Ready,
            Stage::Closing(_) => Phase::Closing,
            Stage::Terminated => Phase::Terminated,
        }
    }

    /// Whether an instance exists that has not been handed to `close`.
    pub open spec fn is_live(self) -> bool {
        self.phase() == Phase::Ready
    }
}

/// What happens to a supervisor: a request of one of its handles, or the end
/// of a call that it asked for. `P` is what an instance is made from.
#[derive(Debug, PartialEq, Eq)]
pub enum Event<P> {
    /// The supervision begins.
    Start,
    /// `init` has ended. Where it failed in a way that allows another try,
    /// it hands back what the next try is to be made from.
    InitDone(Result<(), Severity<P, ()>>),
    /// A consumer asks for a session; the number tells the requests apart.
    Request(u64),
    /// `acquire` has ended.
    AcquireDone(Result<(), Severity<(), ()>>),
    /// A consumer is done with a session of the given generation.
    Used { generation: u64, report: Result<UsingOutcome, Severity<(), ()>> },
    /// `release` has ended.
    ReleaseDone(Result<(), Severity<(), ()>>),
    /// `close` has ended; it fails for good or not at all, and hands back
    /// what the next instance can be made from.
    CloseDone(Result<P, ()>),
    /// The supervisor is asked to tear down and stop.
    Shutdown,
}

impl<P: Copy> Copy for Event<P> {

}

impl<P: Copy> Clone for Event<P> {
    fn clone(&self) -> (copy: Self)
        ensures
            copy == *self,
    {
        *self
    }
}

/// The call that a supervisor wants made next.
#[derive(Debug, PartialEq, Eq)]
pub enum Call<P> {
    /// None: the supervisor waits for what happens next.
    Nothing,
    /// `init` from `params`, as the try with this index since an instance
    /// was last live, to begin at once or when the given time has passed.
    Init { params: P, attempt: u64, wait: Option<Duration> },
    /// `acquire`, for this request.
    Acquire { request: u64 },
    /// `release`.
    Release,
    /// `close`.
    Close,
}

impl<P: Copy> Copy for Call<P> {

}

impl<P: Copy> Clone for Call<P> {
    fn clone(&self) -> (copy: Self)
        ensures
            copy == *self,
    {
        *self
    }
}

/// The answer to a request for a session.
#[derive(Clone, Copy, Debug, PartialEq, Eq)]
pub enum Verdict {
    /// A session of the instance with this generation.
    Granted { generation: u64 },
    /// No session can be had now; one may be later.
    Unavailable,
    /// No session will ever be had again.
    ResourceLost,
}

/// The answer to the request with this number.
#[derive(Clone, Copy, Debug, PartialEq, Eq)]
pub struct Reply {
    pub request: u64,
    pub verdict: Verdict,
}

/// Why a supervisor ended.
#[derive(Clone, Copy, Debug, PartialEq, Eq)]
pub enum Exit {
    /// A failure that allows no further try.
    Fatal,
    /// A failure that the restart policy does not restart after.
    GaveUp,
    /// A shutdown that was asked for.
    Shutdown,
}

/// What became of an event.
#[derive(Clone, Copy, Debug, PartialEq, Eq)]
pub enum Heed {
    /// It was taken in.
    Handled,
    /// It came while a call on the live instance was running and is to be
    /// handed in again when that call has ended.
    Deferred,
    /// It does not belong to the state it met, and nothing was done.
    Ignored,
}

/// What a supervisor wants done after an event.
#[derive(Debug, PartialEq, Eq)]
pub struct Output<P> {
    /// Answers to requests, in the order in which the requests came.
    pub replies: Vec<Reply>,
    pub call: Call<P>,
    /// Set when the supervisor has ended, with the reason.
    pub exit: Option<Exit>,
    pub heed: Heed,
}

/// A `Call` as mathematical values.
pub enum CallView<P> {
    Nothing,
    Init { params: P, attempt: nat, wait: Option<Duration> },
    Acquire { request: u64 },
    Release,
    Close,
}

/// A `Verdict` as mathematical values.
pub enum VerdictView {
    Granted { generation: nat },
    Unavailable,
    ResourceLost,
}

/// A `Reply` as mathematical values.
pub struct ReplyView {
    pub request: u64,
    pub verdict: VerdictView,
}

/// An `Output` as mathematical values.
pub struct OutputView<P> {
    pub replies: Seq<ReplyView>,
    pub call: CallView<P>,
    pub exit: Option<Exit>,
    pub heed: Heed,
}

impl<P> View for Call<P> {
    type V = CallView<P>;

    open spec fn view(&self) -> CallView<P> {
        match self {
            Call::Nothing => CallView::Nothing,
            Call::Init { params, attempt, wait } => CallView::Init {
                params: *params,
                attempt: *attempt as nat,
                wait: *wait,
            },
            Call::Acquire { request } => CallView::Acquire { request: *request },
            Call::Release => CallView::Release,
            Call::Close => CallView::Close,
        }
    }
}

impl View for Verdict {
    type V = VerdictView;

    open spec fn view(&self) -> VerdictView {
        match self {
            Verdict::Granted { generation } => VerdictView::Granted {
                generation: *generation as nat,
            },
            Verdict::Unavailable => VerdictView::Unavailable,
            Verdict::ResourceLost => VerdictView::ResourceLost,
        }
    }
}

impl View for Reply {
    type V = ReplyView;

    open spec fn view(&self) -> ReplyView {
        ReplyView { request: self.request, verdict: self.verdict@ }
    }
}

/// The replies as mathematical values, one for one.
pub open spec fn reply_views(replies: Seq<Reply>) -> Seq<ReplyView> {
    replies.map_values(|r: Reply| r@)
}

impl<P> View for Output<P> {
    type V = OutputView<P>;

    open spec fn view(&self) -> OutputView<P> {
        OutputView {
            replies: reply_views(self.replies@),
            call: self.call@,
            exit: self.exit,
            heed: self.heed,
        }
    }
}

impl<P> OutputView<P> {
    /// Nothing to do but to wait.
    pub open spec fn wait(replies: Seq<ReplyView>) -> OutputView<P> {
        OutputView { replies, call: CallView::Nothing, exit: None, heed: Heed::Handled }
    }

    /// A call to make.
    pub open spec fn call(replies: Seq<ReplyView>, call: CallView<P>) -> OutputView<P> {
        OutputView { replies, call, exit: None, heed: Heed::Handled }
    }

    /// The event was not taken in.
    pub open spec fn unheeded(heed: Heed) -> OutputView<P> {
        OutputView { replies: Seq::empty(), call: CallView::Nothing, exit: None, heed }
    }

    /// Whether the output answers a request with a session of the generation.
    pub open spec fn grants(self, generation: nat) -> bool {
        exists|i: int|
            0 <= i < self.replies.len() && (#[trigger] self.replies[i]).verdict
                == (VerdictView::Granted { generation })
    }
}

} // verus!
