use crate::cluster::{ClusterParams, ClusterParamsView};
use crate::severity::Severity;
use vstd::prelude::*;

verus! {

/// One thing to do to a fresh cluster client while a connection is prepared.
#[derive(Clone, Debug, PartialEq, Eq)]
pub enum InitStep {
    ContactPoints(String),
    NumThreadsIo(u32),
    QueueSizeIo(u32),
    QueueSizeEvent(u32),
    CoreConnectionsPerHost(u32),
    MaxConnectionsPerHost(u32),
    MaxConcurrentCreation(u32),
    MaxRequestsPerFlush(u32),
    WriteBytesHighWaterMark(u32),
    PendingRequestsHighWaterMark(u32),
    LoadBalanceRoundRobin,
    TokenAwareRouting(bool),
    UseSchema(bool),
    ConnectKeyspace(String),
}

/// An `InitStep` with its text as a sequence of characters.
pub enum InitStepView {
    ContactPoints(Seq<char>),
    NumThreadsIo(u32),
    QueueSizeIo(u32),
    QueueSizeEvent(u32),
    CoreConnectionsPerHost(u32),
    MaxConnectionsPerHost(u32),
    MaxConcurrentCreation(u32),
    MaxRequestsPerFlush(u32),
    WriteBytesHighWaterMark(u32),
    PendingRequestsHighWaterMark(u32),
    LoadBalanceRoundRobin,
    TokenAwareRouting(bool),
    UseSchema(bool),
    ConnectKeyspace(Seq<char>),
}

impl View for InitStep {
    type V = InitStepView;

    open spec fn view(&self) -> InitStepView {
        match self {
            InitStep::ContactPoints(s) => InitStepView::ContactPoints(s@),
            InitStep::NumThreadsIo(n) => InitStepView::NumThreadsIo(*n),
            InitStep::QueueSizeIo(n) => InitStepView::QueueSizeIo(*n),
            InitStep::QueueSizeEvent(n) => InitStepView::QueueSizeEvent(*n),
            InitStep::CoreConnectionsPerHost(n) => InitStepView::CoreConnectionsPerHost(*n),
            InitStep::MaxConnectionsPerHost(n) => InitStepView::MaxConnectionsPerHost(*n),
            InitStep::MaxConcurrentCreation(n) => InitStepView::MaxConcurrentCreation(*n),
            InitStep::MaxRequestsPerFlush(n) => InitStepView::MaxRequestsPerFlush(*n),
            InitStep::WriteBytesHighWaterMark(n) => InitStepView::WriteBytesHighWaterMark(*n),
            InitStep::PendingRequestsHighWaterMark(n) => InitStepView::PendingRequestsHighWaterMark(
                *n,
            ),
            InitStep::LoadBalanceRoundRobin => InitStepView::LoadBalanceRoundRobin,
            InitStep::TokenAwareRouting(b) => InitStepView::TokenAwareRouting(*b),
            InitStep::UseSchema(b) => InitStepView::UseSchema(*b),
            InitStep::ConnectKeyspace(s) => InitStepView::ConnectKeyspace(s@),
        }
    }
}

/// The steps that take a fresh client to a connected one, in order. The sizes
/// are handed to the client as 32-bit numbers: the low 32 bits of each. Round
/// robin balancing is a step only where it is asked for.
pub open spec fn init_steps(p: ClusterParamsView) -> Seq<InitStepView> {
    seq![
        InitStepView::ContactPoints(p.contact_points),
        InitStepView::NumThreadsIo(p.num_threads_io as u32),
        InitStepView::QueueSizeIo(p.queue_size_io as u32),
        InitStepView::QueueSizeEvent(p.queue_size_event as u32),
        InitStepView::CoreConnectionsPerHost(p.core_connections_per_host as u32),
        InitStepView::MaxConnectionsPerHost(p.max_connections_per_host as u32),
        InitStepView::MaxConcurrentCreation(p.max_concurrent_creation as u32),
        InitStepView::MaxRequestsPerFlush(p.max_requests_per_flush as u32),
        InitStepView::WriteBytesHighWaterMark(p.write_bytes_high_water_mark as u32),
        InitStepView::PendingRequestsHighWaterMark(p.pending_requests_high_water_mark as u32),
    ] + (if p.load_balance_round_robin {
        seq![InitStepView::LoadBalanceRoundRobin]
    } else {
        seq![]
    }) + seq![
        InitStepView::TokenAwareRouting(p.token_aware_routing),
        InitStepView::UseSchema(p.use_schema),
        InitStepView::ConnectKeyspace(p.keyspace),
    ]
}

/// Whether a failure of the step may be tried again. The contact points and
/// the connection depend on the network and may; a setting that the client
/// turns down will be turned down again.
pub open spec fn step_is_retryable(step: InitStepView) -> bool {
    step is ContactPoints || step is ConnectKeyspace
}

/// What a failed step means for the one who asked for the connection.
pub open spec fn step_failure(step: InitStepView, params: ClusterParams) -> Severity<
    ClusterParams,
    (),
> {
    if step_is_retryable(step) {
        Severity::Recoverable(params)
    } else {
        Severity::Fatal(())
    }
}

/// A connection in the making: the parameters it is made from and the step
/// that is due.
pub struct Init {
    params: ClusterParams,
    cursor: usize,
}

/// Where a connection in the making stands after a step.
pub enum InitOutcome {
    /// More steps are due.
    Pending(Init),
    /// The last step is done: the client is connected.
    Connected(ClusterParams),
    /// A step failed.
    Failed(Severity<ClusterParams, ()>),
}

impl Init {
    pub closed spec fn params(self) -> ClusterParams {
        self.params
    }

    /// How many steps are done.
    pub closed spec fn done(self) -> nat {
        self.cursor as nat
    }

    #[verifier::type_invariant]
    spec fn in_range(self) -> bool {
        self.cursor < init_steps(self.params@).len()
    }

    /// The step that is due.
    pub open spec fn due(self) -> InitStepView {
        init_steps(self.params()@)[self.done() as int]
    }

    /// Where the connection stands once the step that was due has been tried.
    pub open spec fn after(self, applied: bool) -> InitOutcomeView {
        if !applied {
            InitOutcomeView::Failed(step_failure(self.due(), self.params()))
        } else if self.done() + 1 < init_steps(self.params()@).len() {
            InitOutcomeView::Pending { params: self.params(), done: self.done() + 1 }
        } else {
            InitOutcomeView::Connected(self.params())
        }
    }

    /// The step that is due.
    pub fn step(&self) -> (step: InitStep)
        ensures
            self.done() < init_steps(self.params()@).len(),
            step@ == self.due(),
    {
        proof {
            use_type_invariant(self);
        }
        step_at(&self.params, self.cursor)
    }

    /// Takes in whether the step that was due could be applied.
    pub fn advance(self, applied: bool) -> (outcome: InitOutcome)
        ensures
            outcome@ == self.after(applied),
    {
        proof {
            use_type_invariant(&self);
        }
        if !applied {
            let retry = retryable_at(&self.params, self.cursor);
            if retry {
                InitOutcome::Failed(Severity::Recoverable(self.params))
            } else {
                InitOutcome::Failed(Severity::Fatal(()))
            }
        } else if self.cursor + 1 < step_count(&self.params) {
            InitOutcome::Pending(Init { params: self.params, cursor: self.cursor + 1 })
        } else {
            InitOutcome::Connected(self.params)
        }
    }
}

/// An `InitOutcome` as values that a contract can speak of.
pub enum InitOutcomeView {
    Pending { params: ClusterParams, done: nat },
    Connected(ClusterParams),
    Failed(Severity<ClusterParams, ()>),
}

impl View for InitOutcome {
    type V = InitOutcomeView;

    open spec fn view(&self) -> InitOutcomeView {
        match self {
            InitOutcome::Pending(init) => InitOutcomeView::Pending {
                params: init.params(),
                done: init.done(),
            },
            InitOutcome::Connected(params) => InitOutcomeView::Connected(*params),
            InitOutcome::Failed(severity) => InitOutcomeView::Failed(*severity),
        }
    }
}

/// Starts a connection from its parameters: nothing is done yet, and the
/// contact points are due.
pub fn init(params: ClusterParams) -> (init: Init)
    ensures
        init.params() == params,
        init.done() == 0,
        init.due() == InitStepView::ContactPoints(params.contact_points@),
{
    Init { params, cursor: 0 }
}

fn step_count(params: &ClusterParams) -> (n: usize)
    ensures
        n == init_steps(params@).len(),
        13 <= n <= 14,
{
    if params.load_balance_round_robin {
        14
    } else {
        13
    }
}

fn step_at(params: &ClusterParams, index: usize) -> (step: InitStep)
    requires
        index < init_steps(params@).len(),
    ensures
        step@ == init_steps(params@)[index as int],
{
    let shifted: usize = if index >= 10 && !params.load_balance_round_robin {
        index + 1
    } else {
        index
    };
    match shifted {
        0 => InitStep::ContactPoints(params.contact_points.clone()),
        1 => InitStep::NumThreadsIo(low_bits(params.num_threads_io)),
        2 => InitStep::QueueSizeIo(low_bits(params.queue_size_io)),
        3 => InitStep::QueueSizeEvent(low_bits(params.queue_size_event)),
        4 => InitStep::CoreConnectionsPerHost(low_bits(params.core_connections_per_host)),
        5 => InitStep::MaxConnectionsPerHost(low_bits(params.max_connections_per_host)),
        6 => InitStep::MaxConcurrentCreation(low_bits(params.max_concurrent_creation)),
        7 => InitStep::MaxRequestsPerFlush(low_bits(params.max_requests_per_flush)),
        8 => InitStep::WriteBytesHighWaterMark(low_bits(params.write_bytes_high_water_mark)),
        9 => InitStep::PendingRequestsHighWaterMark(
            low_bits(params.pending_requests_high_water_mark),
        ),
        10 => InitStep::LoadBalanceRoundRobin,
        11 => InitStep::TokenAwareRouting(params.token_aware_routing),
        12 => InitStep::UseSchema(params.use_schema),
        _ => InitStep::ConnectKeyspace(params.keyspace.clone()),
    }
}

fn retryable_at(params: &ClusterParams, index: usize) -> (retry: bool)
    requires
        index < init_steps(params@).len(),
    ensures
        retry == step_is_retryable(init_steps(params@)[index as int]),
{
    index == 0 || index + 1 == step_count(params)
}

/// The low 32 bits of a size.
fn low_bits(n: usize) -> (low: u32)
    ensures
        low == n as u32,
{
    #[verifier::truncate]
    (n as u32)
}

} // verus!
