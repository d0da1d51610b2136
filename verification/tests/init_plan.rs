use ero_cassandra::{init, ClusterParams, Init, InitOutcome, InitStep, Severity};

fn sample() -> ClusterParams {
    ClusterParams {
        contact_points: "10.0.0.1,10.0.0.2".to_string(),
        keyspace: "events".to_string(),
        num_threads_io: 3,
        queue_size_io: 100,
        queue_size_event: 200,
        core_connections_per_host: 5,
        max_connections_per_host: 6,
        max_concurrent_creation: 7,
        max_requests_per_flush: 8,
        write_bytes_high_water_mark: 9000,
        pending_requests_high_water_mark: 10,
        load_balance_round_robin: true,
        token_aware_routing: true,
        use_schema: false,
    }
}

/// Applies every step and collects them, up to the connection.
fn all_steps(params: ClusterParams) -> (Vec<InitStep>, ClusterParams) {
    let mut steps = Vec::new();
    let mut current: Init = init(params);
    loop {
        steps.push(current.step());
        match current.advance(true) {
            InitOutcome::Pending(next) => current = next,
            InitOutcome::Connected(params) => return (steps, params),
            InitOutcome::Failed(_) => panic!("an applied step cannot fail"),
        }
    }
}

/// Applies the first `passed` steps and fails the one after them.
fn fail_after(params: ClusterParams, passed: usize) -> (InitStep, Severity<ClusterParams, ()>) {
    let mut current = init(params);
    for _ in 0..passed {
        match current.advance(true) {
            InitOutcome::Pending(next) => current = next,
            _ => panic!("the steps ended early"),
        }
    }
    let step = current.step();
    match current.advance(false) {
        InitOutcome::Failed(severity) => (step, severity),
        _ => panic!("a failed step must fail the connection"),
    }
}

#[test]
fn steps_come_in_the_order_of_a_connection() {
    let (steps, params) = all_steps(sample());
    assert_eq!(
        steps,
        vec![
            InitStep::ContactPoints("10.0.0.1,10.0.0.2".to_string()),
            InitStep::NumThreadsIo(3),
            InitStep::QueueSizeIo(100),
            InitStep::QueueSizeEvent(200),
            InitStep::CoreConnectionsPerHost(5),
            InitStep::MaxConnectionsPerHost(6),
            InitStep::MaxConcurrentCreation(7),
            InitStep::MaxRequestsPerFlush(8),
            InitStep::WriteBytesHighWaterMark(9000),
            InitStep::PendingRequestsHighWaterMark(10),
            InitStep::LoadBalanceRoundRobin,
            InitStep::TokenAwareRouting(true),
            InitStep::UseSchema(false),
            InitStep::ConnectKeyspace("events".to_string()),
        ]
    );
    assert_eq!(params, sample());
}

#[test]
fn default_params_give_fourteen_steps() {
    let (steps, params) = all_steps(ClusterParams::default());
    assert_eq!(steps.len(), 14);
    assert_eq!(steps[0], InitStep::ContactPoints("127.0.0.1".to_string()));
    assert_eq!(steps[1], InitStep::NumThreadsIo(2));
    assert_eq!(steps[2], InitStep::QueueSizeIo(16384));
    assert_eq!(steps[3], InitStep::QueueSizeEvent(32768));
    assert_eq!(steps[8], InitStep::WriteBytesHighWaterMark(1048576));
    assert_eq!(steps[9], InitStep::PendingRequestsHighWaterMark(512));
    assert_eq!(steps[10], InitStep::LoadBalanceRoundRobin);
    assert_eq!(steps[11], InitStep::TokenAwareRouting(false));
    assert_eq!(steps[12], InitStep::UseSchema(false));
    assert_eq!(steps[13], InitStep::ConnectKeyspace("default".to_string()));
    assert_eq!(params, ClusterParams::default());
}

#[test]
fn round_robin_is_no_step_where_it_is_not_asked_for() {
    let mut params = sample();
    params.load_balance_round_robin = false;
    let (steps, _) = all_steps(params);
    assert_eq!(steps.len(), 13);
    assert!(!steps.contains(&InitStep::LoadBalanceRoundRobin));
    assert_eq!(steps[9], InitStep::PendingRequestsHighWaterMark(10));
    assert_eq!(steps[10], InitStep::TokenAwareRouting(true));
    assert_eq!(steps[11], InitStep::UseSchema(false));
    assert_eq!(steps[12], InitStep::ConnectKeyspace("events".to_string()));
}

#[test]
fn first_step_is_the_contact_points() {
    let started = init(sample());
    assert_eq!(started.step(), InitStep::ContactPoints("10.0.0.1,10.0.0.2".to_string()));
}

#[test]
fn sizes_are_cut_to_their_low_32_bits() {
    let mut params = sample();
    params.num_threads_io = (1usize << 32) + 5;
    params.queue_size_io = u32::MAX as usize;
    params.queue_size_event = (u32::MAX as usize) + 1;
    params.pending_requests_high_water_mark = usize::MAX;
    let (steps, _) = all_steps(params);
    assert_eq!(steps[1], InitStep::NumThreadsIo(5));
    assert_eq!(steps[2], InitStep::QueueSizeIo(u32::MAX));
    assert_eq!(steps[3], InitStep::QueueSizeEvent(0));
    assert_eq!(steps[9], InitStep::PendingRequestsHighWaterMark(u32::MAX));
}

#[test]
fn failed_contact_points_may_be_tried_again_with_the_same_params() {
    let (step, severity) = fail_after(sample(), 0);
    assert_eq!(step, InitStep::ContactPoints("10.0.0.1,10.0.0.2".to_string()));
    assert_eq!(severity, Severity::Recoverable(sample()));
}

#[test]
fn a_setting_that_is_turned_down_is_fatal() {
    for passed in 1..=12 {
        let (step, severity) = fail_after(sample(), passed);
        assert!(!matches!(step, InitStep::ContactPoints(_) | InitStep::ConnectKeyspace(_)));
        assert_eq!(severity, Severity::Fatal(()));
    }
    let (step, severity) = fail_after(sample(), 1);
    assert_eq!(step, InitStep::NumThreadsIo(3));
    assert_eq!(severity, Severity::Fatal(()));
    let (step, severity) = fail_after(sample(), 9);
    assert_eq!(step, InitStep::PendingRequestsHighWaterMark(10));
    assert_eq!(severity, Severity::Fatal(()));
}

#[test]
fn failed_connection_may_be_tried_again_with_the_same_params() {
    let (step, severity) = fail_after(sample(), 13);
    assert_eq!(step, InitStep::ConnectKeyspace("events".to_string()));
    assert_eq!(severity, Severity::Recoverable(sample()));

    let mut params = sample();
    params.load_balance_round_robin = false;
    let (step, severity) = fail_after(params.clone(), 12);
    assert_eq!(step, InitStep::ConnectKeyspace("events".to_string()));
    assert_eq!(severity, Severity::Recoverable(params));
}

#[test]
fn last_step_connects() {
    let mut current = init(sample());
    for _ in 0..13 {
        match current.advance(true) {
            InitOutcome::Pending(next) => current = next,
            _ => panic!("the steps ended early"),
        }
    }
    match current.advance(true) {
        InitOutcome::Connected(params) => assert_eq!(params, sample()),
        _ => panic!("the last step must connect"),
    }
}
