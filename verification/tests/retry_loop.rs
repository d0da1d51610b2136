use ero_cassandra::{
    using_resource, using_resource_loop, Admission, Call, Event, Exit, LoopError, LoopEvent,
    LoopNext, LoopOutput, LoopSignal, Report, RestartPolicy, RetryLoop, Severity, Stage,
    Supervisor, UsingOutcome, Verdict,
};

type Step = Result<(UsingOutcome, LoopSignal<u32, &'static str>), Severity<u32, &'static str>>;

fn answered(verdict: Verdict) -> LoopEvent<u32, &'static str, &'static str> {
    LoopEvent::Answered(verdict)
}

fn stepped(result: Step) -> LoopEvent<u32, &'static str, &'static str> {
    LoopEvent::Stepped(result)
}

fn nothing() -> LoopOutput<u32, &'static str, &'static str> {
    LoopOutput { report: None, next: LoopNext::Nothing }
}

#[test]
fn loop_begins_by_waiting_with_its_first_state() {
    assert_eq!(using_resource_loop(5u32), RetryLoop::Waiting(5));
    assert_eq!(using_resource_loop("start"), RetryLoop::Waiting("start"));
}

#[test]
fn granted_session_runs_the_step_with_the_state() {
    let (stage, output) =
        using_resource_loop(5u32).advance(answered(Verdict::Granted { generation: 3 }));
    assert_eq!(stage, RetryLoop::Running { generation: 3 });
    assert_eq!(output, LoopOutput { report: None, next: LoopNext::Run(5) });
}

#[test]
fn loop_asks_again_while_no_session_can_be_had() {
    let mut stage = using_resource_loop(5u32);
    for _ in 0..4 {
        let (next, output) = stage.advance(answered(Verdict::Unavailable));
        assert_eq!(next, RetryLoop::Waiting(5));
        assert_eq!(output, LoopOutput { report: None, next: LoopNext::Acquire });
        stage = next;
    }
}

#[test]
fn loop_ends_when_the_resource_is_lost() {
    let (stage, output) = using_resource_loop(5u32).advance(answered(Verdict::ResourceLost));
    assert_eq!(stage, RetryLoop::Finished);
    assert_eq!(
        output,
        LoopOutput { report: None, next: LoopNext::Return(Err(LoopError::ResourceLost)) }
    );
}

#[test]
fn continue_goes_on_with_the_new_state() {
    let running: RetryLoop<u32> = RetryLoop::Running { generation: 2 };
    let (stage, output) =
        running.advance(stepped(Ok((UsingOutcome::Kept, LoopSignal::Continue(6)))));
    assert_eq!(stage, RetryLoop::Waiting(6));
    assert_eq!(
        output,
        LoopOutput {
            report: Some(Report { generation: 2, report: Ok(UsingOutcome::Kept) }),
            next: LoopNext::Acquire,
        }
    );
    let running: RetryLoop<u32> = RetryLoop::Running { generation: 2 };
    let (stage, output) =
        running.advance(stepped(Ok((UsingOutcome::Lost, LoopSignal::Continue(7)))));
    assert_eq!(stage, RetryLoop::Waiting(7));
    assert_eq!(
        output.report,
        Some(Report { generation: 2, report: Ok(UsingOutcome::Lost) })
    );
    assert_eq!(output.next, LoopNext::Acquire);
}

#[test]
fn recoverable_failure_keeps_the_state() {
    let running: RetryLoop<u32> = RetryLoop::Running { generation: 4 };
    let (stage, output) = running.advance(stepped(Err(Severity::Recoverable(2))));
    assert_eq!(stage, RetryLoop::Waiting(2));
    assert_eq!(
        output,
        LoopOutput {
            report: Some(Report { generation: 4, report: Ok(UsingOutcome::Lost) }),
            next: LoopNext::Acquire,
        }
    );
    let (stage, output) = stage.advance(answered(Verdict::Unavailable));
    assert_eq!(output.next, LoopNext::Acquire);
    let (stage, output) = stage.advance(answered(Verdict::Unavailable));
    assert_eq!(output.next, LoopNext::Acquire);
    let (stage, output) = stage.advance(answered(Verdict::Granted { generation: 5 }));
    assert_eq!(stage, RetryLoop::Running { generation: 5 });
    assert_eq!(output, LoopOutput { report: None, next: LoopNext::Run(2) });
}

#[test]
fn break_ends_the_loop_with_its_value() {
    let running: RetryLoop<u32> = RetryLoop::Running { generation: 1 };
    let (stage, output) =
        running.advance(stepped(Ok((UsingOutcome::Kept, LoopSignal::Break("done")))));
    assert_eq!(stage, RetryLoop::Finished);
    assert_eq!(
        output,
        LoopOutput {
            report: Some(Report { generation: 1, report: Ok(UsingOutcome::Kept) }),
            next: LoopNext::Return(Ok("done")),
        }
    );
    let running: RetryLoop<u32> = RetryLoop::Running { generation: 1 };
    let (stage, output) =
        running.advance(stepped(Ok((UsingOutcome::Lost, LoopSignal::Break("over")))));
    assert_eq!(stage, RetryLoop::Finished);
    assert_eq!(
        output.report,
        Some(Report { generation: 1, report: Ok(UsingOutcome::Lost) })
    );
    assert_eq!(output.next, LoopNext::Return(Ok("over")));
}

#[test]
fn fatal_failure_ends_the_loop_and_is_told_to_the_supervisor() {
    let running: RetryLoop<u32> = RetryLoop::Running { generation: 9 };
    let (stage, output) = running.advance(stepped(Err(Severity::Fatal("broken"))));
    assert_eq!(stage, RetryLoop::Finished);
    assert_eq!(
        output,
        LoopOutput {
            report: Some(Report { generation: 9, report: Err(Severity::Fatal(())) }),
            next: LoopNext::Return(Err(LoopError::Fatal("broken"))),
        }
    );
}

#[test]
fn events_out_of_turn_change_nothing() {
    let (stage, output) = using_resource_loop(5u32)
        .advance(stepped(Ok((UsingOutcome::Kept, LoopSignal::Break("early")))));
    assert_eq!(stage, RetryLoop::Waiting(5));
    assert_eq!(output, nothing());
    let (stage, output) = stage.advance(stepped(Err(Severity::Recoverable(0))));
    assert_eq!(stage, RetryLoop::Waiting(5));
    assert_eq!(output, nothing());

    let running: RetryLoop<u32> = RetryLoop::Running { generation: 1 };
    let (stage, output) = running.advance(answered(Verdict::Granted { generation: 2 }));
    assert_eq!(stage, RetryLoop::Running { generation: 1 });
    assert_eq!(output, nothing());
    let (stage, output) = stage.advance(answered(Verdict::ResourceLost));
    assert_eq!(stage, RetryLoop::Running { generation: 1 });
    assert_eq!(output, nothing());
}

#[test]
fn finished_loop_stays_finished() {
    let mut stage: RetryLoop<u32> = RetryLoop::Finished;
    let events = [
        answered(Verdict::Granted { generation: 0 }),
        answered(Verdict::Unavailable),
        answered(Verdict::ResourceLost),
        stepped(Ok((UsingOutcome::Kept, LoopSignal::Continue(1)))),
        stepped(Ok((UsingOutcome::Kept, LoopSignal::Break("again")))),
        stepped(Err(Severity::Recoverable(1))),
        stepped(Err(Severity::Fatal("late"))),
    ];
    for event in events {
        let (next, output) = stage.advance(event);
        assert_eq!(next, RetryLoop::Finished);
        assert_eq!(output, nothing());
        stage = next;
    }
}

#[test]
fn single_use_reports_the_outcome_and_hands_on_the_value() {
    let result: Result<(UsingOutcome, u8), Severity<String, String>> = Ok((UsingOutcome::Kept, 7));
    assert_eq!(
        using_resource(3, result),
        (Report { generation: 3, report: Ok(UsingOutcome::Kept) }, Ok(7))
    );
    let result: Result<(UsingOutcome, u8), Severity<String, String>> = Ok((UsingOutcome::Lost, 8));
    assert_eq!(
        using_resource(4, result),
        (Report { generation: 4, report: Ok(UsingOutcome::Lost) }, Ok(8))
    );
}

#[test]
fn single_use_reports_a_failure_without_what_it_carries() {
    let result: Result<(UsingOutcome, u8), Severity<String, String>> =
        Err(Severity::Recoverable("state".to_string()));
    assert_eq!(
        using_resource(5, result),
        (
            Report { generation: 5, report: Err(Severity::Recoverable(())) },
            Err(Severity::Recoverable(()))
        )
    );
    let result: Result<(UsingOutcome, u8), Severity<String, String>> =
        Err(Severity::Fatal("reason".to_string()));
    assert_eq!(
        using_resource(6, result),
        (Report { generation: 6, report: Err(Severity::Fatal(())) }, Err(Severity::Fatal(())))
    );
}

#[test]
fn severity_is_stripped_to_its_kind() {
    let recoverable: Severity<u32, &str> = Severity::Recoverable(4);
    assert_eq!(recoverable.strip(), Severity::Recoverable(()));
    let fatal: Severity<u32, &str> = Severity::Fatal("gone");
    assert_eq!(fatal.strip(), Severity::Fatal(()));
}

/// What the instances of the world are made from.
#[derive(Clone, Copy, Debug, PartialEq)]
struct Endpoint {
    endpoint: &'static str,
    max_attempts: u32,
}

const ENDPOINT: Endpoint = Endpoint { endpoint: "X", max_attempts: 3 };

/// A supervisor together with a provider whose calls end at once, as the
/// script says.
struct World {
    supervisor: Supervisor<Endpoint>,
    inits: u64,
    closes: u64,
    acquires: u64,
    releases: u64,
    /// How many of the next `init` calls fail in a way that allows another.
    failing_inits: u64,
    answers: Vec<(u64, Verdict)>,
    exit: Option<Exit>,
}

impl World {
    fn new(policy: RestartPolicy) -> World {
        let mut world = World {
            supervisor: Supervisor::new(policy, Admission::FailFast, ENDPOINT),
            inits: 0,
            closes: 0,
            acquires: 0,
            releases: 0,
            failing_inits: 0,
            answers: Vec::new(),
            exit: None,
        };
        world.feed(Event::Start);
        world
    }

    /// Hands in the event and makes every call that follows from it.
    fn feed(&mut self, event: Event<Endpoint>) {
        let mut output = self.supervisor.step(event);
        loop {
            for reply in &output.replies {
                self.answers.push((reply.request, reply.verdict));
            }
            if output.exit.is_some() {
                self.exit = output.exit;
            }
            let done = match output.call {
                Call::Nothing => return,
                Call::Init { params, .. } => {
                    assert_eq!(params, ENDPOINT);
                    self.inits += 1;
                    if self.failing_inits > 0 {
                        self.failing_inits -= 1;
                        Event::InitDone(Err(Severity::Recoverable(params)))
                    } else {
                        Event::InitDone(Ok(()))
                    }
                },
                Call::Acquire { .. } => {
                    self.acquires += 1;
                    Event::AcquireDone(Ok(()))
                },
                Call::Release => {
                    self.releases += 1;
                    Event::ReleaseDone(Ok(()))
                },
                Call::Close => {
                    self.closes += 1;
                    Event::CloseDone(Ok(ENDPOINT))
                },
            };
            output = self.supervisor.step(done);
        }
    }

    fn request(&mut self, id: u64) -> Verdict {
        self.feed(Event::Request(id));
        let at = self.answers.iter().position(|(request, _)| *request == id);
        self.answers.remove(at.expect("every request is answered at once here")).1
    }

    fn report(&mut self, report: Option<Report>) {
        if let Some(Report { generation, report }) = report {
            self.feed(Event::Used { generation, report });
        }
    }
}

/// One loop that shares the world's supervisor with others. Its step breaks
/// once its counter has reached the limit, and else counts one up and asks
/// for a restart.
struct Worker {
    id: u64,
    limit: u32,
    stage: Option<RetryLoop<u32>>,
    next: LoopNext<u32, (), ()>,
    continues: u32,
    seen: Vec<u32>,
    returned: Option<Result<(), LoopError<()>>>,
}

impl Worker {
    fn new(id: u64, limit: u32) -> Worker {
        Worker {
            id,
            limit,
            stage: Some(using_resource_loop(0)),
            next: LoopNext::Acquire,
            continues: 0,
            seen: Vec::new(),
            returned: None,
        }
    }

    fn done(&self) -> bool {
        self.returned.is_some()
    }

    /// Does the one thing that the loop wants done next.
    fn act(&mut self, world: &mut World) {
        let stage = self.stage.take().expect("the loop is not over");
        let event = match std::mem::replace(&mut self.next, LoopNext::Nothing) {
            LoopNext::Acquire => LoopEvent::Answered(world.request(self.id)),
            LoopNext::Run(counter) => {
                self.seen.push(counter);
                if counter < self.limit {
                    self.continues += 1;
                    LoopEvent::Stepped(Err(Severity::Recoverable(counter + 1)))
                } else {
                    LoopEvent::Stepped(Ok((UsingOutcome::Lost, LoopSignal::Break(()))))
                }
            },
            LoopNext::Return(_) | LoopNext::Nothing => panic!("the loop is over"),
        };
        let (stage, output) = stage.advance(event);
        world.report(output.report);
        match output.next {
            LoopNext::Return(result) => {
                assert_eq!(stage, RetryLoop::Finished);
                self.returned = Some(result);
            },
            next => self.next = next,
        }
        self.stage = Some(stage);
    }
}

/// Runs the workers to their ends, the next to act being picked by `pick`
/// from those that are not done.
fn run_all(world: &mut World, workers: &mut Vec<Worker>, mut pick: impl FnMut(usize) -> usize) {
    loop {
        let live: Vec<usize> = (0..workers.len()).filter(|at| !workers[*at].done()).collect();
        if live.is_empty() {
            return;
        }
        let at = live[pick(live.len()) % live.len()];
        workers[at].act(world);
    }
}

fn run_ten(mut pick: impl FnMut(usize) -> usize) {
    let mut world = World::new(RestartPolicy::Immediate);
    let mut workers: Vec<Worker> = (0..10).map(|id| Worker::new(id, 3)).collect();
    run_all(&mut world, &mut workers, &mut pick);
    for worker in &workers {
        assert_eq!(worker.returned, Some(Ok(())));
        assert_eq!(worker.continues, 3);
        assert_eq!(worker.seen, vec![0, 1, 2, 3]);
    }
    assert_eq!(world.acquires, 40);
    assert_eq!(world.inits, world.closes + 1);
    assert_eq!(world.supervisor.generation(), world.closes);
    assert_eq!(world.supervisor.stage(), Stage::Ready);
    assert_eq!(world.exit, None);
}

#[test]
fn ten_loops_on_one_handle_each_continue_three_times_one_after_another() {
    run_ten(|_| 0);
}

#[test]
fn ten_loops_on_one_handle_each_continue_three_times_in_turns() {
    let mut turn = 0;
    run_ten(move |_| {
        turn += 1;
        turn
    });
}

#[test]
fn ten_loops_on_one_handle_each_continue_three_times_in_any_order() {
    for seed in 1..40u64 {
        let mut state = seed;
        run_ten(move |_| {
            state = state.wrapping_mul(6364136223846793005).wrapping_add(1442695040888963407);
            (state >> 33) as usize
        });
    }
}

#[test]
fn loop_at_two_resumes_at_two_after_a_restart() {
    let mut world = World::new(RestartPolicy::Immediate);
    let stage = using_resource_loop(2u32);
    let first = world.request(1);
    assert_eq!(first, Verdict::Granted { generation: 0 });
    let (stage, output): (_, LoopOutput<u32, (), ()>) = stage.advance(LoopEvent::Answered(first));
    assert_eq!(output.next, LoopNext::Run(2));
    let (stage, output): (_, LoopOutput<u32, (), ()>) =
        stage.advance(LoopEvent::Stepped(Err(Severity::Recoverable(2))));
    assert_eq!(output.next, LoopNext::Acquire);
    world.report(output.report);
    assert_eq!(world.closes, 1);
    assert_eq!(world.inits, 2);
    let second = world.request(1);
    assert_eq!(second, Verdict::Granted { generation: 1 });
    let (stage, output): (_, LoopOutput<u32, (), ()>) = stage.advance(LoopEvent::Answered(second));
    assert_eq!(stage, RetryLoop::Running { generation: 1 });
    assert_eq!(output.next, LoopNext::Run(2));
}

#[test]
fn two_recoverable_steps_then_break_make_two_restarts() {
    let params = ENDPOINT;
    let mut world = World::new(RestartPolicy::Immediate);
    let mut stage = using_resource_loop(0u32);
    let mut granted = Vec::new();
    let mut restarts = 0;
    let returned = loop {
        let verdict = world.request(0);
        if let Verdict::Granted { generation } = verdict {
            granted.push(generation);
        }
        let (waiting, output): (_, LoopOutput<u32, &'static str, ()>) =
            stage.advance(LoopEvent::Answered(verdict));
        let counter = match output.next {
            LoopNext::Run(counter) => counter + 1,
            _ => panic!("a granted session runs the step"),
        };
        let result = if counter < params.max_attempts {
            Err(Severity::Recoverable(counter))
        } else {
            Ok((UsingOutcome::Kept, LoopSignal::Break("done")))
        };
        let closes = world.closes;
        let (next, output): (_, LoopOutput<u32, &'static str, ()>) =
            waiting.advance(LoopEvent::Stepped(result));
        world.report(output.report);
        restarts += world.closes - closes;
        match output.next {
            LoopNext::Return(result) => break result,
            LoopNext::Acquire => stage = next,
            _ => panic!("a step ends the loop or asks for a session"),
        }
    };
    assert_eq!(returned, Ok("done"));
    assert_eq!(granted, vec![0, 1, 2]);
    assert_eq!(restarts, 2);
    assert_eq!(world.closes, 2);
    assert_eq!(world.inits, 3);
    assert_eq!(world.acquires, 3);
    assert_eq!(world.releases, 1);
    assert_eq!(world.supervisor.generation(), 2);
    assert_eq!(world.supervisor.stage(), Stage::Ready);
    assert_eq!(params.endpoint, "X");
}

#[test]
fn fatal_step_ends_the_loop_and_the_supervisor() {
    let mut world = World::new(RestartPolicy::Immediate);
    let stage = using_resource_loop(0u32);
    let verdict = world.request(0);
    let (stage, _): (_, LoopOutput<u32, (), &'static str>) =
        stage.advance(LoopEvent::Answered(verdict));
    let (stage, output): (_, LoopOutput<u32, (), &'static str>) =
        stage.advance(LoopEvent::Stepped(Err(Severity::Fatal("broken"))));
    assert_eq!(stage, RetryLoop::Finished);
    assert_eq!(output.next, LoopNext::Return(Err(LoopError::Fatal("broken"))));
    world.report(output.report);
    assert_eq!(world.closes, 1);
    assert_eq!(world.inits, 1);
    assert_eq!(world.exit, Some(Exit::Fatal));
    assert_eq!(world.supervisor.stage(), Stage::Terminated);

    let other = using_resource_loop(0u32);
    let verdict = world.request(1);
    assert_eq!(verdict, Verdict::ResourceLost);
    let (other, output): (_, LoopOutput<u32, (), &'static str>) =
        other.advance(LoopEvent::Answered(verdict));
    assert_eq!(other, RetryLoop::Finished);
    assert_eq!(output.next, LoopNext::Return(Err(LoopError::ResourceLost)));
}

#[test]
fn restart_with_failing_inits_keeps_the_generation_in_step_with_the_closes() {
    let mut world = World::new(RestartPolicy::Immediate);
    assert_eq!(world.request(0), Verdict::Granted { generation: 0 });
    world.failing_inits = 3;
    world.feed(Event::Used { generation: 0, report: Ok(UsingOutcome::Lost) });
    assert_eq!(world.closes, 1);
    assert_eq!(world.inits, 5);
    assert_eq!(world.supervisor.generation(), 1);
    assert_eq!(world.request(1), Verdict::Granted { generation: 1 });
}
