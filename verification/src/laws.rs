use crate::model::SupervisorView;
use crate::policy::{RestartDecision, RestartPolicy};
use crate::protocol::{CallView, Event, OutputView, ReplyView, Stage, VerdictView};
use crate::severity::Severity;
use std::time::Duration;
use vstd::prelude::*;

verus! {

/// The supervisor after a run of events.
pub open spec fn run<P>(start: SupervisorView<P>, events: Seq<Event<P>>) -> SupervisorView<P>
    decreases events.len(),
{
    if events.len() == 0 {
        start
    } else {
        run(start, events.drop_last()).next(events.last()).0
    }
}

/// What the supervisor wants done after the last event of a run.
pub open spec fn last_output<P>(start: SupervisorView<P>, events: Seq<Event<P>>) -> OutputView<P>
    recommends
        events.len() > 0,
{
    run(start, events.drop_last()).next(events.last()).1
}

/// Whether the event makes an instance: `init` was running and has succeeded.
pub open spec fn makes_instance<P>(s: SupervisorView<P>, event: Event<P>) -> bool {
    s.stage == Stage::Initializing && event matches Event::InitDone(Ok(_))
}

/// How many instances a run has made.
pub open spec fn made<P>(start: SupervisorView<P>, events: Seq<Event<P>>) -> nat
    decreases events.len(),
{
    if events.len() == 0 {
        0
    } else {
        made(start, events.drop_last()) + if makes_instance(
            run(start, events.drop_last()),
            events.last(),
        ) {
            1nat
        } else {
            0nat
        }
    }
}

/// How many times a run has asked for `close`.
pub open spec fn closes<P>(start: SupervisorView<P>, events: Seq<Event<P>>) -> nat
    decreases events.len(),
{
    if events.len() == 0 {
        0
    } else {
        closes(start, events.drop_last()) + if last_output(start, events).call == CallView::<
            P,
        >::Close {
            1nat
        } else {
            0nat
        }
    }
}

/// How a supervisor stands to the instances made and the closes asked for.
pub open spec fn consistent<P>(s: SupervisorView<P>, made: nat, closes: nat) -> bool {
    match s.stage {
        Stage::Idle => made == 0 && closes == 0 && s.generation == 0 && !s.spent,
        Stage::Initializing => made == closes && if s.spent {
            s.generation + 1 == closes
        } else {
            closes == 0 && s.generation == 0
        },
        Stage::Closing(_) => made == closes && s.spent && s.generation + 1 == closes,
        Stage::Terminated => made == closes,
        _ => made == closes + 1 && s.generation == closes && !s.spent,
    }
}

/// Whether the supervisor is at its end or on the way there with nothing
/// left that could turn it back.
pub open spec fn doomed<P>(s: SupervisorView<P>) -> bool {
    s.stage == Stage::Terminated || s.stage == Stage::Closing(false)
}

/// Whether the event brings a fatal failure to the state that awaits it.
pub open spec fn is_fatal_for<P>(s: SupervisorView<P>, event: Event<P>) -> bool {
    match event {
        Event::InitDone(Err(Severity::Fatal(()))) => s.stage == Stage::Initializing,
        Event::AcquireDone(Err(Severity::Fatal(()))) => s.stage is Acquiring,
        Event::ReleaseDone(Err(Severity::Fatal(()))) => s.stage == Stage::Releasing,
        Event::Used { generation, report: Err(Severity::Fatal(())) } => s.stage == Stage::Ready
            && generation as nat == s.generation,
        Event::CloseDone(Err(())) => s.stage is Closing,
        _ => false,
    }
}

/// The run up to and with the event at `i` is the run up to it, and then it.
proof fn lemma_take_step<P>(events: Seq<Event<P>>, i: int)
    requires
        0 <= i < events.len(),
    ensures
        events.take(i + 1).drop_last() == events.take(i),
        events.take(i + 1).last() == events[i],
{
    assert(events.take(i + 1).drop_last() =~= events.take(i));
}

/// An event keeps the supervisor consistent with the counts.
proof fn lemma_step_consistent<P>(s: SupervisorView<P>, event: Event<P>, made: nat, closes: nat)
    requires
        consistent(s, made, closes),
    ensures
        consistent(
            s.next(event).0,
            made + if makes_instance(s, event) {
                1nat
            } else {
                0nat
            },
            closes + if s.next(event).1.call == CallView::<P>::Close {
                1nat
            } else {
                0nat
            },
        ),
{
}

/// At every point of a run the supervisor is consistent with the counts.
proof fn lemma_consistent<P>(start: SupervisorView<P>, events: Seq<Event<P>>)
    requires
        start.is_fresh(),
    ensures
        consistent(run(start, events), made(start, events), closes(start, events)),
    decreases events.len(),
{
    if events.len() > 0 {
        lemma_consistent(start, events.drop_last());
        lemma_step_consistent(
            run(start, events.drop_last()),
            events.last(),
            made(start, events.drop_last()),
            closes(start, events.drop_last()),
        );
    }
}

/// The closes asked for never grow fewer as a run goes on.
proof fn lemma_closes_grow<P>(start: SupervisorView<P>, events: Seq<Event<P>>, i: int, j: int)
    requires
        0 <= i <= j <= events.len(),
    ensures
        closes(start, events.take(i)) <= closes(start, events.take(j)),
    decreases j - i,
{
    if i < j {
        lemma_closes_grow(start, events, i, j - 1);
        lemma_take_step(events, j - 1);
    }
}

/// At every point of a run, every instance that was made has been handed to
/// `close` once, but for the live one, which has not been: the instances made
/// are one more than the closes asked for while an instance is live, and as
/// many at any other time.
pub proof fn law_close_once_per_instance<P>(start: SupervisorView<P>, events: Seq<Event<P>>)
    requires
        start.is_fresh(),
    ensures
        made(start, events) == closes(start, events) + if run(start, events).stage.is_live() {
            1nat
        } else {
            0nat
        },
{
    lemma_consistent(start, events);
}

/// Between the making of one instance and the making of the next, `close` is
/// asked for exactly once.
pub proof fn law_one_close_between_instances<P>(
    start: SupervisorView<P>,
    events: Seq<Event<P>>,
    i: int,
    j: int,
)
    requires
        start.is_fresh(),
        0 <= i < j < events.len(),
        makes_instance(run(start, events.take(i)), events[i]),
        makes_instance(run(start, events.take(j)), events[j]),
        made(start, events.take(j)) == made(start, events.take(i + 1)),
    ensures
        closes(start, events.take(j)) == closes(start, events.take(i)) + 1,
{
    lemma_consistent(start, events.take(i));
    lemma_consistent(start, events.take(j));
    lemma_take_step(events, i);
}

/// `init` is asked for only where no instance exists and no other call is
/// running, and `close` only for an instance that is live or was made this
/// moment, and that is live no more thereafter.
pub proof fn law_calls_in_turn<P>(s: SupervisorView<P>, event: Event<P>)
    ensures
        s.next(event).1.call is Init ==> !s.stage.is_live() && s.next(event).0.stage
            == Stage::Initializing && (s.stage == Stage::Idle || makes_no_instance(s, event)),
        s.next(event).1.call == CallView::<P>::Close ==> (s.stage.is_live() || makes_instance(
            s,
            event,
        )) && s.next(event).0.stage is Closing,
        s.next(event).1.call is Acquire || s.next(event).1.call == CallView::<P>::Release
            ==> s.next(event).0.stage.is_live(),
{
}

/// Whether the event ends a call that leaves no instance behind: a failed
/// `init`, or a `close`.
pub open spec fn makes_no_instance<P>(s: SupervisorView<P>, event: Event<P>) -> bool {
    (s.stage == Stage::Initializing && event matches Event::InitDone(Err(_))) || (s.stage
        is Closing && event is CloseDone)
}

/// One call at a time: while a call is running, the supervisor asks for no
/// other until it hears that the call has ended.
pub proof fn law_one_call_at_a_time<P>(s: SupervisorView<P>, event: Event<P>)
    requires
        s.stage != Stage::Idle,
        s.stage != Stage::Ready,
        s.stage != Stage::Terminated,
        s.next(event).1.call != CallView::<P>::Nothing,
    ensures
        match s.stage {
            Stage::Initializing => event is InitDone,
            Stage::Acquiring(_) => event is AcquireDone,
            Stage::Releasing => event is ReleaseDone,
            _ => event is CloseDone,
        },
{
}

/// What an instance is made from is carried forward and never made up:
/// `init` is asked for with what the supervisor held from its beginning, when
/// it begins, and else with what the failed `init` or the `close` before it
/// handed back.
pub proof fn law_params_are_carried_forward<P>(s: SupervisorView<P>, event: Event<P>, params: P)
    requires
        s.next(event).1.call matches CallView::Init { params: given, .. } && given == params,
    ensures
        match event {
            Event::Start => s.stage == Stage::Idle && s.params == Some(params),
            Event::InitDone(result) => s.stage == Stage::Initializing && result == Err::<
                (),
                Severity<P, ()>,
            >(Severity::Recoverable(params)),
            Event::CloseDone(result) => s.stage == Stage::Closing(true) && result == Ok::<P, ()>(
                params,
            ),
            _ => false,
        },
{
}

/// A supervisor holds what its first instance is to be made from until it
/// begins or ends, and nothing of the kind thereafter.
pub proof fn law_params_are_held_while_idle<P>(start: SupervisorView<P>, events: Seq<Event<P>>)
    requires
        start.is_fresh(),
    ensures
        run(start, events).params == if run(start, events).stage == Stage::Idle {
            start.params
        } else {
            None
        },
    decreases events.len(),
{
    if events.len() > 0 {
        law_params_are_held_while_idle(start, events.drop_last());
    }
}

/// A restart waits as the policy says: every `init` but the first is begun as
/// the policy decides, and the policy never changes.
pub proof fn law_restart_as_policy_says<P>(s: SupervisorView<P>, event: Event<P>)
    ensures
        s.next(event).0.policy == s.policy,
        s.next(event).1.call matches CallView::Init { attempt, wait, .. } ==> attempt == s.attempt
            && if event == Event::<P>::Start {
            wait == None::<Duration>
        } else {
            s.policy.decision(attempt) != RestartDecision::GiveUp && wait == s.policy.decision(
                attempt,
            ).wait()
        },
{
}

/// Under a policy of a fixed delay, every `init` that a run asks for after
/// its first is to begin only when that delay has passed.
pub proof fn law_delay_before_each_restart<P>(
    start: SupervisorView<P>,
    restart_after: Duration,
    events: Seq<Event<P>>,
)
    requires
        start.is_fresh(),
        start.policy == (RestartPolicy::Delay { restart_after }),
        events.len() > 0,
        last_output(start, events).call is Init,
    ensures
        if events.last() == Event::<P>::Start {
            last_output(start, events).call->wait == None::<Duration> && run(
                start,
                events.drop_last(),
            ).stage == Stage::Idle
        } else {
            last_output(start, events).call->wait == Some(restart_after)
        },
{
    lemma_policy_stays(start, events.drop_last());
    law_restart_as_policy_says(run(start, events.drop_last()), events.last());
}


/// A run changes neither the policy nor how many requests may wait.
proof fn lemma_policy_stays<P>(start: SupervisorView<P>, events: Seq<Event<P>>)
    ensures
        run(start, events).policy == start.policy,
        run(start, events).capacity == start.capacity,
    decreases events.len(),
{
    if events.len() > 0 {
        lemma_policy_stays(start, events.drop_last());
    }
}

/// A fatal failure of any call ends the supervision: at once where no
/// instance exists, and else by way of a `close` that nothing follows.
pub proof fn law_fatal_dooms<P>(s: SupervisorView<P>, event: Event<P>)
    requires
        is_fatal_for(s, event),
    ensures
        doomed(s.next(event).0),
        s.stage.is_live() ==> s.next(event).1.call == CallView::<P>::Close,
        !s.stage.is_live() ==> s.next(event).0.stage == Stage::Terminated,
{
}

/// Once doomed, a supervisor stays so: it asks for no `init`, `acquire` or
/// `release`, grants no session, keeps its generation, and the end of its
/// `close` is its end.
pub proof fn law_doom_is_permanent<P>(s: SupervisorView<P>, event: Event<P>)
    requires
        doomed(s),
    ensures
        doomed(s.next(event).0),
        s.next(event).0.generation == s.generation,
        s.next(event).1.call == CallView::<P>::Nothing,
        forall|g: nat| !s.next(event).1.grants(g),
        event is CloseDone && s.stage is Closing ==> s.next(event).0.stage == Stage::Terminated,
{
    let out = s.next(event).1;
    assert forall|g: nat| !out.grants(g) by {
        if out.grants(g) {
            let i = choose|i: int|
                0 <= i < out.replies.len() && (#[trigger] out.replies[i]).verdict
                    == (VerdictView::Granted { generation: g });
            assert(out.replies[i].verdict == VerdictView::Granted { generation: g });
        }
    }
}

/// A fatal failure is final. Whatever happens after it, the supervisor stays
/// doomed and keeps its generation, and asks for nothing but the `close` that
/// the failure itself called for.
pub proof fn law_fatal_is_final<P>(s: SupervisorView<P>, fatal: Event<P>, later: Seq<Event<P>>)
    requires
        is_fatal_for(s, fatal),
    ensures
        doomed(run(s.next(fatal).0, later)),
        run(s.next(fatal).0, later).generation == s.generation,
        later.len() > 0 ==> last_output(s.next(fatal).0, later).call == CallView::<P>::Nothing,
    decreases later.len(),
{
    law_fatal_dooms(s, fatal);
    if later.len() > 0 {
        law_fatal_is_final(s, fatal, later.drop_last());
        law_doom_is_permanent(run(s.next(fatal).0, later.drop_last()), later.last());
    }
}

/// A supervisor that has ended stays as it is whatever happens, and answers
/// every request with the loss of the resource.
pub proof fn law_terminated_answers_lost<P>(
    s: SupervisorView<P>,
    events: Seq<Event<P>>,
    request: u64,
)
    requires
        s.stage == Stage::Terminated,
    ensures
        run(s, events) == s,
        run(s, events).next(Event::Request(request)).1.replies == seq![
            ReplyView { request, verdict: VerdictView::ResourceLost },
        ],
    decreases events.len(),
{
    if events.len() > 0 {
        law_terminated_answers_lost(s, events.drop_last(), request);
    }
}

/// When a supervisor ends, every request that waited is told of the loss of
/// the resource, and none waits any more.
pub proof fn law_end_answers_the_waiting<P>(s: SupervisorView<P>, event: Event<P>, k: int)
    requires
        s.stage != Stage::Terminated,
        s.next(event).0.stage == Stage::Terminated,
        0 <= k < s.waiting.len(),
    ensures
        s.next(event).0.waiting.len() == 0,
        s.next(event).1.exit is Some,
        s.next(event).1.replies.len() == s.waiting.len(),
        s.next(event).1.replies[k] == (ReplyView {
            request: s.waiting[k],
            verdict: VerdictView::ResourceLost,
        }),
{
}

/// Whether the supervisor is on its way to the end that a shutdown asked
/// for: a call is running, and what follows it is the end or the `close`
/// before the end.
pub open spec fn winding_down<P>(s: SupervisorView<P>) -> bool {
    s.stopping && s.stage != Stage::Idle && s.stage != Stage::Ready && s.stage
        != Stage::Terminated
}

/// A shutdown is heeded at once and for good. From the moment it is asked
/// for, the supervisor is at its end or winding down, asks for no `init`,
/// `acquire` or `release` any more, and hands the instance to `close` as soon
/// as no call on it is running.
pub proof fn law_shutdown_winds_down<P>(s: SupervisorView<P>, event: Event<P>)
    requires
        winding_down(s) || event == Event::<P>::Shutdown,
    ensures
        winding_down(s.next(event).0) || s.next(event).0.stage == Stage::Terminated,
        s.next(event).1.call == CallView::<P>::Nothing || s.next(event).1.call == CallView::<
            P,
        >::Close,
        s.next(event).1.call == CallView::<P>::Close <==> s.stage == Stage::Ready || (s.stage
            is Acquiring && event is AcquireDone) || (s.stage == Stage::Releasing && event
            is ReleaseDone) || makes_instance(s, event),
{
}

/// The end is told once, when it comes, and again to each one who asks for a
/// shutdown thereafter.
pub proof fn law_exit_is_told<P>(s: SupervisorView<P>, event: Event<P>)
    ensures
        s.next(event).1.exit is Some <==> s.next(event).0.stage == Stage::Terminated && (s.stage
            != Stage::Terminated || event == Event::<P>::Shutdown),
{
}

/// How a supervisor stands to the requests that wait: they are no more than
/// may wait, and none waits while the instance is live with no call running.
pub open spec fn orderly<P>(s: SupervisorView<P>) -> bool {
    s.waiting.len() <= s.capacity && (s.stage == Stage::Ready ==> s.waiting.len() == 0)
}

/// Requests wait their turn: at every point of a run no more requests wait
/// than may, none waits while a live instance has no call running, and the
/// one served next is the one that has waited longest.
pub proof fn law_requests_wait_their_turn<P>(
    start: SupervisorView<P>,
    events: Seq<Event<P>>,
    event: Event<P>,
)
    requires
        start.is_fresh(),
    ensures
        orderly(run(start, events)),
        run(start, events).next(event).1.call matches CallView::Acquire { request } ==> if run(
            start,
            events,
        ).waiting.len() > 0 {
            request == run(start, events).waiting[0] && run(start, events).next(event).0.waiting
                == run(start, events).waiting.skip(1)
        } else {
            event == Event::<P>::Request(request)
        },
    decreases events.len(),
{
    if events.len() > 0 {
        law_requests_wait_their_turn(start, events.drop_last(), events.last());
        lemma_policy_stays(start, events.drop_last());
    }
    let s = run(start, events);
    assert(s.waiting.subrange(1, s.waiting.len() as int) == s.waiting.skip(1));
}

/// A session carries as its generation the number of closes that the run had
/// asked for when the session was granted.
pub proof fn law_generation_counts_closes<P>(
    start: SupervisorView<P>,
    events: Seq<Event<P>>,
    generation: nat,
)
    requires
        start.is_fresh(),
        events.len() > 0,
        last_output(start, events).grants(generation),
    ensures
        generation == closes(start, events.drop_last()),
{
    lemma_consistent(start, events.drop_last());
    let out = last_output(start, events);
    let i = choose|i: int|
        0 <= i < out.replies.len() && (#[trigger] out.replies[i]).verdict
            == (VerdictView::Granted { generation });
    assert(out.replies[i].verdict == VerdictView::Granted { generation });
}

/// Of two sessions of one run, the later has the greater generation if a
/// close was asked for from the grant of the first up to the grant of the
/// second, and the same generation if none was.
pub proof fn law_generations_tell_restarts<P>(
    start: SupervisorView<P>,
    events: Seq<Event<P>>,
    i: int,
    j: int,
    first: nat,
    second: nat,
)
    requires
        start.is_fresh(),
        0 < i < j <= events.len(),
        last_output(start, events.take(i)).grants(first),
        last_output(start, events.take(j)).grants(second),
    ensures
        first <= second,
        first == second <==> closes(start, events.take(j - 1)) == closes(
            start,
            events.take(i - 1),
        ),
        first == closes(start, events.take(i - 1)),
        second == closes(start, events.take(j - 1)),
{
    law_generation_counts_closes(start, events.take(i), first);
    law_generation_counts_closes(start, events.take(j), second);
    lemma_take_step(events, i - 1);
    lemma_take_step(events, j - 1);
    lemma_closes_grow(start, events, i - 1, j - 1);
}

} // verus!
