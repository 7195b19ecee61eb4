use crate::dispatcher::{
    after_handling, close, finish, poll, react, subscribe_from, unsubscribe_from, ActionView,
    ExitReason, Input, Phase, MAX_RECONNECT_ATTEMPTS, RECONNECT_INTERVAL_MS,
};
use crate::error::MsgHandlingError;
use crate::message::Message;
use vstd::prelude::*;

verus! {

/// The loop over a whole run: the phase it ends in after `inputs`, and
/// the actions it has asked for, one for each input.
pub open spec fn run(topics: Seq<Seq<char>>, phase: Phase, inputs: Seq<Input>) -> (
    Phase,
    Seq<ActionView>,
)
    decreases inputs.len(),
{
    if inputs.len() == 0 {
        (phase, Seq::empty())
    } else {
        let (next, action) = react(topics, phase, inputs.first());
        let (last, actions) = run(topics, next, inputs.drop_first());
        (last, seq![action] + actions)
    }
}

/// `unit`, `times` times in a row.
pub open spec fn repeated<A>(unit: Seq<A>, times: nat) -> Seq<A>
    decreases times,
{
    if times == 0 {
        Seq::empty()
    } else {
        unit + repeated(unit, (times - 1) as nat)
    }
}

/// The pause before a reconnect attempt, and the attempt.
pub open spec fn attempt_actions() -> Seq<ActionView> {
    seq![ActionView::Sleep { millis: RECONNECT_INTERVAL_MS }, ActionView::Reconnect]
}

/// What the driver reports between one failed reconnect attempt and the
/// next: that the attempt failed, and that the pause is over.
pub open spec fn failure_reports() -> Seq<Input> {
    seq![Input::Failed, Input::Completed]
}

/// The request to unsubscribe each of `topics`, in their order.
pub open spec fn unsubscribes(topics: Seq<Seq<char>>) -> Seq<ActionView> {
    Seq::new(topics.len(), |i: int| ActionView::Unsubscribe { topic: topics[i] })
}

/// Whether `input` reports how an action went.
pub open spec fn is_report(input: Input) -> bool {
    input is Completed || input is Failed
}

/// Whether `action` belongs to the teardown of the loop.
pub open spec fn is_teardown(action: ActionView) -> bool {
    action is CheckConnection || action is Unsubscribe || action is Disconnect || action is Exit
}

/// A run over two stretches of inputs is the run over the first,
/// followed by the run over the second from where the first ended.
pub proof fn lemma_run_in_two(
    topics: Seq<Seq<char>>,
    phase: Phase,
    first: Seq<Input>,
    second: Seq<Input>,
)
    ensures
        ({
            let (middle, done) = run(topics, phase, first);
            let (last, rest) = run(topics, middle, second);
            run(topics, phase, first + second) == (last, done + rest)
        }),
    decreases first.len(),
{
    let (middle, done) = run(topics, phase, first);
    let (last, rest) = run(topics, middle, second);
    if first.len() == 0 {
        assert(first + second =~= second);
        assert(done + rest =~= rest);
    } else {
        let (next, action) = react(topics, phase, first.first());
        lemma_run_in_two(topics, next, first.drop_first(), second);
        assert((first + second).drop_first() =~= first.drop_first() + second);
        let (_, others) = run(topics, next, first.drop_first());
        assert(seq![action] + (others + rest) =~= (seq![action] + others) + rest);
    }
}

/// How often `wanted` stands in `actions`.
pub open spec fn occurrences(actions: Seq<ActionView>, wanted: ActionView) -> nat
    decreases actions.len(),
{
    if actions.len() == 0 {
        0
    } else if actions.first() == wanted {
        1 + occurrences(actions.drop_first(), wanted)
    } else {
        occurrences(actions.drop_first(), wanted)
    }
}

/// What stands in two stretches of actions stands in one of them.
pub proof fn lemma_occurrences_in_two(
    first: Seq<ActionView>,
    second: Seq<ActionView>,
    wanted: ActionView,
)
    ensures
        occurrences(first + second, wanted) == occurrences(first, wanted) + occurrences(
            second,
            wanted,
        ),
    decreases first.len(),
{
    if first.len() == 0 {
        assert(first + second =~= second);
    } else {
        lemma_occurrences_in_two(first.drop_first(), second, wanted);
        assert((first + second).drop_first() =~= first.drop_first() + second);
    }
}

/// A number of reconnect attempts in a row holds that many pauses and
/// that many attempts.
pub proof fn lemma_attempts_counted(times: nat)
    ensures
        occurrences(repeated(attempt_actions(), times), ActionView::Reconnect) == times,
        occurrences(
            repeated(attempt_actions(), times),
            ActionView::Sleep { millis: RECONNECT_INTERVAL_MS },
        ) == times,
    decreases times,
{
    if times > 0 {
        let rest = repeated(attempt_actions(), (times - 1) as nat);
        lemma_attempts_counted((times - 1) as nat);
        lemma_occurrences_in_two(attempt_actions(), rest, ActionView::Reconnect);
        lemma_occurrences_in_two(
            attempt_actions(),
            rest,
            ActionView::Sleep { millis: RECONNECT_INTERVAL_MS },
        );
        reveal_with_fuel(occurrences, 3);
    }
}

/// While attempts remain, each failed attempt is followed by a pause
/// and the next attempt.
proof fn lemma_failed_attempts(topics: Seq<Seq<char>>, attempt: u32, failures: nat)
    requires
        1 <= attempt,
        attempt + failures <= MAX_RECONNECT_ATTEMPTS,
    ensures
        run(topics, Phase::Reconnecting { attempt }, repeated(failure_reports(), failures)) == (
            Phase::Reconnecting { attempt: (attempt + failures) as u32 },
            repeated(attempt_actions(), failures),
        ),
    decreases failures,
{
    if failures > 0 {
        let next = (attempt + 1) as u32;
        let rest = repeated(failure_reports(), (failures - 1) as nat);
        assert(run(topics, Phase::Reconnecting { attempt }, failure_reports()) == (
            Phase::Reconnecting { attempt: next },
            attempt_actions(),
        )) by {
            reveal_with_fuel(run, 3);
            let after = failure_reports().drop_first();
            assert(after.first() == Input::Completed);
            assert(after.drop_first().len() == 0);
            assert(seq![ActionView::Sleep { millis: RECONNECT_INTERVAL_MS }] + (seq![
                ActionView::Reconnect,
            ] + Seq::<ActionView>::empty()) =~= attempt_actions());
        }
        lemma_failed_attempts(topics, next, (failures - 1) as nat);
        lemma_run_in_two(topics, Phase::Reconnecting { attempt }, failure_reports(), rest);
    }
}

/// What the driver reports when the connection is found lost, the first
/// `failures` attempts to reconnect fail and the attempts go on.
pub open spec fn lost_connection_reports(failures: nat) -> Seq<Input> {
    seq![Input::Liveness { connected: false }, Input::Completed] + repeated(
        failure_reports(),
        failures,
    )
}

/// When the connection is found lost and the first `failures` attempts
/// to reconnect fail, the loop pauses and tries `failures + 1` times.
proof fn lemma_lost_connection(topics: Seq<Seq<char>>, failures: nat)
    requires
        failures < MAX_RECONNECT_ATTEMPTS,
    ensures
        run(topics, Phase::Probing, lost_connection_reports(failures)) == (
            Phase::Reconnecting { attempt: (failures + 1) as u32 },
            repeated(attempt_actions(), failures + 1),
        ),
{
    let begin = seq![Input::Liveness { connected: false }, Input::Completed];
    assert(run(topics, Phase::Probing, begin) == (
        Phase::Reconnecting { attempt: 1 },
        attempt_actions(),
    )) by {
        reveal_with_fuel(run, 3);
        let after = begin.drop_first();
        assert(after.first() == Input::Completed);
        assert(after.drop_first().len() == 0);
        assert(seq![ActionView::Sleep { millis: RECONNECT_INTERVAL_MS }] + (seq![
            ActionView::Reconnect,
        ] + Seq::<ActionView>::empty()) =~= attempt_actions());
    }
    lemma_failed_attempts(topics, 1, failures);
    lemma_run_in_two(topics, Phase::Probing, begin, repeated(failure_reports(), failures));
}

/// A lost connection is won back by the first attempt that succeeds.
///
/// When the first `failures` attempts fail, fewer than the loop allows,
/// and the next one succeeds, the loop has paused and tried exactly
/// `failures + 1` times, each pause before its attempt, and goes on to
/// subscribe the registered topics again.
pub proof fn lemma_reconnect_succeeds(topics: Seq<Seq<char>>, failures: nat)
    requires
        failures < MAX_RECONNECT_ATTEMPTS,
    ensures
        ({
            let reports = lost_connection_reports(failures) + seq![Input::Completed];
            let (ended, actions) = run(topics, Phase::Probing, reports);
            let (resumed, resume) = subscribe_from(topics, 0, true);
            &&& ended == resumed
            &&& actions == repeated(attempt_actions(), failures + 1) + seq![resume]
            &&& occurrences(actions, ActionView::Reconnect) == failures + 1
            &&& occurrences(actions, ActionView::Sleep { millis: RECONNECT_INTERVAL_MS })
                == failures + 1
        }),
{
    let last = seq![Input::Completed];
    let (resumed, resume) = subscribe_from(topics, 0, true);
    lemma_lost_connection(topics, failures);
    lemma_run_in_two(topics, Phase::Probing, lost_connection_reports(failures), last);
    let attempts = repeated(attempt_actions(), failures + 1);
    assert(run(topics, Phase::Reconnecting { attempt: (failures + 1) as u32 }, last) == (
        resumed,
        seq![resume],
    )) by {
        reveal_with_fuel(run, 2);
        assert(last.drop_first().len() == 0);
        assert(seq![resume] + Seq::<ActionView>::empty() =~= seq![resume]);
    }
    lemma_attempts_counted(failures + 1);
    lemma_occurrences_in_two(attempts, seq![resume], ActionView::Reconnect);
    lemma_occurrences_in_two(
        attempts,
        seq![resume],
        ActionView::Sleep { millis: RECONNECT_INTERVAL_MS },
    );
    reveal_with_fuel(occurrences, 2);
}

/// A connection that no attempt wins back ends the loop.
///
/// When every attempt fails, the loop has paused and tried exactly as
/// often as it allows, tries no more, and begins its teardown.
pub proof fn lemma_reconnect_gives_up(topics: Seq<Seq<char>>)
    ensures
        ({
            let failures = (MAX_RECONNECT_ATTEMPTS - 1) as nat;
            let reports = lost_connection_reports(failures) + seq![Input::Failed];
            let (ended, actions) = run(topics, Phase::Probing, reports);
            &&& (ended, actions.last()) == close(ExitReason::ReconnectExhausted)
            &&& actions == repeated(attempt_actions(), MAX_RECONNECT_ATTEMPTS as nat)
                + seq![ActionView::CheckConnection]
            &&& occurrences(actions, ActionView::Reconnect) == MAX_RECONNECT_ATTEMPTS
            &&& occurrences(actions, ActionView::Sleep { millis: RECONNECT_INTERVAL_MS })
                == MAX_RECONNECT_ATTEMPTS
        }),
{
    let failures = (MAX_RECONNECT_ATTEMPTS - 1) as nat;
    let last = seq![Input::Failed];
    let check = seq![ActionView::CheckConnection];
    lemma_lost_connection(topics, failures);
    lemma_run_in_two(topics, Phase::Probing, lost_connection_reports(failures), last);
    let attempts = repeated(attempt_actions(), MAX_RECONNECT_ATTEMPTS as nat);
    assert(run(topics, Phase::Reconnecting { attempt: MAX_RECONNECT_ATTEMPTS }, last) == (
        Phase::Closing { reason: ExitReason::ReconnectExhausted },
        check,
    )) by {
        reveal_with_fuel(run, 2);
        assert(last.drop_first().len() == 0);
        assert(check + Seq::<ActionView>::empty() =~= check);
    }
    lemma_attempts_counted(MAX_RECONNECT_ATTEMPTS as nat);
    lemma_occurrences_in_two(attempts, check, ActionView::Reconnect);
    lemma_occurrences_in_two(attempts, check, ActionView::Sleep { millis: RECONNECT_INTERVAL_MS });
    reveal_with_fuel(occurrences, 2);
}

/// Once the topic at `index` is being unsubscribed, the teardown runs
/// through the remaining topics, disconnects and ends the loop,
/// however each step goes.
proof fn lemma_unsubscribing(
    topics: Seq<Seq<char>>,
    index: int,
    reason: ExitReason,
    reports: Seq<Input>,
)
    requires
        0 <= index <= topics.len() <= usize::MAX,
        reports.len() == topics.len() - index + 1,
        forall|i: int| 0 <= i < reports.len() ==> is_report(#[trigger] reports[i]),
    ensures
        ({
            let (begun, first) = unsubscribe_from(topics, index, reason);
            let (ended, actions) = run(topics, begun, reports);
            &&& ended == Phase::Finished { reason }
            &&& seq![first] + actions == unsubscribes(topics).skip(index) + seq![
                ActionView::Disconnect,
                ActionView::Exit { reason },
            ]
        }),
    decreases topics.len() - index,
{
    let (begun, first) = unsubscribe_from(topics, index, reason);
    let (ended, actions) = run(topics, begun, reports);
    let end = seq![ActionView::Disconnect, ActionView::Exit { reason }];
    assert(is_report(reports[0]));
    if index == topics.len() {
        reveal_with_fuel(run, 2);
        assert(reports.drop_first().len() == 0);
        assert(seq![first] + actions =~= unsubscribes(topics).skip(index) + end);
    } else {
        let rest = reports.drop_first();
        assert forall|i: int| 0 <= i < rest.len() implies is_report(#[trigger] rest[i]) by {
            assert(rest[i] == reports[i + 1]);
        }
        lemma_unsubscribing(topics, index + 1, reason, rest);
        let (next, second) = unsubscribe_from(topics, index + 1, reason);
        assert(react(topics, begun, reports.first()) == (next, second));
        let (_, others) = run(topics, next, rest);
        assert(actions == seq![second] + others);
        assert(seq![first] + (unsubscribes(topics).skip(index + 1) + end) =~= unsubscribes(
            topics,
        ).skip(index) + end);
    }
}

/// The teardown of a loop that is still connected unsubscribes every
/// registered topic, in the order of registration, then disconnects,
/// then ends the loop. A step that fails holds up none of the others.
pub proof fn lemma_teardown_while_connected(
    topics: Seq<Seq<char>>,
    reason: ExitReason,
    reports: Seq<Input>,
)
    requires
        topics.len() <= usize::MAX,
        reports.len() == topics.len() + 1,
        forall|i: int| 0 <= i < reports.len() ==> is_report(#[trigger] reports[i]),
    ensures
        run(
            topics,
            Phase::Closing { reason },
            seq![Input::Liveness { connected: true }] + reports,
        ) == (
            Phase::Finished { reason },
            unsubscribes(topics) + seq![ActionView::Disconnect, ActionView::Exit { reason }],
        ),
{
    let inputs = seq![Input::Liveness { connected: true }] + reports;
    lemma_unsubscribing(topics, 0, reason, reports);
    assert(inputs.drop_first() =~= reports);
    assert(unsubscribes(topics).skip(0) =~= unsubscribes(topics));
}

/// The teardown of a loop that has lost its connection ends the loop
/// at once.
pub proof fn lemma_teardown_while_disconnected(topics: Seq<Seq<char>>, reason: ExitReason)
    ensures
        react(topics, Phase::Closing { reason }, Input::Liveness { connected: false }) == finish(
            reason,
        ),
{
}

/// A stop request that a poll finds while the loop is connected ends
/// the loop in order: every registered topic is unsubscribed, the
/// connection is closed, and the loop exits, without another poll.
pub proof fn lemma_shutdown_while_connected(topics: Seq<Seq<char>>, reports: Seq<Input>)
    requires
        topics.len() <= usize::MAX,
        reports.len() == topics.len() + 1,
        forall|i: int| 0 <= i < reports.len() ==> is_report(#[trigger] reports[i]),
    ensures
        run(
            topics,
            Phase::Polling,
            seq![Input::ShutdownRequested, Input::Liveness { connected: true }] + reports,
        ) == (
            Phase::Finished { reason: ExitReason::Shutdown },
            seq![ActionView::CheckConnection] + unsubscribes(topics) + seq![
                ActionView::Disconnect,
                ActionView::Exit { reason: ExitReason::Shutdown },
            ],
        ),
{
    let reason = ExitReason::Shutdown;
    let teardown = seq![Input::Liveness { connected: true }] + reports;
    let inputs = seq![Input::ShutdownRequested, Input::Liveness { connected: true }] + reports;
    lemma_teardown_while_connected(topics, reason, reports);
    assert(inputs.drop_first() =~= teardown);
    let end = seq![ActionView::Disconnect, ActionView::Exit { reason }];
    assert(seq![ActionView::CheckConnection] + (unsubscribes(topics) + end) =~= seq![
        ActionView::CheckConnection,
    ] + unsubscribes(topics) + end);
}

/// Once the teardown has begun there is no way back: whatever the
/// driver reports, the loop stays in its teardown and asks for nothing
/// that does not belong to it. No message is polled for, handled or
/// answered any more.
pub proof fn lemma_shutdown_is_final(topics: Seq<Seq<char>>, phase: Phase, input: Input)
    requires
        phase.connection_state_spec() is ShuttingDown,
    ensures
        react(topics, phase, input).0.connection_state_spec() is ShuttingDown,
        is_teardown(react(topics, phase, input).1),
{
}

/// No message ends the loop.
///
/// Whatever becomes of a message that a poll received, and however the
/// publishing of its reply or the report of its error goes, the loop
/// polls again: after the reply was published or the error reported,
/// or else after the failure to publish was reported.
pub proof fn lemma_loop_outlives_message(
    topics: Seq<Seq<char>>,
    topic: Seq<char>,
    position: Option<int>,
    outcome: Result<Message, MsgHandlingError>,
    first: Input,
    second: Input,
)
    requires
        is_report(first),
        is_report(second),
    ensures
        ({
            let handled = Input::Handled { topic, position, outcome };
            let (begun, asked) = react(topics, Phase::Polling, handled);
            let (went_on, _) = react(topics, begun, first);
            let (ended, _) = react(topics, went_on, second);
            &&& asked is Publish || asked is Report
            &&& !(begun is Finished)
            &&& went_on == Phase::Polling || (went_on == Phase::Reporting && ended
                == Phase::Polling)
        }),
{
}

/// A message that was not answered is never published.
///
/// When handling a message gave an error, or when its topic has no
/// handler, the loop asks for a report of the error under the topic of
/// the message, and for nothing else.
pub proof fn lemma_error_is_reported(
    topics: Seq<Seq<char>>,
    topic: Seq<char>,
    position: Option<int>,
    outcome: Result<Message, MsgHandlingError>,
)
    requires
        outcome is Err || position is None,
    ensures
        ({
            let handled = Input::Handled { topic, position, outcome };
            let (_, asked) = react(topics, Phase::Polling, handled);
            &&& asked matches ActionView::Report { topic: reported, error }
            &&& reported == topic
            &&& position is None ==> error == MsgHandlingError::NoHandlerForTopicError
            &&& position is Some ==> outcome == Err::<Message, MsgHandlingError>(error)
        }),
{
}

/// The reply of a handler is published as the handler gave it.
pub proof fn lemma_reply_is_published(
    topics: Seq<Seq<char>>,
    topic: Seq<char>,
    index: int,
    message: Message,
)
    ensures
        react(
            topics,
            Phase::Polling,
            Input::Handled { topic, position: Some(index), outcome: Ok(message) },
        ).1 == (ActionView::Publish { message }),
{
}

} // verus!
