//! What holds of every run of the probe.

use super::checks::{self, AnswerView, NoteView};
use super::http_probe::{
    self, Check, Method, Payload, Request, Step, NANOS_PER_SEC, POLL_INTERVAL_SECS,
};
use super::json;
use super::reply_laws;
use super::runner::{self, Phase, ProbeAction, ProbeActionView, ProbeState};
use crate::report::{Failure, FailureView};
use crate::text;
use vstd::prelude::*;

verus! {

/// Something that the probe is told.
pub enum Event {
    /// Whether it should stop, and the time.
    Consulted(bool, u64),
    /// The answer to its request, and the time.
    Answered(AnswerView, u64),
    /// That its pause is over.
    Woken,
}

/// The state after `event`. The probe only listens to what it has asked for.
pub open spec fn after(state: ProbeState, event: Event) -> ProbeState {
    match (state.action(), event) {
        (ProbeActionView::Consult, Event::Consulted(stop, now)) => state.consulted(stop, now),
        (ProbeActionView::Send(_), Event::Answered(answer, now)) => state.answered(answer, now),
        (ProbeActionView::Sleep(_), Event::Woken) => state.woken(),
        _ => state,
    }
}

/// The state after `events`, in order.
pub open spec fn run(state: ProbeState, events: Seq<Event>) -> ProbeState
    decreases events.len(),
{
    if events.len() == 0 {
        state
    } else {
        after(run(state, events.drop_last()), events.last())
    }
}

/// Whether `answer` meets every demand of `step`.
pub open spec fn satisfies(step: Step, answer: AnswerView) -> bool {
    match step {
        Step::Ask { label, expected, check, .. } => answer.reply() is Ok
            && http_probe::examined(label@, expected, check, answer.reply()->Ok_0).result is Ok,
        _ => http_probe::poll_result(step, answer) is Satisfied,
    }
}

/// Whether `answers` are positions in `events`, one for each of the first
/// `steps` of the script and in its order, at which the step was answered to
/// its satisfaction.
pub open spec fn are_met(
    script: Seq<Step>,
    steps: int,
    events: Seq<Event>,
    answers: Seq<int>,
) -> bool {
    &&& answers.len() == steps
    &&& forall|k: int|
        #![trigger answers[k]]
        0 <= k < steps ==> 0 <= answers[k] < events.len() && events[answers[k]] is Answered
            && satisfies(script[k], events[answers[k]]->Answered_0)
    &&& forall|k: int, l: int|
        0 <= k < l < steps ==> (#[trigger] answers[k]) < (#[trigger] answers[l])
}

/// The probe goes on to the next step only when an answer meets every demand of
/// the step in hand, and then by one step; nothing takes it back.
pub proof fn law_advances_only_when_satisfied(state: ProbeState, event: Event)
    requires
        state.wf(),
    ensures
        after(state, event).wf(),
        after(state, event).script == state.script,
        after(state, event).position == state.position || after(state, event).position
            == state.position + 1,
        after(state, event).position == state.position + 1 <==> state.action() is Send
            && event is Answered && satisfies(state.step(), event->Answered_0),
{
}

proof fn lemma_run(state: ProbeState, events: Seq<Event>) -> (answers: Seq<int>)
    requires
        state.wf(),
        state.position == 0,
    ensures
        run(state, events).wf(),
        run(state, events).script == state.script,
        are_met(state.script, run(state, events).position, events, answers),
    decreases events.len(),
{
    if events.len() == 0 {
        Seq::empty()
    } else {
        let init = events.drop_last();
        let before = lemma_run(state, init);
        let reached = run(state, init);
        law_advances_only_when_satisfied(reached, events.last());
        assert forall|k: int| #![trigger before[k]] 0 <= k < before.len() implies events[before[k]]
            == init[before[k]] by {}
        if run(state, events).position == reached.position {
            before
        } else {
            let answers = before.push(events.len() - 1);
            assert forall|k: int|
                #![trigger answers[k]]
                0 <= k < answers.len() implies 0 <= answers[k] < events.len()
                && events[answers[k]] is Answered && satisfies(
                state.script[k],
                events[answers[k]]->Answered_0,
            ) by {
                if k < before.len() {
                    assert(answers[k] == before[k]);
                }
            }
            assert forall|k: int, l: int| 0 <= k < l < answers.len() implies (
            #[trigger] answers[k]) < (#[trigger] answers[l]) by {
                assert(answers[k] == before[k]);
                if l < before.len() {
                    assert(answers[l] == before[l]);
                }
            }
            answers
        }
    }
}

/// The probe passes only if every step of the script was answered to its
/// satisfaction, one after the other in the order of the script.
pub proof fn law_passing_means_every_step(
    base: Seq<char>,
    token: Option<Seq<char>>,
    fixture: Seq<char>,
    events: Seq<Event>,
)
    requires
        run(ProbeState::start(base, token, fixture), events).verdict == Some(
            Ok::<(), FailureView>(()),
        ),
    ensures
        exists|answers: Seq<int>| #[trigger]
            are_met(http_probe::steps(), http_probe::steps().len() as int, events, answers),
{
    let start = ProbeState::start(base, token, fixture);
    lemma_start(base, token, fixture);
    let answers = lemma_run(start, events);
    assert(are_met(http_probe::steps(), http_probe::steps().len() as int, events, answers));
}

proof fn lemma_start(base: Seq<char>, token: Option<Seq<char>>, fixture: Seq<char>)
    ensures
        ProbeState::start(base, token, fixture).wf(),
        http_probe::steps().len() > 0,
{
    assert(http_probe::steps().len() <= 100);
    assert(http_probe::steps()[0] == http_probe::reading_steps()[0]);
}

/// What comes of an answer as long as the probe goes on. The step is done, or the
/// probe fails, or a poll pauses to try again. A single request fails on
/// anything that does not satisfy it; a poll fails on a reply that makes no
/// sense, and otherwise only once it is out of time.
pub proof fn law_answer_outcomes(
    state: ProbeState,
    answer: AnswerView,
    now: u64,
)
    requires
        state.wf(),
        state.action() is Send,
    ensures
        ({
            let next = state.answered(answer, now);
            let step = state.step();
            let satisfied = satisfies(step, answer);
            let broken = http_probe::poll_result(step, answer) is Broken;
            &&& satisfied ==> next.position == state.position + 1
            &&& !satisfied && (step is Ask || broken || state.is_late(now)) ==> next.verdict is Some
                && next.verdict->0 is Err
            &&& !satisfied && !(step is Ask) && !broken && !state.is_late(now)
                ==> next.verdict is None && next.phase == Phase::Pausing && next.action()
                == ProbeActionView::Sleep(POLL_INTERVAL_SECS)
            &&& !satisfied && !(step is Ask) && !broken && state.is_late(now) ==> next.verdict
                == Some(
                Err::<(), FailureView>(
                    runner::poll_failure(step, runner::timeout_message(step, state.base)),
                ),
            )
        }),
{
}

/// Waiting until a VM is gone ends on a 404, whatever its body holds, and on
/// nothing else: no other status code and no transport error.
pub proof fn law_gone_means_not_found(state: ProbeState, answer: AnswerView, now: u64)
    requires
        state.wf(),
        state.action() is Send,
        state.step() is Disappears,
    ensures
        answer.status() == Some(404u16) <==> state.answered(answer, now).position
            == state.position + 1,
        answer.status() != Some(404u16) ==> state.answered(answer, now).position == state.position,
{
}

/// A poll learns whether it should stop before each of its requests: nothing
/// else makes it send one.
pub proof fn law_polls_consult_before_each_request(state: ProbeState, event: Event)
    requires
        state.wf(),
        !(state.action() is Send),
        after(state, event).action() is Send,
        !(after(state, event).step() is Ask),
    ensures
        event is Consulted,
        !event->Consulted_0,
{
}

/// A poll that learns that it should stop ends the probe without another
/// request, with an error that says so.
pub proof fn law_stop_ends_a_poll(state: ProbeState, now: u64)
    requires
        state.wf(),
        state.action() is Consult,
    ensures
        state.consulted(true, now).action() is Finished,
        state.consulted(true, now).verdict is Some,
        state.consulted(true, now).verdict->0 is Err,
        state.consulted(true, now).verdict->0->Err_0.cause == "host http probe stopped"@,
{
}

/// A verdict is final: whatever the probe is told afterwards changes nothing.
pub proof fn law_verdict_is_final(state: ProbeState, events: Seq<Event>)
    requires
        state.verdict is Some,
    ensures
        run(state, events) == state,
    decreases events.len(),
{
    if events.len() > 0 {
        law_verdict_is_final(state, events.drop_last());
    }
}

/// A poll does not go on forever: if its answers come at least one pause apart,
/// no more of them leave it unfinished than its deadline has pauses.
pub proof fn law_polls_are_bounded(state: ProbeState, times: Seq<u64>)
    requires
        state.started is Some,
        forall|i: int| 0 <= i < times.len() ==> !state.is_late(#[trigger] times[i]),
        times.len() > 0 ==> times[0] >= state.started->0,
        forall|i: int|
            0 < i < times.len() ==> #[trigger] times[i] >= times[i - 1] + POLL_INTERVAL_SECS
                * NANOS_PER_SEC,
    ensures
        times.len() * POLL_INTERVAL_SECS <= runner::deadline_secs(state.step()),
{
    if times.len() > 0 {
        let secs = runner::deadline_secs(state.step());
        let last = times[times.len() - 1];
        assert(POLL_INTERVAL_SECS * NANOS_PER_SEC == 1_000_000_000) by (nonlinear_arith)
            requires
                POLL_INTERVAL_SECS == 1,
                NANOS_PER_SEC == 1_000_000_000,
        ;
        assert(secs * NANOS_PER_SEC == secs * 1_000_000_000) by (nonlinear_arith)
            requires
                NANOS_PER_SEC == 1_000_000_000,
        ;
        assert(times.len() * POLL_INTERVAL_SECS == times.len()) by (nonlinear_arith)
            requires
                POLL_INTERVAL_SECS == 1,
        ;
        lemma_spread(times, (times.len() - 1) as nat);
        assert(!state.is_late(last));
    }
}

proof fn lemma_spread(times: Seq<u64>, n: nat)
    requires
        n < times.len(),
        forall|i: int| 0 < i < times.len() ==> #[trigger] times[i] >= times[i - 1] + 1_000_000_000,
    ensures
        times[n as int] >= times[0] + n * 1_000_000_000,
    decreases n,
{
    if n > 0 {
        lemma_spread(times, (n - 1) as nat);
        assert(times[n as int] >= times[n - 1] + 1_000_000_000);
    }
}

/// Every write that the script sends without the token must be rejected with
/// 401, and every other write carries the token.
pub proof fn law_unauthorized_writes_are_rejected(i: int)
    requires
        0 <= i < http_probe::steps().len(),
        http_probe::steps()[i] is Ask,
        http_probe::steps()[i]->Ask_method != Method::Get,
    ensures
        http_probe::steps()[i]->authorized || http_probe::steps()[i]->Ask_expected == 401,
{
}

/// The script leaves the hypervisor without a registered VM: it ends by waiting
/// until the VM is gone.
pub proof fn law_script_cleans_up()
    ensures
        http_probe::steps().last() == (Step::Disappears { id: 1 }),
{
}

/// The probe goes on exactly on the answers that the step in hand takes: from a
/// single request on a reply whose status code is the expected one and whose
/// body is what the step demands.
pub proof fn law_goes_on_exactly_when_taken(state: ProbeState, answer: AnswerView, now: u64)
    requires
        state.wf(),
        state.action() is Send,
    ensures
        ({
            let next = state.answered(answer, now);
            &&& next.position == state.position + 1 <==> reply_laws::takes(state.step(), answer)
            &&& !reply_laws::takes(state.step(), answer) ==> next.position == state.position
            &&& state.step() is Ask && !reply_laws::takes(state.step(), answer)
                ==> next.verdict is Some && next.verdict->0 is Err
            &&& state.step() is Ask && reply_laws::takes(state.step(), answer)
                ==> answer.status() == Some(state.step()->Ask_expected)
        }),
{
    reply_laws::law_satisfaction(state.step(), answer);
}

/// The probe passes only if each step of the script was answered, in order, by
/// something that it takes.
pub proof fn law_passing_means_exact_answers(
    base: Seq<char>,
    token: Option<Seq<char>>,
    fixture: Seq<char>,
    events: Seq<Event>,
    k: int,
)
    requires
        run(ProbeState::start(base, token, fixture), events).verdict == Some(
            Ok::<(), FailureView>(()),
        ),
        0 <= k < http_probe::steps().len(),
    ensures
        exists|i: int|
            0 <= i < events.len() && #[trigger] events[i] is Answered && reply_laws::takes(
                http_probe::steps()[k],
                events[i]->Answered_0,
            ),
{
    law_passing_means_every_step(base, token, fixture, events);
    let answers = choose|answers: Seq<int>| #[trigger]
        are_met(http_probe::steps(), http_probe::steps().len() as int, events, answers);
    let i = answers[k];
    assert(satisfies(http_probe::steps()[k], events[i]->Answered_0));
    reply_laws::law_satisfaction(http_probe::steps()[k], events[i]->Answered_0);
    assert(events[i] is Answered);
}

/// A probe starts with the config as the body of its create requests, at the
/// address it was given; a config that cannot be read is an error that names
/// the file.
pub proof fn law_start(
    addr: Seq<char>,
    token: Option<Seq<char>>,
    path: Seq<char>,
    fixture: Result<Seq<char>, Seq<char>>,
)
    ensures
        ({
            let start = runner::start_of(addr, token, path, fixture);
            &&& start is Ok <==> fixture is Ok
            &&& fixture is Ok ==> {
                &&& start->Ok_0.base == "http://"@ + addr
                &&& start->Ok_0.token == token
                &&& start->Ok_0.fixture == json::json_text(
                    json::single_text("toml"@, fixture->Ok_0),
                )
                &&& start->Ok_0.position == 0
                &&& start->Ok_0.verdict is None
                &&& start->Ok_0.notes.len() == 0
                &&& start->Ok_0.action() is Consult
            }
            &&& fixture is Err ==> start->Err_0.cause == fixture->Err_0
                && start->Err_0.contexts == seq!["failed to read VM config fixture "@ + path]
        }),
{
}

/// A poll is out of time once its deadline has passed since its first request:
/// thirty seconds for the first request of all, two minutes for a transition.
pub proof fn law_deadline(state: ProbeState, now: u64)
    ensures
        !(state.step() is Ready) ==> (state.is_late(now) <==> now - state.started->0
            >= 120_000_000_000),
        state.step() is Ready ==> (state.is_late(now) <==> now - state.started->0
            >= state.step()->deadline_secs * 1_000_000_000),
        http_probe::steps()[0] is Ready,
        http_probe::steps()[0]->deadline_secs == 30,
        http_probe::steps()[0]->Ready_expected == 200,
        POLL_INTERVAL_SECS == 1,
{
    assert(NANOS_PER_SEC == 1_000_000_000);
    assert(http_probe::steps()[0] == http_probe::reading_steps()[0]);
}

/// The clock of a poll starts with its first request, is not restarted by later
/// ones, and is put back when the probe goes on.
pub proof fn law_clock(state: ProbeState, now: u64, answer: AnswerView)
    requires
        state.wf(),
        state.verdict is None,
    ensures
        state.started is None ==> state.consulted(false, now).started == Some(now),
        state.started is Some ==> state.consulted(false, now).started == state.started,
        state.woken().started == state.started,
        state.answered(answer, now).position == state.position ==> state.answered(
            answer,
            now,
        ).started == state.started,
        state.answered(answer, now).position == state.position + 1 && state.answered(
            answer,
            now,
        ).verdict is None ==> state.answered(answer, now).started is None,
{
}

/// An error of a poll is the message itself; only readiness says what it means
/// that the server cannot be reached. A message about time names what did not
/// come, and how long that was waited for.
pub proof fn law_poll_errors(step: Step, message: Seq<char>, base: Seq<char>)
    ensures
        runner::poll_failure(step, message).cause == message,
        step is Ready ==> runner::poll_failure(step, message).contexts == seq![
            "guest management HTTP server never became reachable"@,
        ],
        !(step is Ready) ==> runner::poll_failure(step, message).contexts.len() == 0,
        step is Becomes ==> runner::timeout_message(step, base) == "VM["@ + text::decimal(
            step->Becomes_id as nat,
        ) + "]"@ + " never became "@ + step->status@ + (" within "@ + text::seconds(120)),
        step is Disappears ==> runner::timeout_message(step, base) == "VM["@ + text::decimal(
            step->Disappears_id as nat,
        ) + "]"@ + " never disappeared"@ + (" within "@ + text::seconds(120)),
        step is Ready ==> runner::timeout_message(step, base) == "request "@ + (base
            + step->Ready_path@) + " never returned HTTP "@ + text::decimal(
            step->Ready_expected as nat,
        ) + (" within "@ + text::seconds(step->deadline_secs as nat)),
{
}

/// The name of a method.
pub open spec fn method_name(method: Method) -> Seq<char> {
    match method {
        Method::Get => "GET"@,
        Method::Post => "POST"@,
        Method::Delete => "DELETE"@,
    }
}

/// Whether `step` is a single request of `method` to `path`.
pub open spec fn asks(step: Step, method: Method, path: &'static str) -> bool {
    step is Ask && step->Ask_method == method && step->Ask_path == path
}

/// What the script demands of the management API. A start that is accepted is
/// followed by a wait until the VM runs, a stop by one until it is stopped, a
/// deletion by one until it is gone, and a creation, which must return the id,
/// by one until it is ready. Writes without a token are answered with 401,
/// bodies that are no config with 400, everything about an unknown VM with 404,
/// and what contradicts the state of the VM with 409.
pub proof fn law_script(i: int)
    requires
        0 <= i < http_probe::steps().len(),
        http_probe::steps()[i] is Ask,
    ensures
        ({
            let steps = http_probe::steps();
            let step = steps[i];
            let next = steps[i + 1];
            let accepted = step->Ask_expected == 200 || step->Ask_expected == 204;
            &&& i + 1 < steps.len()
            &&& !step->authorized && step->Ask_method != Method::Get ==> step->Ask_expected == 401
            &&& step->payload == Payload::EmptyObject ==> step->Ask_expected == 400
            &&& step->payload == Payload::InvalidConfig ==> step->Ask_expected == 400
            &&& step->Ask_path == "/api/vms/not-an-id" || step->Ask_path == "/api/vms/999"
                || step->Ask_path == "/api/vms/999/start" || step->Ask_path
                == "/api/vms/999/stop" ==> step->Ask_expected == 404
            &&& step->authorized ==> step->Ask_method != Method::Get
            &&& step->authorized && step->Ask_path == "/api/vms/create" ==> step->payload
                != Payload::Nothing
            &&& step->Ask_path != "/api/vms/create" ==> step->payload == Payload::Nothing
            &&& asks(step, Method::Post, "/api/vms/1/start") && accepted ==> next == (
            Step::Becomes { id: 1, status: "running" })
            &&& asks(step, Method::Post, "/api/vms/1/stop") && accepted ==> next == (
            Step::Becomes { id: 1, status: "stopped" })
            &&& asks(step, Method::Delete, "/api/vms/1") && accepted ==> next == (
            Step::Disappears { id: 1 }) && step->Ask_expected == 204
            &&& asks(step, Method::Post, "/api/vms/create") && accepted ==> next == (
            Step::Becomes { id: 1, status: "ready" }) && step->check == Check::ReturnsId
                && step->payload == Payload::Fixture
            &&& asks(step, Method::Get, "/api/vms") ==> step->Ask_expected == 200 && step->check
                == Check::ListsDefault
            &&& asks(step, Method::Get, "/api/vms/1") ==> step->Ask_expected == 200 && step->check
                == Check::DescribesDefault
            &&& step->authorized && step->Ask_expected != 200 && step->Ask_expected != 204
                && step->Ask_expected != 400 && step->Ask_expected != 404 ==> step->Ask_expected
                == 409
        }),
{
    lemma_paths();
}

proof fn lemma_paths()
    ensures
        "/api/vms"@.len() == 8,
        "/api/vms/1"@.len() == 10,
        "/api/vms/not-an-id"@.len() == 18,
        "/api/vms/999"@.len() == 12,
        "/api/vms/create"@.len() == 15,
        "/api/vms/1/start"@.len() == 16,
        "/api/vms/1/stop"@.len() == 15,
        "/api/vms/1/stop"@[9] == '1',
        "/api/vms/create"@[9] == 'c',
        "/api/vms/999/start"@.len() == 18,
        "/api/vms/999/start"@[9] == '9',
        "/api/vms/not-an-id"@[9] == 'n',
        "/api/vms/999/stop"@.len() == 17,
{
    reveal_strlit("/api/vms");
    reveal_strlit("/api/vms/1");
    reveal_strlit("/api/vms/not-an-id");
    reveal_strlit("/api/vms/999");
    reveal_strlit("/api/vms/create");
    reveal_strlit("/api/vms/1/start");
    reveal_strlit("/api/vms/1/stop");
    reveal_strlit("/api/vms/999/start");
    reveal_strlit("/api/vms/999/stop");
}

/// The first accepted start must be reported as done at once, and the first
/// accepted stop as a request that is carried out later.
pub proof fn law_markers_are_checked()
    ensures
        http_probe::lifecycle_steps()[0] is Ask,
        http_probe::lifecycle_steps()[0]->check == (Check::Reports { ok: true, is_async: false }),
        http_probe::lifecycle_steps()[3] is Ask,
        http_probe::lifecycle_steps()[3]->check == (Check::Reports { ok: true, is_async: true }),
        asks(http_probe::lifecycle_steps()[0], Method::Post, "/api/vms/1/start"),
        asks(http_probe::lifecycle_steps()[3], Method::Post, "/api/vms/1/stop"),
        http_probe::steps() == http_probe::reading_steps() + http_probe::rejection_steps()
            + http_probe::lifecycle_steps() + http_probe::recreation_steps(),
{
}

/// The name of a request in messages begins with its method and its path.
pub proof fn law_labels(i: int)
    requires
        0 <= i < http_probe::steps().len(),
        http_probe::steps()[i] is Ask,
    ensures
        ({
            let step = http_probe::steps()[i];
            (method_name(step->Ask_method) + " "@ + step->Ask_path@).is_prefix_of(step->label@)
        }),
{
    reveal_strlit("GET");
    reveal_strlit("POST");
    reveal_strlit("DELETE");
    reveal_strlit(" ");
    reveal_strlit("GET /api/vms");
    reveal_strlit("/api/vms");
    reveal_strlit("GET /api/vms/1");
    reveal_strlit("/api/vms/1");
    reveal_strlit("GET /api/vms/not-an-id");
    reveal_strlit("/api/vms/not-an-id");
    reveal_strlit("GET /api/vms/999");
    reveal_strlit("/api/vms/999");
    reveal_strlit("POST /api/vms/create (no auth)");
    reveal_strlit("/api/vms/create");
    reveal_strlit("POST /api/vms/1/start (no auth)");
    reveal_strlit("/api/vms/1/start");
    reveal_strlit("POST /api/vms/1/stop (no auth)");
    reveal_strlit("/api/vms/1/stop");
    reveal_strlit("DELETE /api/vms/1 (no auth)");
    reveal_strlit("POST /api/vms/create (missing toml)");
    reveal_strlit("POST /api/vms/create (invalid toml)");
    reveal_strlit("POST /api/vms/999/start (auth'd)");
    reveal_strlit("/api/vms/999/start");
    reveal_strlit("POST /api/vms/999/stop (auth'd)");
    reveal_strlit("/api/vms/999/stop");
    reveal_strlit("DELETE /api/vms/999 (auth'd)");
    reveal_strlit("POST /api/vms/create (duplicate id=1)");
    reveal_strlit("POST /api/vms/1/start");
    reveal_strlit("POST /api/vms/1/start (already running)");
    reveal_strlit("POST /api/vms/1/stop");
    reveal_strlit("POST /api/vms/1/start (restart-after-stop)");
    reveal_strlit("DELETE /api/vms/1");
    reveal_strlit("POST /api/vms/create (recreate)");
    reveal_strlit("POST /api/vms/create (recreate duplicate)");
    reveal_strlit("POST /api/vms/1/start (recreated)");
    reveal_strlit("POST /api/vms/1/stop (recreated)");
    reveal_strlit("DELETE /api/vms/1 (cleanup)");
    let step = http_probe::steps()[i];
    let start = method_name(step->Ask_method) + " "@ + step->Ask_path@;
    assert(start =~= step->label@.take(start.len() as int));
}

/// The probe sends the request of the step in hand, with its own token and its
/// own create body; while it has no verdict it asks for exactly one of four
/// things, by its phase.
pub proof fn law_action(state: ProbeState)
    ensures
        state.verdict is Some <==> state.action() is Finished,
        state.verdict is None && state.phase == Phase::Consulting ==> state.action() is Consult,
        state.verdict is None && state.phase == Phase::Pausing ==> state.action()
            == ProbeActionView::Sleep(1),
        state.verdict is None && state.phase == Phase::Asking ==> state.action()
            == ProbeActionView::Send(
            http_probe::step_request(
                state.script[state.position],
                state.base,
                state.token,
                state.fixture,
            ),
        ),
{
}

/// Nothing that the probe is told changes where it sends its requests or what
/// they carry, and no line of progress is lost.
pub proof fn law_what_stays(state: ProbeState, event: Event)
    requires
        state.wf(),
    ensures
        after(state, event).base == state.base,
        after(state, event).token == state.token,
        after(state, event).fixture == state.fixture,
        after(state, event).script == state.script,
        state.notes.is_prefix_of(after(state, event).notes),
{
}

/// What an answer adds to the lines of progress is what there is to say about
/// it, and at the very end that the contract passed; and the error of a single
/// request is the one of the transport, or the first demand that is not met.
pub proof fn law_what_an_answer_adds(state: ProbeState, answer: AnswerView, now: u64)
    requires
        state.wf(),
        state.action() is Send,
    ensures
        ({
            let next = state.answered(answer, now);
            let passed = next.verdict == Some(Ok::<(), FailureView>(()));
            let said = if state.step() is Ask {
                if answer.reply() is Ok {
                    http_probe::examined(
                        state.step()->label@,
                        state.step()->Ask_expected,
                        state.step()->check,
                        answer.reply()->Ok_0,
                    ).notes
                } else {
                    Seq::empty()
                }
            } else {
                http_probe::poll_notes(state.step(), answer)
            };
            let closing = NoteView {
                unusual: false,
                text: "  http probe: "@ + "full control-plane contract passed"@,
            };
            &&& passed ==> next.notes == (state.notes + said).push(closing)
            &&& !passed ==> next.notes == state.notes + said
            &&& passed <==> state.position + 1 == state.script.len() && reply_laws::takes(
                state.step(),
                answer,
            )
            &&& state.step() is Ask && answer.reply() is Err ==> next.verdict == Some(
                Err::<(), FailureView>(answer.reply()->Err_0),
            )
            &&& state.step() is Ask && answer.reply() is Ok && !reply_laws::takes(
                state.step(),
                answer,
            ) ==> next.verdict == Some(
                Err::<(), FailureView>(
                    FailureView::plain(
                        http_probe::examined(
                            state.step()->label@,
                            state.step()->Ask_expected,
                            state.step()->check,
                            answer.reply()->Ok_0,
                        ).result->Err_0,
                    ),
                ),
            )
        }),
{
    reply_laws::law_satisfaction(state.step(), answer);
    let next = state.answered(answer, now);
    if state.step() is Ask && answer.reply() is Err {
        assert(next.notes =~= state.notes + Seq::<NoteView>::empty());
    }
}

/// The views of verdicts and actions keep every part of them.
pub proof fn law_views(failure: Failure, request: Request, secs: u64)
    ensures
        runner::verdict_view(Err(failure)) == Err::<(), FailureView>(failure@),
        runner::verdict_view(Ok(())) is Ok,
        ProbeAction::Send(request)@ == ProbeActionView::Send(request@),
        ProbeAction::Sleep(secs)@ == ProbeActionView::Sleep(secs),
        ProbeAction::Consult@ == ProbeActionView::Consult,
        ProbeAction::Finished@ == ProbeActionView::Finished,
{
}

/// A poll that breaks off, or is told to stop, ends the probe with an error
/// that says why: what is wrong with the detail, or that it was stopped.
pub proof fn law_why_a_poll_ends(state: ProbeState, answer: AnswerView, now: u64)
    requires
        state.wf(),
        state.verdict is None,
        !(state.step() is Ask),
    ensures
        http_probe::poll_result(state.step(), answer) is Broken ==> state.answered(
            answer,
            now,
        ).verdict == Some(
            Err::<(), FailureView>(
                FailureView::plain(checks::status_of(answer->Replied_0.body)->Err_0),
            ),
        ),
        state.consulted(true, now).verdict == Some(
            Err::<(), FailureView>(
                if state.step() is Ready {
                    FailureView::plain("host http probe stopped"@).within(
                        "guest management HTTP server never became reachable"@,
                    )
                } else {
                    FailureView::plain("host http probe stopped"@)
                },
            ),
        ),
{
}

}
