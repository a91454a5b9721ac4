//! Running the probe: one step after the other, each poll until it is
//! satisfied, out of time or stopped.

use super::checks::{self, push_note, Answer, AnswerView, Note, NoteView};
use super::http_probe::{
    self, examine, poll_vm_gone, poll_vm_status, script, wait_for_status, Method, Payload,
    PollResult, PollResultView, Request, RequestView, Step, INVALID_TOML, NANOS_PER_SEC,
    POLL_DEADLINE_SECS, POLL_INTERVAL_SECS,
};
use super::json::{self, create_body};
use crate::report::{Failure, FailureView};
use crate::text;
use vstd::prelude::*;

verus! {

/// Where the probe is within a step.
#[derive(Debug, Clone, Copy, PartialEq, Eq, Structural)]
pub enum Phase {
    /// A poll is about to send its request, unless it is stopped.
    Consulting,
    /// The request is to be sent.
    Asking,
    /// A poll pauses.
    Pausing,
}

/// What the probe needs next.
#[derive(Debug, Clone, PartialEq, Eq)]
pub enum ProbeAction {
    /// To know whether it should stop, and the time.
    Consult,
    /// The answer to this request, and the time after it.
    Send(Request),
    /// To be woken after this many seconds.
    Sleep(u64),
    /// Nothing: the verdict is in.
    Finished,
}

/// The view of a [`ProbeAction`].
pub enum ProbeActionView {
    /// To know whether it should stop, and the time.
    Consult,
    /// The answer to this request.
    Send(RequestView),
    /// To be woken after this many seconds.
    Sleep(u64),
    /// Nothing.
    Finished,
}

impl View for ProbeAction {
    type V = ProbeActionView;

    open spec fn view(&self) -> ProbeActionView {
        match self {
            ProbeAction::Consult => ProbeActionView::Consult,
            ProbeAction::Send(request) => ProbeActionView::Send(request@),
            ProbeAction::Sleep(secs) => ProbeActionView::Sleep(*secs),
            ProbeAction::Finished => ProbeActionView::Finished,
        }
    }
}

/// How long a poll may take, in seconds.
pub open spec fn deadline_secs(step: Step) -> u64 {
    match step {
        Step::Ready { deadline_secs, .. } => deadline_secs,
        _ => POLL_DEADLINE_SECS,
    }
}

/// The message of a poll that is out of time.
pub open spec fn timeout_message(step: Step, base: Seq<char>) -> Seq<char> {
    let within = " within "@ + text::seconds(deadline_secs(step) as nat);
    match step {
        Step::Ready { path, expected, .. } => "request "@ + (base + path@) + " never returned HTTP "@
            + text::decimal(expected as nat) + within,
        Step::Becomes { id, status } => http_probe::vm_label(id) + " never became "@ + status@
            + within,
        Step::Disappears { id } => http_probe::vm_label(id) + " never disappeared"@ + within,
        Step::Ask { .. } => Seq::empty(),
    }
}

/// The error a poll ends with. That of the readiness check says what it means.
pub open spec fn poll_failure(step: Step, message: Seq<char>) -> FailureView {
    match step {
        Step::Ready { .. } => FailureView::plain(message).within(
            "guest management HTTP server never became reachable"@,
        ),
        _ => FailureView::plain(message),
    }
}

/// A probe in progress.
#[derive(Debug)]
pub struct Probe {
    base: String,
    token: Option<String>,
    fixture: String,
    script: Vec<Step>,
    position: usize,
    phase: Phase,
    started: Option<u64>,
    notes: Vec<Note>,
    verdict: Option<Result<(), Failure>>,
}

/// The view of a [`Probe`].
#[verifier::ext_equal]
pub struct ProbeState {
    /// Where the API is.
    pub base: Seq<char>,
    /// The token that authorizes writes.
    pub token: Option<Seq<char>>,
    /// The create body of the default VM.
    pub fixture: Seq<char>,
    /// Every step, in order.
    pub script: Seq<Step>,
    /// How many steps are done.
    pub position: int,
    /// Where the probe is within the step in hand.
    pub phase: Phase,
    /// When the poll in hand began.
    pub started: Option<u64>,
    /// The lines of progress so far.
    pub notes: Seq<NoteView>,
    /// The verdict, once it is in.
    pub verdict: Option<Result<(), FailureView>>,
}

/// The view of a verdict.
pub open spec fn verdict_view(verdict: Result<(), Failure>) -> Result<(), FailureView> {
    match verdict {
        Ok(_) => Ok(()),
        Err(failure) => Err(failure@),
    }
}

impl View for Probe {
    type V = ProbeState;

    closed spec fn view(&self) -> ProbeState {
        ProbeState {
            base: self.base@,
            token: text::optional(self.token),
            fixture: self.fixture@,
            script: self.script@,
            position: self.position as int,
            phase: self.phase,
            started: self.started,
            notes: checks::note_views(self.notes@),
            verdict: match self.verdict {
                Some(verdict) => Some(verdict_view(verdict)),
                None => None,
            },
        }
    }
}

impl ProbeState {
    /// The state before the first request.
    pub open spec fn start(base: Seq<char>, token: Option<Seq<char>>, fixture: Seq<char>) -> ProbeState {
        ProbeState {
            base,
            token,
            fixture,
            script: http_probe::steps(),
            position: 0,
            phase: Phase::Consulting,
            started: None,
            notes: Seq::empty(),
            verdict: None,
        }
    }

    /// The step in hand.
    pub open spec fn step(self) -> Step {
        self.script[self.position]
    }

    /// Whether the state is one that a probe rests in: while there is no
    /// verdict a step is in hand, a single request is simply sent, a poll that
    /// has sent a request knows when it began; and the probe has passed only if
    /// every step is done.
    pub open spec fn wf(self) -> bool {
        &&& 0 <= self.position <= self.script.len()
        &&& self.script.len() <= usize::MAX
        &&& self.verdict is None ==> self.position < self.script.len()
        &&& self.verdict is None && self.step() is Ask ==> self.phase == Phase::Asking
        &&& self.verdict is None && !(self.step() is Ask) && self.phase != Phase::Consulting
            ==> self.started is Some
        &&& self.verdict == Some(Ok::<(), FailureView>(())) ==> self.position == self.script.len()
    }

    /// What the probe needs next.
    pub open spec fn action(self) -> ProbeActionView {
        if self.verdict is Some {
            ProbeActionView::Finished
        } else {
            match self.phase {
                Phase::Consulting => ProbeActionView::Consult,
                Phase::Asking => ProbeActionView::Send(
                    http_probe::step_request(self.step(), self.base, self.token, self.fixture),
                ),
                Phase::Pausing => ProbeActionView::Sleep(POLL_INTERVAL_SECS),
            }
        }
    }

    /// The state after the probe failed.
    pub open spec fn failed(self, failure: FailureView) -> ProbeState {
        ProbeState { verdict: Some(Err(failure)), ..self }
    }

    /// The state with `notes` appended to the lines of progress.
    pub open spec fn noted(self, notes: Seq<NoteView>) -> ProbeState {
        ProbeState { notes: self.notes + notes, ..self }
    }

    /// The state after the step in hand is done.
    pub open spec fn advanced(self) -> ProbeState {
        let position = self.position + 1;
        if position >= self.script.len() {
            ProbeState {
                position,
                notes: self.notes.push(
                    checks::progress("full control-plane contract passed"@),
                ),
                verdict: Some(Ok(())),
                ..self
            }
        } else {
            ProbeState {
                position,
                phase: if self.script[position] is Ask {
                    Phase::Asking
                } else {
                    Phase::Consulting
                },
                started: None,
                ..self
            }
        }
    }

    /// The state after a poll learned whether it should stop, at the time
    /// `now`. Its first request starts its clock.
    pub open spec fn consulted(self, stop: bool, now: u64) -> ProbeState {
        if stop {
            self.failed(poll_failure(self.step(), "host http probe stopped"@))
        } else {
            ProbeState {
                phase: Phase::Asking,
                started: match self.started {
                    None => Some(now),
                    Some(started) => Some(started),
                },
                ..self
            }
        }
    }

    /// Whether the poll in hand is out of time at the time `now`.
    pub open spec fn is_late(self, now: u64) -> bool {
        now - self.started->0 >= deadline_secs(self.step()) * NANOS_PER_SEC
    }

    /// The state after the request of the step in hand was answered, at the
    /// time `now`.
    pub open spec fn answered(self, answer: AnswerView, now: u64) -> ProbeState {
        match self.step() {
            Step::Ask { label, expected, check, .. } => match answer.reply() {
                Err(failure) => self.failed(failure),
                Ok(reply) => {
                    let found = http_probe::examined(label@, expected, check, reply);
                    match found.result {
                        Err(message) => self.noted(found.notes).failed(FailureView::plain(message)),
                        Ok(_) => self.noted(found.notes).advanced(),
                    }
                },
            },
            step => {
                let noted = self.noted(http_probe::poll_notes(step, answer));
                match http_probe::poll_result(step, answer) {
                    PollResultView::Satisfied => noted.advanced(),
                    PollResultView::Broken(message) => noted.failed(poll_failure(step, message)),
                    PollResultView::Unsatisfied => if self.is_late(now) {
                        noted.failed(poll_failure(step, timeout_message(step, self.base)))
                    } else {
                        ProbeState { phase: Phase::Pausing, ..noted }
                    },
                }
            },
        }
    }

    /// The state after a poll was woken.
    pub open spec fn woken(self) -> ProbeState {
        ProbeState { phase: Phase::Consulting, ..self }
    }
}

/// How the probe of the API at `addr` starts, where `fixture` is the config of
/// the default VM read from `path`, or the reason why it could not be read.
pub open spec fn start_of(
    addr: Seq<char>,
    token: Option<Seq<char>>,
    path: Seq<char>,
    fixture: Result<Seq<char>, Seq<char>>,
) -> Result<ProbeState, FailureView> {
    match fixture {
        Err(error) => Err(
            FailureView::plain(error).within("failed to read VM config fixture "@ + path),
        ),
        Ok(toml) => Ok(
            ProbeState::start(
                "http://"@ + addr,
                token,
                json::json_text(json::single_text("toml"@, toml)),
            ),
        ),
    }
}

/// The view of the start of a probe.
pub open spec fn start_view(start: Result<Probe, Failure>) -> Result<ProbeState, FailureView> {
    match start {
        Ok(probe) => Ok(probe@),
        Err(failure) => Err(failure@),
    }
}

/// A copy of an optional text.
fn copy_text(text: &Option<String>) -> (r: Option<String>)
    ensures
        text::optional(r) == text::optional(*text),
{
    match text {
        Some(text) => Some(text.clone()),
        None => None,
    }
}

/// An unauthenticated `GET` without a body.
fn get(url: String) -> (r: Request)
    ensures
        r@ == http_probe::plain_get(url@),
{
    Request { method: Method::Get, url, bearer: None, content_type: None, body: None }
}

impl Probe {
    /// The probe of the API at `addr`, where `token` authorizes writes and
    /// `fixture` is the create body of the default VM.
    pub fn begin(addr: &str, token: Option<String>, fixture: String) -> (r: Probe)
        ensures
            r@ == ProbeState::start("http://"@ + addr@, text::optional(token), fixture@),
            r@.wf(),
    {
        let probe = Probe {
            base: "http://".to_string().concat(addr),
            token,
            fixture,
            script: script(),
            position: 0,
            phase: Phase::Consulting,
            started: None,
            notes: Vec::new(),
            verdict: None,
        };
        assert(probe@ =~= ProbeState::start(
            "http://"@ + addr@,
            text::optional(token),
            fixture@,
        ));
        assert(probe@.script.len() == probe.script.len());
        probe
    }

    /// Starts the full management-control-plane contract against one boot.
    ///
    /// `addr` is the forwarded host address, `token` authorizes writes, and
    /// `fixture` is the config of the default VM, read from `path`, or the
    /// reason why it could not be read.
    pub fn start(
        addr: &str,
        token: Option<String>,
        path: &str,
        fixture: Result<String, String>,
    ) -> (r: Result<Probe, Failure>)
        ensures
            start_view(r) == start_of(addr@, text::optional(token), path@, text::either(fixture)),
            r is Ok ==> r->Ok_0@.wf(),
    {
        match fixture {
            Err(error) => Err(
                Failure::new(error).context(
                    "failed to read VM config fixture ".to_string().concat(path),
                ),
            ),
            Ok(toml) => Ok(Probe::begin(addr, token, create_body(toml.as_str()))),
        }
    }

    /// The request of the step in hand.
    fn request(&self) -> (r: Request)
        requires
            self@.wf(),
            self@.verdict is None,
        ensures
            r@ == http_probe::step_request(
                self@.step(),
                self@.base,
                self@.token,
                self@.fixture,
            ),
    {
        match self.script[self.position] {
            Step::Ready { path, .. } => get(self.base.clone().concat(path)),
            Step::Ask { method, path, authorized, payload, .. } => {
                let body: Option<String> = match payload {
                    Payload::Nothing => None,
                    Payload::EmptyObject => Some("{}".to_string()),
                    Payload::InvalidConfig => Some(create_body(INVALID_TOML)),
                    Payload::Fixture => Some(self.fixture.clone()),
                };
                let content_type: Option<String> = match payload {
                    Payload::Nothing => None,
                    _ => Some("application/json".to_string()),
                };
                let bearer: Option<String> = if authorized {
                    copy_text(&self.token)
                } else {
                    None
                };
                Request { method, url: self.base.clone().concat(path), bearer, content_type, body }
            },
            Step::Becomes { id, .. } => {
                let number: String = text::number(id);
                get(self.base.clone().concat("/api/vms/").concat(number.as_str()))
            },
            Step::Disappears { id } => {
                let number: String = text::number(id);
                get(self.base.clone().concat("/api/vms/").concat(number.as_str()))
            },
        }
    }

    /// What the probe needs next.
    pub fn action(&self) -> (r: ProbeAction)
        requires
            self@.wf(),
        ensures
            r@ == self@.action(),
    {
        if self.verdict.is_some() {
            return ProbeAction::Finished;
        }
        match self.phase {
            Phase::Consulting => ProbeAction::Consult,
            Phase::Asking => ProbeAction::Send(self.request()),
            Phase::Pausing => ProbeAction::Sleep(POLL_INTERVAL_SECS),
        }
    }

    /// Ends the probe with an error.
    fn fail(&mut self, failure: Failure)
        ensures
            final(self)@ == old(self)@.failed(failure@),
    {
        self.verdict = Some(Err(failure));
        assert(self@ =~= old(self)@.failed(failure@));
    }

    /// Goes on to the next step.
    fn advance(&mut self)
        requires
            old(self)@.wf(),
            old(self)@.verdict is None,
        ensures
            final(self)@ == old(self)@.advanced(),
            final(self)@.wf(),
    {
        self.position = self.position + 1;
        if self.position >= self.script.len() {
            push_note(&mut self.notes, false, "full control-plane contract passed".to_string());
            self.verdict = Some(Ok(()));
        } else {
            self.phase = match self.script[self.position] {
                Step::Ask { .. } => Phase::Asking,
                _ => Phase::Consulting,
            };
            self.started = None;
        }
        assert(self@ =~= old(self)@.advanced());
    }

    /// The error the poll `step` ends with.
    fn poll_error(step: Step, message: String) -> (r: Failure)
        ensures
            r@ == poll_failure(step, message@),
    {
        match step {
            Step::Ready { .. } => Failure::new(message).context(
                "guest management HTTP server never became reachable".to_string(),
            ),
            _ => Failure::new(message),
        }
    }

    /// The message of the poll `step` when it is out of time.
    fn timeout_text(&self, step: Step) -> (r: String)
        requires
            !(step is Ask),
        ensures
            r@ == timeout_message(step, self@.base),
    {
        let secs: u64 = match step {
            Step::Ready { deadline_secs, .. } => deadline_secs,
            _ => POLL_DEADLINE_SECS,
        };
        let span: String = text::seconds_text(secs);
        let within: String = " within ".to_string().concat(span.as_str());
        match step {
            Step::Ready { path, expected, .. } => {
                let url: String = self.base.clone().concat(path);
                let code: String = text::number(expected as u64);
                "request ".to_string().concat(url.as_str()).concat(" never returned HTTP ").concat(
                    code.as_str(),
                ).concat(within.as_str())
            },
            Step::Becomes { id, status } => {
                let number: String = text::number(id);
                "VM[".to_string().concat(number.as_str()).concat("]").concat(
                    " never became ",
                ).concat(status).concat(within.as_str())
            },
            Step::Disappears { id } => {
                let number: String = text::number(id);
                "VM[".to_string().concat(number.as_str()).concat("]").concat(
                    " never disappeared",
                ).concat(within.as_str())
            },
            Step::Ask { .. } => String::new(),
        }
    }

    /// Hands over whether the probe should stop, and the time.
    pub fn consult(&mut self, stop: bool, now: u64)
        requires
            old(self)@.wf(),
            old(self)@.action() is Consult,
        ensures
            final(self)@ == old(self)@.consulted(stop, now),
            final(self)@.wf(),
    {
        if stop {
            let step: Step = self.script[self.position];
            self.fail(Probe::poll_error(step, "host http probe stopped".to_string()));
        } else {
            self.phase = Phase::Asking;
            self.started = match self.started {
                None => Some(now),
                Some(started) => Some(started),
            };
            assert(self@ =~= old(self)@.consulted(stop, now));
        }
    }

    /// Whether the poll `step` is out of time at the time `now`.
    fn late(&self, step: Step, now: u64) -> (r: bool)
        requires
            self@.started is Some,
            step == self@.step(),
        ensures
            r == self@.is_late(now),
    {
        let secs: u64 = match step {
            Step::Ready { deadline_secs, .. } => deadline_secs,
            _ => POLL_DEADLINE_SECS,
        };
        let limit: u128 = secs as u128 * NANOS_PER_SEC as u128;
        match self.started {
            Some(started) => {
                now >= started && (now - started) as u128 >= limit
            },
            None => false,
        }
    }

    /// Hands over the answer to the request of the step in hand, and the time
    /// after it.
    pub fn answer(&mut self, answer: Answer, now: u64)
        requires
            old(self)@.wf(),
            old(self)@.action() is Send,
        ensures
            final(self)@ == old(self)@.answered(answer@, now),
            final(self)@.wf(),
    {
        let step: Step = self.script[self.position];
        let result: PollResult = match step {
            Step::Ask { label, expected, check, .. } => {
                match answer.into_reply() {
                    Err(failure) => self.fail(failure),
                    Ok(reply) => {
                        let found: Result<(), String> = examine(
                            &mut self.notes,
                            label,
                            expected,
                            check,
                            &reply,
                        );
                        assert(self@ =~= old(self)@.noted(
                            http_probe::examined(label@, expected, check, reply@).notes,
                        ));
                        match found {
                            Err(message) => self.fail(Failure::new(message)),
                            Ok(_) => self.advance(),
                        }
                    },
                }
                return;
            },
            Step::Ready { expected, .. } => wait_for_status(&mut self.notes, expected, &answer),
            Step::Becomes { id, status } => poll_vm_status(&mut self.notes, id, status, &answer),
            Step::Disappears { id } => poll_vm_gone(&mut self.notes, id, &answer),
        };
        assert(self@ =~= old(self)@.noted(
            http_probe::poll_notes(step, answer@),
        ));
        match result {
            PollResult::Satisfied => self.advance(),
            PollResult::Broken(message) => self.fail(Probe::poll_error(step, message)),
            PollResult::Unsatisfied => {
                if self.late(step, now) {
                    let message: String = self.timeout_text(step);
                    self.fail(Probe::poll_error(step, message));
                } else {
                    let ghost before = self@;
                    self.phase = Phase::Pausing;
                    assert(self@ =~= ProbeState { phase: Phase::Pausing, ..before });
                }
            },
        }
    }

    /// Wakes a poll from its pause.
    pub fn wake(&mut self)
        requires
            old(self)@.wf(),
            old(self)@.action() is Sleep,
        ensures
            final(self)@ == old(self)@.woken(),
            final(self)@.wf(),
    {
        self.phase = Phase::Consulting;
        assert(self@ =~= old(self)@.woken());
    }

    /// Takes the lines of progress that have come up since they were last
    /// taken.
    pub fn take_notes(&mut self) -> (r: Vec<Note>)
        requires
            old(self)@.wf(),
        ensures
            checks::note_views(r@) == old(self)@.notes,
            final(self)@ == (ProbeState { notes: Seq::empty(), ..old(self)@ }),
            final(self)@.wf(),
    {
        let mut notes: Vec<Note> = Vec::new();
        std::mem::swap(&mut notes, &mut self.notes);
        assert(self@ =~= ProbeState { notes: Seq::empty(), ..old(self)@ });
        notes
    }

    /// The verdict.
    pub fn into_verdict(self) -> (r: Result<(), Failure>)
        requires
            self@.wf(),
            self@.action() is Finished,
        ensures
            Some(verdict_view(r)) == self@.verdict,
    {
        match self.verdict {
            Some(verdict) => verdict,
            None => Ok(()),
        }
    }
}

}
