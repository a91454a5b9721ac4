//! Host-side probe for the AxVisor management HTTP control plane.
//!
//! The probe is a client of the management API that runs inside the AxVisor
//! guest. It drives one default VM through its whole lifecycle, including the
//! recreation after a delete, and checks every reply:
//!
//! ```text
//! GET    /api/vms            -> 200            (list; id=1 present)
//! GET    /api/vms/1          -> 200 ready      (detail; id/name/cpu_num/vcpu_states)
//! GET    /api/vms/not-an-id  -> 404            (non-numeric id)
//! GET    /api/vms/999        -> 404            (unknown VM)
//! POST   /api/vms/create     -> 401            (no token)
//! POST   /api/vms/1/start    -> 401            (no token)
//! POST   /api/vms/1/stop     -> 401            (no token)
//! DELETE /api/vms/1          -> 401            (no token)
//! POST   /api/vms/create {}  -> 400            (missing toml)
//! POST   /api/vms/create <bad toml> -> 400     (invalid TOML)
//! POST   /api/vms/999/start  -> 404            (auth'd unknown VM)
//! POST   /api/vms/999/stop   -> 404            (auth'd unknown VM)
//! DELETE /api/vms/999        -> 404            (auth'd unknown VM)
//! POST   /api/vms/create     -> 409            (id=1 already registered)
//! POST   /api/vms/1/start    -> 200 -> running (async=false)
//! POST   /api/vms/1/start    -> 409            (already running)
//! POST   /api/vms/1/stop     -> 200 -> stopped (async=true)
//! POST   /api/vms/1/start    -> 409            (restart-after-stop)
//! DELETE /api/vms/1          -> 204 -> 404     (gone)
//! POST   /api/vms/create     -> 200 {id:1}     (recreate after delete)
//! POST   /api/vms/create     -> 409            (id=1 re-registered)
//! POST   /api/vms/1/start    -> 200 -> running (recreated VM usable)
//! POST   /api/vms/1/stop     -> 200 -> stopped
//! DELETE /api/vms/1          -> 204 -> 404     (cleanup)
//! ```
//!
//! The last block proves that destroying a VM freed its memory, vCPUs, devices
//! and registry entry, so that a fresh one can be built from the same image.
//!
//! [`Probe::action`] names what the probe needs next; the answer is handed back
//! through [`Probe::consult`], [`Probe::answer`] or [`Probe::wake`]. Times are
//! nanoseconds on a clock that does not run backwards.

use super::checks::{
    self, assert_action, assert_detail, assert_status, assert_vm_status, body_returns_id,
    list_has_vm, note_action, note_status, note_vm_status, push_note, vm_status, Answer, AnswerView,
    Note, NoteView, Reply, ReplyView,
};
use super::json;
use crate::text;
use vstd::prelude::*;

verus! {

/// How long a state transition (boot, stop, delete) may take, in seconds. It
/// stays well below the timeout of the whole run, so that a stuck transition
/// fails on the probe.
pub const POLL_DEADLINE_SECS: u64 = 120;

/// Extra time for the very first request, in seconds: the port accepts
/// connections, but the router may still be wiring up.
pub const INITIAL_READY_DEADLINE_SECS: u64 = 30;

/// Pause between two polls, in seconds.
pub const POLL_INTERVAL_SECS: u64 = 1;

/// Nanoseconds in a second.
pub const NANOS_PER_SEC: u64 = 1_000_000_000;

/// An HTTP method the probe uses.
#[derive(Debug, Clone, Copy, PartialEq, Eq, Structural)]
pub enum Method {
    /// `GET`
    Get,
    /// `POST`
    Post,
    /// `DELETE`
    Delete,
}

/// What a request carries.
#[derive(Debug, Clone, Copy, PartialEq, Eq, Structural)]
pub enum Payload {
    /// Nothing.
    Nothing,
    /// An empty object.
    EmptyObject,
    /// A config that is not TOML.
    InvalidConfig,
    /// The config of the default VM.
    Fixture,
}

/// What is demanded of a reply beside its status code.
#[derive(Debug, Clone, Copy, PartialEq, Eq, Structural)]
pub enum Check {
    /// Nothing.
    Nothing,
    /// That the body lists the default VM.
    ListsDefault,
    /// That the body describes the default VM, in the status `ready`.
    DescribesDefault,
    /// That the body reports these markers.
    Reports {
        /// The `ok` marker.
        ok: bool,
        /// The `async` marker.
        is_async: bool,
    },
    /// That the body returns the id of the default VM.
    ReturnsId,
}

/// One step of the probe.
#[derive(Debug, Clone, Copy)]
pub enum Step {
    /// Retry one request until it returns a status code.
    Ready {
        /// Path of the request.
        path: &'static str,
        /// The status code to wait for.
        expected: u16,
        /// How long to wait, in seconds.
        deadline_secs: u64,
    },
    /// Send one request and check the reply.
    Ask {
        /// Name of the request in messages.
        label: &'static str,
        /// Method of the request.
        method: Method,
        /// Path of the request.
        path: &'static str,
        /// Whether the request carries the token.
        authorized: bool,
        /// What the request carries.
        payload: Payload,
        /// The status code to expect.
        expected: u16,
        /// What else to demand of the reply.
        check: Check,
    },
    /// Poll a VM until it reports a status.
    Becomes {
        /// Id of the VM.
        id: u64,
        /// The status to wait for.
        status: &'static str,
    },
    /// Poll a VM until it is gone.
    Disappears {
        /// Id of the VM.
        id: u64,
    },
}

/// A request without a token, of which only the status code is checked.
pub open spec fn open_ask(
    label: &'static str,
    method: Method,
    path: &'static str,
    expected: u16,
    check: Check,
) -> Step {
    Step::Ask {
        label,
        method,
        path,
        authorized: false,
        payload: Payload::Nothing,
        expected,
        check,
    }
}

/// A request with the token.
pub open spec fn authorized_ask(
    label: &'static str,
    method: Method,
    path: &'static str,
    payload: Payload,
    expected: u16,
    check: Check,
) -> Step {
    Step::Ask { label, method, path, authorized: true, payload, expected, check }
}

/// A request without a token.
fn open_step(
    label: &'static str,
    method: Method,
    path: &'static str,
    expected: u16,
    check: Check,
) -> (r: Step)
    ensures
        r == open_ask(label, method, path, expected, check),
{
    Step::Ask {
        label,
        method,
        path,
        authorized: false,
        payload: Payload::Nothing,
        expected,
        check,
    }
}

/// A request with the token.
fn authorized_step(
    label: &'static str,
    method: Method,
    path: &'static str,
    payload: Payload,
    expected: u16,
    check: Check,
) -> (r: Step)
    ensures
        r == authorized_ask(label, method, path, payload, expected, check),
{
    Step::Ask { label, method, path, authorized: true, payload, expected, check }
}

/// The first steps: the server is up, the default VM is listed and described,
/// unknown ids are rejected.
pub open spec fn reading_steps() -> Seq<Step> {
    seq![
        Step::Ready {
            path: "/api/vms",
            expected: 200,
            deadline_secs: INITIAL_READY_DEADLINE_SECS,
        },
        open_ask("GET /api/vms", Method::Get, "/api/vms", 200, Check::ListsDefault),
        open_ask("GET /api/vms/1", Method::Get, "/api/vms/1", 200, Check::DescribesDefault),
        open_ask(
            "GET /api/vms/not-an-id",
            Method::Get,
            "/api/vms/not-an-id",
            404,
            Check::Nothing,
        ),
        open_ask("GET /api/vms/999", Method::Get, "/api/vms/999", 404, Check::Nothing),
    ]
}

/// The steps on writes that are rejected: without a token, with a body that is
/// no config, to an unknown VM, with an id that is taken.
pub open spec fn rejection_steps() -> Seq<Step> {
    seq![
        open_ask(
            "POST /api/vms/create (no auth)",
            Method::Post,
            "/api/vms/create",
            401,
            Check::Nothing,
        ),
        open_ask(
            "POST /api/vms/1/start (no auth)",
            Method::Post,
            "/api/vms/1/start",
            401,
            Check::Nothing,
        ),
        open_ask(
            "POST /api/vms/1/stop (no auth)",
            Method::Post,
            "/api/vms/1/stop",
            401,
            Check::Nothing,
        ),
        open_ask(
            "DELETE /api/vms/1 (no auth)",
            Method::Delete,
            "/api/vms/1",
            401,
            Check::Nothing,
        ),
        authorized_ask(
            "POST /api/vms/create (missing toml)",
            Method::Post,
            "/api/vms/create",
            Payload::EmptyObject,
            400,
            Check::Nothing,
        ),
        authorized_ask(
            "POST /api/vms/create (invalid toml)",
            Method::Post,
            "/api/vms/create",
            Payload::InvalidConfig,
            400,
            Check::Nothing,
        ),
        authorized_ask(
            "POST /api/vms/999/start (auth'd)",
            Method::Post,
            "/api/vms/999/start",
            Payload::Nothing,
            404,
            Check::Nothing,
        ),
        authorized_ask(
            "POST /api/vms/999/stop (auth'd)",
            Method::Post,
            "/api/vms/999/stop",
            Payload::Nothing,
            404,
            Check::Nothing,
        ),
        authorized_ask(
            "DELETE /api/vms/999 (auth'd)",
            Method::Delete,
            "/api/vms/999",
            Payload::Nothing,
            404,
            Check::Nothing,
        ),
        authorized_ask(
            "POST /api/vms/create (duplicate id=1)",
            Method::Post,
            "/api/vms/create",
            Payload::Fixture,
            409,
            Check::Nothing,
        ),
    ]
}

/// The steps that take the default VM through its life.
pub open spec fn lifecycle_steps() -> Seq<Step> {
    seq![
        authorized_ask(
            "POST /api/vms/1/start",
            Method::Post,
            "/api/vms/1/start",
            Payload::Nothing,
            200,
            Check::Reports { ok: true, is_async: false },
        ),
        Step::Becomes { id: 1, status: "running" },
        authorized_ask(
            "POST /api/vms/1/start (already running)",
            Method::Post,
            "/api/vms/1/start",
            Payload::Nothing,
            409,
            Check::Nothing,
        ),
        authorized_ask(
            "POST /api/vms/1/stop",
            Method::Post,
            "/api/vms/1/stop",
            Payload::Nothing,
            200,
            Check::Reports { ok: true, is_async: true },
        ),
        Step::Becomes { id: 1, status: "stopped" },
        authorized_ask(
            "POST /api/vms/1/start (restart-after-stop)",
            Method::Post,
            "/api/vms/1/start",
            Payload::Nothing,
            409,
            Check::Nothing,
        ),
        authorized_ask(
            "DELETE /api/vms/1",
            Method::Delete,
            "/api/vms/1",
            Payload::Nothing,
            204,
            Check::Nothing,
        ),
        Step::Disappears { id: 1 },
    ]
}

/// The steps that recreate the default VM, run it and remove it.
pub open spec fn recreation_steps() -> Seq<Step> {
    seq![
        authorized_ask(
            "POST /api/vms/create (recreate)",
            Method::Post,
            "/api/vms/create",
            Payload::Fixture,
            200,
            Check::ReturnsId,
        ),
        Step::Becomes { id: 1, status: "ready" },
        authorized_ask(
            "POST /api/vms/create (recreate duplicate)",
            Method::Post,
            "/api/vms/create",
            Payload::Fixture,
            409,
            Check::Nothing,
        ),
        authorized_ask(
            "POST /api/vms/1/start (recreated)",
            Method::Post,
            "/api/vms/1/start",
            Payload::Nothing,
            200,
            Check::Nothing,
        ),
        Step::Becomes { id: 1, status: "running" },
        authorized_ask(
            "POST /api/vms/1/stop (recreated)",
            Method::Post,
            "/api/vms/1/stop",
            Payload::Nothing,
            200,
            Check::Nothing,
        ),
        Step::Becomes { id: 1, status: "stopped" },
        authorized_ask(
            "DELETE /api/vms/1 (cleanup)",
            Method::Delete,
            "/api/vms/1",
            Payload::Nothing,
            204,
            Check::Nothing,
        ),
        Step::Disappears { id: 1 },
    ]
}

/// Every step of the probe, in order.
pub open spec fn steps() -> Seq<Step> {
    reading_steps() + rejection_steps() + lifecycle_steps() + recreation_steps()
}

/// The first steps.
fn reading() -> (r: Vec<Step>)
    ensures
        r@ == reading_steps(),
{
    vec![
        Step::Ready {
            path: "/api/vms",
            expected: 200,
            deadline_secs: INITIAL_READY_DEADLINE_SECS,
        },
        open_step("GET /api/vms", Method::Get, "/api/vms", 200, Check::ListsDefault),
        open_step("GET /api/vms/1", Method::Get, "/api/vms/1", 200, Check::DescribesDefault),
        open_step(
            "GET /api/vms/not-an-id",
            Method::Get,
            "/api/vms/not-an-id",
            404,
            Check::Nothing,
        ),
        open_step("GET /api/vms/999", Method::Get, "/api/vms/999", 404, Check::Nothing),
    ]
}

/// The steps on writes that are rejected.
fn rejections() -> (r: Vec<Step>)
    ensures
        r@ == rejection_steps(),
{
    vec![
        open_step(
            "POST /api/vms/create (no auth)",
            Method::Post,
            "/api/vms/create",
            401,
            Check::Nothing,
        ),
        open_step(
            "POST /api/vms/1/start (no auth)",
            Method::Post,
            "/api/vms/1/start",
            401,
            Check::Nothing,
        ),
        open_step(
            "POST /api/vms/1/stop (no auth)",
            Method::Post,
            "/api/vms/1/stop",
            401,
            Check::Nothing,
        ),
        open_step(
            "DELETE /api/vms/1 (no auth)",
            Method::Delete,
            "/api/vms/1",
            401,
            Check::Nothing,
        ),
        authorized_step(
            "POST /api/vms/create (missing toml)",
            Method::Post,
            "/api/vms/create",
            Payload::EmptyObject,
            400,
            Check::Nothing,
        ),
        authorized_step(
            "POST /api/vms/create (invalid toml)",
            Method::Post,
            "/api/vms/create",
            Payload::InvalidConfig,
            400,
            Check::Nothing,
        ),
        authorized_step(
            "POST /api/vms/999/start (auth'd)",
            Method::Post,
            "/api/vms/999/start",
            Payload::Nothing,
            404,
            Check::Nothing,
        ),
        authorized_step(
            "POST /api/vms/999/stop (auth'd)",
            Method::Post,
            "/api/vms/999/stop",
            Payload::Nothing,
            404,
            Check::Nothing,
        ),
        authorized_step(
            "DELETE /api/vms/999 (auth'd)",
            Method::Delete,
            "/api/vms/999",
            Payload::Nothing,
            404,
            Check::Nothing,
        ),
        authorized_step(
            "POST /api/vms/create (duplicate id=1)",
            Method::Post,
            "/api/vms/create",
            Payload::Fixture,
            409,
            Check::Nothing,
        ),
    ]
}

/// The steps that take the default VM through its life.
fn lifecycle() -> (r: Vec<Step>)
    ensures
        r@ == lifecycle_steps(),
{
    vec![
        authorized_step(
            "POST /api/vms/1/start",
            Method::Post,
            "/api/vms/1/start",
            Payload::Nothing,
            200,
            Check::Reports { ok: true, is_async: false },
        ),
        Step::Becomes { id: 1, status: "running" },
        authorized_step(
            "POST /api/vms/1/start (already running)",
            Method::Post,
            "/api/vms/1/start",
            Payload::Nothing,
            409,
            Check::Nothing,
        ),
        authorized_step(
            "POST /api/vms/1/stop",
            Method::Post,
            "/api/vms/1/stop",
            Payload::Nothing,
            200,
            Check::Reports { ok: true, is_async: true },
        ),
        Step::Becomes { id: 1, status: "stopped" },
        authorized_step(
            "POST /api/vms/1/start (restart-after-stop)",
            Method::Post,
            "/api/vms/1/start",
            Payload::Nothing,
            409,
            Check::Nothing,
        ),
        authorized_step(
            "DELETE /api/vms/1",
            Method::Delete,
            "/api/vms/1",
            Payload::Nothing,
            204,
            Check::Nothing,
        ),
        Step::Disappears { id: 1 },
    ]
}

/// The steps that recreate the default VM, run it and remove it.
fn recreation() -> (r: Vec<Step>)
    ensures
        r@ == recreation_steps(),
{
    vec![
        authorized_step(
            "POST /api/vms/create (recreate)",
            Method::Post,
            "/api/vms/create",
            Payload::Fixture,
            200,
            Check::ReturnsId,
        ),
        Step::Becomes { id: 1, status: "ready" },
        authorized_step(
            "POST /api/vms/create (recreate duplicate)",
            Method::Post,
            "/api/vms/create",
            Payload::Fixture,
            409,
            Check::Nothing,
        ),
        authorized_step(
            "POST /api/vms/1/start (recreated)",
            Method::Post,
            "/api/vms/1/start",
            Payload::Nothing,
            200,
            Check::Nothing,
        ),
        Step::Becomes { id: 1, status: "running" },
        authorized_step(
            "POST /api/vms/1/stop (recreated)",
            Method::Post,
            "/api/vms/1/stop",
            Payload::Nothing,
            200,
            Check::Nothing,
        ),
        Step::Becomes { id: 1, status: "stopped" },
        authorized_step(
            "DELETE /api/vms/1 (cleanup)",
            Method::Delete,
            "/api/vms/1",
            Payload::Nothing,
            204,
            Check::Nothing,
        ),
        Step::Disappears { id: 1 },
    ]
}

/// Every step of the probe, in order.
pub fn script() -> (r: Vec<Step>)
    ensures
        r@ == steps(),
{
    let mut all: Vec<Step> = reading();
    let mut rejections: Vec<Step> = rejections();
    let mut lifecycle: Vec<Step> = lifecycle();
    let mut recreation: Vec<Step> = recreation();
    all.append(&mut rejections);
    all.append(&mut lifecycle);
    all.append(&mut recreation);
    all
}

/// One HTTP request.
#[derive(Debug, Clone, PartialEq, Eq)]
pub struct Request {
    /// Method of the request.
    pub method: Method,
    /// Where it goes.
    pub url: String,
    /// The token it carries.
    pub bearer: Option<String>,
    /// The type of what it carries.
    pub content_type: Option<String>,
    /// What it carries.
    pub body: Option<String>,
}

/// The view of a [`Request`].
#[verifier::ext_equal]
pub struct RequestView {
    /// Method of the request.
    pub method: Method,
    /// Where it goes.
    pub url: Seq<char>,
    /// The token it carries.
    pub bearer: Option<Seq<char>>,
    /// The type of what it carries.
    pub content_type: Option<Seq<char>>,
    /// What it carries.
    pub body: Option<Seq<char>>,
}

impl View for Request {
    type V = RequestView;

    open spec fn view(&self) -> RequestView {
        RequestView {
            method: self.method,
            url: self.url@,
            bearer: text::optional(self.bearer),
            content_type: text::optional(self.content_type),
            body: text::optional(self.body),
        }
    }
}

/// A config that is not TOML.
pub const INVALID_TOML: &'static str = "this is not [[ valid toml {{{";

/// What a request with `payload` carries, where `fixture` is the create body of
/// the default VM.
pub open spec fn payload_text(payload: Payload, fixture: Seq<char>) -> Option<Seq<char>> {
    match payload {
        Payload::Nothing => None,
        Payload::EmptyObject => Some("{}"@),
        Payload::InvalidConfig => Some(
            json::json_text(json::single_text("toml"@, INVALID_TOML@)),
        ),
        Payload::Fixture => Some(fixture),
    }
}

/// The URL of a VM's detail.
pub open spec fn vm_url(base: Seq<char>, id: u64) -> Seq<char> {
    base + "/api/vms/"@ + text::decimal(id as nat)
}

/// An unauthenticated `GET` without a body.
pub open spec fn plain_get(url: Seq<char>) -> RequestView {
    RequestView { method: Method::Get, url, bearer: None, content_type: None, body: None }
}

/// The request a step sends. A request carries a content type exactly if it
/// carries a body, and the token only where the step is authorized and there is
/// one.
pub open spec fn step_request(
    step: Step,
    base: Seq<char>,
    token: Option<Seq<char>>,
    fixture: Seq<char>,
) -> RequestView {
    match step {
        Step::Ready { path, .. } => plain_get(base + path@),
        Step::Ask { method, path, authorized, payload, .. } => RequestView {
            method,
            url: base + path@,
            bearer: if authorized {
                token
            } else {
                None
            },
            content_type: match payload {
                Payload::Nothing => None,
                _ => Some("application/json"@),
            },
            body: payload_text(payload, fixture),
        },
        Step::Becomes { id, .. } => plain_get(vm_url(base, id)),
        Step::Disappears { id } => plain_get(vm_url(base, id)),
    }
}

/// What examining one answer comes to: lines of progress, and a verdict.
pub struct Examined {
    /// Lines of progress.
    pub notes: Seq<NoteView>,
    /// Whether every demand is met, or the first that is not.
    pub result: Result<(), Seq<char>>,
}

/// The lines of progress of a check.
pub open spec fn check_notes(check: Check, label: Seq<char>, reply: ReplyView) -> Seq<NoteView> {
    match check {
        Check::DescribesDefault => checks::vm_status_notes(label, reply.body, "ready"@),
        Check::Reports { ok, is_async } => checks::action_notes(label, reply.body, ok, is_async),
        _ => Seq::empty(),
    }
}

/// What a check comes to.
pub open spec fn check_result(check: Check, label: Seq<char>, reply: ReplyView) -> Result<
    (),
    Seq<char>,
> {
    match check {
        Check::Nothing => Ok(()),
        Check::ListsDefault => checks::demand(
            checks::lists_vm(reply.body, 1),
            "GET /api/vms did not list the default VM id=1"@,
        ),
        Check::DescribesDefault => match checks::vm_status_check(label, reply.body, "ready"@) {
            Ok(_) => checks::detail_check(label, reply.body),
            Err(message) => Err(message),
        },
        Check::Reports { ok, is_async } => checks::action_check(label, reply.body, ok, is_async),
        Check::ReturnsId => checks::demand(
            checks::returns_id(reply.body),
            "recreate did not return id=1"@,
        ),
    }
}

/// What the reply to a single request comes to: the status code is checked
/// first, the body only where that is the expected one.
pub open spec fn examined(
    label: Seq<char>,
    expected: u16,
    check: Check,
    reply: ReplyView,
) -> Examined {
    let note = checks::status_note(label, reply.status, expected);
    match checks::status_check(label, reply.status, expected) {
        Err(message) => Examined { notes: seq![note], result: Err(message) },
        Ok(_) => Examined {
            notes: seq![note] + check_notes(check, label, reply),
            result: check_result(check, label, reply),
        },
    }
}

/// Examines the reply to a single request, appending lines of progress to
/// `notes`.
pub fn examine(
    notes: &mut Vec<Note>,
    label: &str,
    expected: u16,
    check: Check,
    reply: &Reply,
) -> (r: Result<(), String>)
    ensures
        text::answer(r) == examined(label@, expected, check, reply@).result,
        checks::note_views(final(notes)@) == checks::note_views(old(notes)@) + examined(
            label@,
            expected,
            check,
            reply@,
        ).notes,
{
    let ghost before = checks::note_views(notes@);
    let ghost note = checks::status_note(label@, reply.status, expected);
    note_status(notes, label, reply.status, expected);
    assert(before.push(note) =~= before + seq![note]);
    match assert_status(label, reply.status, expected) {
        Err(message) => Err(message),
        Ok(_) => {
            let r: Result<(), String> = match check {
                Check::Nothing => Ok(()),
                Check::ListsDefault => {
                    if list_has_vm(&reply.body, 1) {
                        Ok(())
                    } else {
                        Err("GET /api/vms did not list the default VM id=1".to_string())
                    }
                },
                Check::DescribesDefault => {
                    note_vm_status(notes, label, &reply.body, "ready");
                    match assert_vm_status(label, &reply.body, "ready") {
                        Ok(_) => assert_detail(label, &reply.body),
                        Err(message) => Err(message),
                    }
                },
                Check::Reports { ok, is_async } => {
                    note_action(notes, label, &reply.body, ok, is_async);
                    assert_action(label, &reply.body, ok, is_async)
                },
                Check::ReturnsId => {
                    if body_returns_id(&reply.body) {
                        Ok(())
                    } else {
                        Err("recreate did not return id=1".to_string())
                    }
                },
            };
            assert(checks::note_views(notes@) =~= before + examined(
                label@,
                expected,
                check,
                reply@,
            ).notes);
            r
        },
    }
}

/// What one answer means to a poll.
#[derive(Debug, Clone, PartialEq, Eq)]
pub enum PollResult {
    /// What it waits for has come.
    Satisfied,
    /// It has not come yet.
    Unsatisfied,
    /// It never will: the reply makes no sense.
    Broken(String),
}

/// The view of a [`PollResult`].
pub enum PollResultView {
    /// What it waits for has come.
    Satisfied,
    /// It has not come yet.
    Unsatisfied,
    /// It never will.
    Broken(Seq<char>),
}

impl View for PollResult {
    type V = PollResultView;

    open spec fn view(&self) -> PollResultView {
        match self {
            PollResult::Satisfied => PollResultView::Satisfied,
            PollResult::Unsatisfied => PollResultView::Unsatisfied,
            PollResult::Broken(message) => PollResultView::Broken(message@),
        }
    }
}

/// Whether `answer` has the status code `expected`, whatever its body holds.
pub open spec fn has_status(expected: u16, answer: AnswerView) -> bool {
    answer.status() == Some(expected)
}

/// The line of progress once the server returns the status code `expected`.
pub open spec fn ready_notes(expected: u16, answer: AnswerView) -> Seq<
    NoteView,
> {
    if has_status(expected, answer) {
        seq![checks::progress("guest management server reachable"@)]
    } else {
        Seq::empty()
    }
}

/// What waiting for the status code `expected` makes of `answer`.
pub open spec fn status_result(expected: u16, answer: AnswerView) -> PollResultView {
    if has_status(expected, answer) {
        PollResultView::Satisfied
    } else {
        PollResultView::Unsatisfied
    }
}

/// What `answer` means to the poll `step`. A status code that is not the
/// expected one, and a transport error, are transient. A poll that waits for a
/// status code does not look at the body.
pub open spec fn poll_result(step: Step, answer: AnswerView) -> PollResultView {
    match step {
        Step::Ready { expected, .. } => status_result(expected, answer),
        Step::Becomes { status, .. } => match answer.reply() {
            Err(_) => PollResultView::Unsatisfied,
            Ok(reply) => if reply.status != 200 {
                PollResultView::Unsatisfied
            } else {
                match checks::status_of(reply.body) {
                    Err(message) => PollResultView::Broken(message),
                    Ok(found) => if found == status@ {
                        PollResultView::Satisfied
                    } else {
                        PollResultView::Unsatisfied
                    },
                }
            },
        },
        Step::Disappears { .. } => status_result(404, answer),
        Step::Ask { .. } => PollResultView::Unsatisfied,
    }
}

/// `VM[id]`.
pub open spec fn vm_label(id: u64) -> Seq<char> {
    "VM["@ + text::decimal(id as nat) + "]"@
}

/// `VM[id]`.
fn vm_label_text(id: u64) -> (r: String)
    ensures
        r@ == vm_label(id),
{
    let number: String = text::number(id);
    "VM[".to_string().concat(number.as_str()).concat("]")
}

/// The lines about an answer that a poll of the VM `id` did not wait for, where
/// `poll` names the poll.
pub open spec fn odd_answer(
    id: u64,
    poll: Seq<char>,
    answer: AnswerView,
) -> Seq<NoteView> {
    match answer.reply() {
        Ok(reply) => seq![checks::oddity(vm_label(id) + poll + " saw HTTP "@ + reply.phrase)],
        Err(failure) => seq![
            checks::oddity(vm_label(id) + poll + " transport error: "@ + failure.line()),
        ],
    }
}

/// The lines of progress about an answer to the poll `step`.
pub open spec fn poll_notes(step: Step, answer: AnswerView) -> Seq<NoteView> {
    let satisfied = poll_result(step, answer) is Satisfied;
    match step {
        Step::Ready { expected, .. } => ready_notes(expected, answer),
        Step::Becomes { id, status } => if satisfied {
            seq![checks::progress(vm_label(id) + " -> "@ + status@)]
        } else if answer.reply() is Ok && has_status(200, answer) {
            Seq::empty()
        } else {
            odd_answer(id, " poll"@, answer)
        },
        Step::Disappears { id } => if satisfied {
            seq![checks::progress(vm_label(id) + " -> gone"@)]
        } else {
            odd_answer(id, " gone-poll"@, answer)
        },
        Step::Ask { .. } => Seq::empty(),
    }
}

/// Appends the line about an answer that a poll did not wait for.
fn note_odd_answer(notes: &mut Vec<Note>, id: u64, poll: &str, answer: &Answer)
    ensures
        checks::note_views(final(notes)@) == checks::note_views(old(notes)@) + odd_answer(
            id,
            poll@,
            answer@,
        ),
{
    let label: String = vm_label_text(id);
    match answer {
        Answer::Replied(reply) => {
            push_note(
                notes,
                true,
                label.concat(poll).concat(" saw HTTP ").concat(reply.phrase.as_str()),
            );
        },
        Answer::Garbled { failure, .. } => {
            let line: String = failure.to_text();
            push_note(
                notes,
                true,
                label.concat(poll).concat(" transport error: ").concat(line.as_str()),
            );
        },
        Answer::Failed(failure) => {
            let line: String = failure.to_text();
            push_note(
                notes,
                true,
                label.concat(poll).concat(" transport error: ").concat(line.as_str()),
            );
        },
    }
    assert(checks::note_views(notes@) =~= checks::note_views(old(notes)@) + odd_answer(
        id,
        poll@,
        answer@,
    ));
}

/// What `answer` means to waiting for the status code `expected`, whatever the
/// body holds: anything else is worth another try.
pub fn wait_for_status(notes: &mut Vec<Note>, expected: u16, answer: &Answer) -> (r:
    PollResult)
    ensures
        r@ == status_result(expected, answer@),
        checks::note_views(final(notes)@) == checks::note_views(old(notes)@) + ready_notes(
            expected,
            answer@,
        ),
{
    let ghost before = checks::note_views(notes@);
    if answer.status() == Some(expected) {
        push_note(notes, false, "guest management server reachable".to_string());
        assert(checks::note_views(notes@) =~= before + seq![
            checks::progress("guest management server reachable"@),
        ]);
        return PollResult::Satisfied;
    }
    assert(checks::note_views(notes@) =~= before + Seq::<NoteView>::empty());
    PollResult::Unsatisfied
}

/// What `answer` means to waiting until the VM `id` reports `status`. A status
/// code other than 200 during a transition is transient, for instance while the
/// VM is being torn down.
pub fn poll_vm_status(
    notes: &mut Vec<Note>,
    id: u64,
    status: &'static str,
    answer: &Answer,
) -> (r: PollResult)
    ensures
        r@ == poll_result(Step::Becomes { id, status }, answer@),
        checks::note_views(final(notes)@) == checks::note_views(old(notes)@) + poll_notes(
            Step::Becomes { id, status },
            answer@,
        ),
{
    let ghost before = checks::note_views(notes@);
    match answer {
        Answer::Replied(reply) => {
            if reply.status == 200 {
                let r: PollResult = match vm_status(&reply.body) {
                    Err(message) => PollResult::Broken(message),
                    Ok(found) => {
                        if text::same(found, status) {
                            let label: String = vm_label_text(id);
                            push_note(notes, false, label.concat(" -> ").concat(status));
                            PollResult::Satisfied
                        } else {
                            PollResult::Unsatisfied
                        }
                    },
                };
                assert(checks::note_views(notes@) =~= before + poll_notes(
                    Step::Becomes { id, status },
                    answer@,
                ));
                return r;
            }
        },
        _ => {},
    }
    note_odd_answer(notes, id, " poll", answer);
    PollResult::Unsatisfied
}

/// What `answer` means to waiting until the VM `id` is gone: a 404 says that it
/// is, whatever its body holds.
pub fn poll_vm_gone(notes: &mut Vec<Note>, id: u64, answer: &Answer) -> (r:
    PollResult)
    ensures
        r@ == poll_result(Step::Disappears { id }, answer@),
        checks::note_views(final(notes)@) == checks::note_views(old(notes)@) + poll_notes(
            Step::Disappears { id },
            answer@,
        ),
{
    let ghost before = checks::note_views(notes@);
    if answer.status() == Some(404) {
        let label: String = vm_label_text(id);
        push_note(notes, false, label.concat(" -> gone"));
        assert(checks::note_views(notes@) =~= before + poll_notes(
            Step::Disappears { id },
            answer@,
        ));
        return PollResult::Satisfied;
    }
    note_odd_answer(notes, id, " gone-poll", answer);
    PollResult::Unsatisfied
}

}
