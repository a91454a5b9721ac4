//! What the probe demands of a single reply of the management API.

use super::json::{self, read_body, Json, JsonBody, JsonBodyView, JsonView};
use crate::report::{Failure, FailureView};
use crate::text;
use vstd::prelude::*;

verus! {

/// One line of progress.
#[derive(Debug, Clone, PartialEq, Eq)]
pub struct Note {
    /// Whether the line reports something unusual, and goes to the error
    /// stream.
    pub unusual: bool,
    /// The text of the line.
    pub text: String,
}

/// The view of a [`Note`].
pub struct NoteView {
    /// Whether the line goes to the error stream.
    pub unusual: bool,
    /// The text of the line.
    pub text: Seq<char>,
}

impl View for Note {
    type V = NoteView;

    open spec fn view(&self) -> NoteView {
        NoteView { unusual: self.unusual, text: self.text@ }
    }
}

/// The views of a sequence of notes.
pub open spec fn note_views(notes: Seq<Note>) -> Seq<NoteView> {
    notes.map_values(|note: Note| note@)
}

/// A line of progress, after the name of the probe.
pub open spec fn progress(text: Seq<char>) -> NoteView {
    NoteView { unusual: false, text: "  http probe: "@ + text }
}

/// A line about something unusual, after the name of the probe.
pub open spec fn oddity(text: Seq<char>) -> NoteView {
    NoteView { unusual: true, text: "  http probe: "@ + text }
}

/// Appends a line to `notes`, after the name of the probe.
pub(crate) fn push_note(notes: &mut Vec<Note>, unusual: bool, text: String)
    ensures
        note_views(final(notes)@) == note_views(old(notes)@).push(
            NoteView { unusual, text: "  http probe: "@ + text@ },
        ),
{
    notes.push(Note { unusual, text: "  http probe: ".to_string().concat(text.as_str()) });
    assert(note_views(notes@) =~= note_views(old(notes)@).push(
        NoteView { unusual, text: "  http probe: "@ + text@ },
    ));
}

/// What came of one HTTP request.
#[derive(Debug)]
pub enum Exchange {
    /// The request could not be sent.
    SendFailed(String),
    /// The response arrived, but its body could not be read.
    BodyFailed(String),
    /// The response arrived.
    Arrived {
        /// The status code.
        status: u16,
        /// The status code with its customary phrase.
        phrase: String,
        /// The bytes of the body.
        bytes: Vec<u8>,
    },
}

/// One reply of the management API.
#[derive(Debug)]
pub struct Reply {
    /// The status code.
    pub status: u16,
    /// The status code with its customary phrase.
    pub phrase: String,
    /// The JSON body, where there is one.
    pub body: Option<JsonBody>,
}

/// The view of a [`Reply`].
pub struct ReplyView {
    /// The status code.
    pub status: u16,
    /// The status code with its customary phrase.
    pub phrase: Seq<char>,
    /// The JSON body, where there is one.
    pub body: Option<JsonBodyView>,
}

impl View for Reply {
    type V = ReplyView;

    open spec fn view(&self) -> ReplyView {
        ReplyView { status: self.status, phrase: self.phrase@, body: json::body_view(self.body) }
    }
}

/// The view of a reply, or of the error met in its place.
pub open spec fn reply_view(reply: Result<Reply, Failure>) -> Result<ReplyView, FailureView> {
    match reply {
        Ok(reply) => Ok(reply@),
        Err(failure) => Err(failure@),
    }
}

/// The answer to a request.
#[derive(Debug)]
pub enum Answer {
    /// A reply.
    Replied(Reply),
    /// A response whose body is not JSON.
    Garbled {
        /// The status code.
        status: u16,
        /// What is wrong with the body.
        failure: Failure,
    },
    /// No response: the transport failed.
    Failed(Failure),
}

/// The view of an [`Answer`].
pub enum AnswerView {
    /// A reply.
    Replied(ReplyView),
    /// A response whose body is not JSON.
    Garbled {
        /// The status code.
        status: u16,
        /// What is wrong with the body.
        failure: FailureView,
    },
    /// No response.
    Failed(FailureView),
}

impl View for Answer {
    type V = AnswerView;

    open spec fn view(&self) -> AnswerView {
        match self {
            Answer::Replied(reply) => AnswerView::Replied(reply@),
            Answer::Garbled { status, failure } => AnswerView::Garbled {
                status: *status,
                failure: failure@,
            },
            Answer::Failed(failure) => AnswerView::Failed(failure@),
        }
    }
}

impl AnswerView {
    /// The status code that came back, whatever the body holds.
    pub open spec fn status(self) -> Option<u16> {
        match self {
            AnswerView::Replied(reply) => Some(reply.status),
            AnswerView::Garbled { status, .. } => Some(status),
            AnswerView::Failed(_) => None,
        }
    }

    /// The reply, where its body matters: one that is not JSON is an error.
    pub open spec fn reply(self) -> Result<ReplyView, FailureView> {
        match self {
            AnswerView::Replied(reply) => Ok(reply),
            AnswerView::Garbled { failure, .. } => Err(failure),
            AnswerView::Failed(failure) => Err(failure),
        }
    }
}

impl Answer {
    /// The status code that came back, whatever the body holds.
    pub fn status(&self) -> (r: Option<u16>)
        ensures
            r == self@.status(),
    {
        match self {
            Answer::Replied(reply) => Some(reply.status),
            Answer::Garbled { status, .. } => Some(*status),
            Answer::Failed(_) => None,
        }
    }

    /// The reply, where its body matters: one that is not JSON is an error.
    pub fn into_reply(self) -> (r: Result<Reply, Failure>)
        ensures
            reply_view(r) == self@.reply(),
    {
        match self {
            Answer::Replied(reply) => Ok(reply),
            Answer::Garbled { failure, .. } => Err(failure),
            Answer::Failed(failure) => Err(failure),
        }
    }
}

/// The first of `bytes`, as many as an error message shows.
pub open spec fn excerpt(bytes: Seq<u8>) -> Seq<u8> {
    if bytes.len() <= 256 {
        bytes
    } else {
        bytes.take(256)
    }
}

/// The answer to a request to `url`, given what the JSON parser made of the
/// body. It is only asked about a body that is not empty.
pub open spec fn exchange_answer(
    url: Seq<char>,
    exchange: Exchange,
    reading: Result<Option<JsonBodyView>, Seq<char>>,
) -> AnswerView {
    match exchange {
        Exchange::SendFailed(error) => AnswerView::Failed(
            FailureView::plain(error@).within("HTTP request "@ + url + " failed"@),
        ),
        Exchange::BodyFailed(error) => AnswerView::Failed(
            FailureView::plain(error@).within(
                "HTTP response body from "@ + url + " failed to read"@,
            ),
        ),
        Exchange::Arrived { status, phrase, bytes } => if bytes@.len() == 0 {
            AnswerView::Replied(ReplyView { status, phrase: phrase@, body: None })
        } else {
            match reading {
                Ok(body) => AnswerView::Replied(ReplyView { status, phrase: phrase@, body }),
                Err(message) => AnswerView::Garbled {
                    status,
                    failure: FailureView::plain(message).within(
                        "HTTP response from "@ + url + " was not valid JSON: "@ + text::byte_list(
                            excerpt(bytes@),
                        ),
                    ),
                },
            }
        },
    }
}

/// What the JSON parser makes of the body of `exchange`.
pub open spec fn exchange_reading(exchange: Exchange) -> Result<Option<JsonBodyView>, Seq<char>> {
    match exchange {
        Exchange::Arrived { bytes, .. } => json::body_reading(bytes@),
        _ => Ok(None),
    }
}

/// The first bytes of `bytes`, as a list of numbers.
fn excerpt_text(bytes: &Vec<u8>) -> (r: String)
    ensures
        r@ == text::byte_list(excerpt(bytes@)),
{
    let mut first: Vec<u8> = Vec::new();
    let mut i: usize = 0;
    while i < bytes.len() && i < 256
        invariant
            i <= bytes.len(),
            i <= 256,
            first@ == bytes@.take(i as int),
        decreases bytes.len() - i,
    {
        first.push(bytes[i]);
        assert(bytes@.take(i + 1) =~= bytes@.take(i as int).push(bytes@[i as int]));
        i = i + 1;
    }
    assert(first@ =~= excerpt(bytes@));
    text::list_bytes(first.as_slice())
}

/// The answer to a request to `url`, given what the JSON parser made of the
/// body.
pub fn read_answer_with(
    url: &str,
    exchange: Exchange,
    reading: Result<Option<JsonBody>, String>,
) -> (r: Answer)
    ensures
        r@ == exchange_answer(url@, exchange, json::body_outcome(reading)),
{
    match exchange {
        Exchange::SendFailed(error) => Answer::Failed(
            Failure::new(error).context("HTTP request ".to_string().concat(url).concat(" failed")),
        ),
        Exchange::BodyFailed(error) => Answer::Failed(
            Failure::new(error).context(
                "HTTP response body from ".to_string().concat(url).concat(" failed to read"),
            ),
        ),
        Exchange::Arrived { status, phrase, bytes } => {
            if bytes.len() == 0 {
                return Answer::Replied(Reply { status, phrase, body: None });
            }
            match reading {
                Ok(body) => Answer::Replied(Reply { status, phrase, body }),
                Err(message) => {
                    let list: String = excerpt_text(&bytes);
                    Answer::Garbled {
                        status,
                        failure: Failure::new(message).context(
                            "HTTP response from ".to_string().concat(url).concat(
                                " was not valid JSON: ",
                            ).concat(list.as_str()),
                        ),
                    }
                },
            }
        },
    }
}

/// The answer to a request to `url`. A status code is kept even where the body
/// is not JSON, for polls that only wait for the code.
pub fn read_answer(url: &str, exchange: Exchange) -> (r: Answer)
    ensures
        r@ == exchange_answer(url@, exchange, exchange_reading(exchange)),
{
    let reading: Result<Option<JsonBody>, String> = match &exchange {
        Exchange::Arrived { bytes, .. } => read_body(bytes.as_slice()),
        _ => Ok(None),
    };
    read_answer_with(url, exchange, reading)
}

/// The reply to a request to `url`: the status code and the JSON body, if any.
///
/// A transport error is an error for the caller to retry; a body that is not
/// JSON is an error too.
pub fn read_exchange(url: &str, exchange: Exchange) -> (r: Result<Reply, Failure>)
    ensures
        reply_view(r) == exchange_answer(url@, exchange, exchange_reading(exchange)).reply(),
{
    read_answer(url, exchange).into_reply()
}

/// Success if `holds`, and otherwise the error `message`.
pub open spec fn demand(holds: bool, message: Seq<char>) -> Result<(), Seq<char>> {
    if holds {
        Ok(())
    } else {
        Err(message)
    }
}

/// The line of progress about a status code.
pub open spec fn status_note(label: Seq<char>, actual: u16, expected: u16) -> NoteView {
    progress(
        label + " -> "@ + text::decimal(actual as nat) + " (expect "@ + text::decimal(
            expected as nat,
        ) + ")"@,
    )
}

/// Whether the status code is the expected one.
pub open spec fn status_check(label: Seq<char>, actual: u16, expected: u16) -> Result<
    (),
    Seq<char>,
> {
    demand(
        actual == expected,
        label + " returned "@ + text::decimal(actual as nat) + ", expected "@ + text::decimal(
            expected as nat,
        ),
    )
}

/// Checks that `actual` equals `expected`.
pub fn assert_status(label: &str, actual: u16, expected: u16) -> (r: Result<(), String>)
    ensures
        text::answer(r) == status_check(label@, actual, expected),
        r is Ok <==> actual == expected,
{
    if actual == expected {
        Ok(())
    } else {
        let got: String = text::number(actual as u64);
        let wanted: String = text::number(expected as u64);
        Err(
            label.to_string().concat(" returned ").concat(got.as_str()).concat(
                ", expected ",
            ).concat(wanted.as_str()),
        )
    }
}

/// Appends the line of progress about a status code.
pub(crate) fn note_status(notes: &mut Vec<Note>, label: &str, actual: u16, expected: u16)
    ensures
        note_views(final(notes)@) == note_views(old(notes)@).push(
            status_note(label@, actual, expected),
        ),
{
    let got: String = text::number(actual as u64);
    let wanted: String = text::number(expected as u64);
    push_note(
        notes,
        false,
        label.to_string().concat(" -> ").concat(got.as_str()).concat(" (expect ").concat(
            wanted.as_str(),
        ).concat(")"),
    );
}

/// Whether some of `items` has the member `id` with the value `id`.
pub open spec fn some_has_id(items: Seq<JsonView>, id: u64) -> bool {
    exists|i: int| 0 <= i < items.len() && (#[trigger] items[i]).unsigned("id"@) == Some(id)
}

/// Whether a list of VMs holds one with the given id. Only an array is a list.
pub open spec fn lists_vm(body: Option<JsonBodyView>, id: u64) -> bool {
    match body {
        Some(body) => match body.json {
            JsonView::Array(items) => some_has_id(items, id),
            _ => false,
        },
        None => false,
    }
}

/// Whether some item of the array `json` has the member `id` with the value
/// `id`.
fn array_has_id(json: &Json, id: u64) -> (r: bool)
    ensures
        r == (json@ is Array && some_has_id(json@->Array_0, id)),
{
    match json {
        Json::Array(items) => {
            let ghost views = json@->Array_0;
            let mut i: usize = 0;
            while i < items.len()
                invariant
                    i <= items.len(),
                    json@ == JsonView::Array(views),
                    views == json::json_view(Json::Array(*items))->Array_0,
                    forall|j: int|
                        0 <= j < i ==> (#[trigger] views[j]).unsigned("id"@) != Some(id),
                decreases items.len() - i,
            {
                let found: Option<u64> = items[i].unsigned("id");
                assert(views[i as int] == items@[i as int]@);
                if found == Some(id) {
                    return true;
                }
                i = i + 1;
            }
            false
        },
        _ => false,
    }
}

/// Whether a `GET /api/vms` body lists a VM with the given id.
pub fn list_has_vm(body: &Option<JsonBody>, id: u64) -> (r: bool)
    ensures
        r == lists_vm(json::body_view(*body), id),
{
    match body {
        Some(body) => array_has_id(&body.json, id),
        None => false,
    }
}

/// The status a VM detail body reports, or what is wrong with the body.
pub open spec fn status_of(body: Option<JsonBodyView>) -> Result<Seq<char>, Seq<char>> {
    match body {
        None => Err("VM detail response had no JSON body"@),
        Some(body) => match body.json.text("status"@) {
            Some(status) => Ok(status),
            None => Err("VM detail response had no status string: "@ + body.text),
        },
    }
}

/// Extracts the top-level `status` string of a VM detail body.
pub fn vm_status(body: &Option<JsonBody>) -> (r: Result<&str, String>)
    ensures
        match r {
            Ok(status) => status_of(json::body_view(*body)) == Ok::<Seq<char>, Seq<char>>(status@),
            Err(message) => status_of(json::body_view(*body)) == Err::<Seq<char>, Seq<char>>(
                message@,
            ),
        },
{
    match body {
        None => Err("VM detail response had no JSON body".to_string()),
        Some(body) => match body.json.text("status") {
            Some(status) => Ok(status),
            None => Err(
                "VM detail response had no status string: ".to_string().concat(body.text.as_str()),
            ),
        },
    }
}

/// The line of progress about a VM status, where the body reports one.
pub open spec fn vm_status_notes(
    label: Seq<char>,
    body: Option<JsonBodyView>,
    expected: Seq<char>,
) -> Seq<NoteView> {
    match status_of(body) {
        Ok(status) => seq![
            progress(label + " -> status "@ + status + " (expect "@ + expected + ")"@),
        ],
        Err(_) => Seq::empty(),
    }
}

/// Whether a VM detail body reports the expected status.
pub open spec fn vm_status_check(
    label: Seq<char>,
    body: Option<JsonBodyView>,
    expected: Seq<char>,
) -> Result<(), Seq<char>> {
    match status_of(body) {
        Ok(status) => demand(
            status == expected,
            label + " reported status "@ + status + ", expected "@ + expected,
        ),
        Err(message) => Err(message),
    }
}

/// Checks that the VM detail body reports a specific status.
pub fn assert_vm_status(label: &str, body: &Option<JsonBody>, expected: &str) -> (r: Result<
    (),
    String,
>)
    ensures
        text::answer(r) == vm_status_check(label@, json::body_view(*body), expected@),
{
    match vm_status(body) {
        Ok(status) => {
            if text::same(status, expected) {
                Ok(())
            } else {
                Err(
                    label.to_string().concat(" reported status ").concat(status).concat(
                        ", expected ",
                    ).concat(expected),
                )
            }
        },
        Err(message) => Err(message),
    }
}

/// Appends the line of progress about a VM status, where the body reports one.
pub(crate) fn note_vm_status(
    notes: &mut Vec<Note>,
    label: &str,
    body: &Option<JsonBody>,
    expected: &str,
)
    ensures
        note_views(final(notes)@) == note_views(old(notes)@) + vm_status_notes(
            label@,
            json::body_view(*body),
            expected@,
        ),
{
    match vm_status(body) {
        Ok(status) => {
            push_note(
                notes,
                false,
                label.to_string().concat(" -> status ").concat(status).concat(" (expect ").concat(
                    expected,
                ).concat(")"),
            );
            assert(note_views(notes@) =~= note_views(old(notes)@) + vm_status_notes(
                label@,
                json::body_view(*body),
                expected@,
            ));
        },
        Err(_) => {
            assert(note_views(notes@) =~= note_views(old(notes)@) + Seq::<NoteView>::empty());
        },
    }
}

/// The line of progress about a lifecycle action, where there is a body.
pub open spec fn action_notes(
    label: Seq<char>,
    body: Option<JsonBodyView>,
    ok_expected: bool,
    async_expected: bool,
) -> Seq<NoteView> {
    match body {
        None => Seq::empty(),
        Some(body) => seq![
            progress(
                label + " -> ok="@ + text::optional_truth(body.json.boolean("ok"@)) + " async="@
                    + text::optional_truth(body.json.boolean("async"@)) + " (expect ok="@
                    + text::truth(ok_expected) + " async="@ + text::truth(async_expected) + ")"@,
            ),
        ],
    }
}

/// Whether a lifecycle action response reports the expected markers.
pub open spec fn action_check(
    label: Seq<char>,
    body: Option<JsonBodyView>,
    ok_expected: bool,
    async_expected: bool,
) -> Result<(), Seq<char>> {
    match body {
        None => Err(label + " had no JSON body"@),
        Some(body) => {
            let ok = body.json.boolean("ok"@);
            let is_async = body.json.boolean("async"@);
            if ok != Some(ok_expected) {
                Err(
                    label + " reported ok="@ + text::optional_truth(ok) + ", expected "@
                        + text::truth(ok_expected),
                )
            } else {
                demand(
                    is_async == Some(async_expected),
                    label + " reported async="@ + text::optional_truth(is_async) + ", expected "@
                        + text::truth(async_expected),
                )
            }
        },
    }
}

/// Checks that a lifecycle action response reports the expected `ok` and
/// `async` markers. `async` distinguishes a synchronous start from a
/// request-style stop whose stopped state arrives later.
pub fn assert_action(
    label: &str,
    body: &Option<JsonBody>,
    ok_expected: bool,
    async_expected: bool,
) -> (r: Result<(), String>)
    ensures
        text::answer(r) == action_check(label@, json::body_view(*body), ok_expected, async_expected),
{
    match body {
        None => Err(label.to_string().concat(" had no JSON body")),
        Some(body) => {
            let ok: Option<bool> = body.json.boolean("ok");
            let is_async: Option<bool> = body.json.boolean("async");
            if ok != Some(ok_expected) {
                let got: String = text::optional_truth_text(ok);
                return Err(
                    label.to_string().concat(" reported ok=").concat(got.as_str()).concat(
                        ", expected ",
                    ).concat(text::truth_text(ok_expected)),
                );
            }
            if is_async != Some(async_expected) {
                let got: String = text::optional_truth_text(is_async);
                return Err(
                    label.to_string().concat(" reported async=").concat(got.as_str()).concat(
                        ", expected ",
                    ).concat(text::truth_text(async_expected)),
                );
            }
            Ok(())
        },
    }
}

/// Appends the line of progress about a lifecycle action, where there is a
/// body.
pub(crate) fn note_action(
    notes: &mut Vec<Note>,
    label: &str,
    body: &Option<JsonBody>,
    ok_expected: bool,
    async_expected: bool,
)
    ensures
        note_views(final(notes)@) == note_views(old(notes)@) + action_notes(
            label@,
            json::body_view(*body),
            ok_expected,
            async_expected,
        ),
{
    match body {
        None => {
            assert(note_views(notes@) =~= note_views(old(notes)@) + Seq::<NoteView>::empty());
        },
        Some(json) => {
            let ok: String = text::optional_truth_text(json.json.boolean("ok"));
            let is_async: String = text::optional_truth_text(json.json.boolean("async"));
            push_note(
                notes,
                false,
                label.to_string().concat(" -> ok=").concat(ok.as_str()).concat(" async=").concat(
                    is_async.as_str(),
                ).concat(" (expect ok=").concat(text::truth_text(ok_expected)).concat(
                    " async=",
                ).concat(text::truth_text(async_expected)).concat(")"),
            );
            assert(note_views(notes@) =~= note_views(old(notes)@) + action_notes(
                label@,
                json::body_view(*body),
                ok_expected,
                async_expected,
            ));
        },
    }
}

/// What the detail of the default VM must report beside its status, in the
/// order in which it is checked.
pub open spec fn detail_check(label: Seq<char>, body: Option<JsonBodyView>) -> Result<
    (),
    Seq<char>,
> {
    match body {
        None => Err(label + " had no JSON body"@),
        Some(body) => if body.json.unsigned("id"@) != Some(1u64) {
            Err(label + " did not report id=1"@)
        } else if body.json.text("name"@) != Some("linux-http-control-plane"@) {
            Err(label + " did not report the fixture name"@)
        } else if body.json.unsigned("cpu_num"@) != Some(1u64) {
            Err(label + " did not report cpu_num=1"@)
        } else {
            match body.json.array("vcpu_states"@) {
                None => Err(label + " had no vcpu_states array"@),
                Some(states) => demand(
                    states.len() > 0,
                    label + " reported an empty vcpu_states array"@,
                ),
            }
        },
    }
}

/// Checks the identity and the shape of the default VM's detail.
pub fn assert_detail(label: &str, body: &Option<JsonBody>) -> (r: Result<(), String>)
    ensures
        text::answer(r) == detail_check(label@, json::body_view(*body)),
{
    match body {
        None => Err(label.to_string().concat(" had no JSON body")),
        Some(body) => {
            if body.json.unsigned("id") != Some(1) {
                return Err(label.to_string().concat(" did not report id=1"));
            }
            let named: bool = match body.json.text("name") {
                Some(name) => text::same(name, "linux-http-control-plane"),
                None => false,
            };
            if !named {
                return Err(label.to_string().concat(" did not report the fixture name"));
            }
            if body.json.unsigned("cpu_num") != Some(1) {
                return Err(label.to_string().concat(" did not report cpu_num=1"));
            }
            match body.json.array_len("vcpu_states") {
                None => Err(label.to_string().concat(" had no vcpu_states array")),
                Some(count) => {
                    if count > 0 {
                        Ok(())
                    } else {
                        Err(label.to_string().concat(" reported an empty vcpu_states array"))
                    }
                },
            }
        },
    }
}

/// Whether a create response returns the id 1.
pub open spec fn returns_id(body: Option<JsonBodyView>) -> bool {
    match body {
        Some(body) => body.json.unsigned("id"@) == Some(1u64),
        None => false,
    }
}

/// Whether a create response returns the id 1.
pub fn body_returns_id(body: &Option<JsonBody>) -> (r: bool)
    ensures
        r == returns_id(json::body_view(*body)),
{
    match body {
        Some(body) => body.json.unsigned("id") == Some(1),
        None => false,
    }
}

}
