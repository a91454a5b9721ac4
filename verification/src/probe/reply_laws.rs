//! What the probe accepts: the laws on JSON documents, on replies, and on the
//! answer to each step.

use super::checks::{
    self, Answer, AnswerView, Exchange, Note, NoteView, Reply, ReplyView,
};
use super::http_probe::{self, Check, Method, Payload, Request, Step};
use super::json::{self, Json, JsonBodyView, JsonView};
use super::runner_laws;
use crate::report::{Failure, FailureView};
use crate::text;
use vstd::prelude::*;

verus! {

/// Whether `json` is an object whose first member named `name` is `value`.
pub open spec fn has_member(json: JsonView, name: Seq<char>, value: JsonView) -> bool {
    json is Object && exists|i: int| #[trigger] is_first_member(json->Object_0, i, name, value)
}

/// Whether the member `i` of `members` is the first named `name`, with the
/// value `value`.
pub open spec fn is_first_member(
    members: Seq<(Seq<char>, JsonView)>,
    i: int,
    name: Seq<char>,
    value: JsonView,
) -> bool {
    &&& 0 <= i < members.len()
    &&& members[i] == (name, value)
    &&& forall|j: int| 0 <= j < i ==> (#[trigger] members[j]).0 != name
}

proof fn lemma_first_member(members: Seq<(Seq<char>, JsonView)>, name: Seq<char>) -> (i: int)
    ensures
        0 <= i <= members.len(),
        forall|j: int| 0 <= j < i ==> (#[trigger] members[j]).0 != name,
        i < members.len() ==> members[i].0 == name && json::first_member(members, name) == Some(
            members[i].1,
        ),
        i == members.len() ==> json::first_member(members, name) is None,
    decreases members.len(),
{
    if members.len() == 0 || members[0].0 == name {
        0
    } else {
        let rest = members.drop_first();
        let k = lemma_first_member(rest, name);
        assert forall|j: int| 0 <= j < k + 1 implies (#[trigger] members[j]).0 != name by {
            if j > 0 {
                assert(rest[j - 1] == members[j]);
            }
        }
        k + 1
    }
}

/// Looking a member up finds the first of that name in an object, and nothing
/// else has members.
pub proof fn law_member(json: JsonView, name: Seq<char>, value: JsonView)
    ensures
        json.get(name) == Some(value) <==> has_member(json, name, value),
        json.get(name) is None <==> !(json is Object) || forall|i: int|
            0 <= i < json->Object_0.len() ==> (#[trigger] json->Object_0[i]).0 != name,
{
    if json is Object {
        let members = json->Object_0;
        let k = lemma_first_member(members, name);
        if k < members.len() {
            assert(is_first_member(members, k, name, members[k].1));
        }
        if has_member(json, name, value) {
            let i = choose|i: int| #[trigger] is_first_member(members, i, name, value);
            assert(members[i].0 == name);
            assert(i >= k);
            if i > k {
                assert(members[k].0 != name);
            }
        }
    }
}

/// A member is read as a number, a text, a truth value or a list exactly if it
/// is one, and then as it is.
pub proof fn law_typed_member(
    json: JsonView,
    name: Seq<char>,
    number: u64,
    value: Seq<char>,
    truth: bool,
    items: Seq<JsonView>,
)
    ensures
        json.unsigned(name) == Some(number) <==> has_member(
            json,
            name,
            JsonView::Unsigned(number),
        ),
        json.text(name) == Some(value) <==> has_member(json, name, JsonView::Text(value)),
        json.boolean(name) == Some(truth) <==> has_member(json, name, JsonView::Bool(truth)),
        json.array(name) == Some(items) <==> has_member(json, name, JsonView::Array(items)),
{
    law_member(json, name, JsonView::Unsigned(number));
    law_member(json, name, JsonView::Text(value));
    law_member(json, name, JsonView::Bool(truth));
    law_member(json, name, JsonView::Array(items));
}

/// The view of a document keeps its scalars, the items of an array and the
/// members of an object, all in order.
pub proof fn law_document_view(
    number: u64,
    truth: bool,
    value: String,
    items: Vec<Json>,
    members: Vec<(String, Json)>,
)
    ensures
        Json::Unsigned(number)@ == JsonView::Unsigned(number),
        Json::Bool(truth)@ == JsonView::Bool(truth),
        Json::Text(value)@ == JsonView::Text(value@),
        Json::Number(value)@ == JsonView::Number(value@),
        Json::Null@ == JsonView::Null,
        Json::Array(items)@ is Array,
        Json::Array(items)@->Array_0.len() == items@.len(),
        forall|i: int|
            0 <= i < items@.len() ==> (#[trigger] Json::Array(items)@->Array_0[i]) == items@[i]@,
        Json::Object(members)@ is Object,
        Json::Object(members)@->Object_0.len() == members@.len(),
        forall|i: int|
            0 <= i < members@.len() ==> (#[trigger] Json::Object(members)@->Object_0[i]) == (
                members@[i].0@,
                members@[i].1@,
            ),
{
}

/// A body is what the parser makes of its bytes: an error with the same
/// message, nothing for `null`, or the document together with its text.
pub proof fn law_body_reading(bytes: Seq<u8>)
    ensures
        match (json::json_reading(bytes), json::body_reading(bytes)) {
            (Err(message), Err(found)) => found == message,
            (Ok(None), Ok(None)) => true,
            (Ok(Some(json)), Ok(Some(body))) => body.json == json && body.text == json::json_text(
                json,
            ),
            _ => false,
        },
{
}

/// The body of a create request holds the config and nothing else.
pub proof fn law_create_body_is_minimal(toml: Seq<char>)
    ensures
        json::single_text("toml"@, toml)->Object_0.len() == 1,
        has_member(json::single_text("toml"@, toml), "toml"@, JsonView::Text(toml)),
{
    assert(is_first_member(
        json::single_text("toml"@, toml)->Object_0,
        0,
        "toml"@,
        JsonView::Text(toml),
    ));
}

/// An error message shows the first bytes of a body, at most 256 and as many of
/// them as there are.
pub proof fn law_excerpt(bytes: Seq<u8>)
    ensures
        checks::excerpt(bytes).is_prefix_of(bytes),
        checks::excerpt(bytes).len() == 256 || (checks::excerpt(bytes) == bytes && bytes.len()
            <= 256),
{
}

/// What arrives is passed on as it is: the status code whatever the body holds,
/// the phrase, and the body that the parser read; an empty body is none.
/// Without a response there is no status code, and the error is the one that
/// was met, after a context that names the URL.
pub proof fn law_answer(
    url: Seq<char>,
    exchange: Exchange,
    reading: Result<Option<JsonBodyView>, Seq<char>>,
)
    ensures
        ({
            let answer = checks::exchange_answer(url, exchange, reading);
            match exchange {
                Exchange::Arrived { status, phrase, bytes } => {
                    &&& answer.status() == Some(status)
                    &&& answer.reply() is Ok <==> bytes@.len() == 0 || reading is Ok
                    &&& answer is Replied <==> answer.reply() is Ok
                    &&& answer is Replied ==> answer->Replied_0.status == status
                        && answer->Replied_0.phrase == phrase@ && answer->Replied_0.body == (
                    if bytes@.len() == 0 {
                        None
                    } else {
                        reading->Ok_0
                    }) && answer.reply()->Ok_0 == answer->Replied_0
                    &&& answer.reply() is Err ==> answer.reply()->Err_0.cause == reading->Err_0
                        && answer.reply()->Err_0.contexts == seq![
                        "HTTP response from "@ + url + " was not valid JSON: "@ + text::byte_list(
                            checks::excerpt(bytes@),
                        ),
                    ]
                },
                Exchange::SendFailed(error) => {
                    &&& answer.status() is None
                    &&& answer.reply() is Err
                    &&& answer.reply()->Err_0.cause == error@
                    &&& answer.reply()->Err_0.contexts == seq![
                        "HTTP request "@ + url + " failed"@,
                    ]
                },
                Exchange::BodyFailed(error) => {
                    &&& answer.status() is None
                    &&& answer.reply() is Err
                    &&& answer.reply()->Err_0.cause == error@
                    &&& answer.reply()->Err_0.contexts == seq![
                        "HTTP response body from "@ + url + " failed to read"@,
                    ]
                },
            }
        }),
{
}

/// A status code is accepted exactly if it is the expected one; the error names
/// the request and both codes.
pub proof fn law_status_is_exact(label: Seq<char>, actual: u16, expected: u16)
    ensures
        checks::status_check(label, actual, expected) is Ok <==> actual == expected,
        actual != expected ==> checks::status_check(label, actual, expected)->Err_0 == label
            + " returned "@ + text::decimal(actual as nat) + ", expected "@ + text::decimal(
            expected as nat,
        ),
{
}

/// Whether `body` is a document whose member `name` is `value`.
pub open spec fn body_has(body: Option<JsonBodyView>, name: Seq<char>, value: JsonView) -> bool {
    body is Some && has_member(body->0.json, name, value)
}

/// Whether some item of `items` is an object with the id `id`.
pub open spec fn item_has_id(items: Seq<JsonView>, i: int, id: u64) -> bool {
    0 <= i < items.len() && has_member(items[i], "id"@, JsonView::Unsigned(id))
}

/// A list of VMs holds an id exactly if it is an array with an object that has
/// the id, wherever in the array it stands.
pub proof fn law_listed(body: Option<JsonBodyView>, id: u64)
    ensures
        checks::lists_vm(body, id) <==> body is Some && body->0.json is Array && exists|i: int|
            #[trigger] item_has_id(body->0.json->Array_0, i, id),
{
    if body is Some && body->0.json is Array {
        let items = body->0.json->Array_0;
        assert forall|i: int| 0 <= i < items.len() implies ((#[trigger] items[i]).unsigned("id"@)
            == Some(id)) == item_has_id(items, i, id) by {
            law_typed_member(items[i], "id"@, id, Seq::empty(), true, Seq::empty());
        }
        if checks::some_has_id(items, id) {
            let i = choose|i: int|
                0 <= i < items.len() && (#[trigger] items[i]).unsigned("id"@) == Some(id);
            assert(item_has_id(items, i, id));
        }
        if exists|i: int| #[trigger] item_has_id(items, i, id) {
            let i = choose|i: int| #[trigger] item_has_id(items, i, id);
            assert(items[i].unsigned("id"@) == Some(id));
        }
    }
}

/// A detail reports a status exactly if its member `status` is that text.
pub proof fn law_reported_status(body: Option<JsonBodyView>, status: Seq<char>, label: Seq<char>)
    ensures
        checks::status_of(body) == Ok::<Seq<char>, Seq<char>>(status) <==> body_has(
            body,
            "status"@,
            JsonView::Text(status),
        ),
        checks::vm_status_check(label, body, status) is Ok <==> body_has(
            body,
            "status"@,
            JsonView::Text(status),
        ),
{
    if body is Some {
        law_typed_member(body->0.json, "status"@, 0, status, true, Seq::empty());
    }
}

/// An action is accepted exactly if its body reports both markers as expected.
pub proof fn law_action(
    label: Seq<char>,
    body: Option<JsonBodyView>,
    ok_expected: bool,
    async_expected: bool,
)
    ensures
        checks::action_check(label, body, ok_expected, async_expected) is Ok <==> body_has(
            body,
            "ok"@,
            JsonView::Bool(ok_expected),
        ) && body_has(body, "async"@, JsonView::Bool(async_expected)),
{
    if body is Some {
        law_typed_member(body->0.json, "ok"@, 0, Seq::empty(), ok_expected, Seq::empty());
        law_typed_member(body->0.json, "async"@, 0, Seq::empty(), async_expected, Seq::empty());
    }
}

/// Whether `body` describes the default VM.
pub open spec fn describes_default(body: Option<JsonBodyView>) -> bool {
    &&& body_has(body, "id"@, JsonView::Unsigned(1))
    &&& body_has(body, "name"@, JsonView::Text("linux-http-control-plane"@))
    &&& body_has(body, "cpu_num"@, JsonView::Unsigned(1))
    &&& exists|states: Seq<JsonView>|
        states.len() > 0 && #[trigger] body_has(body, "vcpu_states"@, JsonView::Array(states))
}

/// A detail is accepted exactly if it has the id, the name and the number of
/// CPUs of the default VM, and lists at least one vCPU.
pub proof fn law_detail(label: Seq<char>, body: Option<JsonBodyView>)
    ensures
        checks::detail_check(label, body) is Ok <==> describes_default(body),
{
    if body is Some {
        let json = body->0.json;
        law_typed_member(json, "id"@, 1, Seq::empty(), true, Seq::empty());
        law_typed_member(json, "name"@, 0, "linux-http-control-plane"@, true, Seq::empty());
        law_typed_member(json, "cpu_num"@, 1, Seq::empty(), true, Seq::empty());
        if json.array("vcpu_states"@) is Some {
            let states = json.array("vcpu_states"@)->0;
            law_typed_member(json, "vcpu_states"@, 0, Seq::empty(), true, states);
            assert(body_has(body, "vcpu_states"@, JsonView::Array(states)));
            assert forall|other: Seq<JsonView>| #[trigger]
                body_has(body, "vcpu_states"@, JsonView::Array(other)) implies other == states by {
                law_typed_member(json, "vcpu_states"@, 0, Seq::empty(), true, other);
            }
        } else {
            assert forall|other: Seq<JsonView>| !#[trigger] body_has(
                body,
                "vcpu_states"@,
                JsonView::Array(other),
            ) by {
                law_typed_member(json, "vcpu_states"@, 0, Seq::empty(), true, other);
            }
        }
    }
}

/// A create response is accepted exactly if it returns the id 1.
pub proof fn law_returned_id(body: Option<JsonBodyView>)
    ensures
        checks::returns_id(body) <==> body_has(body, "id"@, JsonView::Unsigned(1)),
{
    if body is Some {
        law_typed_member(body->0.json, "id"@, 1, Seq::empty(), true, Seq::empty());
    }
}

/// Whether `body` is what `check` demands.
pub open spec fn meets(check: Check, body: Option<JsonBodyView>) -> bool {
    match check {
        Check::Nothing => true,
        Check::ListsDefault => body is Some && body->0.json is Array && exists|i: int| #[trigger]
            item_has_id(body->0.json->Array_0, i, 1),
        Check::DescribesDefault => body_has(body, "status"@, JsonView::Text("ready"@))
            && describes_default(body),
        Check::Reports { ok, is_async } => body_has(body, "ok"@, JsonView::Bool(ok)) && body_has(
            body,
            "async"@,
            JsonView::Bool(is_async),
        ),
        Check::ReturnsId => body_has(body, "id"@, JsonView::Unsigned(1)),
    }
}

/// A reply to a single request is accepted exactly if its status code is the
/// expected one and its body is what the step demands.
pub proof fn law_examined(label: Seq<char>, expected: u16, check: Check, reply: ReplyView)
    ensures
        http_probe::examined(label, expected, check, reply).result is Ok <==> reply.status
            == expected && meets(check, reply.body),
        http_probe::examined(label, expected, check, reply).notes.len() > 0,
        !http_probe::examined(label, expected, check, reply).notes[0].unusual,
        http_probe::examined(label, expected, check, reply).notes[0].text == "  http probe: "@ + (
        label + " -> "@ + text::decimal(reply.status as nat) + " (expect "@ + text::decimal(
            expected as nat,
        ) + ")"@),
{
    law_status_is_exact(label, reply.status, expected);
    law_listed(reply.body, 1);
    law_reported_status(reply.body, "ready"@, label);
    law_detail(label, reply.body);
    law_returned_id(reply.body);
    if let Check::Reports { ok, is_async } = check {
        law_action(label, reply.body, ok, is_async);
    }
}

/// What each step takes for an answer. A single request takes a JSON reply with
/// exactly the expected status code and the body it demands; readiness takes
/// the status code, whatever the body; a poll for a status takes a 200 that
/// reports it; a poll for a deletion takes a 404.
pub open spec fn takes(step: Step, answer: AnswerView) -> bool {
    match step {
        Step::Ask { expected, check, .. } => answer is Replied && answer->Replied_0.status
            == expected && meets(check, answer->Replied_0.body),
        Step::Ready { expected, .. } => match answer {
            AnswerView::Replied(reply) => reply.status == expected,
            AnswerView::Garbled { status, .. } => status == expected,
            AnswerView::Failed(_) => false,
        },
        Step::Becomes { status, .. } => answer is Replied && answer->Replied_0.status == 200
            && body_has(answer->Replied_0.body, "status"@, JsonView::Text(status@)),
        Step::Disappears { .. } => match answer {
            AnswerView::Replied(reply) => reply.status == 404,
            AnswerView::Garbled { status, .. } => status == 404,
            AnswerView::Failed(_) => false,
        },
    }
}

/// A step is satisfied by the answers it takes, and by no other.
pub proof fn law_satisfaction(step: Step, answer: AnswerView)
    ensures
        runner_laws::satisfies(step, answer) <==> takes(step, answer),
{
    match step {
        Step::Ask { label, expected, check, .. } => {
            if answer is Replied {
                law_examined(label@, expected, check, answer->Replied_0);
            }
        },
        Step::Becomes { status, .. } => {
            if answer is Replied {
                law_reported_status(answer->Replied_0.body, status@, Seq::empty());
            }
        },
        _ => {},
    }
}

/// A poll breaks off on a 200 whose body reports no status at all, and on
/// nothing else.
pub proof fn law_broken_poll(step: Step, answer: AnswerView)
    ensures
        http_probe::poll_result(step, answer) is Broken <==> step is Becomes && answer is Replied
            && answer->Replied_0.status == 200 && forall|status: Seq<char>| !#[trigger] body_has(
            answer->Replied_0.body,
            "status"@,
            JsonView::Text(status),
        ),
{
    if step is Becomes && answer is Replied {
        let body = answer->Replied_0.body;
        assert forall|status: Seq<char>| #[trigger]
            body_has(body, "status"@, JsonView::Text(status)) implies checks::status_of(body)
            == Ok::<Seq<char>, Seq<char>>(status) by {
            law_reported_status(body, status, Seq::empty());
        }
        if checks::status_of(body) is Ok {
            law_reported_status(body, checks::status_of(body)->Ok_0, Seq::empty());
            assert(body_has(body, "status"@, JsonView::Text(checks::status_of(body)->Ok_0)));
        }
    }
}

/// A request goes to the path of its step, with its method; it carries the
/// token exactly if the step is authorized and there is one, and a content type
/// exactly if it carries a body. A poll is a bare `GET` of the VM it polls.
pub proof fn law_request(
    step: Step,
    base: Seq<char>,
    token: Option<Seq<char>>,
    fixture: Seq<char>,
)
    ensures
        ({
            let request = http_probe::step_request(step, base, token, fixture);
            &&& request.content_type is Some <==> request.body is Some
            &&& request.content_type is Some ==> request.content_type->0 == "application/json"@
            &&& match step {
                Step::Ask { method, path, authorized, payload, .. } => {
                    &&& request.method == method
                    &&& request.url == base + path@
                    &&& request.bearer is Some <==> authorized && token is Some
                    &&& request.bearer is Some ==> request.bearer == token
                    &&& request.body is None <==> payload == Payload::Nothing
                    &&& payload == Payload::Fixture ==> request.body == Some(fixture)
                    &&& payload == Payload::EmptyObject ==> request.body == Some("{}"@)
                    &&& payload == Payload::InvalidConfig ==> request.body == Some(
                        json::json_text(
                            json::single_text("toml"@, "this is not [[ valid toml {{{"@),
                        ),
                    )
                },
                Step::Ready { path, .. } => {
                    &&& request.method == Method::Get
                    &&& request.url == base + path@
                    &&& request.bearer is None
                    &&& request.body is None
                },
                Step::Becomes { id, .. } => {
                    &&& request.method == Method::Get
                    &&& request.url == base + "/api/vms/"@ + text::decimal(id as nat)
                    &&& request.bearer is None
                    &&& request.body is None
                },
                Step::Disappears { id } => {
                    &&& request.method == Method::Get
                    &&& request.url == base + "/api/vms/"@ + text::decimal(id as nat)
                    &&& request.bearer is None
                    &&& request.body is None
                },
            }
        }),
{
}

/// A poll says what it saw: that what it waited for has come, on the error
/// stream a reply or an error that it did not wait for, and nothing about a VM
/// that is on its way.
pub proof fn law_poll_notes(step: Step, answer: AnswerView)
    requires
        !(step is Ask),
    ensures
        ({
            let notes = http_probe::poll_notes(step, answer);
            &&& notes.len() <= 1
            &&& takes(step, answer) ==> notes.len() == 1 && !notes[0].unusual
            &&& !takes(step, answer) && notes.len() == 1 ==> notes[0].unusual
            &&& step is Ready && !takes(step, answer) ==> notes.len() == 0
            &&& step is Disappears && !takes(step, answer) ==> notes.len() == 1
            &&& step is Becomes && !takes(step, answer) ==> (notes.len() == 1 <==> !(
            answer is Replied && answer->Replied_0.status == 200))
        }),
{
    law_satisfaction(step, answer);
}

/// An error about a reply begins with the name of the request, and names what
/// was reported and what was expected.
pub proof fn law_errors_name_the_request(
    label: Seq<char>,
    body: Option<JsonBodyView>,
    expected: Seq<char>,
    ok_expected: bool,
    async_expected: bool,
)
    ensures
        checks::action_check(label, body, ok_expected, async_expected) is Err
            ==> label.is_prefix_of(
            checks::action_check(label, body, ok_expected, async_expected)->Err_0,
        ),
        checks::detail_check(label, body) is Err ==> label.is_prefix_of(
            checks::detail_check(label, body)->Err_0,
        ),
        body is Some && checks::status_of(body) is Err ==> checks::status_of(body)->Err_0
            == "VM detail response had no status string: "@ + body->0.text,
        checks::status_of(body) is Ok && checks::vm_status_check(label, body, expected) is Err
            ==> checks::vm_status_check(label, body, expected)->Err_0 == label
            + " reported status "@ + checks::status_of(body)->Ok_0 + ", expected "@ + expected,
        body is Some && body->0.json.boolean("ok"@) == Some(ok_expected) && checks::action_check(
            label,
            body,
            ok_expected,
            async_expected,
        ) is Err ==> checks::action_check(label, body, ok_expected, async_expected)->Err_0 == label
            + " reported async="@ + text::optional_truth(body->0.json.boolean("async"@))
            + ", expected "@ + text::truth(async_expected),
{
}

/// What is said on the way: about a detail the status that it reports, about an
/// action both markers, about a poll what it saw. Every line follows the name
/// of the probe, and only what was not waited for is unusual.
pub proof fn law_note_texts(
    label: Seq<char>,
    reply: ReplyView,
    expected: Seq<char>,
    ok: bool,
    is_async: bool,
    id: u64,
    status: &'static str,
    answer: AnswerView,
)
    ensures
        ({
            let notes = http_probe::check_notes(Check::DescribesDefault, label, reply);
            &&& notes == checks::vm_status_notes(label, reply.body, "ready"@)
            &&& notes.len() == 1 <==> checks::status_of(reply.body) is Ok
            &&& notes.len() <= 1
        }),
        checks::status_of(reply.body) is Ok ==> checks::vm_status_notes(
            label,
            reply.body,
            expected,
        ) == seq![
            NoteView {
                unusual: false,
                text: "  http probe: "@ + (label + " -> status "@ + checks::status_of(
                    reply.body,
                )->Ok_0 + " (expect "@ + expected + ")"@),
            },
        ],
        ({
            let notes = http_probe::check_notes(Check::Reports { ok, is_async }, label, reply);
            &&& notes.len() == 1 <==> reply.body is Some
            &&& notes.len() <= 1
            &&& reply.body is Some ==> notes[0] == (NoteView {
                unusual: false,
                text: "  http probe: "@ + (label + " -> ok="@ + text::optional_truth(
                    reply.body->0.json.boolean("ok"@),
                ) + " async="@ + text::optional_truth(reply.body->0.json.boolean("async"@))
                    + " (expect ok="@ + text::truth(ok) + " async="@ + text::truth(is_async)
                    + ")"@),
            })
        }),
        http_probe::check_notes(Check::Nothing, label, reply).len() == 0,
        http_probe::check_notes(Check::ListsDefault, label, reply).len() == 0,
        http_probe::check_notes(Check::ReturnsId, label, reply).len() == 0,
        takes(Step::Becomes { id, status }, answer) ==> http_probe::poll_notes(
            Step::Becomes { id, status },
            answer,
        )[0].text == "  http probe: "@ + ("VM["@ + text::decimal(id as nat) + "]"@ + " -> "@
            + status@),
        takes(Step::Disappears { id }, answer) ==> http_probe::poll_notes(
            Step::Disappears { id },
            answer,
        )[0].text == "  http probe: "@ + ("VM["@ + text::decimal(id as nat) + "]"@ + " -> gone"@),
        http_probe::odd_answer(id, expected, answer) == seq![
            NoteView {
                unusual: true,
                text: "  http probe: "@ + ("VM["@ + text::decimal(id as nat) + "]"@ + expected + (
                match answer {
                    AnswerView::Replied(reply) => " saw HTTP "@,
                    _ => " transport error: "@,
                }) + (match answer {
                    AnswerView::Replied(reply) => reply.phrase,
                    AnswerView::Garbled { failure, .. } => failure.line(),
                    AnswerView::Failed(failure) => failure.line(),
                })),
            },
        ],
{
    law_satisfaction(Step::Becomes { id, status }, answer);
    law_satisfaction(Step::Disappears { id }, answer);
}

/// The views of notes, replies, answers and requests keep every part of them.
pub proof fn law_views(
    notes: Seq<Note>,
    reply: Reply,
    status: u16,
    failure: Failure,
    message: String,
    request: Request,
)
    ensures
        checks::note_views(notes).len() == notes.len(),
        forall|i: int|
            0 <= i < notes.len() ==> (#[trigger] checks::note_views(notes)[i]).unusual
                == notes[i].unusual && checks::note_views(notes)[i].text == notes[i].text@,
        reply@.status == reply.status,
        reply@.phrase == reply.phrase@,
        reply@.body is Some <==> reply.body is Some,
        reply.body is Some ==> reply@.body->0.json == reply.body->0.json@ && reply@.body->0.text
            == reply.body->0.text@,
        Answer::Replied(reply)@ == AnswerView::Replied(reply@),
        (Answer::Garbled { status, failure })@ == (AnswerView::Garbled {
            status,
            failure: failure@,
        }),
        Answer::Failed(failure)@ == AnswerView::Failed(failure@),
        checks::reply_view(Ok(reply)) == Ok::<ReplyView, FailureView>(reply@),
        checks::reply_view(Err(failure)) == Err::<ReplyView, FailureView>(failure@),
        json::body_outcome(Ok(reply.body)) == Ok::<Option<JsonBodyView>, Seq<char>>(reply@.body),
        json::body_outcome(Err(message)) == Err::<Option<JsonBodyView>, Seq<char>>(message@),
        request@.method == request.method,
        request@.url == request.url@,
        request@.bearer == text::optional(request.bearer),
        request@.content_type == text::optional(request.content_type),
        request@.body == text::optional(request.body),
{
}

/// The parser is asked about the bytes that arrived, all of them and nothing
/// else.
pub proof fn law_exchange_reading(status: u16, phrase: String, bytes: Vec<u8>)
    ensures
        checks::exchange_reading(Exchange::Arrived { status, phrase, bytes })
            == json::body_reading(bytes@),
{
}

}
