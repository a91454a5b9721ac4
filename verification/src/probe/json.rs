//! JSON documents, as far as the probe looks into them.

use crate::text;
use vstd::prelude::*;
use vstd::utf8::encode_utf8;

verus! {

/// A JSON document.
#[derive(Debug)]
pub enum Json {
    /// `null`.
    Null,
    /// `true` or `false`.
    Bool(bool),
    /// An unsigned integer.
    Unsigned(u64),
    /// Any other number, in decimal notation.
    Number(String),
    /// A string.
    Text(String),
    /// An array.
    Array(Vec<Json>),
    /// The members of an object, with their names.
    Object(Vec<(String, Json)>),
}

/// The view of a [`Json`].
pub enum JsonView {
    /// `null`.
    Null,
    /// `true` or `false`.
    Bool(bool),
    /// An unsigned integer.
    Unsigned(u64),
    /// Any other number.
    Number(Seq<char>),
    /// A string.
    Text(Seq<char>),
    /// An array.
    Array(Seq<JsonView>),
    /// The members of an object, with their names.
    Object(Seq<(Seq<char>, JsonView)>),
}

/// What a document says.
pub open spec fn json_view(json: Json) -> JsonView
    decreases json,
{
    match json {
        Json::Null => JsonView::Null,
        Json::Bool(value) => JsonView::Bool(value),
        Json::Unsigned(value) => JsonView::Unsigned(value),
        Json::Number(digits) => JsonView::Number(digits@),
        Json::Text(value) => JsonView::Text(value@),
        Json::Array(items) => JsonView::Array(
            Seq::new(
                items@.len(),
                |i: int|
                    if 0 <= i < items@.len() {
                        json_view(items@[i])
                    } else {
                        JsonView::Null
                    },
            ),
        ),
        Json::Object(members) => JsonView::Object(
            Seq::new(
                members@.len(),
                |i: int|
                    if 0 <= i < members@.len() {
                        (members@[i].0@, json_view(members@[i].1))
                    } else {
                        (Seq::empty(), JsonView::Null)
                    },
            ),
        ),
    }
}

impl View for Json {
    type V = JsonView;

    open spec fn view(&self) -> JsonView {
        json_view(*self)
    }
}

/// The first of `members` that is named `name`.
pub open spec fn first_member(members: Seq<(Seq<char>, JsonView)>, name: Seq<char>) -> Option<
    JsonView,
>
    decreases members.len(),
{
    if members.len() == 0 {
        None
    } else if members[0].0 == name {
        Some(members[0].1)
    } else {
        first_member(members.drop_first(), name)
    }
}

impl JsonView {
    /// The member `name` of an object; anything else has none.
    pub open spec fn get(self, name: Seq<char>) -> Option<JsonView> {
        match self {
            JsonView::Object(members) => first_member(members, name),
            _ => None,
        }
    }

    /// The member `name` of an object, if it is an unsigned integer.
    pub open spec fn unsigned(self, name: Seq<char>) -> Option<u64> {
        match self.get(name) {
            Some(JsonView::Unsigned(value)) => Some(value),
            _ => None,
        }
    }

    /// The member `name` of an object, if it is a string.
    pub open spec fn text(self, name: Seq<char>) -> Option<Seq<char>> {
        match self.get(name) {
            Some(JsonView::Text(value)) => Some(value),
            _ => None,
        }
    }

    /// The member `name` of an object, if it is `true` or `false`.
    pub open spec fn boolean(self, name: Seq<char>) -> Option<bool> {
        match self.get(name) {
            Some(JsonView::Bool(value)) => Some(value),
            _ => None,
        }
    }

    /// The member `name` of an object, if it is an array.
    pub open spec fn array(self, name: Seq<char>) -> Option<Seq<JsonView>> {
        match self.get(name) {
            Some(JsonView::Array(items)) => Some(items),
            _ => None,
        }
    }
}

impl Json {
    /// The member `name` of an object; anything else has none.
    pub fn get(&self, name: &str) -> (r: Option<&Json>)
        ensures
            match r {
                Some(json) => self@.get(name@) == Some(json@),
                None => self@.get(name@) is None,
            },
    {
        match self {
            Json::Object(members) => {
                let ghost all = self@->Object_0;
                let mut i: usize = 0;
                assert(all.skip(0) =~= all);
                while i < members.len()
                    invariant
                        i <= members.len(),
                        self@ == JsonView::Object(all),
                        all == json_view(Json::Object(*members))->Object_0,
                        first_member(all, name@) == first_member(all.skip(i as int), name@),
                    decreases members.len() - i,
                {
                    assert(all.skip(i as int)[0] == (members@[i as int].0@, members@[i as int].1@));
                    if text::same(members[i].0.as_str(), name) {
                        return Some(&members[i].1);
                    }
                    assert(all.skip(i as int).drop_first() =~= all.skip(i + 1));
                    i = i + 1;
                }
                None
            },
            _ => None,
        }
    }

    /// The member `name` of an object, if it is an unsigned integer.
    pub fn unsigned(&self, name: &str) -> (r: Option<u64>)
        ensures
            r == self@.unsigned(name@),
    {
        match self.get(name) {
            Some(Json::Unsigned(value)) => Some(*value),
            _ => None,
        }
    }

    /// The member `name` of an object, if it is a string.
    pub fn text(&self, name: &str) -> (r: Option<&str>)
        ensures
            match r {
                Some(value) => self@.text(name@) == Some(value@),
                None => self@.text(name@) is None,
            },
    {
        match self.get(name) {
            Some(Json::Text(value)) => Some(value.as_str()),
            _ => None,
        }
    }

    /// The member `name` of an object, if it is `true` or `false`.
    pub fn boolean(&self, name: &str) -> (r: Option<bool>)
        ensures
            r == self@.boolean(name@),
    {
        match self.get(name) {
            Some(Json::Bool(value)) => Some(*value),
            _ => None,
        }
    }

    /// The number of items of the member `name` of an object, if it is an
    /// array.
    pub fn array_len(&self, name: &str) -> (r: Option<usize>)
        ensures
            match r {
                Some(count) => self@.array(name@) is Some && self@.array(name@)->0.len() == count,
                None => self@.array(name@) is None,
            },
    {
        match self.get(name) {
            Some(Json::Array(items)) => Some(items.len()),
            _ => None,
        }
    }
}

/// `serde_json::Value`, a JSON document as that crate holds it.
#[verifier::external_type_specification]
#[verifier::external_body]
pub struct ExValue(serde_json::Value);

/// What a `serde_json::Value` holds, down to its innermost items.
pub uninterp spec fn json_of(value: serde_json::Value) -> JsonView;

/// What `serde_json::from_slice` makes of `bytes`: nothing for `null`, a
/// document, or the message of its error.
pub uninterp spec fn json_reading(bytes: Seq<u8>) -> Result<Option<JsonView>, Seq<char>>;

/// The text `serde_json` writes for a document, on one line and without
/// spaces between the tokens.
pub uninterp spec fn json_text(json: JsonView) -> Seq<char>;

/// The outermost layer of a document.
pub enum Layer {
    /// `null`.
    Null,
    /// `true` or `false`.
    Bool(bool),
    /// A number, as an unsigned integer where it is one, and its text.
    Number(Option<u64>, String),
    /// A string.
    Text(String),
    /// The items of an array.
    Array(Vec<serde_json::Value>),
    /// The members of an object, with their names.
    Object(Vec<(String, serde_json::Value)>),
}

/// The document whose outermost layer is `layer`.
pub open spec fn layer_view(layer: Layer) -> JsonView {
    match layer {
        Layer::Null => JsonView::Null,
        Layer::Bool(value) => JsonView::Bool(value),
        Layer::Number(Some(value), _) => JsonView::Unsigned(value),
        Layer::Number(None, digits) => JsonView::Number(digits@),
        Layer::Text(value) => JsonView::Text(value@),
        Layer::Array(items) => JsonView::Array(
            items@.map_values(|item: serde_json::Value| json_of(item)),
        ),
        Layer::Object(members) => JsonView::Object(
            members@.map_values(|member: (String, serde_json::Value)| (member.0@, json_of(member.1))),
        ),
    }
}

/// Takes the outermost layer off a `serde_json::Value`, by its variant.
///
/// Taken from that type: a value holds what its variant holds, an array its
/// items in order, an object its members in the order of its map. A number is
/// unsigned exactly if `Number::as_u64` gives it, and is otherwise kept as the
/// text `Number` displays.
#[verifier::external_body]
fn take_layer(value: serde_json::Value) -> (r: Layer)
    ensures
        layer_view(r) == json_of(value),
{
    match value {
        serde_json::Value::Null => Layer::Null,
        serde_json::Value::Bool(value) => Layer::Bool(value),
        serde_json::Value::Number(number) => Layer::Number(number.as_u64(), number.to_string()),
        serde_json::Value::String(value) => Layer::Text(value),
        serde_json::Value::Array(items) => Layer::Array(items),
        serde_json::Value::Object(members) => Layer::Object(members.into_iter().collect()),
    }
}

/// Parses a JSON document with `serde_json::from_slice`.
///
/// Taken from that function: the outcome depends on the bytes alone.
#[verifier::external_body]
fn parse(bytes: &[u8]) -> (r: Result<Option<serde_json::Value>, String>)
    ensures
        match r {
            Ok(Some(value)) => json_reading(bytes@) == Ok::<Option<JsonView>, Seq<char>>(
                Some(json_of(value)),
            ),
            Ok(None) => json_reading(bytes@) == Ok::<Option<JsonView>, Seq<char>>(None),
            Err(message) => json_reading(bytes@) == Err::<Option<JsonView>, Seq<char>>(message@),
        },
{
    match serde_json::from_slice::<Option<serde_json::Value>>(bytes) {
        Ok(value) => Ok(value),
        Err(error) => Err(error.to_string()),
    }
}

/// Writes a JSON document with the `Display` of `serde_json::Value`.
///
/// Taken from that impl: the text depends on what the value holds alone.
#[verifier::external_body]
fn display(value: &serde_json::Value) -> (r: String)
    ensures
        r@ == json_text(json_of(*value)),
{
    value.to_string()
}

/// The object with the one member `name`, a string.
pub open spec fn single_text(name: Seq<char>, value: Seq<char>) -> JsonView {
    JsonView::Object(seq![(name, JsonView::Text(value))])
}

/// Whether `text` holds no control character, in particular no line break.
pub open spec fn is_one_line(text: Seq<char>) -> bool {
    forall|i: int| 0 <= i < text.len() ==> (#[trigger] text[i]) as int >= 0x20
}

/// Whether `text`, encoded in UTF-8, reads as the document `json`.
pub open spec fn reads_as(text: Seq<char>, json: JsonView) -> bool {
    json_reading(encode_utf8(text)) == Ok::<Option<JsonView>, Seq<char>>(Some(json))
}

/// Writes the object with the one member `name`, a string, with the `Display`
/// of `serde_json::Value`.
///
/// Taken from that impl: the text holds no control characters, since the
/// serializer escapes them and writes none between tokens, and
/// `serde_json::from_slice` reads the object back. The name is `toml`:
/// `from_slice` reads an object as such unless its first name is one that the
/// crate keeps to itself.
#[verifier::external_body]
fn object_text(name: &str, value: &str) -> (r: String)
    requires
        name@ == "toml"@,
    ensures
        r@ == json_text(single_text(name@, value@)),
        is_one_line(r@),
        reads_as(r@, single_text(name@, value@)),
{
    let mut members = serde_json::Map::new();
    members.insert(name.to_string(), serde_json::Value::String(value.to_string()));
    serde_json::Value::Object(members).to_string()
}

/// The document a `serde_json::Value` holds.
fn build(value: serde_json::Value) -> (r: Json)
    ensures
        r@ == json_of(value),
    decreases json_of(value),
{
    let layer: Layer = take_layer(value);
    match layer {
        Layer::Null => Json::Null,
        Layer::Bool(value) => Json::Bool(value),
        Layer::Number(Some(value), _) => Json::Unsigned(value),
        Layer::Number(None, digits) => Json::Number(digits),
        Layer::Text(value) => Json::Text(value),
        Layer::Array(items) => {
            let ghost whole = json_of(value)->Array_0;
            let mut rest: Vec<serde_json::Value> = items;
            let mut done: Vec<Json> = Vec::new();
            while rest.len() > 0
                invariant
                    json_of(value) == JsonView::Array(whole),
                    done.len() + rest.len() == whole.len(),
                    forall|i: int| 0 <= i < done.len() ==> (#[trigger] done@[i])@ == whole[i],
                    forall|i: int|
                        0 <= i < rest.len() ==> json_of(#[trigger] rest@[i]) == whole[done.len()
                            + i],
                decreases rest.len(),
            {
                let item: serde_json::Value = rest.remove(0);
                assert(json_of(item) == whole[done.len() as int]);
                assert(decreases_to!(json_of(value) => json_of(value)->Array_0));
                assert(decreases_to!(whole => whole[done.len() as int]));
                let json: Json = build(item);
                done.push(json);
            }
            let r = Json::Array(done);
            assert(r@->Array_0 =~= whole);
            r
        },
        Layer::Object(members) => {
            let ghost whole = json_of(value)->Object_0;
            let mut rest: Vec<(String, serde_json::Value)> = members;
            let mut done: Vec<(String, Json)> = Vec::new();
            while rest.len() > 0
                invariant
                    json_of(value) == JsonView::Object(whole),
                    done.len() + rest.len() == whole.len(),
                    forall|i: int|
                        0 <= i < done.len() ==> (#[trigger] done@[i]).0@ == whole[i].0
                            && done@[i].1@ == whole[i].1,
                    forall|i: int|
                        0 <= i < rest.len() ==> (#[trigger] rest@[i]).0@ == whole[done.len() + i].0
                            && json_of(rest@[i].1) == whole[done.len() + i].1,
                decreases rest.len(),
            {
                let (name, item) = rest.remove(0);
                assert(json_of(item) == whole[done.len() as int].1);
                assert(decreases_to!(json_of(value) => json_of(value)->Object_0));
                assert(decreases_to!(whole => whole[done.len() as int]));
                assert(decreases_to!(whole[done.len() as int] => whole[done.len() as int].1));
                let json: Json = build(item);
                done.push((name, json));
            }
            let r = Json::Object(done);
            assert(r@->Object_0 =~= whole);
            r
        },
    }
}

/// A JSON document together with its text.
#[derive(Debug)]
pub struct JsonBody {
    /// The document.
    pub json: Json,
    /// The text that displays it.
    pub text: String,
}

/// The view of a [`JsonBody`].
pub struct JsonBodyView {
    /// The document.
    pub json: JsonView,
    /// The text that displays it.
    pub text: Seq<char>,
}

impl View for JsonBody {
    type V = JsonBodyView;

    open spec fn view(&self) -> JsonBodyView {
        JsonBodyView { json: self.json@, text: self.text@ }
    }
}

/// The view of an optional body.
pub open spec fn body_view(body: Option<JsonBody>) -> Option<JsonBodyView> {
    match body {
        Some(body) => Some(body@),
        None => None,
    }
}

/// The view of the outcome of reading a body.
pub open spec fn body_outcome(outcome: Result<Option<JsonBody>, String>) -> Result<
    Option<JsonBodyView>,
    Seq<char>,
> {
    match outcome {
        Ok(body) => Ok(body_view(body)),
        Err(message) => Err(message@),
    }
}

/// What reading `bytes` as a JSON body comes to.
pub open spec fn body_reading(bytes: Seq<u8>) -> Result<Option<JsonBodyView>, Seq<char>> {
    match json_reading(bytes) {
        Ok(Some(json)) => Ok(Some(JsonBodyView { json, text: json_text(json) })),
        Ok(None) => Ok(None),
        Err(message) => Err(message),
    }
}

/// Reads `bytes` as a JSON body. `null` is no body.
pub fn read_body(bytes: &[u8]) -> (r: Result<Option<JsonBody>, String>)
    ensures
        body_outcome(r) == body_reading(bytes@),
{
    match parse(bytes) {
        Err(message) => Err(message),
        Ok(None) => Ok(None),
        Ok(Some(value)) => {
            let text: String = display(&value);
            Ok(Some(JsonBody { json: build(value), text }))
        },
    }
}

/// The body of a create request carries the config as it is: the member `toml`
/// of the object it reads back as is the config.
pub proof fn law_create_body_carries_the_config(toml: Seq<char>)
    ensures
        single_text("toml"@, toml).text("toml"@) == Some(toml),
{
}

/// The body of a create request for the config `toml`: an object with the
/// config as its member `toml`. It stands on one line, and reads back as that
/// object, so the config arrives as it is.
pub fn create_body(toml: &str) -> (r: String)
    ensures
        r@ == json_text(single_text("toml"@, toml@)),
        is_one_line(r@),
        reads_as(r@, single_text("toml"@, toml@)),
{
    object_text("toml", toml)
}

/// The outermost layer of a document is taken as it is: scalars with their
/// values, items and members in order, each with what it holds.
pub proof fn law_layers(
    truth: bool,
    number: u64,
    text: String,
    items: Vec<serde_json::Value>,
    members: Vec<(String, serde_json::Value)>,
)
    ensures
        layer_view(Layer::Null) == JsonView::Null,
        layer_view(Layer::Bool(truth)) == JsonView::Bool(truth),
        layer_view(Layer::Number(Some(number), text)) == JsonView::Unsigned(number),
        layer_view(Layer::Number(None, text)) == JsonView::Number(text@),
        layer_view(Layer::Text(text)) == JsonView::Text(text@),
        layer_view(Layer::Array(items)) is Array,
        layer_view(Layer::Array(items))->Array_0.len() == items@.len(),
        forall|i: int|
            0 <= i < items@.len() ==> #[trigger] layer_view(Layer::Array(items))->Array_0[i]
                == json_of(items@[i]),
        layer_view(Layer::Object(members)) is Object,
        layer_view(Layer::Object(members))->Object_0.len() == members@.len(),
        forall|i: int|
            0 <= i < members@.len() ==> #[trigger] layer_view(
                Layer::Object(members),
            )->Object_0[i] == (members@[i].0@, json_of(members@[i].1)),
{
}

}
