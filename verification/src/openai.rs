//! The chat-completion wire contract, shared by the backend variants:
//! building the outbound request and normalizing the inbound reply.
//!
//! A reply body is decoded with `serde_json`; the decoded values are then
//! validated and normalized by verified code. Only the calls into
//! `serde_json` are trusted, and their results are named: `json_of` is the
//! document a text decodes to, `json_model` the document a decoded value
//! carries, both over the mathematical model `JsonModel`. Everything the
//! normalization returns is pinned down over those names.

pub mod gpt35_turbo;
pub mod gpt4_32k;

use vstd::prelude::*;
use vstd::string::StringExecFns;

use crate::converter::ConversionError;
use crate::converter::Detail;

verus! {

/// A mathematical model of a JSON document. Numbers are not told apart:
/// nothing here reads one.
pub enum JsonModel {
    Null,
    Bool(bool),
    Number,
    Text(Seq<char>),
    Items(Seq<JsonModel>),
    Fields(Map<Seq<char>, JsonModel>),
}

/// The document a `serde_json::Value` carries.
pub uninterp spec fn json_model(v: serde_json::Value) -> JsonModel;

/// The document a text decodes to, if it is valid JSON.
pub uninterp spec fn json_of(s: Seq<char>) -> Option<JsonModel>;

/// The models of a sequence of JSON values.
pub open spec fn models_of(items: Seq<serde_json::Value>) -> Seq<JsonModel> {
    items.map_values(|v: serde_json::Value| json_model(v))
}

/// The value at a key of a JSON object, if the document is an object
/// carrying the key.
pub open spec fn field_of(m: JsonModel, key: Seq<char>) -> Option<JsonModel> {
    match m {
        JsonModel::Fields(fields) => if fields.contains_key(key) {
            Some(fields[key])
        } else {
            None
        },
        _ => None,
    }
}

/// The text of a JSON string.
pub open spec fn text_of(m: JsonModel) -> Option<Seq<char>> {
    match m {
        JsonModel::Text(s) => Some(s),
        _ => None,
    }
}

/// The elements of a JSON array.
pub open spec fn items_of(m: JsonModel) -> Option<Seq<JsonModel>> {
    match m {
        JsonModel::Items(items) => Some(items),
        _ => None,
    }
}

/// The string at a key, if the key is there and holds a string.
pub open spec fn string_at(m: JsonModel, key: Seq<char>) -> Option<Seq<char>> {
    match field_of(m, key) {
        Some(f) => text_of(f),
        None => None,
    }
}

/// The strings at a key, if the key is there and holds an array whose
/// elements are all strings.
pub open spec fn strings_at(m: JsonModel, key: Seq<char>) -> Option<Seq<Seq<char>>> {
    match field_of(m, key) {
        Some(f) => match items_of(f) {
            Some(items) => if forall|i: int|
                0 <= i < items.len() ==> text_of(#[trigger] items[i]) is Some {
                Some(Seq::new(items.len(), |i: int| text_of(items[i]).unwrap()))
            } else {
                None
            },
            None => None,
        },
        None => None,
    }
}

/// The `message.content` string of one element of `choices`, if the
/// element has the expected shape.
pub open spec fn choice_content_of(m: JsonModel) -> Option<Seq<char>> {
    match field_of(m, "message"@) {
        Some(message) => string_at(message, "content"@),
        None => None,
    }
}

/// The candidate message contents of a reply document: `choices` must be
/// an array and every element must carry a string `message.content`.
pub open spec fn contents_of(m: JsonModel) -> Option<Seq<Seq<char>>> {
    match field_of(m, "choices"@) {
        Some(choices) => match items_of(choices) {
            Some(items) => if forall|i: int|
                0 <= i < items.len() ==> choice_content_of(#[trigger] items[i]) is Some {
                Some(Seq::new(items.len(), |i: int| choice_content_of(items[i]).unwrap()))
            } else {
                None
            },
            None => None,
        },
        None => None,
    }
}

/// The candidate message contents a reply body decodes to, if it is valid
/// JSON of the expected shape.
pub open spec fn contents_of_body(body: Seq<char>) -> Option<Seq<Seq<char>>> {
    match json_of(body) {
        Some(m) => contents_of(m),
        None => None,
    }
}

#[verifier::external_type_specification]
#[verifier::external_body]
pub struct ExJsonValue(serde_json::Value);

/// Relies on serde_json::from_str::<serde_json::Value>: decodes a JSON
/// document, or fails exactly when the text is not valid JSON.
#[verifier::external_body]
pub(crate) fn parse_json(s: &str) -> (r: Option<serde_json::Value>)
    ensures
        r matches Some(v) ==> json_of(s@) == Some(json_model(v)),
        r is None ==> json_of(s@) is None,
{
    match serde_json::from_str(s) {
        Ok(v) => Some(v),
        Err(_) => None,
    }
}

/// Relies on serde_json::Value::get with a string index: the value at that
/// key, exactly when the value is an object carrying the key.
#[verifier::external_body]
pub(crate) fn json_get<'a>(v: &'a serde_json::Value, key: &str) -> (r: Option<
    &'a serde_json::Value,
>)
    ensures
        r matches Some(f) ==> field_of(json_model(*v), key@) == Some(json_model(*f)),
        r is None ==> field_of(json_model(*v), key@) is None,
{
    v.get(key)
}

/// Relies on serde_json::Value::as_str: the associated string exactly when
/// the value is a JSON string.
#[verifier::external_body]
pub(crate) fn json_as_string(v: &serde_json::Value) -> (r: Option<String>)
    ensures
        r matches Some(s) ==> json_model(*v) == JsonModel::Text(s@),
        r is None ==> !(json_model(*v) is Text),
{
    match v.as_str() {
        Some(s) => Some(s.to_owned()),
        None => None,
    }
}

/// Relies on serde_json::Value::as_array: the associated vector exactly
/// when the value is a JSON array, its elements in order.
#[verifier::external_body]
pub(crate) fn json_as_array<'a>(v: &'a serde_json::Value) -> (r: Option<
    &'a Vec<serde_json::Value>,
>)
    ensures
        r matches Some(items) ==> json_model(*v) == JsonModel::Items(models_of(items@)),
        r is None ==> !(json_model(*v) is Items),
{
    v.as_array()
}

/// The string at a key of a JSON object, if the key is there and holds a
/// string.
pub(crate) fn string_field(v: &serde_json::Value, key: &str) -> (r: Option<String>)
    ensures
        r matches Some(s) ==> string_at(json_model(*v), key@) == Some(s@),
        r is None ==> string_at(json_model(*v), key@) is None,
{
    match json_get(v, key) {
        Some(f) => json_as_string(f),
        None => None,
    }
}

/// The strings at a key of a JSON object, if the key is there and holds an
/// array whose elements are all strings.
pub(crate) fn string_array_field(v: &serde_json::Value, key: &str) -> (r: Option<Vec<String>>)
    ensures
        r matches Some(strings) ==> strings_at(json_model(*v), key@) == Some(
            string_views(strings@),
        ),
        r is None ==> strings_at(json_model(*v), key@) is None,
{
    let field = match json_get(v, key) {
        Some(f) => f,
        None => {
            return None;
        },
    };
    let items = match json_as_array(field) {
        Some(a) => a,
        None => {
            return None;
        },
    };
    let ghost models = models_of(items@);
    let mut out: Vec<String> = Vec::new();
    let mut i: usize = 0;
    while i < items.len()
        invariant
            i <= items.len(),
            models == models_of(items@),
            field_of(json_model(*v), key@) == Some(JsonModel::Items(models)),
            out@.len() == i as nat,
            forall|j: int| 0 <= j < i ==> #[trigger] text_of(models[j]) == Some(out@[j]@),
        decreases items.len() - i,
    {
        proof {
            assert(models[i as int] == json_model(items@[i as int]));
        }
        match json_as_string(&items[i]) {
            Some(s) => out.push(s),
            None => {
                proof {
                    assert(text_of(models[i as int]) is None);
                    assert(!(forall|k: int|
                        0 <= k < models.len() ==> text_of(#[trigger] models[k]) is Some)) by {
                        assert(text_of(models[i as int]) is None);
                    }
                }
                return None;
            },
        }
        i += 1;
    }
    proof {
        assert(string_views(out@) =~= Seq::new(models.len(), |k: int| text_of(models[k]).unwrap()));
    }
    Some(out)
}

/// One role-tagged message of an outbound request.
#[derive(Clone, Debug)]
pub struct Message {
    pub role: String,
    pub content: String,
}

/// An outbound request: a model identifier, an ordered list of role-tagged
/// messages, and the number of candidate answers asked for.
#[derive(Clone, Debug)]
pub struct Request {
    pub model: String,
    pub messages: Vec<Message>,
    pub n: i32,
}

/// The request owed for one question: the system instruction first, the
/// user's text second, and exactly one candidate answer asked for.
pub open spec fn well_formed_request(
    r: Request,
    model: Seq<char>,
    prompt: Seq<char>,
    question: Seq<char>,
) -> bool {
    &&& r.model@ == model
    &&& r.n == 1
    &&& r.messages@.len() == 2
    &&& r.messages@[0].role@ == "system"@
    &&& r.messages@[0].content@ == prompt
    &&& r.messages@[1].role@ == "user"@
    &&& r.messages@[1].content@ == question
}

/// Build the outbound request for one question.
pub fn build_request(model: &str, prompt: &str, question: &str) -> (r: Request)
    ensures
        well_formed_request(r, model@, prompt@, question@),
{
    let mut messages: Vec<Message> = Vec::new();
    messages.push(Message { role: "system".to_owned(), content: prompt.to_owned() });
    messages.push(Message { role: "user".to_owned(), content: question.to_owned() });
    Request { model: model.to_owned(), messages, n: 1 }
}

/// Pull the candidate message contents out of a chat-completion reply
/// body: the `content` string of each element of `choices`, in order,
/// exactly when the body decodes to a document of that shape; any other
/// body is a malformed payload.
pub fn choice_contents(body: &str) -> (r: Result<Vec<String>, ConversionError>)
    ensures
        contents_of_body(body@) matches Some(contents) ==> (r matches Ok(v) && string_views(v@)
            == contents),
        contents_of_body(body@) is None ==> (r matches Err(e) && e is MalformedPayload),
{
    let parsed = match parse_json(body) {
        Some(v) => v,
        None => {
            return Err(ConversionError::MalformedPayload);
        },
    };
    let ghost m = json_model(parsed);
    let choices = match json_get(&parsed, "choices") {
        Some(v) => v,
        None => {
            return Err(ConversionError::MalformedPayload);
        },
    };
    let items = match json_as_array(choices) {
        Some(a) => a,
        None => {
            return Err(ConversionError::MalformedPayload);
        },
    };
    let ghost models = models_of(items@);
    let mut contents: Vec<String> = Vec::new();
    let mut i: usize = 0;
    while i < items.len()
        invariant
            i <= items.len(),
            models == models_of(items@),
            json_of(body@) == Some(m),
            field_of(m, "choices"@) == Some(JsonModel::Items(models)),
            contents@.len() == i as nat,
            forall|j: int| 0 <= j < i ==> #[trigger] choice_content_of(models[j]) == Some(
                contents@[j]@,
            ),
        decreases items.len() - i,
    {
        proof {
            assert(models[i as int] == json_model(items@[i as int]));
        }
        let message = match json_get(&items[i], "message") {
            Some(v) => v,
            None => {
                proof {
                    lemma_bad_choice_kills_contents(m, models, i as int);
                }
                return Err(ConversionError::MalformedPayload);
            },
        };
        let content = match json_get(message, "content") {
            Some(v) => v,
            None => {
                proof {
                    lemma_bad_choice_kills_contents(m, models, i as int);
                }
                return Err(ConversionError::MalformedPayload);
            },
        };
        let text = match json_as_string(content) {
            Some(s) => s,
            None => {
                proof {
                    lemma_bad_choice_kills_contents(m, models, i as int);
                }
                return Err(ConversionError::MalformedPayload);
            },
        };
        contents.push(text);
        i += 1;
    }
    proof {
        assert(string_views(contents@) =~= Seq::new(
            models.len(),
            |k: int| choice_content_of(models[k]).unwrap(),
        ));
    }
    Ok(contents)
}

/// A choice element without a string `message.content` makes the whole
/// reply document malformed.
proof fn lemma_bad_choice_kills_contents(m: JsonModel, models: Seq<JsonModel>, i: int)
    requires
        field_of(m, "choices"@) == Some(JsonModel::Items(models)),
        0 <= i < models.len(),
        choice_content_of(models[i]) is None,
    ensures
        contents_of(m) is None,
{
    assert(!(forall|k: int| 0 <= k < models.len() ==> choice_content_of(#[trigger] models[k])
        is Some)) by {
        assert(choice_content_of(models[i]) is None);
    }
}

/// Exactly one candidate answer is required: hand it out, or report how
/// many there were.
pub fn sole_candidate(contents: Vec<String>) -> (r: Result<String, ConversionError>)
    ensures
        contents@.len() == 1 ==> (r matches Ok(c) && c == contents@[0]),
        contents@.len() != 1 ==> (r matches Err(e) && e matches ConversionError::CandidateCount(n)
            && n as nat == contents@.len()),
{
    if contents.len() == 1 {
        let mut contents = contents;
        Ok(contents.remove(0))
    } else {
        Err(ConversionError::CandidateCount(contents.len()))
    }
}

/// The views of a sequence of strings.
pub open spec fn string_views(strings: Seq<String>) -> Seq<Seq<char>> {
    strings.map_values(|s: String| s@)
}

/// The parts joined with the separator between consecutive parts.
pub open spec fn join_with(parts: Seq<Seq<char>>, sep: Seq<char>) -> Seq<char>
    decreases parts.len(),
{
    if parts.len() == 0 {
        Seq::empty()
    } else if parts.len() == 1 {
        parts[0]
    } else {
        join_with(parts.drop_last(), sep) + sep + parts.last()
    }
}

/// Join the commands of a reply into the one command string the session
/// hands to the shell, chaining them with " && ".
pub fn join_commands(commands: &Vec<String>) -> (r: String)
    ensures
        r@ == join_with(string_views(commands@), " && "@),
{
    let ghost parts = string_views(commands@);
    let mut joined = String::new();
    let mut i: usize = 0;
    while i < commands.len()
        invariant
            i <= commands.len(),
            parts == string_views(commands@),
            joined@ == join_with(parts.take(i as int), " && "@),
        decreases commands.len() - i,
    {
        if i > 0 {
            joined.append(" && ");
        }
        joined.append(commands[i].as_str());
        proof {
            let k = i as int;
            assert(parts[k] == commands@[k]@);
            if k == 0 {
                assert(join_with(parts.take(1), " && "@) == parts.take(1)[0]);
            } else {
                assert(parts.take(k + 1).drop_last() =~= parts.take(k));
                assert(parts.take(k + 1).last() == parts[k]);
            }
        }
        i += 1;
    }
    proof {
        assert(parts.take(commands@.len() as int) =~= parts);
    }
    joined
}

/// Normalize the arrays of a multi-command reply payload into a detail:
/// the commands joined with " && ", kept only when the detail invariants
/// hold — at least one description, a non-empty joined command.
pub fn detail_from_parts(descriptions: Vec<String>, commands: Vec<String>) -> (r: Result<
    Detail,
    ConversionError,
>)
    ensures
        ({
            let joined = join_with(string_views(commands@), " && "@);
            &&& (descriptions@.len() >= 1 && joined.len() > 0) ==> (r matches Ok(d)
                && d.descriptions == descriptions && d.command@ == joined && d.valid())
            &&& !(descriptions@.len() >= 1 && joined.len() > 0) ==> (r matches Err(e)
                && e is MalformedPayload)
        }),
{
    let command = join_commands(&commands);
    if descriptions.len() >= 1 && !command.as_str().is_empty() {
        Ok(Detail { descriptions, command })
    } else {
        Err(ConversionError::MalformedPayload)
    }
}

/// Normalize a single-command reply payload into a detail: its one
/// description becomes the one explanatory fragment, kept only when the
/// command is non-empty.
pub fn detail_from_single(description: String, command: String) -> (r: Result<
    Detail,
    ConversionError,
>)
    ensures
        command@.len() > 0 ==> (r matches Ok(d) && d.descriptions@ == seq![description]
            && d.command == command && d.valid()),
        command@.len() == 0 ==> (r matches Err(e) && e is MalformedPayload),
{
    if !command.as_str().is_empty() {
        let mut descriptions: Vec<String> = Vec::new();
        descriptions.push(description);
        Ok(Detail { descriptions, command })
    } else {
        Err(ConversionError::MalformedPayload)
    }
}

} // verus!
