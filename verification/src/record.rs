//! A log record: the fields of one JSON object, held in a `serde_json::Map`.

use crate::text::text_view;
use serde_json::Value;
use vstd::prelude::*;

verus! {

/// `serde_json::Value`: one JSON value, carried through unopened.
#[verifier::external_type_specification]
#[verifier::external_body]
pub struct ExValue(Value);

/// `serde_json::Map`: the keys and values of one JSON object. What verified
/// code knows of a record it knows through `record_fields`.
#[verifier::external_type_specification]
#[verifier::external_body]
#[verifier::reject_recursive_types(K)]
#[verifier::reject_recursive_types(V)]
pub struct ExJsonMap<K, V>(serde_json::Map<K, V>);

/// `serde_json::Error`: why serde_json gave up, carried through unopened.
#[verifier::external_type_specification]
#[verifier::external_body]
pub struct ExJsonError(serde_json::Error);

/// A JSON value as contracts see it: what a `serde_json::Value` stands for.
pub enum Json {
    /// `null`.
    Null,
    /// `true` or `false`.
    Bool(bool),
    /// A number, as the digits that serde_json writes for it.
    Number(Seq<char>),
    /// A string, as the characters that it holds.
    Text(Seq<char>),
    /// An array, with its items in their order.
    Array(Seq<Json>),
    /// An object, with the value of each of its keys.
    Object(Map<Seq<char>, Json>),
}

/// What a record holds: each of its keys with the value that it has.
pub uninterp spec fn record_fields(record: serde_json::Map<String, Value>) -> Map<Seq<char>, Json>;

/// What serde_json makes of a line of text: the JSON value that the line
/// holds, or serde_json's message where it holds none.
pub uninterp spec fn decoded(line: Seq<char>) -> Result<Json, Seq<char>>;

/// The fields of a parsed line that holds an object, `Ok(None)` for a line
/// that holds any other JSON value, and the parser's message otherwise.
pub open spec fn as_record(parsed: Result<Json, Seq<char>>) -> Result<
    Option<Map<Seq<char>, Json>>,
    Seq<char>,
> {
    match parsed {
        Ok(Json::Object(fields)) => Ok(Some(fields)),
        Ok(_) => Ok(None),
        Err(message) => Err(message),
    }
}

/// What the parser made of a line, as contracts see it.
pub open spec fn parsed_view(
    parsed: Result<Option<serde_json::Map<String, Value>>, String>,
) -> Result<Option<Map<Seq<char>, Json>>, Seq<char>> {
    match parsed {
        Ok(Some(record)) => Ok(Some(record_fields(record))),
        Ok(None) => Ok(None),
        Err(message) => Err(message@),
    }
}

/// The text of a field, where the record has the field and its value is a
/// string.
pub open spec fn text_of(fields: Map<Seq<char>, Json>, key: Seq<char>) -> Option<Seq<char>> {
    if fields.contains_key(key) {
        match fields[key] {
            Json::Text(text) => Some(text),
            _ => None,
        }
    } else {
        None
    }
}

/// The keys that the renderer knows, in the order in which it drops them:
/// the five that the summary line shows, three that are never shown, and the
/// note.
pub open spec fn recognized_names() -> Seq<Seq<char>> {
    seq!["when"@, "level"@, "pid"@, "what"@, "in"@, "at"@, "log"@, "id"@, "text"@]
}

/// The keys that the renderer knows.
pub open spec fn recognized_keys() -> Set<Seq<char>> {
    recognized_names().to_set()
}

/// The fields that no rule covers: all but the recognized keys.
pub open spec fn residual_fields(fields: Map<Seq<char>, Json>) -> Map<Seq<char>, Json> {
    fields.remove_keys(recognized_keys())
}

/// Dropping the recognized keys takes those away and nothing else: a key
/// remains exactly when the record has it and it is not recognized, and it
/// remains with its value.
pub proof fn lemma_residual_keeps_the_rest(fields: Map<Seq<char>, Json>, key: Seq<char>)
    ensures
        residual_fields(fields).contains_key(key) <==> fields.contains_key(key)
            && !recognized_keys().contains(key),
        residual_fields(fields).contains_key(key) ==> residual_fields(fields)[key] == fields[key],
{
}

/// Whether a recognized key is present, and with which value, makes no
/// difference to what remains; and dropping twice is dropping once.
pub proof fn lemma_residual_ignores_recognized(
    fields: Map<Seq<char>, Json>,
    key: Seq<char>,
    value: Json,
)
    requires
        recognized_keys().contains(key),
    ensures
        residual_fields(fields.insert(key, value)) == residual_fields(fields),
        residual_fields(fields.remove(key)) == residual_fields(fields),
        residual_fields(residual_fields(fields)) == residual_fields(fields),
{
}

/// Calls `serde_json::Map::get` and, on the value found, `Value::as_str`.
/// The contract claims that a key the record lacks gives `None`, and that a
/// key it has gives the characters of its value where that is a JSON string,
/// and `None` where it is of any other kind.
#[verifier::external_body]
pub(crate) fn string_field<'a>(record: &'a serde_json::Map<String, Value>, key: &str) -> (r:
    Option<&'a str>)
    ensures
        text_view(r) == text_of(record_fields(*record), key@),
{
    record.get(key).and_then(Value::as_str)
}

/// Calls `serde_json::Map::remove`. The contract claims that the key leaves
/// the record, if it was there, and that every other field stays as it was.
#[verifier::external_body]
pub(crate) fn remove_field(record: &mut serde_json::Map<String, Value>, key: &str)
    ensures
        record_fields(*final(record)) == record_fields(*old(record)).remove(key@),
{
    record.remove(key);
}

/// Calls `serde_json::Map::is_empty`. The contract claims that it tells
/// whether the record has no field at all.
#[verifier::external_body]
pub(crate) fn has_no_fields(record: &serde_json::Map<String, Value>) -> (r: bool)
    ensures
        r == record_fields(*record).is_empty(),
{
    record.is_empty()
}

/// Calls `serde_json::from_str::<Value>`, keeps the map of an object, and
/// writes an error out with `to_string`. The contract claims that the outcome
/// is decided by the text alone: an object hands out its fields, any other
/// JSON value gives `Ok(None)`, and text that is not JSON gives serde_json's
/// message.
#[verifier::external_body]
pub(crate) fn decode(line: &str) -> (r: Result<Option<serde_json::Map<String, Value>>, String>)
    ensures
        parsed_view(r) == as_record(decoded(line@)),
{
    match serde_json::from_str::<Value>(line) {
        Ok(Value::Object(record)) => Ok(Some(record)),
        Ok(_) => Ok(None),
        Err(e) => Err(e.to_string()),
    }
}

/// Drops every recognized key from the record, present or not.
pub fn strip_recognized(record: &mut serde_json::Map<String, Value>)
    ensures
        record_fields(*final(record)) == residual_fields(record_fields(*old(record))),
{
    let keys: [&'static str; 9] = ["when", "level", "pid", "what", "in", "at", "log", "id", "text"];
    let ghost names = recognized_names();
    let mut i: usize = 0;
    assert(record_fields(*record) =~= record_fields(*old(record)).remove_keys(
        names.take(0).to_set(),
    ));
    while i < 9
        invariant
            i <= 9,
            names == recognized_names(),
            keys@.len() == 9,
            forall|j: int| 0 <= j < 9 ==> (#[trigger] keys@[j])@ == names[j],
            record_fields(*record) == record_fields(*old(record)).remove_keys(
                names.take(i as int).to_set(),
            ),
        decreases 9 - i,
    {
        remove_field(record, keys[i]);
        proof {
            let done = names.take(i as int);
            assert(names.take(i + 1) =~= done.push(names[i as int]));
            done.lemma_push_to_set_commute(names[i as int]);
            assert(record_fields(*record) =~= record_fields(*old(record)).remove_keys(
                names.take(i + 1).to_set(),
            ));
        }
        i = i + 1;
    }
    assert(names.take(9) =~= names);
}

} // verus!
