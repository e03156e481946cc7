//! Reading JSON text into a [`Json`] tree by way of `serde_json`.

use crate::error::{outcome, DeserializationError};
use crate::json::{Json, JsonEntry, JsonModel, JsonNumber};
use vstd::prelude::*;
use vstd::string::StringExecFns;

verus! {

/// `serde_json::Value`, carried through as an opaque value.
#[verifier::external_type_specification]
#[verifier::external_body]
pub struct ExValue(serde_json::Value);

/// `serde_json::Map`, carried through as an opaque value.
#[verifier::external_type_specification]
#[verifier::external_body]
#[verifier::reject_recursive_types(K)]
#[verifier::reject_recursive_types(V)]
pub struct ExMap<K, V>(serde_json::Map<K, V>);

/// `serde_json::Error`, carried through as an opaque value.
#[verifier::external_type_specification]
#[verifier::external_body]
pub struct ExError(serde_json::Error);

/// What `serde_json::from_str` makes of a text: the value it reads, or the
/// message of the error it reports.
pub uninterp spec fn json_parse(text: Seq<char>) -> Result<JsonModel, Seq<char>>;

/// The JSON value that a `serde_json::Value` holds. A number that it holds
/// as a non-negative integer is `Unsigned`, one that it holds as a negative
/// integer is `Signed`, and any other number is `Real`.
pub uninterp spec fn value_model(v: serde_json::Value) -> JsonModel;

/// The members that the map of a JSON object holds, in the order it keeps
/// them: each with its name and the JSON value it holds.
pub uninterp spec fn map_model(m: serde_json::Map<String, serde_json::Value>) -> Seq<
    (Seq<char>, JsonModel),
>;

/// The text that a `serde_json::Error` displays.
pub uninterp spec fn error_message(e: serde_json::Error) -> Seq<char>;

/// Calls `serde_json::from_str` for a `serde_json::Value`. Claimed: the outcome
/// depends on the text alone, so it is the one that [`json_parse`] names.
#[verifier::external_body]
fn parse_value(text: &str) -> (r: Result<serde_json::Value, serde_json::Error>)
    ensures
        match r {
            Ok(v) => json_parse(text@) == Ok::<JsonModel, Seq<char>>(value_model(v)),
            Err(e) => json_parse(text@) == Err::<JsonModel, Seq<char>>(error_message(e)),
        },
{
    serde_json::from_str::<serde_json::Value>(text)
}

/// Calls `to_string` on a `serde_json::Error`, which writes out its `Display`
/// form. Claimed: the text is the one that [`error_message`] names.
#[verifier::external_body]
fn error_text(e: &serde_json::Error) -> (r: String)
    ensures
        r@ == error_message(*e),
{
    e.to_string()
}

/// `Value::is_null` is true for `Value::Null` alone.
pub assume_specification[ serde_json::Value::is_null ](v: &serde_json::Value) -> (r: bool)
    ensures
        r == (value_model(*v) is Null),
;

/// `Value::as_bool` hands out the boolean of a `Value::Bool`, and nothing of
/// any other value.
pub assume_specification[ serde_json::Value::as_bool ](v: &serde_json::Value) -> (r: Option<bool>)
    ensures
        r == match value_model(*v) {
            JsonModel::Bool(b) => Some(b),
            _ => None,
        },
;

/// `Value::as_u64` hands out a number that is held as a non-negative integer,
/// and nothing of any other number or value.
pub assume_specification[ serde_json::Value::as_u64 ](v: &serde_json::Value) -> (r: Option<u64>)
    ensures
        r == match value_model(*v) {
            JsonModel::Number(JsonNumber::Unsigned(u)) => Some(u),
            _ => None,
        },
;

/// `Value::as_i64` hands out a number that is held as a negative integer, or
/// as a non-negative one that fits `i64`, and nothing of any other number or
/// value.
pub assume_specification[ serde_json::Value::as_i64 ](v: &serde_json::Value) -> (r: Option<i64>)
    ensures
        r == match value_model(*v) {
            JsonModel::Number(JsonNumber::Signed(i)) => Some(i),
            JsonModel::Number(JsonNumber::Unsigned(u)) => if u <= i64::MAX {
                Some(u as i64)
            } else {
                None
            },
            _ => None,
        },
;

/// `Value::as_str` hands out the text of a `Value::String`, and nothing of any
/// other value.
pub assume_specification<'a>[ serde_json::Value::as_str ](v: &'a serde_json::Value) -> (r: Option<
    &'a str,
>)
    ensures
        match r {
            Some(s) => value_model(*v) == JsonModel::String(s@),
            None => !(value_model(*v) is String),
        },
;

/// `Value::as_array` hands out the items of a `Value::Array`, and nothing of
/// any other value.
pub assume_specification<'a>[ serde_json::Value::as_array ](v: &'a serde_json::Value) -> (r: Option<
    &'a Vec<serde_json::Value>,
>)
    ensures
        match r {
            Some(items) => value_model(*v) == JsonModel::Array(
                items@.map_values(|x: serde_json::Value| value_model(x)),
            ),
            None => !(value_model(*v) is Array),
        },
;

/// `Value::as_object` hands out the map of a `Value::Object`, and nothing of
/// any other value.
pub assume_specification<'a>[ serde_json::Value::as_object ](
    v: &'a serde_json::Value,
) -> (r: Option<&'a serde_json::Map<String, serde_json::Value>>)
    ensures
        match r {
            Some(object) => value_model(*v) == JsonModel::Object(map_model(*object)),
            None => !(value_model(*v) is Object),
        },
;

/// Walks a `serde_json::Map` with `Map::iter`. Claimed: the walk hands out
/// every member once, in the order the map keeps them.
#[verifier::external_body]
fn map_members<'a>(object: &'a serde_json::Map<String, serde_json::Value>) -> (r: Vec<
    (&'a String, &'a serde_json::Value),
>)
    ensures
        map_model(*object) == r@.map_values(
            |m: (&String, &serde_json::Value)| (m.0@, value_model(*m.1)),
        ),
{
    object.iter().collect()
}

/// Copies a `serde_json::Value` into a [`Json`] tree, member by member.
pub fn to_json(v: &serde_json::Value) -> (r: Json)
    ensures
        r@ == value_model(*v),
    decreases value_model(*v),
{
    if v.is_null() {
        return Json::Null;
    }
    if let Some(b) = v.as_bool() {
        return Json::Bool(b);
    }
    if let Some(s) = v.as_str() {
        return Json::String(String::from_str(s));
    }
    if let Some(items) = v.as_array() {
        let ghost models = items@.map_values(|x: serde_json::Value| value_model(x));
        let mut out: Vec<Json> = Vec::new();
        let mut i: usize = 0;
        while i < items.len()
            invariant
                i <= items.len(),
                out@.len() == i,
                models == items@.map_values(|x: serde_json::Value| value_model(x)),
                value_model(*v) == JsonModel::Array(models),
                forall|k: int| 0 <= k < i ==> (#[trigger] out@[k])@ == models[k],
            decreases items.len() - i,
        {
            proof {
                assert(value_model(items@[i as int]) == models[i as int]);
                assert(decreases_to!(value_model(*v) => value_model(*v)->Array_0));
                assert(decreases_to!(models => models[i as int]));
            }
            let item = to_json(&items[i]);
            out.push(item);
            i += 1;
        }
        let r = Json::Array(out);
        proof {
            assert(r@->Array_0 =~= models);
        }
        return r;
    }
    if let Some(object) = v.as_object() {
        let members = map_members(object);
        let ghost models = members@.map_values(
            |m: (&String, &serde_json::Value)| (m.0@, value_model(*m.1)),
        );
        let mut out: Vec<JsonEntry> = Vec::new();
        let mut i: usize = 0;
        while i < members.len()
            invariant
                i <= members.len(),
                out@.len() == i,
                models == members@.map_values(
                    |m: (&String, &serde_json::Value)| (m.0@, value_model(*m.1)),
                ),
                value_model(*v) == JsonModel::Object(models),
                forall|k: int|
                    0 <= k < i ==> ((#[trigger] out@[k]).key@, out@[k].value@) == models[k],
            decreases members.len() - i,
        {
            proof {
                assert((members@[i as int].0@, value_model(*members@[i as int].1))
                    == models[i as int]);
                assert(decreases_to!(value_model(*v) => value_model(*v)->Object_0));
                assert(decreases_to!(models => models[i as int]));
                assert(decreases_to!(models[i as int] => models[i as int].1));
            }
            let key = members[i].0.clone();
            let value = to_json(members[i].1);
            out.push(JsonEntry { key, value });
            i += 1;
        }
        let r = Json::Object(out);
        proof {
            assert(r@->Object_0 =~= models);
        }
        return r;
    }
    if let Some(u) = v.as_u64() {
        return Json::Number(JsonNumber::Unsigned(u));
    }
    if let Some(i) = v.as_i64() {
        return Json::Number(JsonNumber::Signed(i));
    }
    Json::Number(JsonNumber::Real)
}

impl From<serde_json::Error> for DeserializationError {
    /// The error that carries the parser's message as it stands.
    fn from(err: serde_json::Error) -> (r: DeserializationError)
        ensures
            r@ == error_message(err),
    {
        DeserializationError::new(error_text(&err).as_str())
    }
}

/// What `from` returns is stated by its own `ensures`: no spec expression
/// makes a `String`, so the conversion follows no spec function.
impl vstd::std_specs::convert::FromSpecImpl<serde_json::Error> for DeserializationError {
    open spec fn obeys_from_spec() -> bool {
        false
    }

    open spec fn from_spec(err: serde_json::Error) -> DeserializationError {
        arbitrary()
    }
}

impl Json {
    /// Reads a JSON text. The result is the value that the parser finds in
    /// the text; where it finds none, the error carries the parser's message
    /// as it stands.
    pub fn parse(text: &str) -> (r: Result<Json, DeserializationError>)
        ensures
            outcome(r) == json_parse(text@),
    {
        match parse_value(text) {
            Ok(v) => Ok(to_json(&v)),
            Err(e) => Err(DeserializationError::from(e)),
        }
    }
}

} // verus!
