//! A JSON value tree and the accessors the schema decoder reads it through.

use crate::error::DeserializationError;
use vstd::prelude::*;
use vstd::string::StringExecFns;

verus! {

/// A JSON number: an integer that fits 64 bits, or any other number.
#[derive(Clone, Copy, Debug, PartialEq, Eq, Structural)]
pub enum JsonNumber {
    /// A non-negative integer.
    Unsigned(u64),
    /// An integer, usually a negative one.
    Signed(i64),
    /// A number written with a fraction or an exponent, or too large for 64 bits.
    Real,
}

impl JsonNumber {
    /// The integer this number stands for, if it is one.
    pub open spec fn value(self) -> Option<int> {
        match self {
            JsonNumber::Unsigned(u) => Some(u as int),
            JsonNumber::Signed(i) => Some(i as int),
            JsonNumber::Real => None,
        }
    }

    /// The number as an `i64`, if it is an integer in that range.
    pub open spec fn signed(self) -> Option<i64> {
        match self.value() {
            Some(v) => if i64::MIN <= v <= i64::MAX {
                Some(v as i64)
            } else {
                None
            },
            None => None,
        }
    }

    /// The number as a `u64`, if it is an integer in that range.
    pub open spec fn unsigned(self) -> Option<u64> {
        match self.value() {
            Some(v) => if 0 <= v <= u64::MAX {
                Some(v as u64)
            } else {
                None
            },
            None => None,
        }
    }

    /// The number as an `i64`, if it is an integer in that range.
    pub fn as_i64(&self) -> (r: Option<i64>)
        ensures
            r == self.signed(),
    {
        match self {
            JsonNumber::Unsigned(u) => if *u <= i64::MAX as u64 {
                Some(*u as i64)
            } else {
                None
            },
            JsonNumber::Signed(i) => Some(*i),
            JsonNumber::Real => None,
        }
    }

    /// The number as a `u64`, if it is an integer in that range.
    pub fn as_u64(&self) -> (r: Option<u64>)
        ensures
            r == self.unsigned(),
    {
        match self {
            JsonNumber::Unsigned(u) => Some(*u),
            JsonNumber::Signed(i) => if *i >= 0 {
                Some(*i as u64)
            } else {
                None
            },
            JsonNumber::Real => None,
        }
    }
}

/// One member of a JSON object.
#[derive(Debug, PartialEq, Eq)]
pub struct JsonEntry {
    pub key: String,
    pub value: Json,
}

/// A JSON value. The members of an object keep the order they were given in.
#[derive(Debug, PartialEq, Eq)]
pub enum Json {
    Null,
    Bool(bool),
    Number(JsonNumber),
    String(String),
    Array(Vec<Json>),
    Object(Vec<JsonEntry>),
}

/// The mathematical value of a [`Json`].
pub enum JsonModel {
    Null,
    Bool(bool),
    Number(JsonNumber),
    String(Seq<char>),
    Array(Seq<JsonModel>),
    Object(Seq<(Seq<char>, JsonModel)>),
}

impl View for Json {
    type V = JsonModel;

    open spec fn view(&self) -> JsonModel
        decreases self,
    {
        match self {
            Json::Null => JsonModel::Null,
            Json::Bool(b) => JsonModel::Bool(*b),
            Json::Number(n) => JsonModel::Number(*n),
            Json::String(s) => JsonModel::String(s@),
            Json::Array(items) => JsonModel::Array(
                Seq::new(
                    items@.len(),
                    |i: int|
                        if 0 <= i < items@.len() {
                            items[i].view()
                        } else {
                            JsonModel::Null
                        },
                ),
            ),
            Json::Object(entries) => JsonModel::Object(
                Seq::new(
                    entries@.len(),
                    |i: int|
                        if 0 <= i < entries@.len() {
                            (entries[i].key@, entries[i].value.view())
                        } else {
                            (Seq::empty(), JsonModel::Null)
                        },
                ),
            ),
        }
    }
}

/// The values of the items of an array, one for one.
pub open spec fn items_view(items: Seq<Json>) -> Seq<JsonModel> {
    Seq::new(items.len(), |i: int| items[i]@)
}

/// The members of an object as pairs of a name and a value.
pub open spec fn members_view(entries: Seq<JsonEntry>) -> Seq<(Seq<char>, JsonModel)> {
    Seq::new(entries.len(), |i: int| (entries[i].key@, entries[i].value@))
}

/// The value of the first member called `name`, if there is one.
pub open spec fn member(members: Seq<(Seq<char>, JsonModel)>, name: Seq<char>) -> Option<
    JsonModel,
>
    decreases members.len(),
{
    if members.len() == 0 {
        None
    } else if members[0].0 == name {
        Some(members[0].1)
    } else {
        member(members.drop_first(), name)
    }
}

impl JsonModel {
    /// The field `name` of an object; nothing for a value that is no object
    /// or has no such member.
    pub open spec fn field(self, name: Seq<char>) -> Option<JsonModel> {
        match self {
            JsonModel::Object(members) => member(members, name),
            _ => None,
        }
    }

    /// The members of the field `name`, where that field is an object.
    pub open spec fn object_field(self, name: Seq<char>) -> Option<Seq<(Seq<char>, JsonModel)>> {
        match self.field(name) {
            Some(JsonModel::Object(members)) => Some(members),
            _ => None,
        }
    }
}

/// The description of the failure to find the object `field_name`.
pub open spec fn cannot_find(field_name: Seq<char>) -> Seq<char> {
    "Cannot find "@ + field_name
}

/// An object's view lists its members as `members_view` does.
pub proof fn lemma_object_view(entries: Vec<JsonEntry>)
    ensures
        Json::Object(entries)@ == JsonModel::Object(members_view(entries@)),
{
    reveal_with_fuel(<Json as View>::view, 2);
    assert(Json::Object(entries)@->Object_0 =~= members_view(entries@));
}

/// What the view of a value is, variant by variant.
pub proof fn lemma_view_variants(value: Json)
    ensures
        match value {
            Json::Null => value@ == JsonModel::Null,
            Json::Bool(b) => value@ == JsonModel::Bool(b),
            Json::Number(n) => value@ == JsonModel::Number(n),
            Json::String(text) => value@ == JsonModel::String(text@),
            Json::Array(items) => value@ == JsonModel::Array(items_view(items@)),
            Json::Object(entries) => value@ == JsonModel::Object(members_view(entries@)),
        },
{
    reveal_with_fuel(<Json as View>::view, 2);
    match value {
        Json::Array(items) => {
            assert(value@->Array_0 =~= items_view(items@));
        },
        Json::Object(entries) => {
            lemma_object_view(entries);
        },
        _ => {},
    }
}

impl Json {
    /// Whether this value is the boolean `true` and nothing else.
    pub fn is_true(&self) -> (r: bool)
        ensures
            r == (self@ == JsonModel::Bool(true)),
    {
        proof {
            lemma_view_variants(*self);
        }
        match self {
            Json::Bool(b) => *b,
            _ => false,
        }
    }

    /// The text of this value, where it is a string.
    pub fn as_str(&self) -> (r: Option<&str>)
        ensures
            match r {
                Some(text) => self@ == JsonModel::String(text@),
                None => !(self@ is String),
            },
    {
        proof {
            lemma_view_variants(*self);
        }
        match self {
            Json::String(text) => Some(text.as_str()),
            _ => None,
        }
    }

    /// Looks up the field `name`: the value of the first member of that
    /// name, where `self` is an object that has one.
    pub fn get(&self, name: &str) -> (r: Option<&Json>)
        ensures
            match r {
                Some(value) => self@.field(name@) == Some(value@),
                None => self@.field(name@) is None,
            },
    {
        match self {
            Json::Object(entries) => {
                proof {
                    lemma_object_view(*entries);
                }
                let wanted = String::from_str(name);
                let ghost members = members_view(entries@);
                let mut i: usize = 0;
                proof {
                    assert(members.skip(0) =~= members);
                }
                while i < entries.len()
                    invariant
                        i <= entries.len(),
                        wanted@ == name@,
                        members == members_view(entries@),
                        self@ == JsonModel::Object(members),
                        member(members, name@) == member(members.skip(i as int), name@),
                    decreases entries.len() - i,
                {
                    proof {
                        assert(members.skip(i as int).drop_first() =~= members.skip(i as int + 1));
                    }
                    if entries[i].key == wanted {
                        proof {
                            assert(members.skip(i as int)[0] == members[i as int]);
                        }
                        return Some(&entries[i].value);
                    }
                    i += 1;
                }
                None
            },
            _ => None,
        }
    }
}

/// Takes the field `field_name` of `value` as an object and hands out its
/// members. Where the field is missing or is no object, the error says
/// "Cannot find" and the field's name.
pub fn get_required_object<'a>(value: &'a Json, field_name: &str) -> (r: Result<
    &'a Vec<JsonEntry>,
    DeserializationError,
>)
    ensures
        match value@.object_field(field_name@) {
            Some(members) => r is Ok && members_view(r->Ok_0@) == members,
            None => r is Err && r->Err_0@ == cannot_find(field_name@),
        },
{
    match value.get(field_name) {
        Some(Json::Object(entries)) => {
            proof {
                lemma_object_view(*entries);
            }
            Ok(entries)
        },
        _ => {
            let description = String::from_str("Cannot find ").concat(field_name);
            Err(DeserializationError::new(description.as_str()))
        },
    }
}

} // verus!
