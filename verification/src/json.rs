//! An owned JSON document model: what the server sends to and reads from the
//! GraphQL endpoint and the MCP client.

use vstd::prelude::*;
use crate::text::{owned, str_eq};

verus! {

/// A JSON number as it was written: an integer that fits `i64`, a larger
/// non-negative integer, or any other number kept by its text.
#[derive(Debug, PartialEq)]
pub enum JsonNumber {
    Int(i64),
    UInt(u64),
    Float(String),
}

/// A JSON value. Object members keep their order.
#[derive(Debug, PartialEq)]
pub enum JsonValue {
    Null,
    Bool(bool),
    Number(JsonNumber),
    Str(String),
    Array(Vec<JsonValue>),
    Object(Vec<(String, JsonValue)>),
}

/// The mathematical form of a [`JsonNumber`].
pub enum NumberModel {
    Int(i64),
    UInt(u64),
    Float(Seq<char>),
}

/// The mathematical form of a [`JsonValue`]: strings as character sequences,
/// arrays and objects as sequences.
pub enum JsonModel {
    Null,
    Bool(bool),
    Number(NumberModel),
    Str(Seq<char>),
    Array(Seq<JsonModel>),
    Object(Seq<(Seq<char>, JsonModel)>),
}

impl JsonNumber {
    pub open spec fn model(&self) -> NumberModel {
        match self {
            JsonNumber::Int(i) => NumberModel::Int(*i),
            JsonNumber::UInt(u) => NumberModel::UInt(*u),
            JsonNumber::Float(t) => NumberModel::Float(t@),
        }
    }
}

impl JsonValue {
    pub open spec fn model(&self) -> JsonModel
        decreases self,
    {
        match self {
            JsonValue::Null => JsonModel::Null,
            JsonValue::Bool(b) => JsonModel::Bool(*b),
            JsonValue::Number(n) => JsonModel::Number(n.model()),
            JsonValue::Str(s) => JsonModel::Str(s@),
            JsonValue::Array(items) => JsonModel::Array(
                Seq::new(
                    items@.len(),
                    |i: int|
                        if 0 <= i < items@.len() {
                            items@[i].model()
                        } else {
                            JsonModel::Null
                        },
                ),
            ),
            JsonValue::Object(entries) => JsonModel::Object(
                Seq::new(
                    entries@.len(),
                    |i: int|
                        if 0 <= i < entries@.len() {
                            (entries@[i].0@, entries@[i].1.model())
                        } else {
                            (Seq::empty(), JsonModel::Null)
                        },
                ),
            ),
        }
    }
}

/// The models of a list of values.
pub open spec fn items_model(items: Seq<JsonValue>) -> Seq<JsonModel> {
    Seq::new(items.len(), |i: int| items[i].model())
}

/// The models of a list of object members.
pub open spec fn entries_model(entries: Seq<(String, JsonValue)>) -> Seq<(Seq<char>, JsonModel)> {
    Seq::new(entries.len(), |i: int| (entries[i].0@, entries[i].1.model()))
}

pub proof fn lemma_model_array(items: Vec<JsonValue>)
    ensures
        JsonValue::Array(items).model() == JsonModel::Array(items_model(items@)),
{
    assert(JsonValue::Array(items).model()->Array_0 =~= items_model(items@));
}

pub proof fn lemma_model_object(entries: Vec<(String, JsonValue)>)
    ensures
        JsonValue::Object(entries).model() == JsonModel::Object(entries_model(entries@)),
{
    assert(JsonValue::Object(entries).model()->Object_0 =~= entries_model(entries@));
}

/// The value of the first member named `k`.
pub open spec fn member(entries: Seq<(Seq<char>, JsonModel)>, k: Seq<char>) -> Option<JsonModel>
    decreases entries.len(),
{
    if entries.len() == 0 {
        None
    } else if entries[0].0 == k {
        Some(entries[0].1)
    } else {
        member(entries.drop_first(), k)
    }
}

/// The position of the first member named `k`.
pub open spec fn member_index(entries: Seq<(Seq<char>, JsonModel)>, k: Seq<char>) -> Option<int>
    decreases entries.len(),
{
    if entries.len() == 0 {
        None
    } else if entries[0].0 == k {
        Some(0)
    } else {
        match member_index(entries.drop_first(), k) {
            Some(i) => Some(i + 1),
            None => None,
        }
    }
}

pub proof fn lemma_member_at(entries: Seq<(Seq<char>, JsonModel)>, k: Seq<char>, i: int)
    requires
        0 <= i < entries.len(),
        entries[i].0 == k,
        forall|j: int| 0 <= j < i ==> entries[j].0 != k,
    ensures
        member(entries, k) == Some(entries[i].1),
        member_index(entries, k) == Some(i),
    decreases i,
{
    if i > 0 {
        lemma_member_at(entries.drop_first(), k, i - 1);
    }
}

pub proof fn lemma_member_none(entries: Seq<(Seq<char>, JsonModel)>, k: Seq<char>)
    requires
        forall|j: int| 0 <= j < entries.len() ==> entries[j].0 != k,
    ensures
        member(entries, k) is None,
        member_index(entries, k) is None,
    decreases entries.len(),
{
    if entries.len() > 0 {
        lemma_member_none(entries.drop_first(), k);
    }
}

/// The value of field `k` of an object; `None` for a missing field or a value
/// that is not an object (as `Value::get` gives it).
pub open spec fn field(v: JsonModel, k: Seq<char>) -> Option<JsonModel> {
    match v {
        JsonModel::Object(entries) => member(entries, k),
        _ => None,
    }
}

/// The text of a string value.
pub open spec fn str_of(v: JsonModel) -> Option<Seq<char>> {
    match v {
        JsonModel::Str(s) => Some(s),
        _ => None,
    }
}

/// The value of a number that fits `i64` (as `Value::as_i64` gives it).
pub open spec fn i64_of(v: JsonModel) -> Option<i64> {
    match v {
        JsonModel::Number(NumberModel::Int(i)) => Some(i),
        _ => None,
    }
}

/// The value of a boolean.
pub open spec fn bool_of(v: JsonModel) -> Option<bool> {
    match v {
        JsonModel::Bool(b) => Some(b),
        _ => None,
    }
}

/// A string value.
pub open spec fn jstr(s: Seq<char>) -> JsonModel {
    JsonModel::Str(s)
}

/// An integer value.
pub open spec fn jint(i: i64) -> JsonModel {
    JsonModel::Number(NumberModel::Int(i))
}

impl JsonValue {
    /// A string value with the characters of `s`.
    pub fn string(s: &str) -> (r: JsonValue)
        ensures
            r.model() == jstr(s@),
    {
        JsonValue::Str(owned(s))
    }

    /// An integer value.
    pub fn integer(i: i64) -> (r: JsonValue)
        ensures
            r.model() == jint(i),
    {
        JsonValue::Number(JsonNumber::Int(i))
    }

    /// A boolean value.
    pub fn boolean(b: bool) -> (r: JsonValue)
        ensures
            r.model() == JsonModel::Bool(b),
    {
        JsonValue::Bool(b)
    }

    /// An object with the given members, in order.
    pub fn object(entries: Vec<(String, JsonValue)>) -> (r: JsonValue)
        ensures
            r.model() == JsonModel::Object(entries_model(entries@)),
    {
        proof {
            lemma_model_object(entries);
        }
        JsonValue::Object(entries)
    }

    /// An array of string values.
    pub fn string_array(items: &[String]) -> (r: JsonValue)
        ensures
            r.model() == JsonModel::Array(Seq::new(items@.len(), |i: int| jstr(items@[i]@))),
    {
        let mut out: Vec<JsonValue> = Vec::new();
        let mut i: usize = 0;
        while i < items.len()
            invariant
                i <= items@.len(),
                out@.len() == i,
                forall|j: int| 0 <= j < i ==> (#[trigger] out@[j]).model() == jstr(items@[j]@),
            decreases items@.len() - i,
        {
            out.push(JsonValue::Str(items[i].clone()));
            i += 1;
        }
        proof {
            lemma_model_array(out);
            assert(items_model(out@) =~= Seq::new(items@.len(), |i: int| jstr(items@[i]@)));
        }
        JsonValue::Array(out)
    }

    /// The members of an object, or `None` for another value.
    pub fn as_object(&self) -> (r: Option<&Vec<(String, JsonValue)>>)
        ensures
            r matches Some(e) ==> self.model() == JsonModel::Object(entries_model(e@)) && *self == JsonValue::Object(*e),
            r is None ==> !(self.model() is Object),
    {
        match self {
            JsonValue::Object(entries) => {
                proof {
                    lemma_model_object(*entries);
                }
                Some(entries)
            },
            _ => None,
        }
    }

    /// The elements of an array, or `None` for another value.
    pub fn as_array(&self) -> (r: Option<&Vec<JsonValue>>)
        ensures
            r matches Some(items) ==> self.model() == JsonModel::Array(items_model(items@)) && *self == JsonValue::Array(*items),
            r is None ==> !(self.model() is Array),
    {
        match self {
            JsonValue::Array(items) => {
                proof {
                    lemma_model_array(*items);
                }
                Some(items)
            },
            _ => None,
        }
    }

    /// Whether the value is an array.
    pub fn is_array(&self) -> (r: bool)
        ensures
            r == (self.model() is Array),
    {
        self.as_array().is_some()
    }

    /// Whether the value is `null`.
    pub fn is_null(&self) -> (r: bool)
        ensures
            r == (self.model() is Null),
    {
        match self {
            JsonValue::Null => true,
            _ => false,
        }
    }

    /// The text of a string value.
    pub fn as_str(&self) -> (r: Option<&str>)
        ensures
            r matches Some(s) ==> str_of(self.model()) == Some(s@),
            r is None ==> str_of(self.model()) is None,
    {
        match self {
            JsonValue::Str(s) => Some(s.as_str()),
            _ => None,
        }
    }

    /// The value of a number that fits `i64`.
    pub fn as_i64(&self) -> (r: Option<i64>)
        ensures
            r == i64_of(self.model()),
    {
        match self {
            JsonValue::Number(JsonNumber::Int(i)) => Some(*i),
            _ => None,
        }
    }

    /// The value of a boolean.
    pub fn as_bool(&self) -> (r: Option<bool>)
        ensures
            r == bool_of(self.model()),
    {
        match self {
            JsonValue::Bool(b) => Some(*b),
            _ => None,
        }
    }

    /// The position of field `key` among the members of an object.
    fn field_index(&self, key: &str) -> (r: Option<usize>)
        ensures
            r matches Some(i) ==> self matches JsonValue::Object(e) && i < e@.len() && field(
                self.model(),
                key@,
            ) == Some(e@[i as int].1.model()),
            r is None ==> field(self.model(), key@) is None,
    {
        match self.as_object() {
            Some(entries) => {
                let ghost em = entries_model(entries@);
                let mut i: usize = 0;
                while i < entries.len()
                    invariant
                        i <= entries@.len(),
                        em == entries_model(entries@),
                        *self == JsonValue::Object(*entries),
                        field(self.model(), key@) == member(em, key@),
                        forall|j: int| 0 <= j < i ==> em[j].0 != key@,
                    decreases entries@.len() - i,
                {
                    if str_eq(entries[i].0.as_str(), key) {
                        proof {
                            lemma_member_at(em, key@, i as int);
                            assert(em[i as int].1 == entries@[i as int].1.model());
                        }
                        return Some(i);
                    }
                    i += 1;
                }
                proof {
                    lemma_member_none(em, key@);
                }
                None
            },
            None => None,
        }
    }

    /// The value of field `key` of an object.
    pub fn get(&self, key: &str) -> (r: Option<&JsonValue>)
        ensures
            r matches Some(v) ==> field(self.model(), key@) == Some(v.model()),
            r is None ==> field(self.model(), key@) is None,
    {
        match self.field_index(key) {
            Some(i) => match self {
                JsonValue::Object(entries) => Some(&entries[i].1),
                _ => None,
            },
            None => None,
        }
    }

    /// Moves field `key` out of an object.
    pub fn take_field(self, key: &str) -> (r: Option<JsonValue>)
        ensures
            r matches Some(v) ==> field(self.model(), key@) == Some(v.model()),
            r is None ==> field(self.model(), key@) is None,
    {
        match self.field_index(key) {
            Some(i) => match self {
                JsonValue::Object(mut entries) => {
                    let (_, v) = entries.remove(i);
                    Some(v)
                },
                _ => None,
            },
            None => None,
        }
    }
}

// ── JSON text ───────────────────────────────────────────────────────────────

/// Declares `serde_json::Value` to Verus as an opaque type, so that the
/// converters between it and [`JsonValue`] can name it; nothing inside it is
/// read by verified code.
#[verifier::external_type_specification]
#[verifier::external_body]
pub struct ExSerdeValue(serde_json::Value);

/// What `serde_json::from_slice` reads from `bytes` as a JSON value, by its
/// model; `None` when the bytes are not one JSON text (the grammar, number
/// handling and duplicate-key handling of serde_json; a function of the bytes
/// alone).
pub uninterp spec fn parsed_json(bytes: Seq<u8>) -> Option<JsonModel>;

/// The bytes `serde_json::to_vec` writes for the value with model `v` (a
/// function of the model alone).
pub uninterp spec fn json_text(v: JsonModel) -> Seq<u8>;

/// A `serde_json::Value` as a [`JsonValue`], one for one: variant by
/// variant, object members in the order serde_json yields them, a number as
/// `i64` when it fits, else as `u64`, else by its text. Trusted, no contract;
/// only [`parse_json`] calls it.
#[verifier::external_body]
fn from_serde(v: serde_json::Value) -> JsonValue {
    match v {
        serde_json::Value::Null => JsonValue::Null,
        serde_json::Value::Bool(b) => JsonValue::Bool(b),
        serde_json::Value::Number(n) => JsonValue::Number(
            n.as_i64().map(JsonNumber::Int).or(n.as_u64().map(JsonNumber::UInt)).unwrap_or_else(|| JsonNumber::Float(n.to_string())),
        ),
        serde_json::Value::String(s) => JsonValue::Str(s),
        serde_json::Value::Array(a) => JsonValue::Array(a.into_iter().map(from_serde).collect()),
        serde_json::Value::Object(m) => JsonValue::Object(m.into_iter().map(|(k, x)| (k, from_serde(x))).collect()),
    }
}

/// A [`JsonValue`] as a `serde_json::Value`, one for one (a number kept by its
/// text is read back by `serde_json::from_str`, `null` if that fails).
/// Trusted, no contract; only [`json_bytes`] calls it.
#[verifier::external_body]
fn to_serde(v: &JsonValue) -> serde_json::Value {
    match v {
        JsonValue::Null => serde_json::Value::Null,
        JsonValue::Bool(b) => serde_json::Value::Bool(*b),
        JsonValue::Number(JsonNumber::Int(i)) => serde_json::Value::from(*i),
        JsonValue::Number(JsonNumber::UInt(u)) => serde_json::Value::from(*u),
        JsonValue::Number(JsonNumber::Float(t)) => serde_json::from_str(t).unwrap_or(serde_json::Value::Null),
        JsonValue::Str(s) => serde_json::Value::String(s.clone()),
        JsonValue::Array(a) => serde_json::Value::Array(a.iter().map(to_serde).collect()),
        JsonValue::Object(m) => serde_json::Value::Object(m.iter().map(|(k, x)| (k.clone(), to_serde(x))).collect()),
    }
}

/// Parses JSON text by `serde_json::from_slice` into a `serde_json::Value`,
/// converted to a [`JsonValue`]. Trusted, not proved: the contract claims that
/// the result is [`parsed_json`] of the bytes, by its model (`None` exactly
/// when serde_json refuses them); what serde_json accepts is not written out.
#[verifier::external_body]
pub(crate) fn parse_json(bytes: &[u8]) -> (r: Option<JsonValue>)
    ensures
        match r {
            Some(v) => parsed_json(bytes@) == Some(v.model()),
            None => parsed_json(bytes@) is None,
        },
{
    serde_json::from_slice::<serde_json::Value>(bytes).ok().map(from_serde)
}

/// Writes a value as compact JSON text by `serde_json::to_vec`. Trusted, not
/// proved: the contract claims that the bytes are [`json_text`] of the value's
/// model. Writing a `serde_json::Value` cannot fail (its keys are strings and
/// its `Serialize` never errs), so the empty fallback is never taken.
#[verifier::external_body]
pub(crate) fn json_bytes(v: &JsonValue) -> (r: Vec<u8>)
    ensures
        r@ == json_text(v.model()),
{
    serde_json::to_vec(&to_serde(v)).unwrap_or_default()
}

} // verus!
